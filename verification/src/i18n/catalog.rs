//! The message catalog: each known key with its text in every supported locale.

use vstd::prelude::*;
use crate::text::str_eq;
use super::template::{placeholder_count, placeholders_from};

verus! {

/// The texts of `key` in English, Traditional Chinese and Simplified Chinese,
/// when the catalog knows the key.
pub open spec fn catalog(key: Seq<char>) -> Option<(Seq<char>, Seq<char>, Seq<char>)> {
    if key == "app.name"@ {
        Some(("MiniBot MVP"@, "MiniBot MVP"@, "MiniBot MVP"@))
    } else if key == "app.starting_agent"@ {
        Some(("Starting MiniBot Agent..."@, "正在啟動 MiniBot Agent..."@, "正在启动 MiniBot Agent..."@))
    } else if key == "app.starting_gateway"@ {
        Some(("Starting Gateway at {}:{}"@, "正在啟動閘道器 {}:{}"@, "正在启动网关 {}:{}"@))
    } else if key == "app.version"@ {
        Some(("MiniBot MVP v{}"@, "MiniBot MVP 第 {} 版"@, "MiniBot MVP 第 {} 版"@))
    } else if key == "app.config_dir"@ {
        Some(("Configuration directory"@, "配置目錄"@, "配置目录"@))
    } else if key == "agent.started"@ {
        Some(("MiniBot Agent started. Type 'exit' to quit."@, "MiniBot Agent 已啟動。輸入 'exit' 結束。"@, "MiniBot Agent 已启动。输入 'exit' 结束。"@))
    } else if key == "agent.exit_hint"@ {
        Some(("Type 'exit' to quit."@, "輸入 'exit' 結束。"@, "输入 'exit' 结束。"@))
    } else if key == "agent.response"@ {
        Some(("{}"@, "{}"@, "{}"@))
    } else if key == "agent.max_time_exceeded"@ {
        Some(("Max execution time ({}) exceeded"@, "已超過最大執行時間 ({}) 秒"@, "已超过最大执行时间 ({}) 秒"@))
    } else if key == "agent.max_iterations_exceeded"@ {
        Some(("Max tool iterations ({}) exceeded"@, "已超過最大工具迭代次數 ({})"@, "已超过最大工具迭代次数 ({})"@))
    } else if key == "error.prefix"@ {
        Some(("Error: {}"@, "錯誤：{}"@, "错误：{}"@))
    } else if key == "error.provider_init"@ {
        Some(("Failed to initialize provider: {}"@, "供應商初始化失敗：{}"@, "供应商初始化失败：{}"@))
    } else if key == "error.agent_run"@ {
        Some(("Agent run failed: {}"@, "Agent 執行失敗：{}"@, "Agent 执行失败：{}"@))
    } else if key == "error.memory_init"@ {
        Some(("Failed to initialize memory: {}"@, "記憶體初始化失敗：{}"@, "记忆体初始化失败：{}"@))
    } else if key == "error.config_load"@ {
        Some(("Failed to load configuration: {}"@, "載入配置失敗：{}"@, "加载配置失败：{}"@))
    } else if key == "gateway.listening"@ {
        Some(("Gateway server listening on {}"@, "閘道器服務正在監聽 {}"@, "网关服务正在监听 {}"@))
    } else if key == "gateway.webhook_received"@ {
        Some(("Received webhook request: {}"@, "收到 Webhook 請求：{}"@, "收到 Webhook 请求：{}"@))
    } else if key == "gateway.agent_response"@ {
        Some(("Agent response: {}"@, "Agent 回應：{}"@, "Agent 回应：{}"@))
    } else if key == "gateway.agent_error"@ {
        Some(("Agent error: {}"@, "Agent 錯誤：{}"@, "Agent 错误：{}"@))
    } else {
        None
    }
}

/// Looks `key` up in the catalog.
pub fn catalog_entry(key: &str) -> (r: Option<(&'static str, &'static str, &'static str)>)
    ensures
        match r {
            Some(t) => catalog(key@) == Some((t.0@, t.1@, t.2@)),
            None => catalog(key@) is None,
        },
{
    if str_eq(key, "app.name") {
        Some(("MiniBot MVP", "MiniBot MVP", "MiniBot MVP"))
    } else if str_eq(key, "app.starting_agent") {
        Some(("Starting MiniBot Agent...", "正在啟動 MiniBot Agent...", "正在启动 MiniBot Agent..."))
    } else if str_eq(key, "app.starting_gateway") {
        Some(("Starting Gateway at {}:{}", "正在啟動閘道器 {}:{}", "正在启动网关 {}:{}"))
    } else if str_eq(key, "app.version") {
        Some(("MiniBot MVP v{}", "MiniBot MVP 第 {} 版", "MiniBot MVP 第 {} 版"))
    } else if str_eq(key, "app.config_dir") {
        Some(("Configuration directory", "配置目錄", "配置目录"))
    } else if str_eq(key, "agent.started") {
        Some(("MiniBot Agent started. Type 'exit' to quit.", "MiniBot Agent 已啟動。輸入 'exit' 結束。", "MiniBot Agent 已启动。输入 'exit' 结束。"))
    } else if str_eq(key, "agent.exit_hint") {
        Some(("Type 'exit' to quit.", "輸入 'exit' 結束。", "输入 'exit' 结束。"))
    } else if str_eq(key, "agent.response") {
        Some(("{}", "{}", "{}"))
    } else if str_eq(key, "agent.max_time_exceeded") {
        Some(("Max execution time ({}) exceeded", "已超過最大執行時間 ({}) 秒", "已超过最大执行时间 ({}) 秒"))
    } else if str_eq(key, "agent.max_iterations_exceeded") {
        Some(("Max tool iterations ({}) exceeded", "已超過最大工具迭代次數 ({})", "已超过最大工具迭代次数 ({})"))
    } else if str_eq(key, "error.prefix") {
        Some(("Error: {}", "錯誤：{}", "错误：{}"))
    } else if str_eq(key, "error.provider_init") {
        Some(("Failed to initialize provider: {}", "供應商初始化失敗：{}", "供应商初始化失败：{}"))
    } else if str_eq(key, "error.agent_run") {
        Some(("Agent run failed: {}", "Agent 執行失敗：{}", "Agent 执行失败：{}"))
    } else if str_eq(key, "error.memory_init") {
        Some(("Failed to initialize memory: {}", "記憶體初始化失敗：{}", "记忆体初始化失败：{}"))
    } else if str_eq(key, "error.config_load") {
        Some(("Failed to load configuration: {}", "載入配置失敗：{}", "加载配置失败：{}"))
    } else if str_eq(key, "gateway.listening") {
        Some(("Gateway server listening on {}", "閘道器服務正在監聽 {}", "网关服务正在监听 {}"))
    } else if str_eq(key, "gateway.webhook_received") {
        Some(("Received webhook request: {}", "收到 Webhook 請求：{}", "收到 Webhook 请求：{}"))
    } else if str_eq(key, "gateway.agent_response") {
        Some(("Agent response: {}", "Agent 回應：{}", "Agent 回应：{}"))
    } else if str_eq(key, "gateway.agent_error") {
        Some(("Agent error: {}", "Agent 錯誤：{}", "Agent 错误：{}"))
    } else {
        None
    }
}

/// The texts of an entry differ from its key, and every locale's text holds
/// as many placeholders as the English one.
pub open spec fn entry_consistent(key: Seq<char>, texts: (Seq<char>, Seq<char>, Seq<char>)) -> bool {
    &&& texts.0 != key
    &&& texts.1 != key
    &&& texts.2 != key
    &&& placeholder_count(texts.1) == placeholder_count(texts.0)
    &&& placeholder_count(texts.2) == placeholder_count(texts.0)
}

/// The entry for `app.name` is consistent.
proof fn lemma_entry_0()
    ensures
        entry_consistent("app.name"@, ("MiniBot MVP"@, "MiniBot MVP"@, "MiniBot MVP"@)),
{
    reveal_strlit("app.name");
    reveal_strlit("MiniBot MVP");
    reveal_with_fuel(placeholders_from, 13);
    assert("app.name"@.len() == 8);
    assert("MiniBot MVP"@.len() == 11);
}

/// The entry for `app.starting_agent` is consistent.
proof fn lemma_entry_1()
    ensures
        entry_consistent("app.starting_agent"@, ("Starting MiniBot Agent..."@, "正在啟動 MiniBot Agent..."@, "正在启动 MiniBot Agent..."@)),
{
    reveal_strlit("app.starting_agent");
    reveal_strlit("Starting MiniBot Agent...");
    reveal_strlit("正在啟動 MiniBot Agent...");
    reveal_strlit("正在启动 MiniBot Agent...");
    reveal_with_fuel(placeholders_from, 27);
    assert("app.starting_agent"@.len() == 18);
    assert("Starting MiniBot Agent..."@.len() == 25);
    assert("正在啟動 MiniBot Agent..."@.len() == 21);
    assert("正在启动 MiniBot Agent..."@.len() == 21);
}

/// The entry for `app.starting_gateway` is consistent.
proof fn lemma_entry_2()
    ensures
        entry_consistent("app.starting_gateway"@, ("Starting Gateway at {}:{}"@, "正在啟動閘道器 {}:{}"@, "正在启动网关 {}:{}"@)),
{
    reveal_strlit("app.starting_gateway");
    reveal_strlit("Starting Gateway at {}:{}");
    reveal_strlit("正在啟動閘道器 {}:{}");
    reveal_strlit("正在启动网关 {}:{}");
    reveal_with_fuel(placeholders_from, 27);
    assert("app.starting_gateway"@.len() == 20);
    assert("Starting Gateway at {}:{}"@.len() == 25);
    assert("正在啟動閘道器 {}:{}"@.len() == 13);
    assert("正在启动网关 {}:{}"@.len() == 12);
}

/// The entry for `app.version` is consistent.
proof fn lemma_entry_3()
    ensures
        entry_consistent("app.version"@, ("MiniBot MVP v{}"@, "MiniBot MVP 第 {} 版"@, "MiniBot MVP 第 {} 版"@)),
{
    reveal_strlit("app.version");
    reveal_strlit("MiniBot MVP v{}");
    reveal_strlit("MiniBot MVP 第 {} 版");
    reveal_with_fuel(placeholders_from, 20);
    assert("app.version"@.len() == 11);
    assert("MiniBot MVP v{}"@.len() == 15);
    assert("MiniBot MVP 第 {} 版"@.len() == 18);
}

/// The entry for `app.config_dir` is consistent.
proof fn lemma_entry_4()
    ensures
        entry_consistent("app.config_dir"@, ("Configuration directory"@, "配置目錄"@, "配置目录"@)),
{
    reveal_strlit("app.config_dir");
    reveal_strlit("Configuration directory");
    reveal_strlit("配置目錄");
    reveal_strlit("配置目录");
    reveal_with_fuel(placeholders_from, 25);
    assert("app.config_dir"@.len() == 14);
    assert("Configuration directory"@.len() == 23);
    assert("配置目錄"@.len() == 4);
    assert("配置目录"@.len() == 4);
}

/// The entry for `agent.started` is consistent.
proof fn lemma_entry_5()
    ensures
        entry_consistent("agent.started"@, ("MiniBot Agent started. Type 'exit' to quit."@, "MiniBot Agent 已啟動。輸入 'exit' 結束。"@, "MiniBot Agent 已启动。输入 'exit' 结束。"@)),
{
    reveal_strlit("agent.started");
    reveal_strlit("MiniBot Agent started. Type 'exit' to quit.");
    reveal_strlit("MiniBot Agent 已啟動。輸入 'exit' 結束。");
    reveal_strlit("MiniBot Agent 已启动。输入 'exit' 结束。");
    reveal_with_fuel(placeholders_from, 45);
    assert("agent.started"@.len() == 13);
    assert("MiniBot Agent started. Type 'exit' to quit."@.len() == 43);
    assert("MiniBot Agent 已啟動。輸入 'exit' 結束。"@.len() == 31);
    assert("MiniBot Agent 已启动。输入 'exit' 结束。"@.len() == 31);
}

/// The entry for `agent.exit_hint` is consistent.
proof fn lemma_entry_6()
    ensures
        entry_consistent("agent.exit_hint"@, ("Type 'exit' to quit."@, "輸入 'exit' 結束。"@, "输入 'exit' 结束。"@)),
{
    reveal_strlit("agent.exit_hint");
    reveal_strlit("Type 'exit' to quit.");
    reveal_strlit("輸入 'exit' 結束。");
    reveal_strlit("输入 'exit' 结束。");
    reveal_with_fuel(placeholders_from, 22);
    assert("agent.exit_hint"@.len() == 15);
    assert("Type 'exit' to quit."@.len() == 20);
    assert("輸入 'exit' 結束。"@.len() == 13);
    assert("输入 'exit' 结束。"@.len() == 13);
}

/// The entry for `agent.response` is consistent.
proof fn lemma_entry_7()
    ensures
        entry_consistent("agent.response"@, ("{}"@, "{}"@, "{}"@)),
{
    reveal_strlit("agent.response");
    reveal_strlit("{}");
    reveal_with_fuel(placeholders_from, 16);
    assert("agent.response"@.len() == 14);
    assert("{}"@.len() == 2);
}

/// The entry for `agent.max_time_exceeded` is consistent.
proof fn lemma_entry_8()
    ensures
        entry_consistent("agent.max_time_exceeded"@, ("Max execution time ({}) exceeded"@, "已超過最大執行時間 ({}) 秒"@, "已超过最大执行时间 ({}) 秒"@)),
{
    reveal_strlit("agent.max_time_exceeded");
    reveal_strlit("Max execution time ({}) exceeded");
    reveal_strlit("已超過最大執行時間 ({}) 秒");
    reveal_strlit("已超过最大执行时间 ({}) 秒");
    reveal_with_fuel(placeholders_from, 34);
    assert("agent.max_time_exceeded"@.len() == 23);
    assert("Max execution time ({}) exceeded"@.len() == 32);
    assert("已超過最大執行時間 ({}) 秒"@.len() == 16);
    assert("已超过最大执行时间 ({}) 秒"@.len() == 16);
}

/// The entry for `agent.max_iterations_exceeded` is consistent.
proof fn lemma_entry_9()
    ensures
        entry_consistent("agent.max_iterations_exceeded"@, ("Max tool iterations ({}) exceeded"@, "已超過最大工具迭代次數 ({})"@, "已超过最大工具迭代次数 ({})"@)),
{
    reveal_strlit("agent.max_iterations_exceeded");
    reveal_strlit("Max tool iterations ({}) exceeded");
    reveal_strlit("已超過最大工具迭代次數 ({})");
    reveal_strlit("已超过最大工具迭代次数 ({})");
    reveal_with_fuel(placeholders_from, 35);
    assert("agent.max_iterations_exceeded"@.len() == 29);
    assert("Max tool iterations ({}) exceeded"@.len() == 33);
    assert("已超過最大工具迭代次數 ({})"@.len() == 16);
    assert("已超过最大工具迭代次数 ({})"@.len() == 16);
}

/// The entry for `error.prefix` is consistent.
proof fn lemma_entry_10()
    ensures
        entry_consistent("error.prefix"@, ("Error: {}"@, "錯誤：{}"@, "错误：{}"@)),
{
    reveal_strlit("error.prefix");
    reveal_strlit("Error: {}");
    reveal_strlit("錯誤：{}");
    reveal_strlit("错误：{}");
    reveal_with_fuel(placeholders_from, 14);
    assert("error.prefix"@.len() == 12);
    assert("Error: {}"@.len() == 9);
    assert("錯誤：{}"@.len() == 5);
    assert("错误：{}"@.len() == 5);
}

/// The entry for `error.provider_init` is consistent.
proof fn lemma_entry_11()
    ensures
        entry_consistent("error.provider_init"@, ("Failed to initialize provider: {}"@, "供應商初始化失敗：{}"@, "供应商初始化失败：{}"@)),
{
    reveal_strlit("error.provider_init");
    reveal_strlit("Failed to initialize provider: {}");
    reveal_strlit("供應商初始化失敗：{}");
    reveal_strlit("供应商初始化失败：{}");
    reveal_with_fuel(placeholders_from, 35);
    assert("error.provider_init"@.len() == 19);
    assert("Failed to initialize provider: {}"@.len() == 33);
    assert("供應商初始化失敗：{}"@.len() == 11);
    assert("供应商初始化失败：{}"@.len() == 11);
}

/// The entry for `error.agent_run` is consistent.
proof fn lemma_entry_12()
    ensures
        entry_consistent("error.agent_run"@, ("Agent run failed: {}"@, "Agent 執行失敗：{}"@, "Agent 执行失败：{}"@)),
{
    reveal_strlit("error.agent_run");
    reveal_strlit("Agent run failed: {}");
    reveal_strlit("Agent 執行失敗：{}");
    reveal_strlit("Agent 执行失败：{}");
    reveal_with_fuel(placeholders_from, 22);
    assert("error.agent_run"@.len() == 15);
    assert("Agent run failed: {}"@.len() == 20);
    assert("Agent 執行失敗：{}"@.len() == 13);
    assert("Agent 执行失败：{}"@.len() == 13);
}

/// The entry for `error.memory_init` is consistent.
proof fn lemma_entry_13()
    ensures
        entry_consistent("error.memory_init"@, ("Failed to initialize memory: {}"@, "記憶體初始化失敗：{}"@, "记忆体初始化失败：{}"@)),
{
    reveal_strlit("error.memory_init");
    reveal_strlit("Failed to initialize memory: {}");
    reveal_strlit("記憶體初始化失敗：{}");
    reveal_strlit("记忆体初始化失败：{}");
    reveal_with_fuel(placeholders_from, 33);
    assert("error.memory_init"@.len() == 17);
    assert("Failed to initialize memory: {}"@.len() == 31);
    assert("記憶體初始化失敗：{}"@.len() == 11);
    assert("记忆体初始化失败：{}"@.len() == 11);
}

/// The entry for `error.config_load` is consistent.
proof fn lemma_entry_14()
    ensures
        entry_consistent("error.config_load"@, ("Failed to load configuration: {}"@, "載入配置失敗：{}"@, "加载配置失败：{}"@)),
{
    reveal_strlit("error.config_load");
    reveal_strlit("Failed to load configuration: {}");
    reveal_strlit("載入配置失敗：{}");
    reveal_strlit("加载配置失败：{}");
    reveal_with_fuel(placeholders_from, 34);
    assert("error.config_load"@.len() == 17);
    assert("Failed to load configuration: {}"@.len() == 32);
    assert("載入配置失敗：{}"@.len() == 9);
    assert("加载配置失败：{}"@.len() == 9);
}

/// The entry for `gateway.listening` is consistent.
proof fn lemma_entry_15()
    ensures
        entry_consistent("gateway.listening"@, ("Gateway server listening on {}"@, "閘道器服務正在監聽 {}"@, "网关服务正在监听 {}"@)),
{
    reveal_strlit("gateway.listening");
    reveal_strlit("Gateway server listening on {}");
    reveal_strlit("閘道器服務正在監聽 {}");
    reveal_strlit("网关服务正在监听 {}");
    reveal_with_fuel(placeholders_from, 32);
    assert("gateway.listening"@.len() == 17);
    assert("Gateway server listening on {}"@.len() == 30);
    assert("閘道器服務正在監聽 {}"@.len() == 12);
    assert("网关服务正在监听 {}"@.len() == 11);
}

/// The entry for `gateway.webhook_received` is consistent.
proof fn lemma_entry_16()
    ensures
        entry_consistent("gateway.webhook_received"@, ("Received webhook request: {}"@, "收到 Webhook 請求：{}"@, "收到 Webhook 请求：{}"@)),
{
    reveal_strlit("gateway.webhook_received");
    reveal_strlit("Received webhook request: {}");
    reveal_strlit("收到 Webhook 請求：{}");
    reveal_strlit("收到 Webhook 请求：{}");
    reveal_with_fuel(placeholders_from, 30);
    assert("gateway.webhook_received"@.len() == 24);
    assert("Received webhook request: {}"@.len() == 28);
    assert("收到 Webhook 請求：{}"@.len() == 16);
    assert("收到 Webhook 请求：{}"@.len() == 16);
}

/// The entry for `gateway.agent_response` is consistent.
proof fn lemma_entry_17()
    ensures
        entry_consistent("gateway.agent_response"@, ("Agent response: {}"@, "Agent 回應：{}"@, "Agent 回应：{}"@)),
{
    reveal_strlit("gateway.agent_response");
    reveal_strlit("Agent response: {}");
    reveal_strlit("Agent 回應：{}");
    reveal_strlit("Agent 回应：{}");
    reveal_with_fuel(placeholders_from, 24);
    assert("gateway.agent_response"@.len() == 22);
    assert("Agent response: {}"@.len() == 18);
    assert("Agent 回應：{}"@.len() == 11);
    assert("Agent 回应：{}"@.len() == 11);
}

/// The entry for `gateway.agent_error` is consistent.
proof fn lemma_entry_18()
    ensures
        entry_consistent("gateway.agent_error"@, ("Agent error: {}"@, "Agent 錯誤：{}"@, "Agent 错误：{}"@)),
{
    reveal_strlit("gateway.agent_error");
    reveal_strlit("Agent error: {}");
    reveal_strlit("Agent 錯誤：{}");
    reveal_strlit("Agent 错误：{}");
    reveal_with_fuel(placeholders_from, 21);
    assert("gateway.agent_error"@.len() == 19);
    assert("Agent error: {}"@.len() == 15);
    assert("Agent 錯誤：{}"@.len() == 11);
    assert("Agent 错误：{}"@.len() == 11);
}

/// Every entry of the catalog is consistent.
pub proof fn lemma_catalog_consistent(key: Seq<char>)
    requires
        catalog(key) is Some,
    ensures
        entry_consistent(key, catalog(key).unwrap()),
{
    if key == "app.name"@ {
        lemma_entry_0();
    } else if key == "app.starting_agent"@ {
        lemma_entry_1();
    } else if key == "app.starting_gateway"@ {
        lemma_entry_2();
    } else if key == "app.version"@ {
        lemma_entry_3();
    } else if key == "app.config_dir"@ {
        lemma_entry_4();
    } else if key == "agent.started"@ {
        lemma_entry_5();
    } else if key == "agent.exit_hint"@ {
        lemma_entry_6();
    } else if key == "agent.response"@ {
        lemma_entry_7();
    } else if key == "agent.max_time_exceeded"@ {
        lemma_entry_8();
    } else if key == "agent.max_iterations_exceeded"@ {
        lemma_entry_9();
    } else if key == "error.prefix"@ {
        lemma_entry_10();
    } else if key == "error.provider_init"@ {
        lemma_entry_11();
    } else if key == "error.agent_run"@ {
        lemma_entry_12();
    } else if key == "error.memory_init"@ {
        lemma_entry_13();
    } else if key == "error.config_load"@ {
        lemma_entry_14();
    } else if key == "gateway.listening"@ {
        lemma_entry_15();
    } else if key == "gateway.webhook_received"@ {
        lemma_entry_16();
    } else if key == "gateway.agent_response"@ {
        lemma_entry_17();
    } else if key == "gateway.agent_error"@ {
        lemma_entry_18();
    }
}

/// The texts of two entries differ in every locale.
pub open spec fn texts_distinct(a: (Seq<char>, Seq<char>, Seq<char>), b: (Seq<char>, Seq<char>, Seq<char>)) -> bool {
    a.0 != b.0 && a.1 != b.1 && a.2 != b.2
}

/// The texts of `app.name` differ from those of every other key, locale by locale.
proof fn lemma_distinct_0(other: Seq<char>)
    requires
        catalog(other) is Some,
        other != "app.name"@,
    ensures
        texts_distinct(("MiniBot MVP"@, "MiniBot MVP"@, "MiniBot MVP"@), catalog(other).unwrap()),
{
    reveal_strlit("Agent error: {}");
    reveal_strlit("Agent response: {}");
    reveal_strlit("Agent run failed: {}");
    reveal_strlit("Agent 回应：{}");
    reveal_strlit("Agent 回應：{}");
    reveal_strlit("Agent 執行失敗：{}");
    reveal_strlit("Agent 执行失败：{}");
    reveal_strlit("Agent 錯誤：{}");
    reveal_strlit("Agent 错误：{}");
    reveal_strlit("Configuration directory");
    reveal_strlit("Error: {}");
    reveal_strlit("Failed to initialize memory: {}");
    reveal_strlit("Failed to initialize provider: {}");
    reveal_strlit("Failed to load configuration: {}");
    reveal_strlit("Gateway server listening on {}");
    reveal_strlit("Max execution time ({}) exceeded");
    reveal_strlit("Max tool iterations ({}) exceeded");
    reveal_strlit("MiniBot Agent started. Type 'exit' to quit.");
    reveal_strlit("MiniBot Agent 已启动。输入 'exit' 结束。");
    reveal_strlit("MiniBot Agent 已啟動。輸入 'exit' 結束。");
    reveal_strlit("MiniBot MVP");
    reveal_strlit("MiniBot MVP v{}");
    reveal_strlit("MiniBot MVP 第 {} 版");
    reveal_strlit("Received webhook request: {}");
    reveal_strlit("Starting Gateway at {}:{}");
    reveal_strlit("Starting MiniBot Agent...");
    reveal_strlit("Type 'exit' to quit.");
    reveal_strlit("{}");
    reveal_strlit("供应商初始化失败：{}");
    reveal_strlit("供應商初始化失敗：{}");
    reveal_strlit("加载配置失败：{}");
    reveal_strlit("已超过最大工具迭代次数 ({})");
    reveal_strlit("已超过最大执行时间 ({}) 秒");
    reveal_strlit("已超過最大執行時間 ({}) 秒");
    reveal_strlit("已超過最大工具迭代次數 ({})");
    reveal_strlit("收到 Webhook 請求：{}");
    reveal_strlit("收到 Webhook 请求：{}");
    reveal_strlit("正在启动 MiniBot Agent...");
    reveal_strlit("正在启动网关 {}:{}");
    reveal_strlit("正在啟動 MiniBot Agent...");
    reveal_strlit("正在啟動閘道器 {}:{}");
    reveal_strlit("网关服务正在监听 {}");
    reveal_strlit("記憶體初始化失敗：{}");
    reveal_strlit("记忆体初始化失败：{}");
    reveal_strlit("載入配置失敗：{}");
    reveal_strlit("輸入 'exit' 結束。");
    reveal_strlit("输入 'exit' 结束。");
    reveal_strlit("配置目录");
    reveal_strlit("配置目錄");
    reveal_strlit("錯誤：{}");
    reveal_strlit("错误：{}");
    reveal_strlit("閘道器服務正在監聽 {}");
    assert("MiniBot MVP"@.len() == 11);
    assert("Starting MiniBot Agent..."@.len() == 25);
    assert("正在啟動 MiniBot Agent..."@.len() == 21);
    assert("正在启动 MiniBot Agent..."@.len() == 21);
    assert("Starting Gateway at {}:{}"@.len() == 25);
    assert("正在啟動閘道器 {}:{}"@.len() == 13);
    assert("正在启动网关 {}:{}"@.len() == 12);
    assert("MiniBot MVP v{}"@.len() == 15);
    assert("MiniBot MVP 第 {} 版"@.len() == 18);
    assert("Configuration directory"@.len() == 23);
    assert("配置目錄"@.len() == 4);
    assert("配置目录"@.len() == 4);
    assert("MiniBot Agent started. Type 'exit' to quit."@.len() == 43);
    assert("MiniBot Agent 已啟動。輸入 'exit' 結束。"@.len() == 31);
    assert("MiniBot Agent 已启动。输入 'exit' 结束。"@.len() == 31);
    assert("Type 'exit' to quit."@.len() == 20);
    assert("輸入 'exit' 結束。"@.len() == 13);
    assert("输入 'exit' 结束。"@.len() == 13);
    assert("{}"@.len() == 2);
    assert("Max execution time ({}) exceeded"@.len() == 32);
    assert("已超過最大執行時間 ({}) 秒"@.len() == 16);
    assert("已超过最大执行时间 ({}) 秒"@.len() == 16);
    assert("Max tool iterations ({}) exceeded"@.len() == 33);
    assert("已超過最大工具迭代次數 ({})"@.len() == 16);
    assert("已超过最大工具迭代次数 ({})"@.len() == 16);
    assert("Error: {}"@.len() == 9);
    assert("錯誤：{}"@.len() == 5);
    assert("错误：{}"@.len() == 5);
    assert("Failed to initialize provider: {}"@.len() == 33);
    assert("MiniBot MVP"@[0] != "供應商初始化失敗：{}"@[0]);
    assert("MiniBot MVP"@[0] != "供应商初始化失败：{}"@[0]);
    assert("Agent run failed: {}"@.len() == 20);
    assert("Agent 執行失敗：{}"@.len() == 13);
    assert("Agent 执行失败：{}"@.len() == 13);
    assert("Failed to initialize memory: {}"@.len() == 31);
    assert("MiniBot MVP"@[0] != "記憶體初始化失敗：{}"@[0]);
    assert("MiniBot MVP"@[0] != "记忆体初始化失败：{}"@[0]);
    assert("Failed to load configuration: {}"@.len() == 32);
    assert("載入配置失敗：{}"@.len() == 9);
    assert("加载配置失败：{}"@.len() == 9);
    assert("Gateway server listening on {}"@.len() == 30);
    assert("閘道器服務正在監聽 {}"@.len() == 12);
    assert("MiniBot MVP"@[0] != "网关服务正在监听 {}"@[0]);
    assert("Received webhook request: {}"@.len() == 28);
    assert("收到 Webhook 請求：{}"@.len() == 16);
    assert("收到 Webhook 请求：{}"@.len() == 16);
    assert("Agent response: {}"@.len() == 18);
    assert("MiniBot MVP"@[0] != "Agent 回應：{}"@[0]);
    assert("MiniBot MVP"@[0] != "Agent 回应：{}"@[0]);
    assert("Agent error: {}"@.len() == 15);
    assert("MiniBot MVP"@[0] != "Agent 錯誤：{}"@[0]);
    assert("MiniBot MVP"@[0] != "Agent 错误：{}"@[0]);
}

/// The texts of `app.starting_agent` differ from those of every other key, locale by locale.
proof fn lemma_distinct_1(other: Seq<char>)
    requires
        catalog(other) is Some,
        other != "app.starting_agent"@,
    ensures
        texts_distinct(("Starting MiniBot Agent..."@, "正在啟動 MiniBot Agent..."@, "正在启动 MiniBot Agent..."@), catalog(other).unwrap()),
{
    reveal_strlit("Agent error: {}");
    reveal_strlit("Agent response: {}");
    reveal_strlit("Agent run failed: {}");
    reveal_strlit("Agent 回应：{}");
    reveal_strlit("Agent 回應：{}");
    reveal_strlit("Agent 執行失敗：{}");
    reveal_strlit("Agent 执行失败：{}");
    reveal_strlit("Agent 錯誤：{}");
    reveal_strlit("Agent 错误：{}");
    reveal_strlit("Configuration directory");
    reveal_strlit("Error: {}");
    reveal_strlit("Failed to initialize memory: {}");
    reveal_strlit("Failed to initialize provider: {}");
    reveal_strlit("Failed to load configuration: {}");
    reveal_strlit("Gateway server listening on {}");
    reveal_strlit("Max execution time ({}) exceeded");
    reveal_strlit("Max tool iterations ({}) exceeded");
    reveal_strlit("MiniBot Agent started. Type 'exit' to quit.");
    reveal_strlit("MiniBot Agent 已启动。输入 'exit' 结束。");
    reveal_strlit("MiniBot Agent 已啟動。輸入 'exit' 結束。");
    reveal_strlit("MiniBot MVP");
    reveal_strlit("MiniBot MVP v{}");
    reveal_strlit("MiniBot MVP 第 {} 版");
    reveal_strlit("Received webhook request: {}");
    reveal_strlit("Starting Gateway at {}:{}");
    reveal_strlit("Starting MiniBot Agent...");
    reveal_strlit("Type 'exit' to quit.");
    reveal_strlit("{}");
    reveal_strlit("供应商初始化失败：{}");
    reveal_strlit("供應商初始化失敗：{}");
    reveal_strlit("加载配置失败：{}");
    reveal_strlit("已超过最大工具迭代次数 ({})");
    reveal_strlit("已超过最大执行时间 ({}) 秒");
    reveal_strlit("已超過最大執行時間 ({}) 秒");
    reveal_strlit("已超過最大工具迭代次數 ({})");
    reveal_strlit("收到 Webhook 請求：{}");
    reveal_strlit("收到 Webhook 请求：{}");
    reveal_strlit("正在启动 MiniBot Agent...");
    reveal_strlit("正在启动网关 {}:{}");
    reveal_strlit("正在啟動 MiniBot Agent...");
    reveal_strlit("正在啟動閘道器 {}:{}");
    reveal_strlit("网关服务正在监听 {}");
    reveal_strlit("記憶體初始化失敗：{}");
    reveal_strlit("记忆体初始化失败：{}");
    reveal_strlit("載入配置失敗：{}");
    reveal_strlit("輸入 'exit' 結束。");
    reveal_strlit("输入 'exit' 结束。");
    reveal_strlit("配置目录");
    reveal_strlit("配置目錄");
    reveal_strlit("錯誤：{}");
    reveal_strlit("错误：{}");
    reveal_strlit("閘道器服務正在監聽 {}");
    assert("Starting MiniBot Agent..."@.len() == 25);
    assert("MiniBot MVP"@.len() == 11);
    assert("正在啟動 MiniBot Agent..."@.len() == 21);
    assert("正在启动 MiniBot Agent..."@.len() == 21);
    assert("Starting MiniBot Agent..."@[9] != "Starting Gateway at {}:{}"@[9]);
    assert("正在啟動閘道器 {}:{}"@.len() == 13);
    assert("正在启动网关 {}:{}"@.len() == 12);
    assert("MiniBot MVP v{}"@.len() == 15);
    assert("MiniBot MVP 第 {} 版"@.len() == 18);
    assert("Configuration directory"@.len() == 23);
    assert("配置目錄"@.len() == 4);
    assert("配置目录"@.len() == 4);
    assert("MiniBot Agent started. Type 'exit' to quit."@.len() == 43);
    assert("MiniBot Agent 已啟動。輸入 'exit' 結束。"@.len() == 31);
    assert("MiniBot Agent 已启动。输入 'exit' 结束。"@.len() == 31);
    assert("Type 'exit' to quit."@.len() == 20);
    assert("輸入 'exit' 結束。"@.len() == 13);
    assert("输入 'exit' 结束。"@.len() == 13);
    assert("{}"@.len() == 2);
    assert("Max execution time ({}) exceeded"@.len() == 32);
    assert("已超過最大執行時間 ({}) 秒"@.len() == 16);
    assert("已超过最大执行时间 ({}) 秒"@.len() == 16);
    assert("Max tool iterations ({}) exceeded"@.len() == 33);
    assert("已超過最大工具迭代次數 ({})"@.len() == 16);
    assert("已超过最大工具迭代次数 ({})"@.len() == 16);
    assert("Error: {}"@.len() == 9);
    assert("錯誤：{}"@.len() == 5);
    assert("错误：{}"@.len() == 5);
    assert("Failed to initialize provider: {}"@.len() == 33);
    assert("供應商初始化失敗：{}"@.len() == 11);
    assert("供应商初始化失败：{}"@.len() == 11);
    assert("Agent run failed: {}"@.len() == 20);
    assert("Agent 執行失敗：{}"@.len() == 13);
    assert("Agent 执行失败：{}"@.len() == 13);
    assert("Failed to initialize memory: {}"@.len() == 31);
    assert("記憶體初始化失敗：{}"@.len() == 11);
    assert("记忆体初始化失败：{}"@.len() == 11);
    assert("Failed to load configuration: {}"@.len() == 32);
    assert("載入配置失敗：{}"@.len() == 9);
    assert("加载配置失败：{}"@.len() == 9);
    assert("Gateway server listening on {}"@.len() == 30);
    assert("閘道器服務正在監聽 {}"@.len() == 12);
    assert("网关服务正在监听 {}"@.len() == 11);
    assert("Received webhook request: {}"@.len() == 28);
    assert("收到 Webhook 請求：{}"@.len() == 16);
    assert("收到 Webhook 请求：{}"@.len() == 16);
    assert("Agent response: {}"@.len() == 18);
    assert("Agent 回應：{}"@.len() == 11);
    assert("Agent 回应：{}"@.len() == 11);
    assert("Agent error: {}"@.len() == 15);
    assert("Agent 錯誤：{}"@.len() == 11);
    assert("Agent 错误：{}"@.len() == 11);
}

/// The texts of `app.starting_gateway` differ from those of every other key, locale by locale.
proof fn lemma_distinct_2(other: Seq<char>)
    requires
        catalog(other) is Some,
        other != "app.starting_gateway"@,
    ensures
        texts_distinct(("Starting Gateway at {}:{}"@, "正在啟動閘道器 {}:{}"@, "正在启动网关 {}:{}"@), catalog(other).unwrap()),
{
    reveal_strlit("Agent error: {}");
    reveal_strlit("Agent response: {}");
    reveal_strlit("Agent run failed: {}");
    reveal_strlit("Agent 回应：{}");
    reveal_strlit("Agent 回應：{}");
    reveal_strlit("Agent 執行失敗：{}");
    reveal_strlit("Agent 执行失败：{}");
    reveal_strlit("Agent 錯誤：{}");
    reveal_strlit("Agent 错误：{}");
    reveal_strlit("Configuration directory");
    reveal_strlit("Error: {}");
    reveal_strlit("Failed to initialize memory: {}");
    reveal_strlit("Failed to initialize provider: {}");
    reveal_strlit("Failed to load configuration: {}");
    reveal_strlit("Gateway server listening on {}");
    reveal_strlit("Max execution time ({}) exceeded");
    reveal_strlit("Max tool iterations ({}) exceeded");
    reveal_strlit("MiniBot Agent started. Type 'exit' to quit.");
    reveal_strlit("MiniBot Agent 已启动。输入 'exit' 结束。");
    reveal_strlit("MiniBot Agent 已啟動。輸入 'exit' 結束。");
    reveal_strlit("MiniBot MVP");
    reveal_strlit("MiniBot MVP v{}");
    reveal_strlit("MiniBot MVP 第 {} 版");
    reveal_strlit("Received webhook request: {}");
    reveal_strlit("Starting Gateway at {}:{}");
    reveal_strlit("Starting MiniBot Agent...");
    reveal_strlit("Type 'exit' to quit.");
    reveal_strlit("{}");
    reveal_strlit("供应商初始化失败：{}");
    reveal_strlit("供應商初始化失敗：{}");
    reveal_strlit("加载配置失败：{}");
    reveal_strlit("已超过最大工具迭代次数 ({})");
    reveal_strlit("已超过最大执行时间 ({}) 秒");
    reveal_strlit("已超過最大執行時間 ({}) 秒");
    reveal_strlit("已超過最大工具迭代次數 ({})");
    reveal_strlit("收到 Webhook 請求：{}");
    reveal_strlit("收到 Webhook 请求：{}");
    reveal_strlit("正在启动 MiniBot Agent...");
    reveal_strlit("正在启动网关 {}:{}");
    reveal_strlit("正在啟動 MiniBot Agent...");
    reveal_strlit("正在啟動閘道器 {}:{}");
    reveal_strlit("网关服务正在监听 {}");
    reveal_strlit("記憶體初始化失敗：{}");
    reveal_strlit("记忆体初始化失败：{}");
    reveal_strlit("載入配置失敗：{}");
    reveal_strlit("輸入 'exit' 結束。");
    reveal_strlit("输入 'exit' 结束。");
    reveal_strlit("配置目录");
    reveal_strlit("配置目錄");
    reveal_strlit("錯誤：{}");
    reveal_strlit("错误：{}");
    reveal_strlit("閘道器服務正在監聽 {}");
    assert("Starting Gateway at {}:{}"@.len() == 25);
    assert("MiniBot MVP"@.len() == 11);
    assert("正在啟動閘道器 {}:{}"@.len() == 13);
    assert("正在启动网关 {}:{}"@.len() == 12);
    assert("Starting Gateway at {}:{}"@[9] != "Starting MiniBot Agent..."@[9]);
    assert("正在啟動 MiniBot Agent..."@.len() == 21);
    assert("正在启动 MiniBot Agent..."@.len() == 21);
    assert("MiniBot MVP v{}"@.len() == 15);
    assert("MiniBot MVP 第 {} 版"@.len() == 18);
    assert("Configuration directory"@.len() == 23);
    assert("配置目錄"@.len() == 4);
    assert("配置目录"@.len() == 4);
    assert("MiniBot Agent started. Type 'exit' to quit."@.len() == 43);
    assert("MiniBot Agent 已啟動。輸入 'exit' 結束。"@.len() == 31);
    assert("MiniBot Agent 已启动。输入 'exit' 结束。"@.len() == 31);
    assert("Type 'exit' to quit."@.len() == 20);
    assert("正在啟動閘道器 {}:{}"@[0] != "輸入 'exit' 結束。"@[0]);
    assert("输入 'exit' 结束。"@.len() == 13);
    assert("{}"@.len() == 2);
    assert("Max execution time ({}) exceeded"@.len() == 32);
    assert("已超過最大執行時間 ({}) 秒"@.len() == 16);
    assert("已超过最大执行时间 ({}) 秒"@.len() == 16);
    assert("Max tool iterations ({}) exceeded"@.len() == 33);
    assert("已超過最大工具迭代次數 ({})"@.len() == 16);
    assert("已超过最大工具迭代次数 ({})"@.len() == 16);
    assert("Error: {}"@.len() == 9);
    assert("錯誤：{}"@.len() == 5);
    assert("错误：{}"@.len() == 5);
    assert("Failed to initialize provider: {}"@.len() == 33);
    assert("供應商初始化失敗：{}"@.len() == 11);
    assert("供应商初始化失败：{}"@.len() == 11);
    assert("Agent run failed: {}"@.len() == 20);
    assert("正在啟動閘道器 {}:{}"@[0] != "Agent 執行失敗：{}"@[0]);
    assert("Agent 执行失败：{}"@.len() == 13);
    assert("Failed to initialize memory: {}"@.len() == 31);
    assert("記憶體初始化失敗：{}"@.len() == 11);
    assert("记忆体初始化失败：{}"@.len() == 11);
    assert("Failed to load configuration: {}"@.len() == 32);
    assert("載入配置失敗：{}"@.len() == 9);
    assert("加载配置失败：{}"@.len() == 9);
    assert("Gateway server listening on {}"@.len() == 30);
    assert("閘道器服務正在監聽 {}"@.len() == 12);
    assert("网关服务正在监听 {}"@.len() == 11);
    assert("Received webhook request: {}"@.len() == 28);
    assert("收到 Webhook 請求：{}"@.len() == 16);
    assert("收到 Webhook 请求：{}"@.len() == 16);
    assert("Agent response: {}"@.len() == 18);
    assert("Agent 回應：{}"@.len() == 11);
    assert("Agent 回应：{}"@.len() == 11);
    assert("Agent error: {}"@.len() == 15);
    assert("Agent 錯誤：{}"@.len() == 11);
    assert("Agent 错误：{}"@.len() == 11);
}

/// The texts of `app.version` differ from those of every other key, locale by locale.
proof fn lemma_distinct_3(other: Seq<char>)
    requires
        catalog(other) is Some,
        other != "app.version"@,
    ensures
        texts_distinct(("MiniBot MVP v{}"@, "MiniBot MVP 第 {} 版"@, "MiniBot MVP 第 {} 版"@), catalog(other).unwrap()),
{
    reveal_strlit("Agent error: {}");
    reveal_strlit("Agent response: {}");
    reveal_strlit("Agent run failed: {}");
    reveal_strlit("Agent 回应：{}");
    reveal_strlit("Agent 回應：{}");
    reveal_strlit("Agent 執行失敗：{}");
    reveal_strlit("Agent 执行失败：{}");
    reveal_strlit("Agent 錯誤：{}");
    reveal_strlit("Agent 错误：{}");
    reveal_strlit("Configuration directory");
    reveal_strlit("Error: {}");
    reveal_strlit("Failed to initialize memory: {}");
    reveal_strlit("Failed to initialize provider: {}");
    reveal_strlit("Failed to load configuration: {}");
    reveal_strlit("Gateway server listening on {}");
    reveal_strlit("Max execution time ({}) exceeded");
    reveal_strlit("Max tool iterations ({}) exceeded");
    reveal_strlit("MiniBot Agent started. Type 'exit' to quit.");
    reveal_strlit("MiniBot Agent 已启动。输入 'exit' 结束。");
    reveal_strlit("MiniBot Agent 已啟動。輸入 'exit' 結束。");
    reveal_strlit("MiniBot MVP");
    reveal_strlit("MiniBot MVP v{}");
    reveal_strlit("MiniBot MVP 第 {} 版");
    reveal_strlit("Received webhook request: {}");
    reveal_strlit("Starting Gateway at {}:{}");
    reveal_strlit("Starting MiniBot Agent...");
    reveal_strlit("Type 'exit' to quit.");
    reveal_strlit("{}");
    reveal_strlit("供应商初始化失败：{}");
    reveal_strlit("供應商初始化失敗：{}");
    reveal_strlit("加载配置失败：{}");
    reveal_strlit("已超过最大工具迭代次数 ({})");
    reveal_strlit("已超过最大执行时间 ({}) 秒");
    reveal_strlit("已超過最大執行時間 ({}) 秒");
    reveal_strlit("已超過最大工具迭代次數 ({})");
    reveal_strlit("收到 Webhook 請求：{}");
    reveal_strlit("收到 Webhook 请求：{}");
    reveal_strlit("正在启动 MiniBot Agent...");
    reveal_strlit("正在启动网关 {}:{}");
    reveal_strlit("正在啟動 MiniBot Agent...");
    reveal_strlit("正在啟動閘道器 {}:{}");
    reveal_strlit("网关服务正在监听 {}");
    reveal_strlit("記憶體初始化失敗：{}");
    reveal_strlit("记忆体初始化失败：{}");
    reveal_strlit("載入配置失敗：{}");
    reveal_strlit("輸入 'exit' 結束。");
    reveal_strlit("输入 'exit' 结束。");
    reveal_strlit("配置目录");
    reveal_strlit("配置目錄");
    reveal_strlit("錯誤：{}");
    reveal_strlit("错误：{}");
    reveal_strlit("閘道器服務正在監聽 {}");
    assert("MiniBot MVP v{}"@.len() == 15);
    assert("MiniBot MVP"@.len() == 11);
    assert("MiniBot MVP 第 {} 版"@.len() == 18);
    assert("Starting MiniBot Agent..."@.len() == 25);
    assert("正在啟動 MiniBot Agent..."@.len() == 21);
    assert("正在启动 MiniBot Agent..."@.len() == 21);
    assert("Starting Gateway at {}:{}"@.len() == 25);
    assert("正在啟動閘道器 {}:{}"@.len() == 13);
    assert("正在启动网关 {}:{}"@.len() == 12);
    assert("Configuration directory"@.len() == 23);
    assert("配置目錄"@.len() == 4);
    assert("配置目录"@.len() == 4);
    assert("MiniBot Agent started. Type 'exit' to quit."@.len() == 43);
    assert("MiniBot Agent 已啟動。輸入 'exit' 結束。"@.len() == 31);
    assert("MiniBot Agent 已启动。输入 'exit' 结束。"@.len() == 31);
    assert("Type 'exit' to quit."@.len() == 20);
    assert("輸入 'exit' 結束。"@.len() == 13);
    assert("输入 'exit' 结束。"@.len() == 13);
    assert("{}"@.len() == 2);
    assert("Max execution time ({}) exceeded"@.len() == 32);
    assert("已超過最大執行時間 ({}) 秒"@.len() == 16);
    assert("已超过最大执行时间 ({}) 秒"@.len() == 16);
    assert("Max tool iterations ({}) exceeded"@.len() == 33);
    assert("已超過最大工具迭代次數 ({})"@.len() == 16);
    assert("已超过最大工具迭代次数 ({})"@.len() == 16);
    assert("Error: {}"@.len() == 9);
    assert("錯誤：{}"@.len() == 5);
    assert("错误：{}"@.len() == 5);
    assert("Failed to initialize provider: {}"@.len() == 33);
    assert("供應商初始化失敗：{}"@.len() == 11);
    assert("供应商初始化失败：{}"@.len() == 11);
    assert("Agent run failed: {}"@.len() == 20);
    assert("Agent 執行失敗：{}"@.len() == 13);
    assert("Agent 执行失败：{}"@.len() == 13);
    assert("Failed to initialize memory: {}"@.len() == 31);
    assert("記憶體初始化失敗：{}"@.len() == 11);
    assert("记忆体初始化失败：{}"@.len() == 11);
    assert("Failed to load configuration: {}"@.len() == 32);
    assert("載入配置失敗：{}"@.len() == 9);
    assert("加载配置失败：{}"@.len() == 9);
    assert("Gateway server listening on {}"@.len() == 30);
    assert("閘道器服務正在監聽 {}"@.len() == 12);
    assert("网关服务正在监听 {}"@.len() == 11);
    assert("Received webhook request: {}"@.len() == 28);
    assert("收到 Webhook 請求：{}"@.len() == 16);
    assert("收到 Webhook 请求：{}"@.len() == 16);
    assert("Agent response: {}"@.len() == 18);
    assert("Agent 回應：{}"@.len() == 11);
    assert("Agent 回应：{}"@.len() == 11);
    assert("MiniBot MVP v{}"@[0] != "Agent error: {}"@[0]);
    assert("Agent 錯誤：{}"@.len() == 11);
    assert("Agent 错误：{}"@.len() == 11);
}

/// The texts of `app.config_dir` differ from those of every other key, locale by locale.
proof fn lemma_distinct_4(other: Seq<char>)
    requires
        catalog(other) is Some,
        other != "app.config_dir"@,
    ensures
        texts_distinct(("Configuration directory"@, "配置目錄"@, "配置目录"@), catalog(other).unwrap()),
{
    reveal_strlit("Agent error: {}");
    reveal_strlit("Agent response: {}");
    reveal_strlit("Agent run failed: {}");
    reveal_strlit("Agent 回应：{}");
    reveal_strlit("Agent 回應：{}");
    reveal_strlit("Agent 執行失敗：{}");
    reveal_strlit("Agent 执行失败：{}");
    reveal_strlit("Agent 錯誤：{}");
    reveal_strlit("Agent 错误：{}");
    reveal_strlit("Configuration directory");
    reveal_strlit("Error: {}");
    reveal_strlit("Failed to initialize memory: {}");
    reveal_strlit("Failed to initialize provider: {}");
    reveal_strlit("Failed to load configuration: {}");
    reveal_strlit("Gateway server listening on {}");
    reveal_strlit("Max execution time ({}) exceeded");
    reveal_strlit("Max tool iterations ({}) exceeded");
    reveal_strlit("MiniBot Agent started. Type 'exit' to quit.");
    reveal_strlit("MiniBot Agent 已启动。输入 'exit' 结束。");
    reveal_strlit("MiniBot Agent 已啟動。輸入 'exit' 結束。");
    reveal_strlit("MiniBot MVP");
    reveal_strlit("MiniBot MVP v{}");
    reveal_strlit("MiniBot MVP 第 {} 版");
    reveal_strlit("Received webhook request: {}");
    reveal_strlit("Starting Gateway at {}:{}");
    reveal_strlit("Starting MiniBot Agent...");
    reveal_strlit("Type 'exit' to quit.");
    reveal_strlit("{}");
    reveal_strlit("供应商初始化失败：{}");
    reveal_strlit("供應商初始化失敗：{}");
    reveal_strlit("加载配置失败：{}");
    reveal_strlit("已超过最大工具迭代次数 ({})");
    reveal_strlit("已超过最大执行时间 ({}) 秒");
    reveal_strlit("已超過最大執行時間 ({}) 秒");
    reveal_strlit("已超過最大工具迭代次數 ({})");
    reveal_strlit("收到 Webhook 請求：{}");
    reveal_strlit("收到 Webhook 请求：{}");
    reveal_strlit("正在启动 MiniBot Agent...");
    reveal_strlit("正在启动网关 {}:{}");
    reveal_strlit("正在啟動 MiniBot Agent...");
    reveal_strlit("正在啟動閘道器 {}:{}");
    reveal_strlit("网关服务正在监听 {}");
    reveal_strlit("記憶體初始化失敗：{}");
    reveal_strlit("记忆体初始化失败：{}");
    reveal_strlit("載入配置失敗：{}");
    reveal_strlit("輸入 'exit' 結束。");
    reveal_strlit("输入 'exit' 结束。");
    reveal_strlit("配置目录");
    reveal_strlit("配置目錄");
    reveal_strlit("錯誤：{}");
    reveal_strlit("错误：{}");
    reveal_strlit("閘道器服務正在監聽 {}");
    assert("Configuration directory"@.len() == 23);
    assert("MiniBot MVP"@.len() == 11);
    assert("配置目錄"@.len() == 4);
    assert("配置目录"@.len() == 4);
    assert("Starting MiniBot Agent..."@.len() == 25);
    assert("正在啟動 MiniBot Agent..."@.len() == 21);
    assert("正在启动 MiniBot Agent..."@.len() == 21);
    assert("Starting Gateway at {}:{}"@.len() == 25);
    assert("正在啟動閘道器 {}:{}"@.len() == 13);
    assert("正在启动网关 {}:{}"@.len() == 12);
    assert("MiniBot MVP v{}"@.len() == 15);
    assert("MiniBot MVP 第 {} 版"@.len() == 18);
    assert("MiniBot Agent started. Type 'exit' to quit."@.len() == 43);
    assert("MiniBot Agent 已啟動。輸入 'exit' 結束。"@.len() == 31);
    assert("MiniBot Agent 已启动。输入 'exit' 结束。"@.len() == 31);
    assert("Type 'exit' to quit."@.len() == 20);
    assert("輸入 'exit' 結束。"@.len() == 13);
    assert("输入 'exit' 结束。"@.len() == 13);
    assert("{}"@.len() == 2);
    assert("Max execution time ({}) exceeded"@.len() == 32);
    assert("已超過最大執行時間 ({}) 秒"@.len() == 16);
    assert("已超过最大执行时间 ({}) 秒"@.len() == 16);
    assert("Max tool iterations ({}) exceeded"@.len() == 33);
    assert("已超過最大工具迭代次數 ({})"@.len() == 16);
    assert("已超过最大工具迭代次数 ({})"@.len() == 16);
    assert("Error: {}"@.len() == 9);
    assert("錯誤：{}"@.len() == 5);
    assert("错误：{}"@.len() == 5);
    assert("Failed to initialize provider: {}"@.len() == 33);
    assert("供應商初始化失敗：{}"@.len() == 11);
    assert("供应商初始化失败：{}"@.len() == 11);
    assert("Agent run failed: {}"@.len() == 20);
    assert("Agent 執行失敗：{}"@.len() == 13);
    assert("Agent 执行失败：{}"@.len() == 13);
    assert("Failed to initialize memory: {}"@.len() == 31);
    assert("記憶體初始化失敗：{}"@.len() == 11);
    assert("记忆体初始化失败：{}"@.len() == 11);
    assert("Failed to load configuration: {}"@.len() == 32);
    assert("載入配置失敗：{}"@.len() == 9);
    assert("加载配置失败：{}"@.len() == 9);
    assert("Gateway server listening on {}"@.len() == 30);
    assert("閘道器服務正在監聽 {}"@.len() == 12);
    assert("网关服务正在监听 {}"@.len() == 11);
    assert("Received webhook request: {}"@.len() == 28);
    assert("收到 Webhook 請求：{}"@.len() == 16);
    assert("收到 Webhook 请求：{}"@.len() == 16);
    assert("Agent response: {}"@.len() == 18);
    assert("Agent 回應：{}"@.len() == 11);
    assert("Agent 回应：{}"@.len() == 11);
    assert("Agent error: {}"@.len() == 15);
    assert("Agent 錯誤：{}"@.len() == 11);
    assert("Agent 错误：{}"@.len() == 11);
}

/// The texts of `agent.started` differ from those of every other key, locale by locale.
proof fn lemma_distinct_5(other: Seq<char>)
    requires
        catalog(other) is Some,
        other != "agent.started"@,
    ensures
        texts_distinct(("MiniBot Agent started. Type 'exit' to quit."@, "MiniBot Agent 已啟動。輸入 'exit' 結束。"@, "MiniBot Agent 已启动。输入 'exit' 结束。"@), catalog(other).unwrap()),
{
    reveal_strlit("Agent error: {}");
    reveal_strlit("Agent response: {}");
    reveal_strlit("Agent run failed: {}");
    reveal_strlit("Agent 回应：{}");
    reveal_strlit("Agent 回應：{}");
    reveal_strlit("Agent 執行失敗：{}");
    reveal_strlit("Agent 执行失败：{}");
    reveal_strlit("Agent 錯誤：{}");
    reveal_strlit("Agent 错误：{}");
    reveal_strlit("Configuration directory");
    reveal_strlit("Error: {}");
    reveal_strlit("Failed to initialize memory: {}");
    reveal_strlit("Failed to initialize provider: {}");
    reveal_strlit("Failed to load configuration: {}");
    reveal_strlit("Gateway server listening on {}");
    reveal_strlit("Max execution time ({}) exceeded");
    reveal_strlit("Max tool iterations ({}) exceeded");
    reveal_strlit("MiniBot Agent started. Type 'exit' to quit.");
    reveal_strlit("MiniBot Agent 已启动。输入 'exit' 结束。");
    reveal_strlit("MiniBot Agent 已啟動。輸入 'exit' 結束。");
    reveal_strlit("MiniBot MVP");
    reveal_strlit("MiniBot MVP v{}");
    reveal_strlit("MiniBot MVP 第 {} 版");
    reveal_strlit("Received webhook request: {}");
    reveal_strlit("Starting Gateway at {}:{}");
    reveal_strlit("Starting MiniBot Agent...");
    reveal_strlit("Type 'exit' to quit.");
    reveal_strlit("{}");
    reveal_strlit("供应商初始化失败：{}");
    reveal_strlit("供應商初始化失敗：{}");
    reveal_strlit("加载配置失败：{}");
    reveal_strlit("已超过最大工具迭代次数 ({})");
    reveal_strlit("已超过最大执行时间 ({}) 秒");
    reveal_strlit("已超過最大執行時間 ({}) 秒");
    reveal_strlit("已超過最大工具迭代次數 ({})");
    reveal_strlit("收到 Webhook 請求：{}");
    reveal_strlit("收到 Webhook 请求：{}");
    reveal_strlit("正在启动 MiniBot Agent...");
    reveal_strlit("正在启动网关 {}:{}");
    reveal_strlit("正在啟動 MiniBot Agent...");
    reveal_strlit("正在啟動閘道器 {}:{}");
    reveal_strlit("网关服务正在监听 {}");
    reveal_strlit("記憶體初始化失敗：{}");
    reveal_strlit("记忆体初始化失败：{}");
    reveal_strlit("載入配置失敗：{}");
    reveal_strlit("輸入 'exit' 結束。");
    reveal_strlit("输入 'exit' 结束。");
    reveal_strlit("配置目录");
    reveal_strlit("配置目錄");
    reveal_strlit("錯誤：{}");
    reveal_strlit("错误：{}");
    reveal_strlit("閘道器服務正在監聽 {}");
    assert("MiniBot Agent started. Type 'exit' to quit."@.len() == 43);
    assert("MiniBot MVP"@.len() == 11);
    assert("MiniBot Agent 已啟動。輸入 'exit' 結束。"@.len() == 31);
    assert("MiniBot Agent 已启动。输入 'exit' 结束。"@.len() == 31);
    assert("Starting MiniBot Agent..."@.len() == 25);
    assert("正在啟動 MiniBot Agent..."@.len() == 21);
    assert("正在启动 MiniBot Agent..."@.len() == 21);
    assert("Starting Gateway at {}:{}"@.len() == 25);
    assert("正在啟動閘道器 {}:{}"@.len() == 13);
    assert("正在启动网关 {}:{}"@.len() == 12);
    assert("MiniBot MVP v{}"@.len() == 15);
    assert("MiniBot MVP 第 {} 版"@.len() == 18);
    assert("Configuration directory"@.len() == 23);
    assert("配置目錄"@.len() == 4);
    assert("配置目录"@.len() == 4);
    assert("Type 'exit' to quit."@.len() == 20);
    assert("輸入 'exit' 結束。"@.len() == 13);
    assert("输入 'exit' 结束。"@.len() == 13);
    assert("{}"@.len() == 2);
    assert("Max execution time ({}) exceeded"@.len() == 32);
    assert("已超過最大執行時間 ({}) 秒"@.len() == 16);
    assert("已超过最大执行时间 ({}) 秒"@.len() == 16);
    assert("Max tool iterations ({}) exceeded"@.len() == 33);
    assert("已超過最大工具迭代次數 ({})"@.len() == 16);
    assert("已超过最大工具迭代次数 ({})"@.len() == 16);
    assert("Error: {}"@.len() == 9);
    assert("錯誤：{}"@.len() == 5);
    assert("错误：{}"@.len() == 5);
    assert("Failed to initialize provider: {}"@.len() == 33);
    assert("供應商初始化失敗：{}"@.len() == 11);
    assert("供应商初始化失败：{}"@.len() == 11);
    assert("Agent run failed: {}"@.len() == 20);
    assert("Agent 執行失敗：{}"@.len() == 13);
    assert("Agent 执行失败：{}"@.len() == 13);
    assert("Failed to initialize memory: {}"@.len() == 31);
    assert("記憶體初始化失敗：{}"@.len() == 11);
    assert("记忆体初始化失败：{}"@.len() == 11);
    assert("Failed to load configuration: {}"@.len() == 32);
    assert("載入配置失敗：{}"@.len() == 9);
    assert("加载配置失败：{}"@.len() == 9);
    assert("Gateway server listening on {}"@.len() == 30);
    assert("閘道器服務正在監聽 {}"@.len() == 12);
    assert("网关服务正在监听 {}"@.len() == 11);
    assert("Received webhook request: {}"@.len() == 28);
    assert("收到 Webhook 請求：{}"@.len() == 16);
    assert("收到 Webhook 请求：{}"@.len() == 16);
    assert("Agent response: {}"@.len() == 18);
    assert("Agent 回應：{}"@.len() == 11);
    assert("Agent 回应：{}"@.len() == 11);
    assert("Agent error: {}"@.len() == 15);
    assert("Agent 錯誤：{}"@.len() == 11);
    assert("Agent 错误：{}"@.len() == 11);
}

/// The texts of `agent.exit_hint` differ from those of every other key, locale by locale.
proof fn lemma_distinct_6(other: Seq<char>)
    requires
        catalog(other) is Some,
        other != "agent.exit_hint"@,
    ensures
        texts_distinct(("Type 'exit' to quit."@, "輸入 'exit' 結束。"@, "输入 'exit' 结束。"@), catalog(other).unwrap()),
{
    reveal_strlit("Agent error: {}");
    reveal_strlit("Agent response: {}");
    reveal_strlit("Agent run failed: {}");
    reveal_strlit("Agent 回应：{}");
    reveal_strlit("Agent 回應：{}");
    reveal_strlit("Agent 執行失敗：{}");
    reveal_strlit("Agent 执行失败：{}");
    reveal_strlit("Agent 錯誤：{}");
    reveal_strlit("Agent 错误：{}");
    reveal_strlit("Configuration directory");
    reveal_strlit("Error: {}");
    reveal_strlit("Failed to initialize memory: {}");
    reveal_strlit("Failed to initialize provider: {}");
    reveal_strlit("Failed to load configuration: {}");
    reveal_strlit("Gateway server listening on {}");
    reveal_strlit("Max execution time ({}) exceeded");
    reveal_strlit("Max tool iterations ({}) exceeded");
    reveal_strlit("MiniBot Agent started. Type 'exit' to quit.");
    reveal_strlit("MiniBot Agent 已启动。输入 'exit' 结束。");
    reveal_strlit("MiniBot Agent 已啟動。輸入 'exit' 結束。");
    reveal_strlit("MiniBot MVP");
    reveal_strlit("MiniBot MVP v{}");
    reveal_strlit("MiniBot MVP 第 {} 版");
    reveal_strlit("Received webhook request: {}");
    reveal_strlit("Starting Gateway at {}:{}");
    reveal_strlit("Starting MiniBot Agent...");
    reveal_strlit("Type 'exit' to quit.");
    reveal_strlit("{}");
    reveal_strlit("供应商初始化失败：{}");
    reveal_strlit("供應商初始化失敗：{}");
    reveal_strlit("加载配置失败：{}");
    reveal_strlit("已超过最大工具迭代次数 ({})");
    reveal_strlit("已超过最大执行时间 ({}) 秒");
    reveal_strlit("已超過最大執行時間 ({}) 秒");
    reveal_strlit("已超過最大工具迭代次數 ({})");
    reveal_strlit("收到 Webhook 請求：{}");
    reveal_strlit("收到 Webhook 请求：{}");
    reveal_strlit("正在启动 MiniBot Agent...");
    reveal_strlit("正在启动网关 {}:{}");
    reveal_strlit("正在啟動 MiniBot Agent...");
    reveal_strlit("正在啟動閘道器 {}:{}");
    reveal_strlit("网关服务正在监听 {}");
    reveal_strlit("記憶體初始化失敗：{}");
    reveal_strlit("记忆体初始化失败：{}");
    reveal_strlit("載入配置失敗：{}");
    reveal_strlit("輸入 'exit' 結束。");
    reveal_strlit("输入 'exit' 结束。");
    reveal_strlit("配置目录");
    reveal_strlit("配置目錄");
    reveal_strlit("錯誤：{}");
    reveal_strlit("错误：{}");
    reveal_strlit("閘道器服務正在監聽 {}");
    assert("Type 'exit' to quit."@.len() == 20);
    assert("MiniBot MVP"@.len() == 11);
    assert("輸入 'exit' 結束。"@.len() == 13);
    assert("输入 'exit' 结束。"@.len() == 13);
    assert("Starting MiniBot Agent..."@.len() == 25);
    assert("正在啟動 MiniBot Agent..."@.len() == 21);
    assert("正在启动 MiniBot Agent..."@.len() == 21);
    assert("Starting Gateway at {}:{}"@.len() == 25);
    assert("輸入 'exit' 結束。"@[0] != "正在啟動閘道器 {}:{}"@[0]);
    assert("正在启动网关 {}:{}"@.len() == 12);
    assert("MiniBot MVP v{}"@.len() == 15);
    assert("MiniBot MVP 第 {} 版"@.len() == 18);
    assert("Configuration directory"@.len() == 23);
    assert("配置目錄"@.len() == 4);
    assert("配置目录"@.len() == 4);
    assert("MiniBot Agent started. Type 'exit' to quit."@.len() == 43);
    assert("MiniBot Agent 已啟動。輸入 'exit' 結束。"@.len() == 31);
    assert("MiniBot Agent 已启动。输入 'exit' 结束。"@.len() == 31);
    assert("{}"@.len() == 2);
    assert("Max execution time ({}) exceeded"@.len() == 32);
    assert("已超過最大執行時間 ({}) 秒"@.len() == 16);
    assert("已超过最大执行时间 ({}) 秒"@.len() == 16);
    assert("Max tool iterations ({}) exceeded"@.len() == 33);
    assert("已超過最大工具迭代次數 ({})"@.len() == 16);
    assert("已超过最大工具迭代次数 ({})"@.len() == 16);
    assert("Error: {}"@.len() == 9);
    assert("錯誤：{}"@.len() == 5);
    assert("错误：{}"@.len() == 5);
    assert("Failed to initialize provider: {}"@.len() == 33);
    assert("供應商初始化失敗：{}"@.len() == 11);
    assert("供应商初始化失败：{}"@.len() == 11);
    assert("Type 'exit' to quit."@[0] != "Agent run failed: {}"@[0]);
    assert("輸入 'exit' 結束。"@[0] != "Agent 執行失敗：{}"@[0]);
    assert("输入 'exit' 结束。"@[0] != "Agent 执行失败：{}"@[0]);
    assert("Failed to initialize memory: {}"@.len() == 31);
    assert("記憶體初始化失敗：{}"@.len() == 11);
    assert("记忆体初始化失败：{}"@.len() == 11);
    assert("Failed to load configuration: {}"@.len() == 32);
    assert("載入配置失敗：{}"@.len() == 9);
    assert("加载配置失败：{}"@.len() == 9);
    assert("Gateway server listening on {}"@.len() == 30);
    assert("閘道器服務正在監聽 {}"@.len() == 12);
    assert("网关服务正在监听 {}"@.len() == 11);
    assert("Received webhook request: {}"@.len() == 28);
    assert("收到 Webhook 請求：{}"@.len() == 16);
    assert("收到 Webhook 请求：{}"@.len() == 16);
    assert("Agent response: {}"@.len() == 18);
    assert("Agent 回應：{}"@.len() == 11);
    assert("Agent 回应：{}"@.len() == 11);
    assert("Agent error: {}"@.len() == 15);
    assert("Agent 錯誤：{}"@.len() == 11);
    assert("Agent 错误：{}"@.len() == 11);
}

/// The texts of `agent.response` differ from those of every other key, locale by locale.
proof fn lemma_distinct_7(other: Seq<char>)
    requires
        catalog(other) is Some,
        other != "agent.response"@,
    ensures
        texts_distinct(("{}"@, "{}"@, "{}"@), catalog(other).unwrap()),
{
    reveal_strlit("Agent error: {}");
    reveal_strlit("Agent response: {}");
    reveal_strlit("Agent run failed: {}");
    reveal_strlit("Agent 回应：{}");
    reveal_strlit("Agent 回應：{}");
    reveal_strlit("Agent 執行失敗：{}");
    reveal_strlit("Agent 执行失败：{}");
    reveal_strlit("Agent 錯誤：{}");
    reveal_strlit("Agent 错误：{}");
    reveal_strlit("Configuration directory");
    reveal_strlit("Error: {}");
    reveal_strlit("Failed to initialize memory: {}");
    reveal_strlit("Failed to initialize provider: {}");
    reveal_strlit("Failed to load configuration: {}");
    reveal_strlit("Gateway server listening on {}");
    reveal_strlit("Max execution time ({}) exceeded");
    reveal_strlit("Max tool iterations ({}) exceeded");
    reveal_strlit("MiniBot Agent started. Type 'exit' to quit.");
    reveal_strlit("MiniBot Agent 已启动。输入 'exit' 结束。");
    reveal_strlit("MiniBot Agent 已啟動。輸入 'exit' 結束。");
    reveal_strlit("MiniBot MVP");
    reveal_strlit("MiniBot MVP v{}");
    reveal_strlit("MiniBot MVP 第 {} 版");
    reveal_strlit("Received webhook request: {}");
    reveal_strlit("Starting Gateway at {}:{}");
    reveal_strlit("Starting MiniBot Agent...");
    reveal_strlit("Type 'exit' to quit.");
    reveal_strlit("{}");
    reveal_strlit("供应商初始化失败：{}");
    reveal_strlit("供應商初始化失敗：{}");
    reveal_strlit("加载配置失败：{}");
    reveal_strlit("已超过最大工具迭代次数 ({})");
    reveal_strlit("已超过最大执行时间 ({}) 秒");
    reveal_strlit("已超過最大執行時間 ({}) 秒");
    reveal_strlit("已超過最大工具迭代次數 ({})");
    reveal_strlit("收到 Webhook 請求：{}");
    reveal_strlit("收到 Webhook 请求：{}");
    reveal_strlit("正在启动 MiniBot Agent...");
    reveal_strlit("正在启动网关 {}:{}");
    reveal_strlit("正在啟動 MiniBot Agent...");
    reveal_strlit("正在啟動閘道器 {}:{}");
    reveal_strlit("网关服务正在监听 {}");
    reveal_strlit("記憶體初始化失敗：{}");
    reveal_strlit("记忆体初始化失败：{}");
    reveal_strlit("載入配置失敗：{}");
    reveal_strlit("輸入 'exit' 結束。");
    reveal_strlit("输入 'exit' 结束。");
    reveal_strlit("配置目录");
    reveal_strlit("配置目錄");
    reveal_strlit("錯誤：{}");
    reveal_strlit("错误：{}");
    reveal_strlit("閘道器服務正在監聽 {}");
    assert("{}"@.len() == 2);
    assert("MiniBot MVP"@.len() == 11);
    assert("Starting MiniBot Agent..."@.len() == 25);
    assert("正在啟動 MiniBot Agent..."@.len() == 21);
    assert("正在启动 MiniBot Agent..."@.len() == 21);
    assert("Starting Gateway at {}:{}"@.len() == 25);
    assert("正在啟動閘道器 {}:{}"@.len() == 13);
    assert("正在启动网关 {}:{}"@.len() == 12);
    assert("MiniBot MVP v{}"@.len() == 15);
    assert("MiniBot MVP 第 {} 版"@.len() == 18);
    assert("Configuration directory"@.len() == 23);
    assert("配置目錄"@.len() == 4);
    assert("配置目录"@.len() == 4);
    assert("MiniBot Agent started. Type 'exit' to quit."@.len() == 43);
    assert("MiniBot Agent 已啟動。輸入 'exit' 結束。"@.len() == 31);
    assert("MiniBot Agent 已启动。输入 'exit' 结束。"@.len() == 31);
    assert("Type 'exit' to quit."@.len() == 20);
    assert("輸入 'exit' 結束。"@.len() == 13);
    assert("输入 'exit' 结束。"@.len() == 13);
    assert("Max execution time ({}) exceeded"@.len() == 32);
    assert("已超過最大執行時間 ({}) 秒"@.len() == 16);
    assert("已超过最大执行时间 ({}) 秒"@.len() == 16);
    assert("Max tool iterations ({}) exceeded"@.len() == 33);
    assert("已超過最大工具迭代次數 ({})"@.len() == 16);
    assert("已超过最大工具迭代次数 ({})"@.len() == 16);
    assert("Error: {}"@.len() == 9);
    assert("錯誤：{}"@.len() == 5);
    assert("错误：{}"@.len() == 5);
    assert("Failed to initialize provider: {}"@.len() == 33);
    assert("供應商初始化失敗：{}"@.len() == 11);
    assert("供应商初始化失败：{}"@.len() == 11);
    assert("Agent run failed: {}"@.len() == 20);
    assert("Agent 執行失敗：{}"@.len() == 13);
    assert("Agent 执行失败：{}"@.len() == 13);
    assert("Failed to initialize memory: {}"@.len() == 31);
    assert("記憶體初始化失敗：{}"@.len() == 11);
    assert("记忆体初始化失败：{}"@.len() == 11);
    assert("Failed to load configuration: {}"@.len() == 32);
    assert("載入配置失敗：{}"@.len() == 9);
    assert("加载配置失败：{}"@.len() == 9);
    assert("Gateway server listening on {}"@.len() == 30);
    assert("閘道器服務正在監聽 {}"@.len() == 12);
    assert("网关服务正在监听 {}"@.len() == 11);
    assert("Received webhook request: {}"@.len() == 28);
    assert("收到 Webhook 請求：{}"@.len() == 16);
    assert("收到 Webhook 请求：{}"@.len() == 16);
    assert("Agent response: {}"@.len() == 18);
    assert("Agent 回應：{}"@.len() == 11);
    assert("Agent 回应：{}"@.len() == 11);
    assert("Agent error: {}"@.len() == 15);
    assert("Agent 錯誤：{}"@.len() == 11);
    assert("Agent 错误：{}"@.len() == 11);
}

/// The texts of `agent.max_time_exceeded` differ from those of every other key, locale by locale.
proof fn lemma_distinct_8(other: Seq<char>)
    requires
        catalog(other) is Some,
        other != "agent.max_time_exceeded"@,
    ensures
        texts_distinct(("Max execution time ({}) exceeded"@, "已超過最大執行時間 ({}) 秒"@, "已超过最大执行时间 ({}) 秒"@), catalog(other).unwrap()),
{
    reveal_strlit("Agent error: {}");
    reveal_strlit("Agent response: {}");
    reveal_strlit("Agent run failed: {}");
    reveal_strlit("Agent 回应：{}");
    reveal_strlit("Agent 回應：{}");
    reveal_strlit("Agent 執行失敗：{}");
    reveal_strlit("Agent 执行失败：{}");
    reveal_strlit("Agent 錯誤：{}");
    reveal_strlit("Agent 错误：{}");
    reveal_strlit("Configuration directory");
    reveal_strlit("Error: {}");
    reveal_strlit("Failed to initialize memory: {}");
    reveal_strlit("Failed to initialize provider: {}");
    reveal_strlit("Failed to load configuration: {}");
    reveal_strlit("Gateway server listening on {}");
    reveal_strlit("Max execution time ({}) exceeded");
    reveal_strlit("Max tool iterations ({}) exceeded");
    reveal_strlit("MiniBot Agent started. Type 'exit' to quit.");
    reveal_strlit("MiniBot Agent 已启动。输入 'exit' 结束。");
    reveal_strlit("MiniBot Agent 已啟動。輸入 'exit' 結束。");
    reveal_strlit("MiniBot MVP");
    reveal_strlit("MiniBot MVP v{}");
    reveal_strlit("MiniBot MVP 第 {} 版");
    reveal_strlit("Received webhook request: {}");
    reveal_strlit("Starting Gateway at {}:{}");
    reveal_strlit("Starting MiniBot Agent...");
    reveal_strlit("Type 'exit' to quit.");
    reveal_strlit("{}");
    reveal_strlit("供应商初始化失败：{}");
    reveal_strlit("供應商初始化失敗：{}");
    reveal_strlit("加载配置失败：{}");
    reveal_strlit("已超过最大工具迭代次数 ({})");
    reveal_strlit("已超过最大执行时间 ({}) 秒");
    reveal_strlit("已超過最大執行時間 ({}) 秒");
    reveal_strlit("已超過最大工具迭代次數 ({})");
    reveal_strlit("收到 Webhook 請求：{}");
    reveal_strlit("收到 Webhook 请求：{}");
    reveal_strlit("正在启动 MiniBot Agent...");
    reveal_strlit("正在启动网关 {}:{}");
    reveal_strlit("正在啟動 MiniBot Agent...");
    reveal_strlit("正在啟動閘道器 {}:{}");
    reveal_strlit("网关服务正在监听 {}");
    reveal_strlit("記憶體初始化失敗：{}");
    reveal_strlit("记忆体初始化失败：{}");
    reveal_strlit("載入配置失敗：{}");
    reveal_strlit("輸入 'exit' 結束。");
    reveal_strlit("输入 'exit' 结束。");
    reveal_strlit("配置目录");
    reveal_strlit("配置目錄");
    reveal_strlit("錯誤：{}");
    reveal_strlit("错误：{}");
    reveal_strlit("閘道器服務正在監聽 {}");
    assert("Max execution time ({}) exceeded"@.len() == 32);
    assert("MiniBot MVP"@.len() == 11);
    assert("已超過最大執行時間 ({}) 秒"@.len() == 16);
    assert("已超过最大执行时间 ({}) 秒"@.len() == 16);
    assert("Starting MiniBot Agent..."@.len() == 25);
    assert("正在啟動 MiniBot Agent..."@.len() == 21);
    assert("正在启动 MiniBot Agent..."@.len() == 21);
    assert("Starting Gateway at {}:{}"@.len() == 25);
    assert("正在啟動閘道器 {}:{}"@.len() == 13);
    assert("正在启动网关 {}:{}"@.len() == 12);
    assert("MiniBot MVP v{}"@.len() == 15);
    assert("MiniBot MVP 第 {} 版"@.len() == 18);
    assert("Configuration directory"@.len() == 23);
    assert("配置目錄"@.len() == 4);
    assert("配置目录"@.len() == 4);
    assert("MiniBot Agent started. Type 'exit' to quit."@.len() == 43);
    assert("MiniBot Agent 已啟動。輸入 'exit' 結束。"@.len() == 31);
    assert("MiniBot Agent 已启动。输入 'exit' 结束。"@.len() == 31);
    assert("Type 'exit' to quit."@.len() == 20);
    assert("輸入 'exit' 結束。"@.len() == 13);
    assert("输入 'exit' 结束。"@.len() == 13);
    assert("{}"@.len() == 2);
    assert("Max tool iterations ({}) exceeded"@.len() == 33);
    assert("已超過最大執行時間 ({}) 秒"@[5] != "已超過最大工具迭代次數 ({})"@[5]);
    assert("已超过最大执行时间 ({}) 秒"@[5] != "已超过最大工具迭代次数 ({})"@[5]);
    assert("Error: {}"@.len() == 9);
    assert("錯誤：{}"@.len() == 5);
    assert("错误：{}"@.len() == 5);
    assert("Failed to initialize provider: {}"@.len() == 33);
    assert("供應商初始化失敗：{}"@.len() == 11);
    assert("供应商初始化失败：{}"@.len() == 11);
    assert("Agent run failed: {}"@.len() == 20);
    assert("Agent 執行失敗：{}"@.len() == 13);
    assert("Agent 执行失败：{}"@.len() == 13);
    assert("Failed to initialize memory: {}"@.len() == 31);
    assert("記憶體初始化失敗：{}"@.len() == 11);
    assert("记忆体初始化失败：{}"@.len() == 11);
    assert("Max execution time ({}) exceeded"@[0] != "Failed to load configuration: {}"@[0]);
    assert("載入配置失敗：{}"@.len() == 9);
    assert("加载配置失败：{}"@.len() == 9);
    assert("Gateway server listening on {}"@.len() == 30);
    assert("閘道器服務正在監聽 {}"@.len() == 12);
    assert("网关服务正在监听 {}"@.len() == 11);
    assert("Received webhook request: {}"@.len() == 28);
    assert("已超過最大執行時間 ({}) 秒"@[0] != "收到 Webhook 請求：{}"@[0]);
    assert("已超过最大执行时间 ({}) 秒"@[0] != "收到 Webhook 请求：{}"@[0]);
    assert("Agent response: {}"@.len() == 18);
    assert("Agent 回應：{}"@.len() == 11);
    assert("Agent 回应：{}"@.len() == 11);
    assert("Agent error: {}"@.len() == 15);
    assert("Agent 錯誤：{}"@.len() == 11);
    assert("Agent 错误：{}"@.len() == 11);
}

/// The texts of `agent.max_iterations_exceeded` differ from those of every other key, locale by locale.
proof fn lemma_distinct_9(other: Seq<char>)
    requires
        catalog(other) is Some,
        other != "agent.max_iterations_exceeded"@,
    ensures
        texts_distinct(("Max tool iterations ({}) exceeded"@, "已超過最大工具迭代次數 ({})"@, "已超过最大工具迭代次数 ({})"@), catalog(other).unwrap()),
{
    reveal_strlit("Agent error: {}");
    reveal_strlit("Agent response: {}");
    reveal_strlit("Agent run failed: {}");
    reveal_strlit("Agent 回应：{}");
    reveal_strlit("Agent 回應：{}");
    reveal_strlit("Agent 執行失敗：{}");
    reveal_strlit("Agent 执行失败：{}");
    reveal_strlit("Agent 錯誤：{}");
    reveal_strlit("Agent 错误：{}");
    reveal_strlit("Configuration directory");
    reveal_strlit("Error: {}");
    reveal_strlit("Failed to initialize memory: {}");
    reveal_strlit("Failed to initialize provider: {}");
    reveal_strlit("Failed to load configuration: {}");
    reveal_strlit("Gateway server listening on {}");
    reveal_strlit("Max execution time ({}) exceeded");
    reveal_strlit("Max tool iterations ({}) exceeded");
    reveal_strlit("MiniBot Agent started. Type 'exit' to quit.");
    reveal_strlit("MiniBot Agent 已启动。输入 'exit' 结束。");
    reveal_strlit("MiniBot Agent 已啟動。輸入 'exit' 結束。");
    reveal_strlit("MiniBot MVP");
    reveal_strlit("MiniBot MVP v{}");
    reveal_strlit("MiniBot MVP 第 {} 版");
    reveal_strlit("Received webhook request: {}");
    reveal_strlit("Starting Gateway at {}:{}");
    reveal_strlit("Starting MiniBot Agent...");
    reveal_strlit("Type 'exit' to quit.");
    reveal_strlit("{}");
    reveal_strlit("供应商初始化失败：{}");
    reveal_strlit("供應商初始化失敗：{}");
    reveal_strlit("加载配置失败：{}");
    reveal_strlit("已超过最大工具迭代次数 ({})");
    reveal_strlit("已超过最大执行时间 ({}) 秒");
    reveal_strlit("已超過最大執行時間 ({}) 秒");
    reveal_strlit("已超過最大工具迭代次數 ({})");
    reveal_strlit("收到 Webhook 請求：{}");
    reveal_strlit("收到 Webhook 请求：{}");
    reveal_strlit("正在启动 MiniBot Agent...");
    reveal_strlit("正在启动网关 {}:{}");
    reveal_strlit("正在啟動 MiniBot Agent...");
    reveal_strlit("正在啟動閘道器 {}:{}");
    reveal_strlit("网关服务正在监听 {}");
    reveal_strlit("記憶體初始化失敗：{}");
    reveal_strlit("记忆体初始化失败：{}");
    reveal_strlit("載入配置失敗：{}");
    reveal_strlit("輸入 'exit' 結束。");
    reveal_strlit("输入 'exit' 结束。");
    reveal_strlit("配置目录");
    reveal_strlit("配置目錄");
    reveal_strlit("錯誤：{}");
    reveal_strlit("错误：{}");
    reveal_strlit("閘道器服務正在監聽 {}");
    assert("Max tool iterations ({}) exceeded"@.len() == 33);
    assert("MiniBot MVP"@.len() == 11);
    assert("已超過最大工具迭代次數 ({})"@.len() == 16);
    assert("已超过最大工具迭代次数 ({})"@.len() == 16);
    assert("Starting MiniBot Agent..."@.len() == 25);
    assert("正在啟動 MiniBot Agent..."@.len() == 21);
    assert("正在启动 MiniBot Agent..."@.len() == 21);
    assert("Starting Gateway at {}:{}"@.len() == 25);
    assert("正在啟動閘道器 {}:{}"@.len() == 13);
    assert("正在启动网关 {}:{}"@.len() == 12);
    assert("MiniBot MVP v{}"@.len() == 15);
    assert("MiniBot MVP 第 {} 版"@.len() == 18);
    assert("Configuration directory"@.len() == 23);
    assert("配置目錄"@.len() == 4);
    assert("配置目录"@.len() == 4);
    assert("MiniBot Agent started. Type 'exit' to quit."@.len() == 43);
    assert("MiniBot Agent 已啟動。輸入 'exit' 結束。"@.len() == 31);
    assert("MiniBot Agent 已启动。输入 'exit' 结束。"@.len() == 31);
    assert("Type 'exit' to quit."@.len() == 20);
    assert("輸入 'exit' 結束。"@.len() == 13);
    assert("输入 'exit' 结束。"@.len() == 13);
    assert("{}"@.len() == 2);
    assert("Max execution time ({}) exceeded"@.len() == 32);
    assert("已超過最大工具迭代次數 ({})"@[5] != "已超過最大執行時間 ({}) 秒"@[5]);
    assert("已超过最大工具迭代次数 ({})"@[5] != "已超过最大执行时间 ({}) 秒"@[5]);
    assert("Error: {}"@.len() == 9);
    assert("錯誤：{}"@.len() == 5);
    assert("错误：{}"@.len() == 5);
    assert("Max tool iterations ({}) exceeded"@[0] != "Failed to initialize provider: {}"@[0]);
    assert("供應商初始化失敗：{}"@.len() == 11);
    assert("供应商初始化失败：{}"@.len() == 11);
    assert("Agent run failed: {}"@.len() == 20);
    assert("Agent 執行失敗：{}"@.len() == 13);
    assert("Agent 执行失败：{}"@.len() == 13);
    assert("Failed to initialize memory: {}"@.len() == 31);
    assert("記憶體初始化失敗：{}"@.len() == 11);
    assert("记忆体初始化失败：{}"@.len() == 11);
    assert("Failed to load configuration: {}"@.len() == 32);
    assert("載入配置失敗：{}"@.len() == 9);
    assert("加载配置失败：{}"@.len() == 9);
    assert("Gateway server listening on {}"@.len() == 30);
    assert("閘道器服務正在監聽 {}"@.len() == 12);
    assert("网关服务正在监听 {}"@.len() == 11);
    assert("Received webhook request: {}"@.len() == 28);
    assert("已超過最大工具迭代次數 ({})"@[0] != "收到 Webhook 請求：{}"@[0]);
    assert("已超过最大工具迭代次数 ({})"@[0] != "收到 Webhook 请求：{}"@[0]);
    assert("Agent response: {}"@.len() == 18);
    assert("Agent 回應：{}"@.len() == 11);
    assert("Agent 回应：{}"@.len() == 11);
    assert("Agent error: {}"@.len() == 15);
    assert("Agent 錯誤：{}"@.len() == 11);
    assert("Agent 错误：{}"@.len() == 11);
}

/// The texts of `error.prefix` differ from those of every other key, locale by locale.
proof fn lemma_distinct_10(other: Seq<char>)
    requires
        catalog(other) is Some,
        other != "error.prefix"@,
    ensures
        texts_distinct(("Error: {}"@, "錯誤：{}"@, "错误：{}"@), catalog(other).unwrap()),
{
    reveal_strlit("Agent error: {}");
    reveal_strlit("Agent response: {}");
    reveal_strlit("Agent run failed: {}");
    reveal_strlit("Agent 回应：{}");
    reveal_strlit("Agent 回應：{}");
    reveal_strlit("Agent 執行失敗：{}");
    reveal_strlit("Agent 执行失败：{}");
    reveal_strlit("Agent 錯誤：{}");
    reveal_strlit("Agent 错误：{}");
    reveal_strlit("Configuration directory");
    reveal_strlit("Error: {}");
    reveal_strlit("Failed to initialize memory: {}");
    reveal_strlit("Failed to initialize provider: {}");
    reveal_strlit("Failed to load configuration: {}");
    reveal_strlit("Gateway server listening on {}");
    reveal_strlit("Max execution time ({}) exceeded");
    reveal_strlit("Max tool iterations ({}) exceeded");
    reveal_strlit("MiniBot Agent started. Type 'exit' to quit.");
    reveal_strlit("MiniBot Agent 已启动。输入 'exit' 结束。");
    reveal_strlit("MiniBot Agent 已啟動。輸入 'exit' 結束。");
    reveal_strlit("MiniBot MVP");
    reveal_strlit("MiniBot MVP v{}");
    reveal_strlit("MiniBot MVP 第 {} 版");
    reveal_strlit("Received webhook request: {}");
    reveal_strlit("Starting Gateway at {}:{}");
    reveal_strlit("Starting MiniBot Agent...");
    reveal_strlit("Type 'exit' to quit.");
    reveal_strlit("{}");
    reveal_strlit("供应商初始化失败：{}");
    reveal_strlit("供應商初始化失敗：{}");
    reveal_strlit("加载配置失败：{}");
    reveal_strlit("已超过最大工具迭代次数 ({})");
    reveal_strlit("已超过最大执行时间 ({}) 秒");
    reveal_strlit("已超過最大執行時間 ({}) 秒");
    reveal_strlit("已超過最大工具迭代次數 ({})");
    reveal_strlit("收到 Webhook 請求：{}");
    reveal_strlit("收到 Webhook 请求：{}");
    reveal_strlit("正在启动 MiniBot Agent...");
    reveal_strlit("正在启动网关 {}:{}");
    reveal_strlit("正在啟動 MiniBot Agent...");
    reveal_strlit("正在啟動閘道器 {}:{}");
    reveal_strlit("网关服务正在监听 {}");
    reveal_strlit("記憶體初始化失敗：{}");
    reveal_strlit("记忆体初始化失败：{}");
    reveal_strlit("載入配置失敗：{}");
    reveal_strlit("輸入 'exit' 結束。");
    reveal_strlit("输入 'exit' 结束。");
    reveal_strlit("配置目录");
    reveal_strlit("配置目錄");
    reveal_strlit("錯誤：{}");
    reveal_strlit("错误：{}");
    reveal_strlit("閘道器服務正在監聽 {}");
    assert("Error: {}"@.len() == 9);
    assert("MiniBot MVP"@.len() == 11);
    assert("錯誤：{}"@.len() == 5);
    assert("错误：{}"@.len() == 5);
    assert("Starting MiniBot Agent..."@.len() == 25);
    assert("正在啟動 MiniBot Agent..."@.len() == 21);
    assert("正在启动 MiniBot Agent..."@.len() == 21);
    assert("Starting Gateway at {}:{}"@.len() == 25);
    assert("正在啟動閘道器 {}:{}"@.len() == 13);
    assert("正在启动网关 {}:{}"@.len() == 12);
    assert("MiniBot MVP v{}"@.len() == 15);
    assert("MiniBot MVP 第 {} 版"@.len() == 18);
    assert("Configuration directory"@.len() == 23);
    assert("配置目錄"@.len() == 4);
    assert("配置目录"@.len() == 4);
    assert("MiniBot Agent started. Type 'exit' to quit."@.len() == 43);
    assert("MiniBot Agent 已啟動。輸入 'exit' 結束。"@.len() == 31);
    assert("MiniBot Agent 已启动。输入 'exit' 结束。"@.len() == 31);
    assert("Type 'exit' to quit."@.len() == 20);
    assert("輸入 'exit' 結束。"@.len() == 13);
    assert("输入 'exit' 结束。"@.len() == 13);
    assert("{}"@.len() == 2);
    assert("Max execution time ({}) exceeded"@.len() == 32);
    assert("已超過最大執行時間 ({}) 秒"@.len() == 16);
    assert("已超过最大执行时间 ({}) 秒"@.len() == 16);
    assert("Max tool iterations ({}) exceeded"@.len() == 33);
    assert("已超過最大工具迭代次數 ({})"@.len() == 16);
    assert("已超过最大工具迭代次数 ({})"@.len() == 16);
    assert("Failed to initialize provider: {}"@.len() == 33);
    assert("供應商初始化失敗：{}"@.len() == 11);
    assert("供应商初始化失败：{}"@.len() == 11);
    assert("Agent run failed: {}"@.len() == 20);
    assert("Agent 執行失敗：{}"@.len() == 13);
    assert("Agent 执行失败：{}"@.len() == 13);
    assert("Failed to initialize memory: {}"@.len() == 31);
    assert("記憶體初始化失敗：{}"@.len() == 11);
    assert("记忆体初始化失败：{}"@.len() == 11);
    assert("Failed to load configuration: {}"@.len() == 32);
    assert("載入配置失敗：{}"@.len() == 9);
    assert("加载配置失败：{}"@.len() == 9);
    assert("Gateway server listening on {}"@.len() == 30);
    assert("閘道器服務正在監聽 {}"@.len() == 12);
    assert("网关服务正在监听 {}"@.len() == 11);
    assert("Received webhook request: {}"@.len() == 28);
    assert("收到 Webhook 請求：{}"@.len() == 16);
    assert("收到 Webhook 请求：{}"@.len() == 16);
    assert("Agent response: {}"@.len() == 18);
    assert("Agent 回應：{}"@.len() == 11);
    assert("Agent 回应：{}"@.len() == 11);
    assert("Agent error: {}"@.len() == 15);
    assert("Agent 錯誤：{}"@.len() == 11);
    assert("Agent 错误：{}"@.len() == 11);
}

/// The texts of `error.provider_init` differ from those of every other key, locale by locale.
proof fn lemma_distinct_11(other: Seq<char>)
    requires
        catalog(other) is Some,
        other != "error.provider_init"@,
    ensures
        texts_distinct(("Failed to initialize provider: {}"@, "供應商初始化失敗：{}"@, "供应商初始化失败：{}"@), catalog(other).unwrap()),
{
    reveal_strlit("Agent error: {}");
    reveal_strlit("Agent response: {}");
    reveal_strlit("Agent run failed: {}");
    reveal_strlit("Agent 回应：{}");
    reveal_strlit("Agent 回應：{}");
    reveal_strlit("Agent 執行失敗：{}");
    reveal_strlit("Agent 执行失败：{}");
    reveal_strlit("Agent 錯誤：{}");
    reveal_strlit("Agent 错误：{}");
    reveal_strlit("Configuration directory");
    reveal_strlit("Error: {}");
    reveal_strlit("Failed to initialize memory: {}");
    reveal_strlit("Failed to initialize provider: {}");
    reveal_strlit("Failed to load configuration: {}");
    reveal_strlit("Gateway server listening on {}");
    reveal_strlit("Max execution time ({}) exceeded");
    reveal_strlit("Max tool iterations ({}) exceeded");
    reveal_strlit("MiniBot Agent started. Type 'exit' to quit.");
    reveal_strlit("MiniBot Agent 已启动。输入 'exit' 结束。");
    reveal_strlit("MiniBot Agent 已啟動。輸入 'exit' 結束。");
    reveal_strlit("MiniBot MVP");
    reveal_strlit("MiniBot MVP v{}");
    reveal_strlit("MiniBot MVP 第 {} 版");
    reveal_strlit("Received webhook request: {}");
    reveal_strlit("Starting Gateway at {}:{}");
    reveal_strlit("Starting MiniBot Agent...");
    reveal_strlit("Type 'exit' to quit.");
    reveal_strlit("{}");
    reveal_strlit("供应商初始化失败：{}");
    reveal_strlit("供應商初始化失敗：{}");
    reveal_strlit("加载配置失败：{}");
    reveal_strlit("已超过最大工具迭代次数 ({})");
    reveal_strlit("已超过最大执行时间 ({}) 秒");
    reveal_strlit("已超過最大執行時間 ({}) 秒");
    reveal_strlit("已超過最大工具迭代次數 ({})");
    reveal_strlit("收到 Webhook 請求：{}");
    reveal_strlit("收到 Webhook 请求：{}");
    reveal_strlit("正在启动 MiniBot Agent...");
    reveal_strlit("正在启动网关 {}:{}");
    reveal_strlit("正在啟動 MiniBot Agent...");
    reveal_strlit("正在啟動閘道器 {}:{}");
    reveal_strlit("网关服务正在监听 {}");
    reveal_strlit("記憶體初始化失敗：{}");
    reveal_strlit("记忆体初始化失败：{}");
    reveal_strlit("載入配置失敗：{}");
    reveal_strlit("輸入 'exit' 結束。");
    reveal_strlit("输入 'exit' 结束。");
    reveal_strlit("配置目录");
    reveal_strlit("配置目錄");
    reveal_strlit("錯誤：{}");
    reveal_strlit("错误：{}");
    reveal_strlit("閘道器服務正在監聽 {}");
    assert("Failed to initialize provider: {}"@.len() == 33);
    assert("MiniBot MVP"@.len() == 11);
    assert("供應商初始化失敗：{}"@[0] != "MiniBot MVP"@[0]);
    assert("供应商初始化失败：{}"@[0] != "MiniBot MVP"@[0]);
    assert("Starting MiniBot Agent..."@.len() == 25);
    assert("供應商初始化失敗：{}"@.len() == 11);
    assert("正在啟動 MiniBot Agent..."@.len() == 21);
    assert("供应商初始化失败：{}"@.len() == 11);
    assert("正在启动 MiniBot Agent..."@.len() == 21);
    assert("Starting Gateway at {}:{}"@.len() == 25);
    assert("正在啟動閘道器 {}:{}"@.len() == 13);
    assert("正在启动网关 {}:{}"@.len() == 12);
    assert("MiniBot MVP v{}"@.len() == 15);
    assert("MiniBot MVP 第 {} 版"@.len() == 18);
    assert("Configuration directory"@.len() == 23);
    assert("配置目錄"@.len() == 4);
    assert("配置目录"@.len() == 4);
    assert("MiniBot Agent started. Type 'exit' to quit."@.len() == 43);
    assert("MiniBot Agent 已啟動。輸入 'exit' 結束。"@.len() == 31);
    assert("MiniBot Agent 已启动。输入 'exit' 结束。"@.len() == 31);
    assert("Type 'exit' to quit."@.len() == 20);
    assert("輸入 'exit' 結束。"@.len() == 13);
    assert("输入 'exit' 结束。"@.len() == 13);
    assert("{}"@.len() == 2);
    assert("Max execution time ({}) exceeded"@.len() == 32);
    assert("已超過最大執行時間 ({}) 秒"@.len() == 16);
    assert("已超过最大执行时间 ({}) 秒"@.len() == 16);
    assert("Failed to initialize provider: {}"@[0] != "Max tool iterations ({}) exceeded"@[0]);
    assert("已超過最大工具迭代次數 ({})"@.len() == 16);
    assert("已超过最大工具迭代次数 ({})"@.len() == 16);
    assert("Error: {}"@.len() == 9);
    assert("錯誤：{}"@.len() == 5);
    assert("错误：{}"@.len() == 5);
    assert("Agent run failed: {}"@.len() == 20);
    assert("Agent 執行失敗：{}"@.len() == 13);
    assert("Agent 执行失败：{}"@.len() == 13);
    assert("Failed to initialize memory: {}"@.len() == 31);
    assert("供應商初始化失敗：{}"@[0] != "記憶體初始化失敗：{}"@[0]);
    assert("供应商初始化失败：{}"@[0] != "记忆体初始化失败：{}"@[0]);
    assert("Failed to load configuration: {}"@.len() == 32);
    assert("載入配置失敗：{}"@.len() == 9);
    assert("加载配置失败：{}"@.len() == 9);
    assert("Gateway server listening on {}"@.len() == 30);
    assert("閘道器服務正在監聽 {}"@.len() == 12);
    assert("供应商初始化失败：{}"@[0] != "网关服务正在监听 {}"@[0]);
    assert("Received webhook request: {}"@.len() == 28);
    assert("收到 Webhook 請求：{}"@.len() == 16);
    assert("收到 Webhook 请求：{}"@.len() == 16);
    assert("Agent response: {}"@.len() == 18);
    assert("供應商初始化失敗：{}"@[0] != "Agent 回應：{}"@[0]);
    assert("供应商初始化失败：{}"@[0] != "Agent 回应：{}"@[0]);
    assert("Agent error: {}"@.len() == 15);
    assert("供應商初始化失敗：{}"@[0] != "Agent 錯誤：{}"@[0]);
    assert("供应商初始化失败：{}"@[0] != "Agent 错误：{}"@[0]);
}

/// The texts of `error.agent_run` differ from those of every other key, locale by locale.
proof fn lemma_distinct_12(other: Seq<char>)
    requires
        catalog(other) is Some,
        other != "error.agent_run"@,
    ensures
        texts_distinct(("Agent run failed: {}"@, "Agent 執行失敗：{}"@, "Agent 执行失败：{}"@), catalog(other).unwrap()),
{
    reveal_strlit("Agent error: {}");
    reveal_strlit("Agent response: {}");
    reveal_strlit("Agent run failed: {}");
    reveal_strlit("Agent 回应：{}");
    reveal_strlit("Agent 回應：{}");
    reveal_strlit("Agent 執行失敗：{}");
    reveal_strlit("Agent 执行失败：{}");
    reveal_strlit("Agent 錯誤：{}");
    reveal_strlit("Agent 错误：{}");
    reveal_strlit("Configuration directory");
    reveal_strlit("Error: {}");
    reveal_strlit("Failed to initialize memory: {}");
    reveal_strlit("Failed to initialize provider: {}");
    reveal_strlit("Failed to load configuration: {}");
    reveal_strlit("Gateway server listening on {}");
    reveal_strlit("Max execution time ({}) exceeded");
    reveal_strlit("Max tool iterations ({}) exceeded");
    reveal_strlit("MiniBot Agent started. Type 'exit' to quit.");
    reveal_strlit("MiniBot Agent 已启动。输入 'exit' 结束。");
    reveal_strlit("MiniBot Agent 已啟動。輸入 'exit' 結束。");
    reveal_strlit("MiniBot MVP");
    reveal_strlit("MiniBot MVP v{}");
    reveal_strlit("MiniBot MVP 第 {} 版");
    reveal_strlit("Received webhook request: {}");
    reveal_strlit("Starting Gateway at {}:{}");
    reveal_strlit("Starting MiniBot Agent...");
    reveal_strlit("Type 'exit' to quit.");
    reveal_strlit("{}");
    reveal_strlit("供应商初始化失败：{}");
    reveal_strlit("供應商初始化失敗：{}");
    reveal_strlit("加载配置失败：{}");
    reveal_strlit("已超过最大工具迭代次数 ({})");
    reveal_strlit("已超过最大执行时间 ({}) 秒");
    reveal_strlit("已超過最大執行時間 ({}) 秒");
    reveal_strlit("已超過最大工具迭代次數 ({})");
    reveal_strlit("收到 Webhook 請求：{}");
    reveal_strlit("收到 Webhook 请求：{}");
    reveal_strlit("正在启动 MiniBot Agent...");
    reveal_strlit("正在启动网关 {}:{}");
    reveal_strlit("正在啟動 MiniBot Agent...");
    reveal_strlit("正在啟動閘道器 {}:{}");
    reveal_strlit("网关服务正在监听 {}");
    reveal_strlit("記憶體初始化失敗：{}");
    reveal_strlit("记忆体初始化失败：{}");
    reveal_strlit("載入配置失敗：{}");
    reveal_strlit("輸入 'exit' 結束。");
    reveal_strlit("输入 'exit' 结束。");
    reveal_strlit("配置目录");
    reveal_strlit("配置目錄");
    reveal_strlit("錯誤：{}");
    reveal_strlit("错误：{}");
    reveal_strlit("閘道器服務正在監聽 {}");
    assert("Agent run failed: {}"@.len() == 20);
    assert("MiniBot MVP"@.len() == 11);
    assert("Agent 執行失敗：{}"@.len() == 13);
    assert("Agent 执行失败：{}"@.len() == 13);
    assert("Starting MiniBot Agent..."@.len() == 25);
    assert("正在啟動 MiniBot Agent..."@.len() == 21);
    assert("正在启动 MiniBot Agent..."@.len() == 21);
    assert("Starting Gateway at {}:{}"@.len() == 25);
    assert("Agent 執行失敗：{}"@[0] != "正在啟動閘道器 {}:{}"@[0]);
    assert("正在启动网关 {}:{}"@.len() == 12);
    assert("MiniBot MVP v{}"@.len() == 15);
    assert("MiniBot MVP 第 {} 版"@.len() == 18);
    assert("Configuration directory"@.len() == 23);
    assert("配置目錄"@.len() == 4);
    assert("配置目录"@.len() == 4);
    assert("MiniBot Agent started. Type 'exit' to quit."@.len() == 43);
    assert("MiniBot Agent 已啟動。輸入 'exit' 結束。"@.len() == 31);
    assert("MiniBot Agent 已启动。输入 'exit' 结束。"@.len() == 31);
    assert("Agent run failed: {}"@[0] != "Type 'exit' to quit."@[0]);
    assert("Agent 執行失敗：{}"@[0] != "輸入 'exit' 結束。"@[0]);
    assert("Agent 执行失败：{}"@[0] != "输入 'exit' 结束。"@[0]);
    assert("{}"@.len() == 2);
    assert("Max execution time ({}) exceeded"@.len() == 32);
    assert("已超過最大執行時間 ({}) 秒"@.len() == 16);
    assert("已超过最大执行时间 ({}) 秒"@.len() == 16);
    assert("Max tool iterations ({}) exceeded"@.len() == 33);
    assert("已超過最大工具迭代次數 ({})"@.len() == 16);
    assert("已超过最大工具迭代次数 ({})"@.len() == 16);
    assert("Error: {}"@.len() == 9);
    assert("錯誤：{}"@.len() == 5);
    assert("错误：{}"@.len() == 5);
    assert("Failed to initialize provider: {}"@.len() == 33);
    assert("供應商初始化失敗：{}"@.len() == 11);
    assert("供应商初始化失败：{}"@.len() == 11);
    assert("Failed to initialize memory: {}"@.len() == 31);
    assert("記憶體初始化失敗：{}"@.len() == 11);
    assert("记忆体初始化失败：{}"@.len() == 11);
    assert("Failed to load configuration: {}"@.len() == 32);
    assert("載入配置失敗：{}"@.len() == 9);
    assert("加载配置失败：{}"@.len() == 9);
    assert("Gateway server listening on {}"@.len() == 30);
    assert("閘道器服務正在監聽 {}"@.len() == 12);
    assert("网关服务正在监听 {}"@.len() == 11);
    assert("Received webhook request: {}"@.len() == 28);
    assert("收到 Webhook 請求：{}"@.len() == 16);
    assert("收到 Webhook 请求：{}"@.len() == 16);
    assert("Agent response: {}"@.len() == 18);
    assert("Agent 回應：{}"@.len() == 11);
    assert("Agent 回应：{}"@.len() == 11);
    assert("Agent error: {}"@.len() == 15);
    assert("Agent 錯誤：{}"@.len() == 11);
    assert("Agent 错误：{}"@.len() == 11);
}

/// The texts of `error.memory_init` differ from those of every other key, locale by locale.
proof fn lemma_distinct_13(other: Seq<char>)
    requires
        catalog(other) is Some,
        other != "error.memory_init"@,
    ensures
        texts_distinct(("Failed to initialize memory: {}"@, "記憶體初始化失敗：{}"@, "记忆体初始化失败：{}"@), catalog(other).unwrap()),
{
    reveal_strlit("Agent error: {}");
    reveal_strlit("Agent response: {}");
    reveal_strlit("Agent run failed: {}");
    reveal_strlit("Agent 回应：{}");
    reveal_strlit("Agent 回應：{}");
    reveal_strlit("Agent 執行失敗：{}");
    reveal_strlit("Agent 执行失败：{}");
    reveal_strlit("Agent 錯誤：{}");
    reveal_strlit("Agent 错误：{}");
    reveal_strlit("Configuration directory");
    reveal_strlit("Error: {}");
    reveal_strlit("Failed to initialize memory: {}");
    reveal_strlit("Failed to initialize provider: {}");
    reveal_strlit("Failed to load configuration: {}");
    reveal_strlit("Gateway server listening on {}");
    reveal_strlit("Max execution time ({}) exceeded");
    reveal_strlit("Max tool iterations ({}) exceeded");
    reveal_strlit("MiniBot Agent started. Type 'exit' to quit.");
    reveal_strlit("MiniBot Agent 已启动。输入 'exit' 结束。");
    reveal_strlit("MiniBot Agent 已啟動。輸入 'exit' 結束。");
    reveal_strlit("MiniBot MVP");
    reveal_strlit("MiniBot MVP v{}");
    reveal_strlit("MiniBot MVP 第 {} 版");
    reveal_strlit("Received webhook request: {}");
    reveal_strlit("Starting Gateway at {}:{}");
    reveal_strlit("Starting MiniBot Agent...");
    reveal_strlit("Type 'exit' to quit.");
    reveal_strlit("{}");
    reveal_strlit("供应商初始化失败：{}");
    reveal_strlit("供應商初始化失敗：{}");
    reveal_strlit("加载配置失败：{}");
    reveal_strlit("已超过最大工具迭代次数 ({})");
    reveal_strlit("已超过最大执行时间 ({}) 秒");
    reveal_strlit("已超過最大執行時間 ({}) 秒");
    reveal_strlit("已超過最大工具迭代次數 ({})");
    reveal_strlit("收到 Webhook 請求：{}");
    reveal_strlit("收到 Webhook 请求：{}");
    reveal_strlit("正在启动 MiniBot Agent...");
    reveal_strlit("正在启动网关 {}:{}");
    reveal_strlit("正在啟動 MiniBot Agent...");
    reveal_strlit("正在啟動閘道器 {}:{}");
    reveal_strlit("网关服务正在监听 {}");
    reveal_strlit("記憶體初始化失敗：{}");
    reveal_strlit("记忆体初始化失败：{}");
    reveal_strlit("載入配置失敗：{}");
    reveal_strlit("輸入 'exit' 結束。");
    reveal_strlit("输入 'exit' 结束。");
    reveal_strlit("配置目录");
    reveal_strlit("配置目錄");
    reveal_strlit("錯誤：{}");
    reveal_strlit("错误：{}");
    reveal_strlit("閘道器服務正在監聽 {}");
    assert("Failed to initialize memory: {}"@.len() == 31);
    assert("MiniBot MVP"@.len() == 11);
    assert("記憶體初始化失敗：{}"@[0] != "MiniBot MVP"@[0]);
    assert("记忆体初始化失败：{}"@[0] != "MiniBot MVP"@[0]);
    assert("Starting MiniBot Agent..."@.len() == 25);
    assert("記憶體初始化失敗：{}"@.len() == 11);
    assert("正在啟動 MiniBot Agent..."@.len() == 21);
    assert("记忆体初始化失败：{}"@.len() == 11);
    assert("正在启动 MiniBot Agent..."@.len() == 21);
    assert("Starting Gateway at {}:{}"@.len() == 25);
    assert("正在啟動閘道器 {}:{}"@.len() == 13);
    assert("正在启动网关 {}:{}"@.len() == 12);
    assert("MiniBot MVP v{}"@.len() == 15);
    assert("MiniBot MVP 第 {} 版"@.len() == 18);
    assert("Configuration directory"@.len() == 23);
    assert("配置目錄"@.len() == 4);
    assert("配置目录"@.len() == 4);
    assert("MiniBot Agent started. Type 'exit' to quit."@.len() == 43);
    assert("MiniBot Agent 已啟動。輸入 'exit' 結束。"@.len() == 31);
    assert("MiniBot Agent 已启动。输入 'exit' 结束。"@.len() == 31);
    assert("Type 'exit' to quit."@.len() == 20);
    assert("輸入 'exit' 結束。"@.len() == 13);
    assert("输入 'exit' 结束。"@.len() == 13);
    assert("{}"@.len() == 2);
    assert("Max execution time ({}) exceeded"@.len() == 32);
    assert("已超過最大執行時間 ({}) 秒"@.len() == 16);
    assert("已超过最大执行时间 ({}) 秒"@.len() == 16);
    assert("Max tool iterations ({}) exceeded"@.len() == 33);
    assert("已超過最大工具迭代次數 ({})"@.len() == 16);
    assert("已超过最大工具迭代次数 ({})"@.len() == 16);
    assert("Error: {}"@.len() == 9);
    assert("錯誤：{}"@.len() == 5);
    assert("错误：{}"@.len() == 5);
    assert("Failed to initialize provider: {}"@.len() == 33);
    assert("記憶體初始化失敗：{}"@[0] != "供應商初始化失敗：{}"@[0]);
    assert("记忆体初始化失败：{}"@[0] != "供应商初始化失败：{}"@[0]);
    assert("Agent run failed: {}"@.len() == 20);
    assert("Agent 執行失敗：{}"@.len() == 13);
    assert("Agent 执行失败：{}"@.len() == 13);
    assert("Failed to load configuration: {}"@.len() == 32);
    assert("載入配置失敗：{}"@.len() == 9);
    assert("加载配置失败：{}"@.len() == 9);
    assert("Gateway server listening on {}"@.len() == 30);
    assert("閘道器服務正在監聽 {}"@.len() == 12);
    assert("记忆体初始化失败：{}"@[0] != "网关服务正在监听 {}"@[0]);
    assert("Received webhook request: {}"@.len() == 28);
    assert("收到 Webhook 請求：{}"@.len() == 16);
    assert("收到 Webhook 请求：{}"@.len() == 16);
    assert("Agent response: {}"@.len() == 18);
    assert("記憶體初始化失敗：{}"@[0] != "Agent 回應：{}"@[0]);
    assert("记忆体初始化失败：{}"@[0] != "Agent 回应：{}"@[0]);
    assert("Agent error: {}"@.len() == 15);
    assert("記憶體初始化失敗：{}"@[0] != "Agent 錯誤：{}"@[0]);
    assert("记忆体初始化失败：{}"@[0] != "Agent 错误：{}"@[0]);
}

/// The texts of `error.config_load` differ from those of every other key, locale by locale.
proof fn lemma_distinct_14(other: Seq<char>)
    requires
        catalog(other) is Some,
        other != "error.config_load"@,
    ensures
        texts_distinct(("Failed to load configuration: {}"@, "載入配置失敗：{}"@, "加载配置失败：{}"@), catalog(other).unwrap()),
{
    reveal_strlit("Agent error: {}");
    reveal_strlit("Agent response: {}");
    reveal_strlit("Agent run failed: {}");
    reveal_strlit("Agent 回应：{}");
    reveal_strlit("Agent 回應：{}");
    reveal_strlit("Agent 執行失敗：{}");
    reveal_strlit("Agent 执行失败：{}");
    reveal_strlit("Agent 錯誤：{}");
    reveal_strlit("Agent 错误：{}");
    reveal_strlit("Configuration directory");
    reveal_strlit("Error: {}");
    reveal_strlit("Failed to initialize memory: {}");
    reveal_strlit("Failed to initialize provider: {}");
    reveal_strlit("Failed to load configuration: {}");
    reveal_strlit("Gateway server listening on {}");
    reveal_strlit("Max execution time ({}) exceeded");
    reveal_strlit("Max tool iterations ({}) exceeded");
    reveal_strlit("MiniBot Agent started. Type 'exit' to quit.");
    reveal_strlit("MiniBot Agent 已启动。输入 'exit' 结束。");
    reveal_strlit("MiniBot Agent 已啟動。輸入 'exit' 結束。");
    reveal_strlit("MiniBot MVP");
    reveal_strlit("MiniBot MVP v{}");
    reveal_strlit("MiniBot MVP 第 {} 版");
    reveal_strlit("Received webhook request: {}");
    reveal_strlit("Starting Gateway at {}:{}");
    reveal_strlit("Starting MiniBot Agent...");
    reveal_strlit("Type 'exit' to quit.");
    reveal_strlit("{}");
    reveal_strlit("供应商初始化失败：{}");
    reveal_strlit("供應商初始化失敗：{}");
    reveal_strlit("加载配置失败：{}");
    reveal_strlit("已超过最大工具迭代次数 ({})");
    reveal_strlit("已超过最大执行时间 ({}) 秒");
    reveal_strlit("已超過最大執行時間 ({}) 秒");
    reveal_strlit("已超過最大工具迭代次數 ({})");
    reveal_strlit("收到 Webhook 請求：{}");
    reveal_strlit("收到 Webhook 请求：{}");
    reveal_strlit("正在启动 MiniBot Agent...");
    reveal_strlit("正在启动网关 {}:{}");
    reveal_strlit("正在啟動 MiniBot Agent...");
    reveal_strlit("正在啟動閘道器 {}:{}");
    reveal_strlit("网关服务正在监听 {}");
    reveal_strlit("記憶體初始化失敗：{}");
    reveal_strlit("记忆体初始化失败：{}");
    reveal_strlit("載入配置失敗：{}");
    reveal_strlit("輸入 'exit' 結束。");
    reveal_strlit("输入 'exit' 结束。");
    reveal_strlit("配置目录");
    reveal_strlit("配置目錄");
    reveal_strlit("錯誤：{}");
    reveal_strlit("错误：{}");
    reveal_strlit("閘道器服務正在監聽 {}");
    assert("Failed to load configuration: {}"@.len() == 32);
    assert("MiniBot MVP"@.len() == 11);
    assert("載入配置失敗：{}"@.len() == 9);
    assert("加载配置失败：{}"@.len() == 9);
    assert("Starting MiniBot Agent..."@.len() == 25);
    assert("正在啟動 MiniBot Agent..."@.len() == 21);
    assert("正在启动 MiniBot Agent..."@.len() == 21);
    assert("Starting Gateway at {}:{}"@.len() == 25);
    assert("正在啟動閘道器 {}:{}"@.len() == 13);
    assert("正在启动网关 {}:{}"@.len() == 12);
    assert("MiniBot MVP v{}"@.len() == 15);
    assert("MiniBot MVP 第 {} 版"@.len() == 18);
    assert("Configuration directory"@.len() == 23);
    assert("配置目錄"@.len() == 4);
    assert("配置目录"@.len() == 4);
    assert("MiniBot Agent started. Type 'exit' to quit."@.len() == 43);
    assert("MiniBot Agent 已啟動。輸入 'exit' 結束。"@.len() == 31);
    assert("MiniBot Agent 已启动。输入 'exit' 结束。"@.len() == 31);
    assert("Type 'exit' to quit."@.len() == 20);
    assert("輸入 'exit' 結束。"@.len() == 13);
    assert("输入 'exit' 结束。"@.len() == 13);
    assert("{}"@.len() == 2);
    assert("Failed to load configuration: {}"@[0] != "Max execution time ({}) exceeded"@[0]);
    assert("已超過最大執行時間 ({}) 秒"@.len() == 16);
    assert("已超过最大执行时间 ({}) 秒"@.len() == 16);
    assert("Max tool iterations ({}) exceeded"@.len() == 33);
    assert("已超過最大工具迭代次數 ({})"@.len() == 16);
    assert("已超过最大工具迭代次数 ({})"@.len() == 16);
    assert("Error: {}"@.len() == 9);
    assert("錯誤：{}"@.len() == 5);
    assert("错误：{}"@.len() == 5);
    assert("Failed to initialize provider: {}"@.len() == 33);
    assert("供應商初始化失敗：{}"@.len() == 11);
    assert("供应商初始化失败：{}"@.len() == 11);
    assert("Agent run failed: {}"@.len() == 20);
    assert("Agent 執行失敗：{}"@.len() == 13);
    assert("Agent 执行失败：{}"@.len() == 13);
    assert("Failed to initialize memory: {}"@.len() == 31);
    assert("記憶體初始化失敗：{}"@.len() == 11);
    assert("记忆体初始化失败：{}"@.len() == 11);
    assert("Gateway server listening on {}"@.len() == 30);
    assert("閘道器服務正在監聽 {}"@.len() == 12);
    assert("网关服务正在监听 {}"@.len() == 11);
    assert("Received webhook request: {}"@.len() == 28);
    assert("收到 Webhook 請求：{}"@.len() == 16);
    assert("收到 Webhook 请求：{}"@.len() == 16);
    assert("Agent response: {}"@.len() == 18);
    assert("Agent 回應：{}"@.len() == 11);
    assert("Agent 回应：{}"@.len() == 11);
    assert("Agent error: {}"@.len() == 15);
    assert("Agent 錯誤：{}"@.len() == 11);
    assert("Agent 错误：{}"@.len() == 11);
}

/// The texts of `gateway.listening` differ from those of every other key, locale by locale.
proof fn lemma_distinct_15(other: Seq<char>)
    requires
        catalog(other) is Some,
        other != "gateway.listening"@,
    ensures
        texts_distinct(("Gateway server listening on {}"@, "閘道器服務正在監聽 {}"@, "网关服务正在监听 {}"@), catalog(other).unwrap()),
{
    reveal_strlit("Agent error: {}");
    reveal_strlit("Agent response: {}");
    reveal_strlit("Agent run failed: {}");
    reveal_strlit("Agent 回应：{}");
    reveal_strlit("Agent 回應：{}");
    reveal_strlit("Agent 執行失敗：{}");
    reveal_strlit("Agent 执行失败：{}");
    reveal_strlit("Agent 錯誤：{}");
    reveal_strlit("Agent 错误：{}");
    reveal_strlit("Configuration directory");
    reveal_strlit("Error: {}");
    reveal_strlit("Failed to initialize memory: {}");
    reveal_strlit("Failed to initialize provider: {}");
    reveal_strlit("Failed to load configuration: {}");
    reveal_strlit("Gateway server listening on {}");
    reveal_strlit("Max execution time ({}) exceeded");
    reveal_strlit("Max tool iterations ({}) exceeded");
    reveal_strlit("MiniBot Agent started. Type 'exit' to quit.");
    reveal_strlit("MiniBot Agent 已启动。输入 'exit' 结束。");
    reveal_strlit("MiniBot Agent 已啟動。輸入 'exit' 結束。");
    reveal_strlit("MiniBot MVP");
    reveal_strlit("MiniBot MVP v{}");
    reveal_strlit("MiniBot MVP 第 {} 版");
    reveal_strlit("Received webhook request: {}");
    reveal_strlit("Starting Gateway at {}:{}");
    reveal_strlit("Starting MiniBot Agent...");
    reveal_strlit("Type 'exit' to quit.");
    reveal_strlit("{}");
    reveal_strlit("供应商初始化失败：{}");
    reveal_strlit("供應商初始化失敗：{}");
    reveal_strlit("加载配置失败：{}");
    reveal_strlit("已超过最大工具迭代次数 ({})");
    reveal_strlit("已超过最大执行时间 ({}) 秒");
    reveal_strlit("已超過最大執行時間 ({}) 秒");
    reveal_strlit("已超過最大工具迭代次數 ({})");
    reveal_strlit("收到 Webhook 請求：{}");
    reveal_strlit("收到 Webhook 请求：{}");
    reveal_strlit("正在启动 MiniBot Agent...");
    reveal_strlit("正在启动网关 {}:{}");
    reveal_strlit("正在啟動 MiniBot Agent...");
    reveal_strlit("正在啟動閘道器 {}:{}");
    reveal_strlit("网关服务正在监听 {}");
    reveal_strlit("記憶體初始化失敗：{}");
    reveal_strlit("记忆体初始化失败：{}");
    reveal_strlit("載入配置失敗：{}");
    reveal_strlit("輸入 'exit' 結束。");
    reveal_strlit("输入 'exit' 结束。");
    reveal_strlit("配置目录");
    reveal_strlit("配置目錄");
    reveal_strlit("錯誤：{}");
    reveal_strlit("错误：{}");
    reveal_strlit("閘道器服務正在監聽 {}");
    assert("Gateway server listening on {}"@.len() == 30);
    assert("MiniBot MVP"@.len() == 11);
    assert("閘道器服務正在監聽 {}"@.len() == 12);
    assert("网关服务正在监听 {}"@[0] != "MiniBot MVP"@[0]);
    assert("Starting MiniBot Agent..."@.len() == 25);
    assert("正在啟動 MiniBot Agent..."@.len() == 21);
    assert("网关服务正在监听 {}"@.len() == 11);
    assert("正在启动 MiniBot Agent..."@.len() == 21);
    assert("Starting Gateway at {}:{}"@.len() == 25);
    assert("正在啟動閘道器 {}:{}"@.len() == 13);
    assert("正在启动网关 {}:{}"@.len() == 12);
    assert("MiniBot MVP v{}"@.len() == 15);
    assert("MiniBot MVP 第 {} 版"@.len() == 18);
    assert("Configuration directory"@.len() == 23);
    assert("配置目錄"@.len() == 4);
    assert("配置目录"@.len() == 4);
    assert("MiniBot Agent started. Type 'exit' to quit."@.len() == 43);
    assert("MiniBot Agent 已啟動。輸入 'exit' 結束。"@.len() == 31);
    assert("MiniBot Agent 已启动。输入 'exit' 结束。"@.len() == 31);
    assert("Type 'exit' to quit."@.len() == 20);
    assert("輸入 'exit' 結束。"@.len() == 13);
    assert("输入 'exit' 结束。"@.len() == 13);
    assert("{}"@.len() == 2);
    assert("Max execution time ({}) exceeded"@.len() == 32);
    assert("已超過最大執行時間 ({}) 秒"@.len() == 16);
    assert("已超过最大执行时间 ({}) 秒"@.len() == 16);
    assert("Max tool iterations ({}) exceeded"@.len() == 33);
    assert("已超過最大工具迭代次數 ({})"@.len() == 16);
    assert("已超过最大工具迭代次数 ({})"@.len() == 16);
    assert("Error: {}"@.len() == 9);
    assert("錯誤：{}"@.len() == 5);
    assert("错误：{}"@.len() == 5);
    assert("Failed to initialize provider: {}"@.len() == 33);
    assert("供應商初始化失敗：{}"@.len() == 11);
    assert("网关服务正在监听 {}"@[0] != "供应商初始化失败：{}"@[0]);
    assert("Agent run failed: {}"@.len() == 20);
    assert("Agent 執行失敗：{}"@.len() == 13);
    assert("Agent 执行失败：{}"@.len() == 13);
    assert("Failed to initialize memory: {}"@.len() == 31);
    assert("記憶體初始化失敗：{}"@.len() == 11);
    assert("网关服务正在监听 {}"@[0] != "记忆体初始化失败：{}"@[0]);
    assert("Failed to load configuration: {}"@.len() == 32);
    assert("載入配置失敗：{}"@.len() == 9);
    assert("加载配置失败：{}"@.len() == 9);
    assert("Received webhook request: {}"@.len() == 28);
    assert("收到 Webhook 請求：{}"@.len() == 16);
    assert("收到 Webhook 请求：{}"@.len() == 16);
    assert("Agent response: {}"@.len() == 18);
    assert("Agent 回應：{}"@.len() == 11);
    assert("网关服务正在监听 {}"@[0] != "Agent 回应：{}"@[0]);
    assert("Agent error: {}"@.len() == 15);
    assert("Agent 錯誤：{}"@.len() == 11);
    assert("网关服务正在监听 {}"@[0] != "Agent 错误：{}"@[0]);
}

/// The texts of `gateway.webhook_received` differ from those of every other key, locale by locale.
proof fn lemma_distinct_16(other: Seq<char>)
    requires
        catalog(other) is Some,
        other != "gateway.webhook_received"@,
    ensures
        texts_distinct(("Received webhook request: {}"@, "收到 Webhook 請求：{}"@, "收到 Webhook 请求：{}"@), catalog(other).unwrap()),
{
    reveal_strlit("Agent error: {}");
    reveal_strlit("Agent response: {}");
    reveal_strlit("Agent run failed: {}");
    reveal_strlit("Agent 回应：{}");
    reveal_strlit("Agent 回應：{}");
    reveal_strlit("Agent 執行失敗：{}");
    reveal_strlit("Agent 执行失败：{}");
    reveal_strlit("Agent 錯誤：{}");
    reveal_strlit("Agent 错误：{}");
    reveal_strlit("Configuration directory");
    reveal_strlit("Error: {}");
    reveal_strlit("Failed to initialize memory: {}");
    reveal_strlit("Failed to initialize provider: {}");
    reveal_strlit("Failed to load configuration: {}");
    reveal_strlit("Gateway server listening on {}");
    reveal_strlit("Max execution time ({}) exceeded");
    reveal_strlit("Max tool iterations ({}) exceeded");
    reveal_strlit("MiniBot Agent started. Type 'exit' to quit.");
    reveal_strlit("MiniBot Agent 已启动。输入 'exit' 结束。");
    reveal_strlit("MiniBot Agent 已啟動。輸入 'exit' 結束。");
    reveal_strlit("MiniBot MVP");
    reveal_strlit("MiniBot MVP v{}");
    reveal_strlit("MiniBot MVP 第 {} 版");
    reveal_strlit("Received webhook request: {}");
    reveal_strlit("Starting Gateway at {}:{}");
    reveal_strlit("Starting MiniBot Agent...");
    reveal_strlit("Type 'exit' to quit.");
    reveal_strlit("{}");
    reveal_strlit("供应商初始化失败：{}");
    reveal_strlit("供應商初始化失敗：{}");
    reveal_strlit("加载配置失败：{}");
    reveal_strlit("已超过最大工具迭代次数 ({})");
    reveal_strlit("已超过最大执行时间 ({}) 秒");
    reveal_strlit("已超過最大執行時間 ({}) 秒");
    reveal_strlit("已超過最大工具迭代次數 ({})");
    reveal_strlit("收到 Webhook 請求：{}");
    reveal_strlit("收到 Webhook 请求：{}");
    reveal_strlit("正在启动 MiniBot Agent...");
    reveal_strlit("正在启动网关 {}:{}");
    reveal_strlit("正在啟動 MiniBot Agent...");
    reveal_strlit("正在啟動閘道器 {}:{}");
    reveal_strlit("网关服务正在监听 {}");
    reveal_strlit("記憶體初始化失敗：{}");
    reveal_strlit("记忆体初始化失败：{}");
    reveal_strlit("載入配置失敗：{}");
    reveal_strlit("輸入 'exit' 結束。");
    reveal_strlit("输入 'exit' 结束。");
    reveal_strlit("配置目录");
    reveal_strlit("配置目錄");
    reveal_strlit("錯誤：{}");
    reveal_strlit("错误：{}");
    reveal_strlit("閘道器服務正在監聽 {}");
    assert("Received webhook request: {}"@.len() == 28);
    assert("MiniBot MVP"@.len() == 11);
    assert("收到 Webhook 請求：{}"@.len() == 16);
    assert("收到 Webhook 请求：{}"@.len() == 16);
    assert("Starting MiniBot Agent..."@.len() == 25);
    assert("正在啟動 MiniBot Agent..."@.len() == 21);
    assert("正在启动 MiniBot Agent..."@.len() == 21);
    assert("Starting Gateway at {}:{}"@.len() == 25);
    assert("正在啟動閘道器 {}:{}"@.len() == 13);
    assert("正在启动网关 {}:{}"@.len() == 12);
    assert("MiniBot MVP v{}"@.len() == 15);
    assert("MiniBot MVP 第 {} 版"@.len() == 18);
    assert("Configuration directory"@.len() == 23);
    assert("配置目錄"@.len() == 4);
    assert("配置目录"@.len() == 4);
    assert("MiniBot Agent started. Type 'exit' to quit."@.len() == 43);
    assert("MiniBot Agent 已啟動。輸入 'exit' 結束。"@.len() == 31);
    assert("MiniBot Agent 已启动。输入 'exit' 结束。"@.len() == 31);
    assert("Type 'exit' to quit."@.len() == 20);
    assert("輸入 'exit' 結束。"@.len() == 13);
    assert("输入 'exit' 结束。"@.len() == 13);
    assert("{}"@.len() == 2);
    assert("Max execution time ({}) exceeded"@.len() == 32);
    assert("收到 Webhook 請求：{}"@[0] != "已超過最大執行時間 ({}) 秒"@[0]);
    assert("收到 Webhook 请求：{}"@[0] != "已超过最大执行时间 ({}) 秒"@[0]);
    assert("Max tool iterations ({}) exceeded"@.len() == 33);
    assert("收到 Webhook 請求：{}"@[0] != "已超過最大工具迭代次數 ({})"@[0]);
    assert("收到 Webhook 请求：{}"@[0] != "已超过最大工具迭代次数 ({})"@[0]);
    assert("Error: {}"@.len() == 9);
    assert("錯誤：{}"@.len() == 5);
    assert("错误：{}"@.len() == 5);
    assert("Failed to initialize provider: {}"@.len() == 33);
    assert("供應商初始化失敗：{}"@.len() == 11);
    assert("供应商初始化失败：{}"@.len() == 11);
    assert("Agent run failed: {}"@.len() == 20);
    assert("Agent 執行失敗：{}"@.len() == 13);
    assert("Agent 执行失败：{}"@.len() == 13);
    assert("Failed to initialize memory: {}"@.len() == 31);
    assert("記憶體初始化失敗：{}"@.len() == 11);
    assert("记忆体初始化失败：{}"@.len() == 11);
    assert("Failed to load configuration: {}"@.len() == 32);
    assert("載入配置失敗：{}"@.len() == 9);
    assert("加载配置失败：{}"@.len() == 9);
    assert("Gateway server listening on {}"@.len() == 30);
    assert("閘道器服務正在監聽 {}"@.len() == 12);
    assert("网关服务正在监听 {}"@.len() == 11);
    assert("Agent response: {}"@.len() == 18);
    assert("Agent 回應：{}"@.len() == 11);
    assert("Agent 回应：{}"@.len() == 11);
    assert("Agent error: {}"@.len() == 15);
    assert("Agent 錯誤：{}"@.len() == 11);
    assert("Agent 错误：{}"@.len() == 11);
}

/// The texts of `gateway.agent_response` differ from those of every other key, locale by locale.
proof fn lemma_distinct_17(other: Seq<char>)
    requires
        catalog(other) is Some,
        other != "gateway.agent_response"@,
    ensures
        texts_distinct(("Agent response: {}"@, "Agent 回應：{}"@, "Agent 回应：{}"@), catalog(other).unwrap()),
{
    reveal_strlit("Agent error: {}");
    reveal_strlit("Agent response: {}");
    reveal_strlit("Agent run failed: {}");
    reveal_strlit("Agent 回应：{}");
    reveal_strlit("Agent 回應：{}");
    reveal_strlit("Agent 執行失敗：{}");
    reveal_strlit("Agent 执行失败：{}");
    reveal_strlit("Agent 錯誤：{}");
    reveal_strlit("Agent 错误：{}");
    reveal_strlit("Configuration directory");
    reveal_strlit("Error: {}");
    reveal_strlit("Failed to initialize memory: {}");
    reveal_strlit("Failed to initialize provider: {}");
    reveal_strlit("Failed to load configuration: {}");
    reveal_strlit("Gateway server listening on {}");
    reveal_strlit("Max execution time ({}) exceeded");
    reveal_strlit("Max tool iterations ({}) exceeded");
    reveal_strlit("MiniBot Agent started. Type 'exit' to quit.");
    reveal_strlit("MiniBot Agent 已启动。输入 'exit' 结束。");
    reveal_strlit("MiniBot Agent 已啟動。輸入 'exit' 結束。");
    reveal_strlit("MiniBot MVP");
    reveal_strlit("MiniBot MVP v{}");
    reveal_strlit("MiniBot MVP 第 {} 版");
    reveal_strlit("Received webhook request: {}");
    reveal_strlit("Starting Gateway at {}:{}");
    reveal_strlit("Starting MiniBot Agent...");
    reveal_strlit("Type 'exit' to quit.");
    reveal_strlit("{}");
    reveal_strlit("供应商初始化失败：{}");
    reveal_strlit("供應商初始化失敗：{}");
    reveal_strlit("加载配置失败：{}");
    reveal_strlit("已超过最大工具迭代次数 ({})");
    reveal_strlit("已超过最大执行时间 ({}) 秒");
    reveal_strlit("已超過最大執行時間 ({}) 秒");
    reveal_strlit("已超過最大工具迭代次數 ({})");
    reveal_strlit("收到 Webhook 請求：{}");
    reveal_strlit("收到 Webhook 请求：{}");
    reveal_strlit("正在启动 MiniBot Agent...");
    reveal_strlit("正在启动网关 {}:{}");
    reveal_strlit("正在啟動 MiniBot Agent...");
    reveal_strlit("正在啟動閘道器 {}:{}");
    reveal_strlit("网关服务正在监听 {}");
    reveal_strlit("記憶體初始化失敗：{}");
    reveal_strlit("记忆体初始化失败：{}");
    reveal_strlit("載入配置失敗：{}");
    reveal_strlit("輸入 'exit' 結束。");
    reveal_strlit("输入 'exit' 结束。");
    reveal_strlit("配置目录");
    reveal_strlit("配置目錄");
    reveal_strlit("錯誤：{}");
    reveal_strlit("错误：{}");
    reveal_strlit("閘道器服務正在監聽 {}");
    assert("Agent response: {}"@.len() == 18);
    assert("MiniBot MVP"@.len() == 11);
    assert("Agent 回應：{}"@[0] != "MiniBot MVP"@[0]);
    assert("Agent 回应：{}"@[0] != "MiniBot MVP"@[0]);
    assert("Starting MiniBot Agent..."@.len() == 25);
    assert("Agent 回應：{}"@.len() == 11);
    assert("正在啟動 MiniBot Agent..."@.len() == 21);
    assert("Agent 回应：{}"@.len() == 11);
    assert("正在启动 MiniBot Agent..."@.len() == 21);
    assert("Starting Gateway at {}:{}"@.len() == 25);
    assert("正在啟動閘道器 {}:{}"@.len() == 13);
    assert("正在启动网关 {}:{}"@.len() == 12);
    assert("MiniBot MVP v{}"@.len() == 15);
    assert("MiniBot MVP 第 {} 版"@.len() == 18);
    assert("Configuration directory"@.len() == 23);
    assert("配置目錄"@.len() == 4);
    assert("配置目录"@.len() == 4);
    assert("MiniBot Agent started. Type 'exit' to quit."@.len() == 43);
    assert("MiniBot Agent 已啟動。輸入 'exit' 結束。"@.len() == 31);
    assert("MiniBot Agent 已启动。输入 'exit' 结束。"@.len() == 31);
    assert("Type 'exit' to quit."@.len() == 20);
    assert("輸入 'exit' 結束。"@.len() == 13);
    assert("输入 'exit' 结束。"@.len() == 13);
    assert("{}"@.len() == 2);
    assert("Max execution time ({}) exceeded"@.len() == 32);
    assert("已超過最大執行時間 ({}) 秒"@.len() == 16);
    assert("已超过最大执行时间 ({}) 秒"@.len() == 16);
    assert("Max tool iterations ({}) exceeded"@.len() == 33);
    assert("已超過最大工具迭代次數 ({})"@.len() == 16);
    assert("已超过最大工具迭代次数 ({})"@.len() == 16);
    assert("Error: {}"@.len() == 9);
    assert("錯誤：{}"@.len() == 5);
    assert("错误：{}"@.len() == 5);
    assert("Failed to initialize provider: {}"@.len() == 33);
    assert("Agent 回應：{}"@[0] != "供應商初始化失敗：{}"@[0]);
    assert("Agent 回应：{}"@[0] != "供应商初始化失败：{}"@[0]);
    assert("Agent run failed: {}"@.len() == 20);
    assert("Agent 執行失敗：{}"@.len() == 13);
    assert("Agent 执行失败：{}"@.len() == 13);
    assert("Failed to initialize memory: {}"@.len() == 31);
    assert("Agent 回應：{}"@[0] != "記憶體初始化失敗：{}"@[0]);
    assert("Agent 回应：{}"@[0] != "记忆体初始化失败：{}"@[0]);
    assert("Failed to load configuration: {}"@.len() == 32);
    assert("載入配置失敗：{}"@.len() == 9);
    assert("加载配置失败：{}"@.len() == 9);
    assert("Gateway server listening on {}"@.len() == 30);
    assert("閘道器服務正在監聽 {}"@.len() == 12);
    assert("Agent 回应：{}"@[0] != "网关服务正在监听 {}"@[0]);
    assert("Received webhook request: {}"@.len() == 28);
    assert("收到 Webhook 請求：{}"@.len() == 16);
    assert("收到 Webhook 请求：{}"@.len() == 16);
    assert("Agent error: {}"@.len() == 15);
    assert("Agent 回應：{}"@[6] != "Agent 錯誤：{}"@[6]);
    assert("Agent 回应：{}"@[6] != "Agent 错误：{}"@[6]);
}

/// The texts of `gateway.agent_error` differ from those of every other key, locale by locale.
proof fn lemma_distinct_18(other: Seq<char>)
    requires
        catalog(other) is Some,
        other != "gateway.agent_error"@,
    ensures
        texts_distinct(("Agent error: {}"@, "Agent 錯誤：{}"@, "Agent 错误：{}"@), catalog(other).unwrap()),
{
    reveal_strlit("Agent error: {}");
    reveal_strlit("Agent response: {}");
    reveal_strlit("Agent run failed: {}");
    reveal_strlit("Agent 回应：{}");
    reveal_strlit("Agent 回應：{}");
    reveal_strlit("Agent 執行失敗：{}");
    reveal_strlit("Agent 执行失败：{}");
    reveal_strlit("Agent 錯誤：{}");
    reveal_strlit("Agent 错误：{}");
    reveal_strlit("Configuration directory");
    reveal_strlit("Error: {}");
    reveal_strlit("Failed to initialize memory: {}");
    reveal_strlit("Failed to initialize provider: {}");
    reveal_strlit("Failed to load configuration: {}");
    reveal_strlit("Gateway server listening on {}");
    reveal_strlit("Max execution time ({}) exceeded");
    reveal_strlit("Max tool iterations ({}) exceeded");
    reveal_strlit("MiniBot Agent started. Type 'exit' to quit.");
    reveal_strlit("MiniBot Agent 已启动。输入 'exit' 结束。");
    reveal_strlit("MiniBot Agent 已啟動。輸入 'exit' 結束。");
    reveal_strlit("MiniBot MVP");
    reveal_strlit("MiniBot MVP v{}");
    reveal_strlit("MiniBot MVP 第 {} 版");
    reveal_strlit("Received webhook request: {}");
    reveal_strlit("Starting Gateway at {}:{}");
    reveal_strlit("Starting MiniBot Agent...");
    reveal_strlit("Type 'exit' to quit.");
    reveal_strlit("{}");
    reveal_strlit("供应商初始化失败：{}");
    reveal_strlit("供應商初始化失敗：{}");
    reveal_strlit("加载配置失败：{}");
    reveal_strlit("已超过最大工具迭代次数 ({})");
    reveal_strlit("已超过最大执行时间 ({}) 秒");
    reveal_strlit("已超過最大執行時間 ({}) 秒");
    reveal_strlit("已超過最大工具迭代次數 ({})");
    reveal_strlit("收到 Webhook 請求：{}");
    reveal_strlit("收到 Webhook 请求：{}");
    reveal_strlit("正在启动 MiniBot Agent...");
    reveal_strlit("正在启动网关 {}:{}");
    reveal_strlit("正在啟動 MiniBot Agent...");
    reveal_strlit("正在啟動閘道器 {}:{}");
    reveal_strlit("网关服务正在监听 {}");
    reveal_strlit("記憶體初始化失敗：{}");
    reveal_strlit("记忆体初始化失败：{}");
    reveal_strlit("載入配置失敗：{}");
    reveal_strlit("輸入 'exit' 結束。");
    reveal_strlit("输入 'exit' 结束。");
    reveal_strlit("配置目录");
    reveal_strlit("配置目錄");
    reveal_strlit("錯誤：{}");
    reveal_strlit("错误：{}");
    reveal_strlit("閘道器服務正在監聽 {}");
    assert("Agent error: {}"@.len() == 15);
    assert("MiniBot MVP"@.len() == 11);
    assert("Agent 錯誤：{}"@[0] != "MiniBot MVP"@[0]);
    assert("Agent 错误：{}"@[0] != "MiniBot MVP"@[0]);
    assert("Starting MiniBot Agent..."@.len() == 25);
    assert("Agent 錯誤：{}"@.len() == 11);
    assert("正在啟動 MiniBot Agent..."@.len() == 21);
    assert("Agent 错误：{}"@.len() == 11);
    assert("正在启动 MiniBot Agent..."@.len() == 21);
    assert("Starting Gateway at {}:{}"@.len() == 25);
    assert("正在啟動閘道器 {}:{}"@.len() == 13);
    assert("正在启动网关 {}:{}"@.len() == 12);
    assert("Agent error: {}"@[0] != "MiniBot MVP v{}"@[0]);
    assert("MiniBot MVP 第 {} 版"@.len() == 18);
    assert("Configuration directory"@.len() == 23);
    assert("配置目錄"@.len() == 4);
    assert("配置目录"@.len() == 4);
    assert("MiniBot Agent started. Type 'exit' to quit."@.len() == 43);
    assert("MiniBot Agent 已啟動。輸入 'exit' 結束。"@.len() == 31);
    assert("MiniBot Agent 已启动。输入 'exit' 结束。"@.len() == 31);
    assert("Type 'exit' to quit."@.len() == 20);
    assert("輸入 'exit' 結束。"@.len() == 13);
    assert("输入 'exit' 结束。"@.len() == 13);
    assert("{}"@.len() == 2);
    assert("Max execution time ({}) exceeded"@.len() == 32);
    assert("已超過最大執行時間 ({}) 秒"@.len() == 16);
    assert("已超过最大执行时间 ({}) 秒"@.len() == 16);
    assert("Max tool iterations ({}) exceeded"@.len() == 33);
    assert("已超過最大工具迭代次數 ({})"@.len() == 16);
    assert("已超过最大工具迭代次数 ({})"@.len() == 16);
    assert("Error: {}"@.len() == 9);
    assert("錯誤：{}"@.len() == 5);
    assert("错误：{}"@.len() == 5);
    assert("Failed to initialize provider: {}"@.len() == 33);
    assert("Agent 錯誤：{}"@[0] != "供應商初始化失敗：{}"@[0]);
    assert("Agent 错误：{}"@[0] != "供应商初始化失败：{}"@[0]);
    assert("Agent run failed: {}"@.len() == 20);
    assert("Agent 執行失敗：{}"@.len() == 13);
    assert("Agent 执行失败：{}"@.len() == 13);
    assert("Failed to initialize memory: {}"@.len() == 31);
    assert("Agent 錯誤：{}"@[0] != "記憶體初始化失敗：{}"@[0]);
    assert("Agent 错误：{}"@[0] != "记忆体初始化失败：{}"@[0]);
    assert("Failed to load configuration: {}"@.len() == 32);
    assert("載入配置失敗：{}"@.len() == 9);
    assert("加载配置失败：{}"@.len() == 9);
    assert("Gateway server listening on {}"@.len() == 30);
    assert("閘道器服務正在監聽 {}"@.len() == 12);
    assert("Agent 错误：{}"@[0] != "网关服务正在监听 {}"@[0]);
    assert("Received webhook request: {}"@.len() == 28);
    assert("收到 Webhook 請求：{}"@.len() == 16);
    assert("收到 Webhook 请求：{}"@.len() == 16);
    assert("Agent response: {}"@.len() == 18);
    assert("Agent 錯誤：{}"@[6] != "Agent 回應：{}"@[6]);
    assert("Agent 错误：{}"@[6] != "Agent 回应：{}"@[6]);
}

/// Distinct keys of the catalog have distinct texts in every locale.
pub proof fn lemma_catalog_injective(key: Seq<char>, other: Seq<char>)
    requires
        catalog(key) is Some,
        catalog(other) is Some,
        key != other,
    ensures
        texts_distinct(catalog(key).unwrap(), catalog(other).unwrap()),
{
    if key == "app.name"@ {
        lemma_distinct_0(other);
    } else if key == "app.starting_agent"@ {
        lemma_distinct_1(other);
    } else if key == "app.starting_gateway"@ {
        lemma_distinct_2(other);
    } else if key == "app.version"@ {
        lemma_distinct_3(other);
    } else if key == "app.config_dir"@ {
        lemma_distinct_4(other);
    } else if key == "agent.started"@ {
        lemma_distinct_5(other);
    } else if key == "agent.exit_hint"@ {
        lemma_distinct_6(other);
    } else if key == "agent.response"@ {
        lemma_distinct_7(other);
    } else if key == "agent.max_time_exceeded"@ {
        lemma_distinct_8(other);
    } else if key == "agent.max_iterations_exceeded"@ {
        lemma_distinct_9(other);
    } else if key == "error.prefix"@ {
        lemma_distinct_10(other);
    } else if key == "error.provider_init"@ {
        lemma_distinct_11(other);
    } else if key == "error.agent_run"@ {
        lemma_distinct_12(other);
    } else if key == "error.memory_init"@ {
        lemma_distinct_13(other);
    } else if key == "error.config_load"@ {
        lemma_distinct_14(other);
    } else if key == "gateway.listening"@ {
        lemma_distinct_15(other);
    } else if key == "gateway.webhook_received"@ {
        lemma_distinct_16(other);
    } else if key == "gateway.agent_response"@ {
        lemma_distinct_17(other);
    } else if key == "gateway.agent_error"@ {
        lemma_distinct_18(other);
    }
}

} // verus!
