use mini_bot_rs::i18n::{lookup, tr, tr_with_args, I18n, Locale};

fn args(v: &[&str]) -> Vec<String> {
    v.iter().map(|s| s.to_string()).collect()
}

#[test]
fn locale_names_ignore_case() {
    assert_eq!(Locale::from_str("zh-tw"), Locale::ZhTw);
    assert_eq!(Locale::from_str("ZH-TW"), Locale::ZhTw);
    assert_eq!(Locale::from_str("zh-Hant"), Locale::ZhTw);
    assert_eq!(Locale::from_str("zh-hant-tw"), Locale::ZhTw);
    assert_eq!(Locale::from_str("zh-CN"), Locale::ZhCn);
    assert_eq!(Locale::from_str("zh-hans"), Locale::ZhCn);
    assert_eq!(Locale::from_str("ZH"), Locale::ZhCn);
    assert_eq!(Locale::from_str("en"), Locale::En);
    assert_eq!(Locale::from_str("fr"), Locale::En);
    assert_eq!(Locale::from_str(""), Locale::En);
    assert_eq!(Locale::from_lowercase("ZH"), Locale::En);
}

#[test]
fn locale_tags() {
    assert_eq!(Locale::En.as_str(), "en");
    assert_eq!(Locale::ZhTw.as_str(), "zh-tw");
    assert_eq!(Locale::ZhCn.as_str(), "zh-cn");
    assert_eq!(Locale::default(), Locale::En);
}

#[test]
fn locale_from_environment_value() {
    assert_eq!(Locale::from_env_value(None), Locale::En);
    assert_eq!(Locale::from_env_value(Some("zh-TW".to_string())), Locale::ZhTw);
    assert_eq!(I18n::from_env_value(Some("zh".to_string())).t("app.config_dir"), "配置目录");
}

#[test]
fn texts_per_locale() {
    let en = I18n::new(Locale::En);
    assert_eq!(en.t("app.starting_agent"), "Starting MiniBot Agent...");
    let tw = I18n::new(Locale::ZhTw);
    assert_eq!(tw.t("app.config_dir"), "配置目錄");
    let cn = I18n::new(Locale::ZhCn);
    assert_eq!(cn.t("error.config_load"), "加载配置失败：{}");
    assert_eq!(I18n::default().t("app.name"), "MiniBot MVP");
}

#[test]
fn unknown_key_is_returned_as_is() {
    let tw = I18n::new(Locale::ZhTw);
    assert_eq!(tw.t("no.such.key"), "no.such.key");
    assert_eq!(lookup(Locale::En, ""), "");
}

#[test]
fn set_locale_switches_language() {
    let mut i = I18n::new(Locale::En);
    i.set_locale(Locale::ZhCn);
    assert_eq!(i.t("agent.exit_hint"), "输入 'exit' 结束。");
}

#[test]
fn placeholders_are_filled_in_order() {
    let en = I18n::new(Locale::En);
    assert_eq!(
        en.t_with_args("app.starting_gateway", &args(&["127.0.0.1", "3000"])),
        "Starting Gateway at 127.0.0.1:3000"
    );
    assert_eq!(en.t_with_args("app.version", &args(&["0.1.0"])), "MiniBot MVP v0.1.0");
    let tw = I18n::new(Locale::ZhTw);
    assert_eq!(tw.t_with_args("error.prefix", &args(&["boom"])), "錯誤：boom");
}

#[test]
fn extra_arguments_are_ignored_and_missing_ones_leave_placeholders() {
    let en = I18n::new(Locale::En);
    assert_eq!(en.t_with_args("app.version", &args(&["1", "2"])), "MiniBot MVP v1");
    assert_eq!(
        en.t_with_args("app.starting_gateway", &args(&["h"])),
        "Starting Gateway at h:{}"
    );
    assert_eq!(en.t_with_args("app.name", &args(&["x"])), "MiniBot MVP");
    assert_eq!(en.t_with_args("app.version", &[]), "MiniBot MVP v{}");
}

#[test]
fn an_argument_holding_a_placeholder_is_filled_by_the_next() {
    let en = I18n::new(Locale::En);
    assert_eq!(en.t_with_args("agent.response", &args(&["a{}b", "c"])), "acb");
    assert_eq!(en.t_with_args("unknown {} key", &args(&["x"])), "unknown x key");
}

#[test]
fn global_lookup_functions() {
    assert_eq!(tr(Locale::ZhCn, "gateway.listening"), "网关服务正在监听 {}");
    assert_eq!(
        tr_with_args(Locale::En, "gateway.listening", &args(&["0.0.0.0:3000"])),
        "Gateway server listening on 0.0.0.0:3000"
    );
}

#[test]
fn every_key_has_all_locales() {
    for key in [
        "app.name", "app.starting_agent", "app.starting_gateway", "app.version", "app.config_dir",
        "agent.started", "agent.exit_hint", "agent.response", "agent.max_time_exceeded",
        "agent.max_iterations_exceeded", "error.prefix", "error.provider_init", "error.agent_run",
        "error.memory_init", "error.config_load", "gateway.listening", "gateway.webhook_received",
        "gateway.agent_response", "gateway.agent_error",
    ] {
        let en = I18n::new(Locale::En).t(key).matches("{}").count();
        for l in [Locale::En, Locale::ZhTw, Locale::ZhCn] {
            let text = I18n::new(l).t(key);
            assert_ne!(text, key);
            assert_eq!(text.matches("{}").count(), en);
        }
    }
}

#[test]
fn locale_tags_name_their_locale() {
    for l in [Locale::En, Locale::ZhTw, Locale::ZhCn] {
        assert_eq!(Locale::from_lowercase(l.as_str()), l);
        assert_eq!(Locale::from_str(l.as_str()), l);
    }
}
