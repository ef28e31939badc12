use mini_bot_rs::tools::file::{FileAction, FileRequest, MAX_FILE_SIZE};
use mini_bot_rs::tools::shell::{CommandOutcome, ShellAction, COMMAND_TIMEOUT_SECS};
use mini_bot_rs::tools::{FileTool, ShellTool, ToolResult};

fn check(r: &ToolResult, success: bool, output: &str, error: Option<&str>) {
    assert_eq!(r.success, success);
    assert_eq!(r.output, output);
    assert_eq!(r.error.as_deref(), error);
}

#[test]
fn test_tools_module_exports() {
    let shell = ShellTool::new();
    assert_eq!(shell.name(), "shell");

    let file = FileTool::new();
    assert_eq!(file.name(), "file");
}

#[test]
fn definitions_describe_the_arguments() {
    let d = FileTool::new().definition();
    assert_eq!(d.name, "file");
    assert_eq!(d.description, "Read or write files");
    let names: Vec<&str> = d.arguments.iter().map(|a| a.name.as_str()).collect();
    assert_eq!(names, vec!["operation", "path", "content"]);
    assert!(d.arguments[0].required && d.arguments[1].required && !d.arguments[2].required);
    assert_eq!(d.arguments[2].description, "Content to write (for write operation)");

    let d = ShellTool::default().definition();
    assert_eq!(d.name, "shell");
    assert_eq!(d.description, "Execute system command");
    assert_eq!(d.arguments.len(), 1);
    assert_eq!(d.arguments[0].name, "command");
    assert_eq!(d.arguments[0].arg_type, "string");
}

#[test]
fn empty_allow_list_refuses_everything() {
    let shell = ShellTool::new();
    assert!(!shell.is_command_allowed("echo test"));
    assert!(!shell.is_command_allowed(""));
    match shell.decide("echo test") {
        ShellAction::Finish(r) => check(&r, false, "", Some("Command 'echo test' not in allowlist")),
        other => panic!("unexpected: {:?}", other),
    }
}

#[test]
fn allow_list_admits_by_prefix() {
    let shell = ShellTool::with_allowed(vec!["ls".to_string(), "echo ".to_string()]);
    assert!(shell.is_command_allowed("ls -la"));
    assert!(shell.is_command_allowed("echo hi"));
    assert!(!shell.is_command_allowed("echo"));
    assert!(!shell.is_command_allowed("rm -rf /"));
    match shell.decide("ls") {
        ShellAction::Run(c) => assert_eq!(c, "ls"),
        other => panic!("unexpected: {:?}", other),
    }
    let anything = ShellTool::with_allowed(vec![String::new()]);
    assert!(anything.is_command_allowed("rm -rf /"));
}

#[test]
fn shell_arguments() {
    assert_eq!(ShellTool::parse_command(r#"{"command": "echo test"}"#), Ok("echo test".to_string()));
    assert_eq!(
        ShellTool::parse_command(r#"{"cmd": "ls"}"#),
        Err("Missing 'command' parameter".to_string())
    );
    assert_eq!(
        ShellTool::parse_command(r#"{"command": 5}"#),
        Err("Missing 'command' parameter".to_string())
    );
    assert_eq!(ShellTool::parse_command("[1, 2]"), Err("Missing 'command' parameter".to_string()));
    let e = ShellTool::parse_command("not json").unwrap_err();
    assert!(e.starts_with("Failed to parse arguments: "));
    assert!(e.len() > "Failed to parse arguments: ".len());
}

#[test]
fn command_outcomes() {
    let shell = ShellTool::new();
    let r = shell.command_outcome(&CommandOutcome::Exited {
        success: true,
        stdout: b"test\n".to_vec(),
        stderr: vec![],
    });
    check(&r, true, "test\n", None);
    let r = shell.command_outcome(&CommandOutcome::Exited {
        success: true,
        stdout: b"ok".to_vec(),
        stderr: b"warn".to_vec(),
    });
    check(&r, true, "ok", Some("warn"));
    let r = shell.command_outcome(&CommandOutcome::Exited {
        success: false,
        stdout: vec![0x66, 0xff, 0x6f],
        stderr: vec![],
    });
    check(&r, false, "f\u{FFFD}o", Some(""));
    let r = shell.command_outcome(&CommandOutcome::Failed("not found".to_string()));
    check(&r, false, "", Some("Command execution failed: not found"));
    let r = shell.command_outcome(&CommandOutcome::TimedOut);
    check(&r, false, "", Some("Command timed out after 30 seconds"));
    assert_eq!(COMMAND_TIMEOUT_SECS, 30);
}

fn request(op: &str, path: &str, content: Option<&str>) -> FileRequest {
    FileRequest {
        operation: op.to_string(),
        path: path.to_string(),
        content: content.map(|s| s.to_string()),
    }
}

#[test]
fn file_arguments() {
    let r = FileTool::parse_request(r#"{"operation": "write", "path": "/tmp/x", "content": "hi"}"#).unwrap();
    assert_eq!(r.operation, "write");
    assert_eq!(r.path, "/tmp/x");
    assert_eq!(r.content.as_deref(), Some("hi"));
    let r = FileTool::parse_request(r#"{"operation": "read", "path": "/tmp/x", "content": 3}"#).unwrap();
    assert_eq!(r.content, None);
    assert_eq!(
        FileTool::parse_request(r#"{"path": "/tmp/x"}"#).unwrap_err(),
        "Missing 'operation' parameter"
    );
    assert_eq!(
        FileTool::parse_request(r#"{"operation": "read"}"#).unwrap_err(),
        "Missing 'path' parameter"
    );
    assert!(FileTool::parse_request("{").unwrap_err().starts_with("Failed to parse arguments: "));
}

#[test]
fn path_confinement() {
    let open = FileTool::new();
    assert!(open.path_allowed(Some("/etc/passwd".to_string()), None));
    let tool = FileTool::with_directory("/srv/data".to_string());
    assert_eq!(tool.allowed_directory().as_deref(), Some("/srv/data"));
    assert!(tool.path_allowed(Some("/srv/data/a.txt".to_string()), Some("/srv/data".to_string())));
    assert!(tool.path_allowed(Some("/srv/data".to_string()), Some("/srv/data".to_string())));
    assert!(!tool.path_allowed(Some("/srv/database".to_string()), Some("/srv/data".to_string())));
    assert!(!tool.path_allowed(Some("/etc/passwd".to_string()), Some("/srv/data".to_string())));
    assert!(tool.path_allowed(None, Some("/srv/data".to_string())));
    assert!(tool.path_allowed(Some("/etc/passwd".to_string()), None));
}

#[test]
fn file_decisions() {
    let tool = FileTool::new();
    match tool.decide(&request("read", "/a", None), false) {
        FileAction::Finish(r) => check(&r, false, "", Some("Path not in allowed directory")),
        other => panic!("unexpected: {:?}", other),
    }
    assert!(matches!(tool.decide(&request("read", "/a", None), true), FileAction::Read(p) if p == "/a"));
    assert!(matches!(tool.decide(&request("exists", "/a", None), true), FileAction::Exists(p) if p == "/a"));
    assert!(matches!(
        tool.decide(&request("write", "/a", Some("x")), true),
        FileAction::Write(p, c) if p == "/a" && c == "x"
    ));
    assert!(matches!(
        tool.decide(&request("write", "/a", None), true),
        FileAction::Fail(m) if m == "Missing 'content' parameter for write operation"
    ));
    match tool.decide(&request("delete", "/a", None), true) {
        FileAction::Finish(r) => check(&r, false, "", Some("Unknown operation: delete")),
        other => panic!("unexpected: {:?}", other),
    }
    let big = "x".repeat(MAX_FILE_SIZE + 1);
    match tool.decide(&request("write", "/a", Some(&big)), true) {
        FileAction::Finish(r) => check(&r, false, "", Some("Content exceeds the 10 MB file size limit")),
        other => panic!("unexpected: {:?}", other),
    }
    let exact = "x".repeat(MAX_FILE_SIZE);
    assert!(matches!(tool.decide(&request("write", "/a", Some(&exact)), true), FileAction::Write(_, _)));
}

#[test]
fn file_outcomes() {
    let tool = FileTool::new();
    check(&tool.read_outcome(Ok("hello".to_string())), true, "hello", None);
    check(
        &tool.read_outcome(Err("No such file or directory (os error 2)".to_string())),
        false,
        "",
        Some("Failed to read file: No such file or directory (os error 2)"),
    );
    check(
        &tool.read_outcome(Ok("é".repeat(MAX_FILE_SIZE / 2 + 1))),
        false,
        "",
        Some("File exceeds the 10 MB file size limit"),
    );
    check(&tool.write_outcome(Ok(())), true, "File written successfully", None);
    check(&tool.write_outcome(Err("denied".to_string())), false, "", Some("Failed to write file: denied"));
    check(&tool.exists_outcome(true), true, "true", None);
    check(&tool.exists_outcome(false), true, "false", None);
    assert_eq!(MAX_FILE_SIZE, 10 * 1024 * 1024);
}

#[test]
fn parsed_arguments_are_read_directly() {
    let fields = vec![
        ("operation".to_string(), Some("exists".to_string())),
        ("path".to_string(), Some("/tmp".to_string())),
        ("content".to_string(), None),
    ];
    let r = FileTool::request_from_parsed(Ok(fields)).unwrap();
    assert_eq!(r.operation, "exists");
    assert_eq!(r.path, "/tmp");
    assert_eq!(r.content, None);
    assert_eq!(
        FileTool::request_from_parsed(Err("EOF while parsing".to_string())).unwrap_err(),
        "Failed to parse arguments: EOF while parsing"
    );
    assert_eq!(
        FileTool::request_from_parsed(Ok(vec![("operation".to_string(), Some("read".to_string()))]))
            .unwrap_err(),
        "Missing 'path' parameter"
    );
    assert_eq!(
        ShellTool::command_from_parsed(Ok(vec![("command".to_string(), Some("ls".to_string()))])),
        Ok("ls".to_string())
    );
    assert_eq!(
        ShellTool::command_from_parsed(Ok(vec![("command".to_string(), None)])),
        Err("Missing 'command' parameter".to_string())
    );
    assert_eq!(
        ShellTool::command_from_parsed(Err("x".to_string())),
        Err("Failed to parse arguments: x".to_string())
    );
}

#[test]
fn exit_reports_from_decoded_text() {
    let shell = ShellTool::new();
    check(&shell.report_exit(true, "out".to_string(), String::new()), true, "out", None);
    check(&shell.report_exit(true, "out".to_string(), "w".to_string()), true, "out", Some("w"));
    check(&shell.report_exit(false, String::new(), String::new()), false, "", Some(""));
    let r = shell.command_outcome(&CommandOutcome::Exited {
        success: true,
        stdout: "héllo".as_bytes().to_vec(),
        stderr: vec![],
    });
    check(&r, true, "héllo", None);
}

#[test]
fn oversize_files_are_reported() {
    let tool = FileTool::new();
    assert!(tool.oversize_report(MAX_FILE_SIZE as u64).is_none());
    let r = tool.oversize_report(MAX_FILE_SIZE as u64 + 1).unwrap();
    check(&r, false, "", Some("File exceeds the 10 MB file size limit"));
}
