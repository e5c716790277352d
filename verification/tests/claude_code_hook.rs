use nono_cli::claude_code_hook::{
    base64_encode, build_confined_edit_cmd, DEFAULT_TOOL_RUNNER_PROFILE, build_confined_multiedit_cmd,
    build_confined_write_cmd, byte_replace_statement, command_contains_nono_wrapper,
    is_read_only_tool, powershell_byte_array_literal, powershell_encoded_command,
    powershell_single_quoted, pre_tool_use_response, self_disable_reason,
    self_disable_reason_no_home, windows_bash_wrapper_script, wrapped_bash_command, EditEntry,
    EditsValue, HookEvent, HookHost, HookResponse, PermissionDecision, ToolInput, set_command,
    ToolInputEntry, ToolValue,
};
use nono_cli::error::NonoError;
use nono_cli::hook_json::pre_tool_use_response_text;
use serde_json::Value;

fn host(on_windows: bool) -> HookHost {
    HookHost {
        on_windows,
        cwd_risk: Ok(None),
        nono_exe: Ok(if on_windows {
            "C:\\repo\\target\\debug\\nono.exe".to_string()
        } else {
            "/usr/local/bin/nono".to_string()
        }),
    }
}

fn empty_input() -> ToolInput {
    ToolInput {
        is_object: true,
        entries: vec![],
        file_path: None,
        content: None,
        old_string: None,
        new_string: None,
        command: None,
        edits: None,
    }
}

fn pre_tool_use(tool_name: &str, tool_input: ToolInput) -> HookEvent {
    HookEvent {
        hook_event_name: Some("PreToolUse".to_string()),
        tool_name: Some(tool_name.to_string()),
        tool_input: Some(tool_input),
    }
}

fn respond(event: &HookEvent, on_windows: bool) -> Option<HookResponse> {
    pre_tool_use_response(event, &host(on_windows)).expect("valid hook response")
}

fn write_input(path: &str, content: &str) -> ToolInput {
    ToolInput { file_path: Some(path.to_string()), content: Some(content.to_string()), ..empty_input() }
}

fn edit_input(path: &str, old: &str, new: &str) -> ToolInput {
    ToolInput {
        file_path: Some(path.to_string()),
        old_string: Some(old.to_string()),
        new_string: Some(new.to_string()),
        ..empty_input()
    }
}

fn entry(old: &str, new: &str) -> EditEntry {
    EditEntry { old_string: Some(old.to_string()), new_string: Some(new.to_string()) }
}

fn multiedit_input(path: &str, edits: Vec<EditEntry>) -> ToolInput {
    ToolInput {
        file_path: Some(path.to_string()),
        edits: Some(EditsValue::Array(edits)),
        ..empty_input()
    }
}

fn respond_text(input: &str, on_windows: bool) -> Result<Option<Value>, NonoError> {
    Ok(pre_tool_use_response_text(input, &host(on_windows))?
        .map(|t| serde_json::from_str::<Value>(&t).expect("the hook writes JSON")))
}

#[test]
fn pre_tool_use_bash_rewrites_command() {
    for on_windows in [false, true] {
        let response = respond_text(
            r#"{
              "hook_event_name": "PreToolUse",
              "tool_name": "Bash",
              "tool_input": {"command": "Get-ChildItem", "timeout": 120000},
              "tool_use_id": "toolu_1"
            }"#,
            on_windows,
        )
        .unwrap()
        .expect("Bash tool should be rewritten");
        let updated_command = response["hookSpecificOutput"]["updatedInput"]["command"]
            .as_str()
            .expect("updated command must be a string");
        if on_windows {
            assert!(
                updated_command.contains("powershell.exe") && updated_command.contains("-EncodedCommand"),
                "Windows wrapper should encode the outer PowerShell trampoline: {updated_command}"
            );
        } else {
            assert!(
                updated_command.contains("nono") && updated_command.contains(" run "),
                "updated command should invoke nono run: {updated_command}"
            );
        }
        assert_eq!(
            response["hookSpecificOutput"]["updatedInput"]["timeout"],
            120000,
            "non-command Bash tool fields must be preserved"
        );
    }
}

#[test]
fn rewrite_adds_a_missing_command_field_last() {
    let entries = vec![ToolInputEntry { key: "description".to_string(), value: ToolValue::Text("list".to_string()) }];
    let out = set_command(&entries, "new");
    assert_eq!(out.len(), 2);
    assert_eq!(out[0].key, "description");
    assert!(matches!(&out[0].value, ToolValue::Text(t) if t == "list"));
    assert_eq!(out[1].key, "command");
    assert!(matches!(&out[1].value, ToolValue::Text(t) if t == "new"));
}

#[test]
fn pre_tool_use_file_tools_deny() {
    let tool_inputs: Vec<(&str, &str)> = vec![
        ("Write", r#"{"file_path": "x.txt", "content": "hello"}"#),
        ("Edit", r#"{"file_path": "x.txt", "old_string": "foo", "new_string": "bar"}"#),
        ("MultiEdit", r#"{"file_path": "x.txt", "edits": [{"old_string": "a", "new_string": "b"}]}"#),
        ("NotebookEdit", r#"{"notebook_path": "nb.ipynb", "cell_index": 0, "new_source": "print(1)"}"#),
        ("WebFetch", r#"{"url": "https://example.com"}"#),
        ("WebSearch", r#"{"query": "test"}"#),
        ("Task", r#"{"description": "do something"}"#),
        ("mcp__filesystem__write_file", r#"{"path": "x.txt", "content": "x"}"#),
    ];
    for on_windows in [false, true] {
        for (tool_name, tool_input_val) in &tool_inputs {
            let input = event_text(tool_name, tool_input_val, "toolu_2");
            let response = respond_text(&input, on_windows)
                .unwrap_or_else(|e| panic!("valid hook response for {tool_name}: {e:?}"))
                .unwrap_or_else(|| panic!("{tool_name} should be denied"));
            assert_eq!(
                response["hookSpecificOutput"]["permissionDecision"],
                "deny",
                "{tool_name} must be denied by the tool-sandbox hook"
            );
            match *tool_name {
                "Write" | "Edit" | "MultiEdit" => {
                    if on_windows {
                        assert!(
                            response["hookSpecificOutput"]["additionalContext"]
                                .as_str()
                                .map(|s| !s.is_empty())
                                .unwrap_or(false),
                            "{tool_name} must include a non-empty additionalContext PS command on Windows"
                        );
                    }
                }
                "NotebookEdit" => {
                    let ctx = &response["hookSpecificOutput"]["additionalContext"];
                    assert!(
                        ctx.is_null() || ctx.as_str().map(|s| s.is_empty()).unwrap_or(true),
                        "NotebookEdit must NOT include an additionalContext PS command"
                    );
                }
                _ => {}
            }
        }
    }
}

#[test]
fn pre_tool_use_read_only_tools_allow() {
    for tool_name in ["Read", "Glob", "Grep"] {
        let input = event_text(tool_name, r#"{"path": "src"}"#, "toolu_3");
        let response = respond_text(&input, true)
            .unwrap_or_else(|e| panic!("valid hook response for {tool_name}: {e:?}"))
            .unwrap_or_else(|| panic!("{tool_name} should be explicitly allowed"));
        assert_eq!(
            response["hookSpecificOutput"]["permissionDecision"],
            "allow",
            "{tool_name} must be allowed by the read-only tool policy"
        );
        assert!(response["hookSpecificOutput"].get("updatedInput").is_none());
    }
}

#[test]
fn non_pre_tool_use_event_is_silent() {
    let response = respond_text(
        r#"{
          "hook_event_name": "PostToolUse",
          "tool_name": "Bash",
          "tool_input": {"command": "echo ok"}
        }"#,
        false,
    )
    .unwrap();
    assert!(response.is_none());
}

#[test]
fn windows_wrapper_uses_native_powershell_child() {
    let script = windows_bash_wrapper_script(
        "C:\\repo\\target\\debug\\nono.exe",
        "Get-Location; Get-ChildItem -Force",
    );
    assert!(script.contains("-- powershell.exe -NoProfile -NonInteractive -EncodedCommand"));
    assert!(script.contains(DEFAULT_TOOL_RUNNER_PROFILE));
    let prefix = format!(
        "& 'C:\\repo\\target\\debug\\nono.exe' run --profile '{DEFAULT_TOOL_RUNNER_PROFILE}' --allow-cwd -- powershell.exe -NoProfile -NonInteractive -EncodedCommand "
    );
    assert!(script.starts_with(&prefix), "unexpected wrapper: {script}");
    assert_eq!(&script[prefix.len()..], powershell_encoded_command("Get-Location; Get-ChildItem -Force"));
    // The tool runner profile, never the agent's own profile that may write the agent's state.
    let agent_profile = DEFAULT_TOOL_RUNNER_PROFILE.strip_suffix("-tools-windows-runner").unwrap();
    assert!(!script.contains(&format!("{agent_profile}'")));
    assert!(!script.contains("bash.exe") && !script.contains("Git\\usr\\bin"));
}

fn event_text(tool_name: &str, tool_input: &str, id: &str) -> String {
    format!(
        r#"{{"hook_event_name": "PreToolUse", "tool_name": "{tool_name}", "tool_input": {tool_input}, "tool_use_id": "{id}"}}"#
    )
}

fn deny_with_ps_cmd(tool_input: &str, tool_name: &str) {
    let input = event_text(tool_name, tool_input, "toolu_4");
    let response = respond_text(&input, true)
        .unwrap_or_else(|e| panic!("valid hook response for {tool_name}: {e:?}"))
        .unwrap_or_else(|| panic!("{tool_name} should produce a response"));
    assert_eq!(response["hookSpecificOutput"]["permissionDecision"], "deny");
    assert!(
        response["hookSpecificOutput"]["additionalContext"]
            .as_str()
            .map(|s| !s.is_empty())
            .unwrap_or(false),
        "{tool_name} must include a PS command"
    );
}

#[test]
fn pre_tool_use_write_returns_deny_with_ps_cmd() {
    deny_with_ps_cmd(r#"{"file_path": "test.txt", "content": "hello world"}"#, "Write");
}

#[test]
fn pre_tool_use_edit_returns_deny_with_ps_cmd() {
    deny_with_ps_cmd(
        r#"{"file_path": "src/main.rs", "old_string": "fn main()", "new_string": "fn run()"}"#,
        "Edit",
    );
}

#[test]
fn pre_tool_use_multiedit_returns_deny_with_ps_cmd() {
    deny_with_ps_cmd(
        r#"{"file_path": "src/lib.rs", "edits": [
            {"old_string": "a", "new_string": "b"},
            {"old_string": "c", "new_string": "d"}
        ]}"#,
        "MultiEdit",
    );
}

#[test]
fn pre_tool_use_notebookedit_deny_no_ps_cmd() {
    let input = event_text(
        "NotebookEdit",
        r#"{"notebook_path": "nb.ipynb", "cell_index": 0, "new_source": "print(1)"}"#,
        "toolu_5",
    );
    let response = respond_text(&input, true).unwrap().expect("NotebookEdit should produce a response");
    assert_eq!(response["hookSpecificOutput"]["permissionDecision"], "deny");
    let ctx = &response["hookSpecificOutput"]["additionalContext"];
    assert!(ctx.is_null() || ctx.as_str().map(|s| s.is_empty()).unwrap_or(true));
}

#[test]
fn pre_tool_use_write_content_with_special_chars() {
    deny_with_ps_cmd(r#"{"file_path": "test.txt", "content": "it's a test\nwith \"quotes\""}"#, "Write");
}

#[test]
fn hook_text_is_written_as_serde_json_writes_it() {
    let out = pre_tool_use_response_text(
        r#"{"hook_event_name":"PreToolUse","tool_name":"Read","tool_input":{}}"#,
        &host(false),
    )
    .unwrap()
    .unwrap();
    let value: Value = serde_json::from_str(&out).unwrap();
    assert_eq!(out, serde_json::to_string(&value).unwrap());
    let out = pre_tool_use_response_text(
        r#"{"hook_event_name":"PreToolUse","tool_name":"Bash","tool_input":{"a":[1,{"b":null}],"command":"ls \"x\"","timeout":1.5}}"#,
        &host(false),
    )
    .unwrap()
    .unwrap();
    let value: Value = serde_json::from_str(&out).unwrap();
    assert_eq!(out, serde_json::to_string(&value).unwrap());
    assert_eq!(
        value["hookSpecificOutput"]["updatedInput"]["a"],
        serde_json::from_str::<Value>(r#"[1,{"b":null}]"#).unwrap()
    );
    assert_eq!(value["hookSpecificOutput"]["updatedInput"]["timeout"], 1.5);
}

#[test]
fn hook_text_errors() {
    match pre_tool_use_response_text("{not json", &host(false)) {
        Err(NonoError::HookInstall(m)) => assert!(m.starts_with("invalid agent hook JSON on stdin: ")),
        other => panic!("unexpected {other:?}"),
    }
    match pre_tool_use_response_text(
        r#"{"hook_event_name":"PreToolUse","tool_name":"Bash","tool_input":"ls"}"#,
        &host(false),
    ) {
        Err(NonoError::HookInstall(m)) => assert_eq!(m, "PreToolUse tool_input must be a JSON object"),
        other => panic!("unexpected {other:?}"),
    }
    assert_eq!(
        pre_tool_use_response_text(r#"[1,2]"#, &host(false)).unwrap(),
        None
    );
}

#[test]
fn cwd_guard_denies_before_any_confinement_command() {
    let event = pre_tool_use("Write", write_input("test.txt", "x"));
    let mut h = host(true);
    h.cwd_risk = Ok(Some(self_disable_reason("C:\\Users\\me")));
    let response = pre_tool_use_response(&event, &h).unwrap().unwrap();
    assert_eq!(response.decision, PermissionDecision::Deny);
    assert!(response.reason.starts_with("refusing to wrap Bash: CWD 'C:\\Users\\me'"));
    assert!(response.additional_context.is_none());
    h.cwd_risk = Err(NonoError::HookInstall("failed to resolve hook CWD".to_string()));
    assert!(pre_tool_use_response(&event, &h).is_err());
    assert!(self_disable_reason_no_home().contains("home directory cannot be resolved"));
}

#[test]
fn missing_fields_are_errors() {
    let event = pre_tool_use("Edit", ToolInput { file_path: Some("a".to_string()), ..empty_input() });
    match pre_tool_use_response(&event, &host(true)) {
        Err(NonoError::HookInstall(m)) => assert_eq!(m, "Edit tool_input missing string old_string"),
        other => panic!("unexpected {other:?}"),
    }
    let event = pre_tool_use("Bash", ToolInput { is_object: false, ..empty_input() });
    match pre_tool_use_response(&event, &host(false)) {
        Err(NonoError::HookInstall(m)) => assert_eq!(m, "PreToolUse tool_input must be a JSON object"),
        other => panic!("unexpected {other:?}"),
    }
    let nameless = HookEvent { hook_event_name: Some("PreToolUse".to_string()), tool_name: None, tool_input: None };
    let response = respond(&nameless, false).unwrap();
    assert_eq!(response.reason, "nono tool sandbox prototype requires an agent tool name");
}

#[test]
fn already_wrapped_commands_are_left_alone() {
    assert!(command_contains_nono_wrapper("nono run -- ls"));
    assert!(command_contains_nono_wrapper("env X=1 nono run ls"));
    assert!(!command_contains_nono_wrapper("ls nono"));
    let event = pre_tool_use(
        "Bash",
        ToolInput { command: Some("nono run --profile x -- ls".to_string()), ..empty_input() },
    );
    assert!(respond(&event, false).is_none());
    assert!(is_read_only_tool("Grep") && !is_read_only_tool("grep"));
}

#[test]
fn quoting_and_encoding() {
    assert_eq!(powershell_single_quoted("it's"), "'it''s'");
    assert_eq!(base64_encode(b""), "");
    assert_eq!(base64_encode(b"f"), "Zg==");
    assert_eq!(base64_encode(b"fo"), "Zm8=");
    assert_eq!(base64_encode(b"foobar"), "Zm9vYmFy");
    assert_eq!(powershell_encoded_command("ls"), "bABzAA==");
    assert_eq!(powershell_encoded_command("€"), "rCA=");
    assert_eq!(powershell_encoded_command("😀"), "PdgA3g==");
}

#[test]
fn unix_quoting_refuses_nul() {
    let result = wrapped_bash_command(false, &Ok("/bin/nono".to_string()), "echo\0x");
    match result {
        Err(NonoError::HookInstall(m)) => assert_eq!(
            m,
            "failed to quote shell command: cannot shell-quote string containing nul byte"
        ),
        other => panic!("unexpected {other:?}"),
    }
    let result = wrapped_bash_command(false, &Ok("/bin/nono".to_string()), "echo 'a b'");
    assert_eq!(
        result.unwrap(),
        format!("/bin/nono run --profile {DEFAULT_TOOL_RUNNER_PROFILE} --allow-cwd -- sh -lc \"echo 'a b'\"")
    );
    let result = wrapped_bash_command(true, &Err("gone".to_string()), "ls");
    match result {
        Err(NonoError::HookInstall(m)) => assert_eq!(m, "failed to resolve current nono executable: gone"),
        other => panic!("unexpected {other:?}"),
    }
}

fn assert_no_dotnet_method_calls(payload: &str, label: &str) {
    for blocked in [
        "[Convert]",
        "[System.IO.File]",
        "[System.Text.Encoding]",
        "[regex]",
        ".Replace(",
        "FromBase64String",
        "WriteAllText",
        "ReadAllText",
    ] {
        assert!(
            !payload.contains(blocked),
            "{label} payload must not contain CLM-blocked construct {blocked:?}: {payload}"
        );
    }
}

fn assert_no_utf8_string_encoding(payload: &str, label: &str) {
    assert!(!payload.contains("-Encoding UTF8"), "{label} payload must not use -Encoding UTF8: {payload}");
}

#[test]
fn byte_array_literal_is_clm_safe_and_byte_faithful() {
    assert_eq!(powershell_byte_array_literal(b""), "[byte[]]@()");
    assert_eq!(powershell_byte_array_literal(b"hi"), "[byte[]]@(104,105)");
    assert_eq!(powershell_byte_array_literal("é".as_bytes()), "[byte[]]@(195,169)");
}

#[test]
fn confined_write_cmd_is_clm_safe() {
    let content = "it's a test\nwith \"newlines\" and é";
    let payload = build_confined_write_cmd("C:\\proj\\out.txt", content).unwrap();
    assert_no_dotnet_method_calls(&payload, "Write");
    assert_no_utf8_string_encoding(&payload, "Write");
    assert!(
        payload.contains("[byte[]]@(")
            && payload.contains("Set-Content")
            && payload.contains("-Encoding Byte")
    );
    let expected_literal = powershell_byte_array_literal(content.as_bytes());
    assert!(payload.contains(&expected_literal));
}

#[test]
fn confined_write_empty_content_emits_empty_byte_array() {
    let payload = build_confined_write_cmd("C:\\proj\\empty.txt", "").unwrap();
    assert!(payload.contains("[byte[]]@()"));
}

#[test]
fn confined_edit_cmd_is_clm_safe_byte_vehicle() {
    let old_string = "fn main() { foo.bar(1+2); }";
    let new_string = "fn run() { $env:X = 'é' }";
    let payload = build_confined_edit_cmd("C:\\proj\\main.rs", old_string, new_string).unwrap();
    assert_no_dotnet_method_calls(&payload, "Edit");
    assert_no_utf8_string_encoding(&payload, "Edit");
    assert!(payload.contains("Get-Content") && payload.contains("-Encoding Byte"));
    assert!(payload.contains("Set-Content -LiteralPath 'C:\\proj\\main.rs' -Value $src -Encoding Byte"));
    assert!(payload.contains(&powershell_byte_array_literal(old_string.as_bytes())));
    assert!(payload.contains(&powershell_byte_array_literal(new_string.as_bytes())));
    assert!(!payload.contains("-creplace") && !payload.contains("-replace"));
}

#[test]
fn confined_multiedit_cmd_is_clm_safe_single_read_write() {
    let edits = EditsValue::Array(vec![entry("a.b", "x"), entry("c*d", "y")]);
    let payload = build_confined_multiedit_cmd("C:\\proj\\lib.rs", &edits).unwrap();
    assert_no_dotnet_method_calls(&payload, "MultiEdit");
    assert_no_utf8_string_encoding(&payload, "MultiEdit");
    assert_eq!(payload.matches("Get-Content").count(), 1);
    assert_eq!(payload.matches("Set-Content").count(), 1);
    assert!(payload.contains("Get-Content -LiteralPath 'C:\\proj\\lib.rs' -Encoding Byte -Raw"));
    assert!(payload.contains("Set-Content -LiteralPath 'C:\\proj\\lib.rs' -Value $src -Encoding Byte"));
    assert_eq!(payload.matches("$src = [byte[]]$out").count(), 2);
}

#[test]
fn multiedit_refuses_malformed_edits() {
    match build_confined_multiedit_cmd("a", &EditsValue::NotArray) {
        Err(NonoError::HookInstall(m)) => assert_eq!(m, "MultiEdit tool_input.edits must be an array"),
        other => panic!("unexpected {other:?}"),
    }
    let edits = EditsValue::Array(vec![
        entry("a", "b"),
        EditEntry { old_string: Some("c".to_string()), new_string: None },
    ]);
    match build_confined_multiedit_cmd("a", &edits) {
        Err(NonoError::HookInstall(m)) => assert_eq!(m, "MultiEdit edits[1] missing string new_string"),
        other => panic!("unexpected {other:?}"),
    }
}

#[test]
fn byte_replace_statement_is_clm_safe_and_embeds_byte_literals() {
    let stmt = byte_replace_statement(0, b"a.b", b"x");
    assert_no_dotnet_method_calls(&stmt, "byte_replace[0]");
    assert!(stmt.contains("[byte[]]@(97,46,98)"));
    assert!(stmt.contains("[byte[]]@(120)"));
    assert!(!stmt.contains("-replace") && !stmt.contains("-creplace"));
    let stmt1 = byte_replace_statement(1, b"c", b"d");
    assert!(stmt1.contains("$old1") && stmt1.contains("$out1") && stmt1.contains("$i1"));
}

#[test]
fn byte_replace_statement_empty_new_is_a_deletion() {
    let stmt = byte_replace_statement(0, b"x", b"");
    assert!(stmt.contains("$new0 = [byte[]]@()"));
    assert!(stmt.contains("if ($new0.Length -gt 0) { $out0 += $new0 }"));
}
