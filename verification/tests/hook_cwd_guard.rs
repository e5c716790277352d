use nono_cli::hook_cwd_guard::{
    agent_state_targets, components_of, cwd_self_disable_risk, join_name, join_tail, path_covers,
};

const HOME: &str = r"\\?\C:\Users\dev";
const STATE: &str = ".agent";

fn targets() -> Vec<String> {
    agent_state_targets(HOME, STATE)
}

fn refusal(cwd: &str) -> String {
    format!(
        "refusing to wrap Bash: CWD '{cwd}' covers agent hook settings or agent state; would allow the tool jail to disable its own hooks"
    )
}

#[test]
fn components_drop_separators_and_empty_pieces() {
    assert_eq!(components_of(r"\\?\C:\Users\dev"), vec!["?", "C:", "Users", "dev"]);
    assert_eq!(components_of("a//b/"), vec!["a", "b"]);
    assert!(components_of("").is_empty());
}

#[test]
fn covering_compares_whole_components() {
    assert!(path_covers(r"C:\Users\dev", r"C:\Users\dev\.agent"));
    assert!(path_covers(r"C:\Users\dev", r"C:\Users\dev"));
    assert!(!path_covers(r"C:\Users\dev\.agent", r"C:\Users\dev\.agentfoo"));
    assert!(!path_covers(r"C:\Users\dev\repo", r"C:\Users\dev"));
    assert!(path_covers(r"C:/Users/dev", r"C:\Users\dev\x"));
}

#[test]
fn joining_adds_one_separator() {
    assert_eq!(join_name(r"C:\Users\dev", ".agent"), r"C:\Users\dev\.agent");
    assert_eq!(join_name(r"C:\", "x"), r"C:\x");
    assert_eq!(join_name("", "x"), "x");
    assert_eq!(
        agent_state_targets(r"C:\h", ".agent"),
        vec![r"C:\h\.agent", r"C:\h\.agent.json", r"C:\h\.agent.json.lock"]
    );
}

#[test]
fn tail_is_appended_to_the_canonical_base() {
    assert_eq!(
        join_tail(r"\\?\C:\Users\dev", r"C:\Users\dev\.agent\projects", 2),
        r"\\?\C:\Users\dev\.agent\projects"
    );
    assert_eq!(join_tail(r"\\?\C:\x", r"C:\x\y", 0), r"\\?\C:\x");
}

#[test]
fn windows_cwd_guard_denies_home_claude_ancestor() {
    let r = cwd_self_disable_risk(HOME, Some(HOME), STATE, &targets(), false);
    assert_eq!(r, Some(refusal(HOME)), "home CWD covers the agent's state");
}

#[test]
fn windows_cwd_guard_uses_path_components() {
    let cwd = format!(r"{HOME}\.agentfoo");
    let r = cwd_self_disable_risk(&cwd, Some(HOME), STATE, &targets(), false);
    assert_eq!(r, None, "component comparison must not treat .agentfoo as .agent");
}

#[test]
fn windows_cwd_guard_denies_project_claude_child() {
    let cwd = format!(r"{HOME}\repo");
    let r = cwd_self_disable_risk(&cwd, Some(HOME), STATE, &targets(), true);
    assert_eq!(r, Some(refusal(&cwd)), "repo CWD with a project-local state child must be denied");
    assert_eq!(cwd_self_disable_risk(&cwd, Some(HOME), STATE, &targets(), false), None);
}

#[test]
fn windows_cwd_guard_denies_home_claude_ancestor_absent_file() {
    let absent = join_tail(HOME, r"C:\Users\dev\.agent.json", 1);
    let r = cwd_self_disable_risk(HOME, Some(HOME), STATE, &[absent], false);
    assert_eq!(r, Some(refusal(HOME)), "guard must fire when the state file does not yet exist");
}

#[test]
fn windows_cwd_guard_denies_inside_home_claude() {
    let cwd = format!(r"{HOME}\.agent\projects\myrepo");
    let r = cwd_self_disable_risk(&cwd, Some(HOME), STATE, &targets(), false);
    assert_eq!(r, Some(refusal(&cwd)), "guard must fire inside the home state subtree");
}

#[test]
fn windows_cwd_guard_refuses_without_home() {
    assert_eq!(
        cwd_self_disable_risk(HOME, None, STATE, &[], false),
        Some(
            "refusing to wrap Bash: home directory cannot be resolved; cannot verify CWD does not cover agent hook state"
                .to_string()
        )
    );
}
