use nono_cli::dacl_guard::{
    AppliedAncestorGrantsGuard, AppliedAncestorReadAttributesGuard, AppliedAncestorTraverseGuard,
    AppliedDaclGrant, AppliedDaclGrantsGuard, WindowsFilesystemRule,
};
use nono_cli::error::NonoError;
use std::cell::RefCell;

const TEST_SESSION_SID: &str = "S-1-5-117-5-6-7-8";
const TEST_PACKAGE_SID: &str = "S-1-15-2-10-20-30-40-50-60-70";

fn rule(path: &str, writable: bool, is_file: bool) -> WindowsFilesystemRule {
    WindowsFilesystemRule { path: path.to_string(), writable, is_file }
}

/// A simulated DACL store: which (path, SID) grants are present.
struct Dacls {
    grants: RefCell<Vec<(String, String, bool)>>,
    revoked: RefCell<Vec<String>>,
}

impl Dacls {
    fn new() -> Self {
        Dacls { grants: RefCell::new(Vec::new()), revoked: RefCell::new(Vec::new()) }
    }
    fn contains(&self, path: &str, sid: &str) -> bool {
        self.grants.borrow().iter().any(|(p, s, _)| p == path && s == sid)
    }
    fn grant(&self, path: &str, sid: &str, inheritable: bool) -> Result<(), NonoError> {
        if path.contains("does-not-exist") {
            return Err(NonoError::Setup(format!("failed to apply DACL to {path}")));
        }
        self.grants.borrow_mut().push((path.to_string(), sid.to_string(), inheritable));
        Ok(())
    }
    fn revoke(&self, path: &str, sid: &str) -> Result<(), NonoError> {
        self.revoked.borrow_mut().push(path.to_string());
        self.grants.borrow_mut().retain(|(p, s, _)| !(p == path && s == sid));
        Ok(())
    }
}

#[test]
fn writable_rule_applies_sid_ace_and_reverts_on_drop() {
    let dacls = Dacls::new();
    let path = r"C:\Users\u\work";
    let rules = vec![rule(path, true, false)];
    assert!(!dacls.contains(path, TEST_SESSION_SID), "test precondition: SID must not pre-exist");
    let mut guard = AppliedDaclGrantsGuard::snapshot_and_apply(
        &rules,
        TEST_SESSION_SID,
        |_p: &str| -> Result<bool, NonoError> { Ok(true) },
        |p: &str, s: &str, i: bool| dacls.grant(p, s, i),
        |p: &str, s: &str| dacls.revoke(p, s),
    )
    .expect("apply");
    assert_eq!(guard.entries().len(), 1);
    assert!(
        matches!(guard.entries()[0], AppliedDaclGrant::Applied { .. }),
        "writable owned rule must record Applied; got {:?}",
        guard.entries()[0]
    );
    assert!(dacls.contains(path, TEST_SESSION_SID), "during guard lifetime the SID's ACE must be present");
    assert_eq!(dacls.grants.borrow()[0].2, true, "directory rules are granted inheritably");
    let revoked = guard.revert_all(&|p: &str, s: &str| dacls.revoke(p, s));
    assert_eq!(revoked, vec![path.to_string()]);
    assert!(!dacls.contains(path, TEST_SESSION_SID), "after revert the SID's ACE must be revoked");
    assert!(guard.entries().is_empty());
}

#[test]
fn read_only_rule_is_skipped_no_dacl_change() {
    let dacls = Dacls::new();
    let rules = vec![rule(r"C:\Users\u\note.txt", false, true)];
    let guard = AppliedDaclGrantsGuard::snapshot_and_apply(
        &rules,
        TEST_SESSION_SID,
        |_p: &str| -> Result<bool, NonoError> { panic!("read-only rules need no ownership check") },
        |p: &str, s: &str, i: bool| dacls.grant(p, s, i),
        |p: &str, s: &str| dacls.revoke(p, s),
    )
    .expect("apply");
    assert_eq!(guard.entries().len(), 1, "one rule → one guard entry");
    assert!(matches!(guard.entries()[0], AppliedDaclGrant::Skip));
    assert!(dacls.grants.borrow().is_empty(), "read-only rule must not add the SID to the DACL");
}

#[test]
fn mid_loop_grant_failure_reverts_already_applied() {
    let dacls = Dacls::new();
    let ok_dir = r"C:\Users\u\work";
    let rules = vec![rule(ok_dir, true, false), rule(r"C:\Users\u\work\does-not-exist", true, true)];
    let result = AppliedDaclGrantsGuard::snapshot_and_apply(
        &rules,
        TEST_SESSION_SID,
        |_p: &str| -> Result<bool, NonoError> { Ok(true) },
        |p: &str, s: &str, i: bool| dacls.grant(p, s, i),
        |p: &str, s: &str| dacls.revoke(p, s),
    );
    assert!(
        matches!(result, Err(NonoError::Setup(_))),
        "mid-loop failure on a non-existent path must fail closed; got {result:?}"
    );
    assert!(
        !dacls.contains(ok_dir, TEST_SESSION_SID),
        "first rule's SID ACE must be reverted after the mid-loop failure"
    );
    assert_eq!(*dacls.revoked.borrow(), vec![ok_dir.to_string()]);
}

#[test]
fn non_owned_writable_rules_are_skipped_and_ownership_errors_fail() {
    let dacls = Dacls::new();
    let rules = vec![
        rule(r"C:\Users\u\a", true, false),
        rule(r"C:\Program Files\x", true, false),
        rule(r"C:\Users\u\b.txt", true, true),
    ];
    let guard = AppliedDaclGrantsGuard::snapshot_and_apply(
        &rules,
        TEST_SESSION_SID,
        |p: &str| -> Result<bool, NonoError> { Ok(p.starts_with(r"C:\Users\u")) },
        |p: &str, s: &str, i: bool| dacls.grant(p, s, i),
        |p: &str, s: &str| dacls.revoke(p, s),
    )
    .expect("apply");
    assert!(matches!(guard.entries()[1], AppliedDaclGrant::Skip));
    assert_eq!(
        *dacls.grants.borrow(),
        vec![
            (r"C:\Users\u\a".to_string(), TEST_SESSION_SID.to_string(), true),
            (r"C:\Users\u\b.txt".to_string(), TEST_SESSION_SID.to_string(), false),
        ]
    );

    let dacls = Dacls::new();
    let result = AppliedDaclGrantsGuard::snapshot_and_apply(
        &rules,
        TEST_SESSION_SID,
        |p: &str| -> Result<bool, NonoError> {
            if p.contains("Program Files") {
                Err(NonoError::Setup("owner lookup failed".to_string()))
            } else {
                Ok(true)
            }
        },
        |p: &str, s: &str, i: bool| dacls.grant(p, s, i),
        |p: &str, s: &str| dacls.revoke(p, s),
    );
    assert_eq!(result.unwrap_err(), NonoError::Setup("owner lookup failed".to_string()));
    assert!(dacls.grants.borrow().is_empty(), "applied grants are reverted on an ownership error");
}

#[test]
fn ancestor_traverse_grants_owned_ancestors_and_stops_at_first_non_owned() {
    let dacls = Dacls::new();
    let ancestors: Vec<String> =
        vec![r"C:\Users\u\a\b".into(), r"C:\Users\u\a".into(), r"C:\Users\u".into(), r"C:\Users".into(), r"C:\".into()];
    let asked = RefCell::new(Vec::new());
    let mut guard: AppliedAncestorTraverseGuard = AppliedAncestorGrantsGuard::snapshot_and_apply(
        &ancestors,
        TEST_PACKAGE_SID,
        |p: &str| -> Result<bool, NonoError> {
            asked.borrow_mut().push(p.to_string());
            Ok(p.starts_with(r"C:\Users\u"))
        },
        |p: &str, s: &str| dacls.grant(p, s, false),
        |p: &str, s: &str| dacls.revoke(p, s),
    )
    .expect("apply");
    assert_eq!(guard.applied(), &ancestors[..3]);
    assert_eq!(asked.borrow().len(), 4, "the walk stops at the first non-owned ancestor");
    assert!(!dacls.contains(r"C:\Users", TEST_PACKAGE_SID));
    let revoked = guard.revert_all(&|p: &str, s: &str| dacls.revoke(p, s));
    assert_eq!(revoked, vec![r"C:\Users\u".to_string(), r"C:\Users\u\a".to_string(), r"C:\Users\u\a\b".to_string()]);
    assert!(dacls.grants.borrow().is_empty());
}

#[test]
fn ancestor_read_attributes_dedups_shared_ancestor_across_targets() {
    let dacls = Dacls::new();
    let chains: Vec<Vec<String>> = vec![
        vec![r"C:\Users\u\bin".into(), r"C:\Users\u".into(), r"C:\Users".into()],
        vec![r"C:\Users\u\ws".into(), r"C:\Users\u".into(), r"C:\Users".into()],
    ];
    let guard: AppliedAncestorReadAttributesGuard = AppliedAncestorGrantsGuard::snapshot_and_apply_targets(
        &chains,
        TEST_PACKAGE_SID,
        |p: &str| -> Result<bool, NonoError> { Ok(p != r"C:\Users") },
        |p: &str, s: &str| dacls.grant(p, s, false),
        |p: &str, s: &str| dacls.revoke(p, s),
    )
    .expect("apply");
    assert_eq!(
        guard.applied(),
        &[r"C:\Users\u\bin".to_string(), r"C:\Users\u".to_string(), r"C:\Users\u\ws".to_string()][..]
    );
    assert_eq!(dacls.grants.borrow().len(), 3, "the shared ancestor is granted exactly once");
}

#[test]
fn ancestor_grant_failure_reverts_and_fails() {
    let dacls = Dacls::new();
    let ancestors: Vec<String> = vec![r"C:\Users\u\x".into(), r"C:\Users\u\does-not-exist".into()];
    let result = AppliedAncestorGrantsGuard::snapshot_and_apply(
        &ancestors,
        TEST_PACKAGE_SID,
        |_p: &str| -> Result<bool, NonoError> { Ok(true) },
        |p: &str, s: &str| dacls.grant(p, s, false),
        |p: &str, s: &str| dacls.revoke(p, s),
    );
    assert!(matches!(result, Err(NonoError::Setup(_))));
    assert!(dacls.grants.borrow().is_empty());
    assert_eq!(*dacls.revoked.borrow(), vec![r"C:\Users\u\x".to_string()]);
}
