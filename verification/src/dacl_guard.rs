//! Guards for the DACL grants a confined launch needs on Windows: the
//! session SID's write grant on each writable rule the user owns, and the
//! package SID's traverse or read-attributes grants on the user-owned
//! ancestors of the working directory and of the launched program.
//!
//! Every grant is made only where the ownership check says the current user
//! owns the path; an ownership-check or grant failure reverts what was
//! already granted, last first, and fails the launch. The DACL calls
//! themselves are the caller's, handed in as runners.
use crate::error::NonoError;
use crate::text::views;
use vstd::prelude::*;

verus! {

/// A filesystem rule of the launch's policy.
#[derive(Debug, Clone)]
pub struct WindowsFilesystemRule {
    pub path: String,
    /// Whether the rule grants write access.
    pub writable: bool,
    /// Whether the rule names a single file (else a directory).
    pub is_file: bool,
}

/// What the guard did for one rule.
#[derive(Debug, Clone)]
pub enum AppliedDaclGrant {
    /// Nothing was granted: the rule is read-only or its path is not owned.
    Skip,
    /// The session SID was granted write access on `path`.
    Applied { path: String },
}

/// The ownership check, asked about `p`, may answer `o`.
pub open spec fn owned_gives<O: Fn(&str) -> Result<bool, NonoError>>(of: O, p: Seq<char>, o: Result<bool, NonoError>) -> bool {
    exists|s: &str| s@ == p && #[trigger] call_ensures(of, (s,), o)
}

/// The write grant, asked for `p` and `sid` (inheritable or not), may answer `o`.
pub open spec fn write_grant_gives<G: Fn(&str, &str, bool) -> Result<(), NonoError>>(
    gf: G,
    p: Seq<char>,
    sid: Seq<char>,
    inheritable: bool,
    o: Result<(), NonoError>,
) -> bool {
    exists|s: &str, t: &str| s@ == p && t@ == sid && #[trigger] call_ensures(gf, (s, t, inheritable), o)
}

/// The write grant for `p` and `sid` was asked and succeeded.
pub open spec fn grant_succeeded<G: Fn(&str, &str, bool) -> Result<(), NonoError>>(
    gf: G,
    p: Seq<char>,
    sid: Seq<char>,
    inheritable: bool,
) -> bool {
    exists|o: Result<(), NonoError>| #[trigger] write_grant_gives(gf, p, sid, inheritable, o) && o is Ok
}

/// The revocation, asked for `p` and `sid`, may answer `o`.
pub open spec fn revoke_gives<R: Fn(&str, &str) -> Result<(), NonoError>>(
    rf: R,
    p: Seq<char>,
    sid: Seq<char>,
    o: Result<(), NonoError>,
) -> bool {
    exists|s: &str, t: &str| s@ == p && t@ == sid && #[trigger] call_ensures(rf, (s, t), o)
}

/// An entry as plain values: `None` for a skip, the path for a grant.
pub open spec fn entry_view(e: AppliedDaclGrant) -> Option<Seq<char>> {
    match e {
        AppliedDaclGrant::Skip => None,
        AppliedDaclGrant::Applied { path } => Some(path@),
    }
}

/// The entry recorded for a rule agrees with what the runners answered: a
/// read-only rule is skipped; a writable rule is skipped when its path is
/// not owned, and granted (inheritable for a directory) when it is owned
/// and the grant succeeded.
pub open spec fn entry_agrees<
    O: Fn(&str) -> Result<bool, NonoError>,
    G: Fn(&str, &str, bool) -> Result<(), NonoError>,
>(rule: WindowsFilesystemRule, entry: Option<Seq<char>>, of: O, gf: G, sid: Seq<char>) -> bool {
    if !rule.writable {
        entry is None
    } else {
        match entry {
            None => owned_gives(of, rule.path@, Ok(false)),
            Some(p) => p == rule.path@ && owned_gives(of, p, Ok(true)) && grant_succeeded(gf, p, sid, !rule.is_file),
        }
    }
}

/// The failure `e` came from this rule: its ownership check failed, or its
/// path is owned and the grant failed.
pub open spec fn rule_failed<
    O: Fn(&str) -> Result<bool, NonoError>,
    G: Fn(&str, &str, bool) -> Result<(), NonoError>,
>(rule: WindowsFilesystemRule, e: NonoError, of: O, gf: G, sid: Seq<char>) -> bool {
    rule.writable && (owned_gives(of, rule.path@, Err(e)) || (owned_gives(of, rule.path@, Ok(true))
        && write_grant_gives(gf, rule.path@, sid, !rule.is_file, Err(e))))
}

/// The paths granted among the entries, in the order granted.
pub open spec fn applied_paths(es: Seq<Option<Seq<char>>>) -> Seq<Seq<char>>
    decreases es.len(),
{
    if es.len() == 0 {
        Seq::empty()
    } else {
        match es.last() {
            Some(p) => applied_paths(es.drop_last()).push(p),
            None => applied_paths(es.drop_last()),
        }
    }
}

/// Every path in `ps` was revoked for `sid` (the revocation was asked; its
/// failure is tolerated).
pub open spec fn all_revoked<R: Fn(&str, &str) -> Result<(), NonoError>>(rf: R, ps: Seq<Seq<char>>, sid: Seq<char>) -> bool {
    forall|i: int| 0 <= i < ps.len() ==> #[trigger] was_revoked(rf, ps[i], sid)
}

/// The revocation of `p` for `sid` was asked.
pub open spec fn was_revoked<R: Fn(&str, &str) -> Result<(), NonoError>>(rf: R, p: Seq<char>, sid: Seq<char>) -> bool {
    exists|o: Result<(), NonoError>| #[trigger] revoke_gives(rf, p, sid, o)
}

/// The launch failed with `e` at rule `k`: the rules before it were handled
/// as `es` records (so none of them failed), rule `k` failed with `e`, and
/// every grant made before it was revoked, last first.
pub open spec fn failed_at<
    O: Fn(&str) -> Result<bool, NonoError>,
    G: Fn(&str, &str, bool) -> Result<(), NonoError>,
    R: Fn(&str, &str) -> Result<(), NonoError>,
>(
    rules: Seq<WindowsFilesystemRule>,
    k: int,
    es: Seq<Option<Seq<char>>>,
    e: NonoError,
    of: O,
    gf: G,
    rf: R,
    sid: Seq<char>,
) -> bool {
    &&& 0 <= k < rules.len()
    &&& es.len() == k
    &&& forall|j: int| 0 <= j < k ==> #[trigger] entry_agrees(rules[j], es[j], of, gf, sid)
    &&& rule_failed(rules[k], e, of, gf, sid)
    &&& all_revoked(rf, applied_paths(es).reverse(), sid)
}

/// The session-SID write grants applied for a launch, revoked by
/// [`AppliedDaclGrantsGuard::revert_all`].
#[derive(Debug)]
pub struct AppliedDaclGrantsGuard {
    entries: Vec<AppliedDaclGrant>,
    session_sid: String,
}

impl AppliedDaclGrantsGuard {
    /// What the guard recorded, rule by rule.
    pub closed spec fn entries_view(self) -> Seq<Option<Seq<char>>> {
        self.entries@.map_values(|e: AppliedDaclGrant| entry_view(e))
    }

    /// The SID the grants were made for.
    pub closed spec fn sid_view(self) -> Seq<char> {
        self.session_sid@
    }

proof fn lemma_entries_extend<O: Fn(&str) -> Result<bool, NonoError>, G: Fn(&str, &str, bool) -> Result<(), NonoError>>(
        rules: Seq<WindowsFilesystemRule>,
        before: Seq<Option<Seq<char>>>,
        after: Seq<Option<Seq<char>>>,
        x: Option<Seq<char>>,
        of: O,
        gf: G,
        sid: Seq<char>,
    )
        requires
            after == before.push(x),
            before.len() < rules.len(),
            forall|j: int| 0 <= j < before.len() ==> #[trigger] entry_agrees(rules[j], before[j], of, gf, sid),
            entry_agrees(rules[before.len() as int], x, of, gf, sid),
        ensures
            forall|j: int| 0 <= j < after.len() ==> #[trigger] entry_agrees(rules[j], after[j], of, gf, sid),
    {
        assert forall|j: int| 0 <= j < after.len() implies #[trigger] entry_agrees(rules[j], after[j], of, gf, sid) by {
            if j < before.len() {
                assert(after[j] == before[j]);
                assert(entry_agrees(rules[j], before[j], of, gf, sid));
            }
        }
    }

    /// What the guard recorded, rule by rule.
    pub fn entries(&self) -> (r: &[AppliedDaclGrant])
        ensures
            r@.map_values(|e: AppliedDaclGrant| entry_view(e)) == self.entries_view(),
    {
        self.entries.as_slice()
    }

    /// Grants the session SID write access on every writable rule whose path
    /// the current user owns. Read-only rules and non-owned paths are
    /// skipped; the first ownership-check or grant failure revokes what was
    /// granted so far, last first, and is the result.
    pub fn snapshot_and_apply<O, G, R>(
        rules: &[WindowsFilesystemRule],
        session_sid: &str,
        owned: O,
        grant: G,
        revoke: R,
    ) -> (res: Result<AppliedDaclGrantsGuard, NonoError>)
        where
            O: Fn(&str) -> Result<bool, NonoError>,
            G: Fn(&str, &str, bool) -> Result<(), NonoError>,
            R: Fn(&str, &str) -> Result<(), NonoError>,
        requires
            forall|s: &str| call_requires(owned, (s,)),
            forall|s: &str, t: &str, b: bool| call_requires(grant, (s, t, b)),
            forall|s: &str, t: &str| call_requires(revoke, (s, t)),
        ensures
            match res {
                Ok(g) => g.sid_view() == session_sid@ && g.entries_view().len() == rules@.len() && forall|i: int|
                    0 <= i < rules@.len() ==> #[trigger] entry_agrees(rules@[i], g.entries_view()[i], owned, grant, session_sid@),
                Err(e) => exists|k: int, es: Seq<Option<Seq<char>>>| #[trigger] failed_at(
                    rules@,
                    k,
                    es,
                    e,
                    owned,
                    grant,
                    revoke,
                    session_sid@,
                ),
            },
    {
        let mut guard = AppliedDaclGrantsGuard { entries: Vec::new(), session_sid: String::from_str(session_sid) };
        let mut i: usize = 0;
        while i < rules.len()
            invariant
                i <= rules.len(),
                guard.sid_view() == session_sid@,
                guard.entries_view().len() == i,
                forall|s: &str| call_requires(owned, (s,)),
                forall|s: &str, t: &str, b: bool| call_requires(grant, (s, t, b)),
                forall|s: &str, t: &str| call_requires(revoke, (s, t)),
                forall|j: int| 0 <= j < i ==> #[trigger] entry_agrees(rules@[j], guard.entries_view()[j], owned, grant, session_sid@),
            decreases rules.len() - i,
        {
            let rule = &rules[i];
            let ghost before = guard.entries_view();
            if !rule.writable {
                guard.entries.push(AppliedDaclGrant::Skip);
                proof {
                    assert(guard.entries_view() =~= before.push(None));
                    Self::lemma_entries_extend(rules@, before, guard.entries_view(), None, owned, grant, session_sid@);
                }
                i = i + 1;
                continue;
            }
            let o = owned(rule.path.as_str());
            assert(owned_gives(owned, rule.path@, o));
            match o {
                Ok(false) => {
                    guard.entries.push(AppliedDaclGrant::Skip);
                    proof {
                        assert(guard.entries_view() =~= before.push(None));
                        Self::lemma_entries_extend(rules@, before, guard.entries_view(), None, owned, grant, session_sid@);
                    }
                    i = i + 1;
                    continue;
                },
                Err(err) => {
                    let _ = guard.revert_all(&revoke);
                    assert(rule_failed(rules@[i as int], err, owned, grant, session_sid@));
                    assert(failed_at(rules@, i as int, before, err, owned, grant, revoke, session_sid@));
                    return Err(err);
                },
                Ok(true) => {},
            }
            let g = grant(rule.path.as_str(), session_sid, !rule.is_file);
            assert(write_grant_gives(grant, rule.path@, session_sid@, !rule.is_file, g));
            if let Err(err) = g {
                let _ = guard.revert_all(&revoke);
                assert(rule_failed(rules@[i as int], err, owned, grant, session_sid@));
                assert(failed_at(rules@, i as int, before, err, owned, grant, revoke, session_sid@));
                return Err(err);
            }
            assert(g is Ok);
            guard.entries.push(AppliedDaclGrant::Applied { path: rule.path.clone() });
            proof {
                assert(guard.entries_view() =~= before.push(Some(rule.path@)));
                Self::lemma_entries_extend(
                    rules@,
                    before,
                    guard.entries_view(),
                    Some(rule.path@),
                    owned,
                    grant,
                    session_sid@,
                );
            }
            i = i + 1;
        }
        Ok(guard)
    }

    /// Revokes every grant the guard applied, last first, and forgets them;
    /// a failed revocation is tolerated. Returns the revoked paths in the
    /// order revoked.
    pub fn revert_all<R>(&mut self, revoke: &R) -> (revoked: Vec<String>)
        where
            R: Fn(&str, &str) -> Result<(), NonoError>,
        requires
            forall|s: &str, t: &str| call_requires(*revoke, (s, t)),
        ensures
            final(self).entries_view().len() == 0,
            final(self).sid_view() == old(self).sid_view(),
            views(revoked@) == applied_paths(old(self).entries_view()).reverse(),
            all_revoked(*revoke, views(revoked@), old(self).sid_view()),
    {
        let mut revoked: Vec<String> = Vec::new();
        let ghost all = self.entries_view();
        while self.entries.len() > 0
            invariant
                forall|s: &str, t: &str| call_requires(*revoke, (s, t)),
                self.sid_view() == old(self).sid_view(),
                all == old(self).entries_view(),
                self.entries_view() == all.take(self.entries_view().len() as int),
                self.entries_view().len() <= all.len(),
                applied_paths(all) == applied_paths(self.entries_view()) + views(revoked@).reverse(),
                all_revoked(*revoke, views(revoked@), self.sid_view()),
            decreases self.entries.len(),
        {
            let ghost cur = self.entries_view();
            let entry = self.entries.pop().unwrap();
            proof {
                assert(self.entries_view() =~= cur.drop_last());
                assert(cur.take(cur.len() - 1) =~= cur.drop_last());
                assert(all.take(self.entries_view().len() as int) =~= cur.drop_last());
            }
            match entry {
                AppliedDaclGrant::Skip => {},
                AppliedDaclGrant::Applied { path } => {
                    let o = revoke(path.as_str(), self.session_sid.as_str());
                    assert(revoke_gives(*revoke, path@, self.sid_view(), o));
                    let ghost rv = views(revoked@);
                    revoked.push(path);
                    proof {
                        assert(views(revoked@) =~= rv.push(path@));
                        assert(views(revoked@).reverse() =~= seq![path@] + rv.reverse());
                        assert(was_revoked(*revoke, path@, self.sid_view()));
                        assert forall|k: int| 0 <= k < views(revoked@).len() implies #[trigger] was_revoked(
                            *revoke,
                            views(revoked@)[k],
                            self.sid_view(),
                        ) by {
                            if k < rv.len() {
                                assert(views(revoked@)[k] == rv[k]);
                            }
                        }
                    }
                },
            }
        }
        proof {
            assert(self.entries_view() =~= Seq::<Option<Seq<char>>>::empty());
        }
        revoked
    }
}

// ---------------------------------------------------------------------------
// Ancestor grants for the package SID
// ---------------------------------------------------------------------------

/// The ancestor grant, asked for `p` and `sid`, may answer `o`.
pub open spec fn ancestor_grant_gives<G: Fn(&str, &str) -> Result<(), NonoError>>(
    gf: G,
    p: Seq<char>,
    sid: Seq<char>,
    o: Result<(), NonoError>,
) -> bool {
    exists|s: &str, t: &str| s@ == p && t@ == sid && #[trigger] call_ensures(gf, (s, t), o)
}

/// The path `p` is one of the ancestors in `chains`.
pub open spec fn in_some_chain(chains: Seq<Seq<Seq<char>>>, p: Seq<char>) -> bool {
    exists|c: int, j: int| 0 <= c < chains.len() && 0 <= j < chains[c].len() && #[trigger] chains[c][j] == p
}

/// A granted ancestor: it is on one of the chains, the current user owns it,
/// and its grant succeeded.
pub open spec fn ancestor_granted<O: Fn(&str) -> Result<bool, NonoError>, G: Fn(&str, &str) -> Result<(), NonoError>>(
    chains: Seq<Seq<Seq<char>>>,
    p: Seq<char>,
    of: O,
    gf: G,
    sid: Seq<char>,
) -> bool {
    &&& in_some_chain(chains, p)
    &&& owned_gives(of, p, Ok(true))
    &&& exists|o: Result<(), NonoError>| #[trigger] ancestor_grant_gives(gf, p, sid, o) && o is Ok
}

/// The failure `e` came from an ancestor on one of the chains: its
/// ownership check failed, or it is owned and its grant failed.
pub open spec fn ancestor_failed<O: Fn(&str) -> Result<bool, NonoError>, G: Fn(&str, &str) -> Result<(), NonoError>>(
    chains: Seq<Seq<Seq<char>>>,
    e: NonoError,
    of: O,
    gf: G,
    sid: Seq<char>,
) -> bool {
    exists|c: int, j: int| 0 <= c < chains.len() && 0 <= j < chains[c].len() && (owned_gives(
        of,
        #[trigger] chains[c][j],
        Err(e),
    ) || (owned_gives(of, chains[c][j], Ok(true)) && ancestor_grant_gives(gf, chains[c][j], sid, Err(e))))
}

/// The ancestor grants failed with `e` after granting `ps`: every path in
/// `ps` was a granted ancestor, and each was revoked again, last first.
pub open spec fn ancestors_failed_after<
    O: Fn(&str) -> Result<bool, NonoError>,
    G: Fn(&str, &str) -> Result<(), NonoError>,
    R: Fn(&str, &str) -> Result<(), NonoError>,
>(chains: Seq<Seq<Seq<char>>>, ps: Seq<Seq<char>>, e: NonoError, of: O, gf: G, rf: R, sid: Seq<char>) -> bool {
    &&& ancestor_failed(chains, e, of, gf, sid)
    &&& forall|i: int| 0 <= i < ps.len() ==> #[trigger] ancestor_granted(chains, ps[i], of, gf, sid)
    &&& all_revoked(rf, ps.reverse(), sid)
}

/// The ancestor chains as plain values.
pub open spec fn chain_views(chains: Seq<Vec<String>>) -> Seq<Seq<Seq<char>>> {
    chains.map_values(|c: Vec<String>| views(c@))
}

/// No path occurs twice in `ps`.
pub open spec fn no_duplicates(ps: Seq<Seq<char>>) -> bool {
    forall|i: int, j: int| 0 <= i < j < ps.len() ==> ps[i] != ps[j]
}

/// The package-SID grants (traverse, or read-attributes) on the user-owned
/// ancestors of the launch's working directory or program, revoked by
/// [`AppliedAncestorGrantsGuard::revert_all`].
#[derive(Debug)]
pub struct AppliedAncestorGrantsGuard {
    applied: Vec<String>,
    package_sid: String,
}

/// The traverse grants on the working directory's ancestors.
pub type AppliedAncestorTraverseGuard = AppliedAncestorGrantsGuard;

/// The read-attributes grants on the resolution chains of the program and
/// the workspace.
pub type AppliedAncestorReadAttributesGuard = AppliedAncestorGrantsGuard;

fn contains_path(ps: &Vec<String>, p: &str) -> (r: bool)
    ensures
        r == views(ps@).contains(p@),
{
    let mut i: usize = 0;
    while i < ps.len()
        invariant
            i <= ps.len(),
            forall|k: int| 0 <= k < i ==> views(ps@)[k] != p@,
        decreases ps.len() - i,
    {
        if crate::text::str_eq(ps[i].as_str(), p) {
            assert(views(ps@)[i as int] == p@);
            return true;
        }
        i = i + 1;
    }
    false
}

impl AppliedAncestorGrantsGuard {
    /// The ancestors granted, in the order granted.
    pub closed spec fn applied_view(self) -> Seq<Seq<char>> {
        views(self.applied@)
    }

    /// The SID the grants were made for.
    pub closed spec fn sid_view(self) -> Seq<char> {
        self.package_sid@
    }

    /// The ancestors granted, in the order granted.
    pub fn applied(&self) -> (r: &[String])
        ensures
            views(r@) == self.applied_view(),
    {
        self.applied.as_slice()
    }

    /// Grants the package SID on the user-owned ancestors of one path,
    /// `ancestors` listing them from the immediate parent upward.
    pub fn snapshot_and_apply<O, G, R>(
        ancestors: &Vec<String>,
        package_sid: &str,
        owned: O,
        grant: G,
        revoke: R,
    ) -> (res: Result<AppliedAncestorGrantsGuard, NonoError>)
        where
            O: Fn(&str) -> Result<bool, NonoError>,
            G: Fn(&str, &str) -> Result<(), NonoError>,
            R: Fn(&str, &str) -> Result<(), NonoError>,
        requires
            forall|s: &str| call_requires(owned, (s,)),
            forall|s: &str, t: &str| call_requires(grant, (s, t)),
            forall|s: &str, t: &str| call_requires(revoke, (s, t)),
        ensures
            match res {
                Ok(g) => g.sid_view() == package_sid@ && no_duplicates(g.applied_view()) && forall|i: int|
                    0 <= i < g.applied_view().len() ==> #[trigger] ancestor_granted(
                        seq![views(ancestors@)],
                        g.applied_view()[i],
                        owned,
                        grant,
                        package_sid@,
                    ),
                Err(e) => exists|ps: Seq<Seq<char>>| #[trigger] ancestors_failed_after(
                    seq![views(ancestors@)],
                    ps,
                    e,
                    owned,
                    grant,
                    revoke,
                    package_sid@,
                ),
            },
    {
        let chains = vec![ancestors.clone()];
        proof {
            assert(chain_views(chains@) =~= seq![views(ancestors@)]);
        }
        Self::snapshot_and_apply_targets(&chains, package_sid, owned, grant, revoke)
    }

    /// Grants the package SID on the user-owned ancestors of each target,
    /// each chain listed from the target's immediate parent upward. A chain
    /// stops at its first ancestor the user does not own; an ancestor shared
    /// by several chains is granted once. An ownership-check or grant
    /// failure revokes what was granted, last first, and is the result.
    pub fn snapshot_and_apply_targets<O, G, R>(
        chains: &Vec<Vec<String>>,
        package_sid: &str,
        owned: O,
        grant: G,
        revoke: R,
    ) -> (res: Result<AppliedAncestorGrantsGuard, NonoError>)
        where
            O: Fn(&str) -> Result<bool, NonoError>,
            G: Fn(&str, &str) -> Result<(), NonoError>,
            R: Fn(&str, &str) -> Result<(), NonoError>,
        requires
            forall|s: &str| call_requires(owned, (s,)),
            forall|s: &str, t: &str| call_requires(grant, (s, t)),
            forall|s: &str, t: &str| call_requires(revoke, (s, t)),
        ensures
            match res {
                Ok(g) => g.sid_view() == package_sid@ && no_duplicates(g.applied_view()) && forall|i: int|
                    0 <= i < g.applied_view().len() ==> #[trigger] ancestor_granted(
                        chain_views(chains@),
                        g.applied_view()[i],
                        owned,
                        grant,
                        package_sid@,
                    ),
                Err(e) => exists|ps: Seq<Seq<char>>| #[trigger] ancestors_failed_after(
                    chain_views(chains@),
                    ps,
                    e,
                    owned,
                    grant,
                    revoke,
                    package_sid@,
                ),
            },
    {
        let ghost cv = chain_views(chains@);
        let mut guard = AppliedAncestorGrantsGuard { applied: Vec::new(), package_sid: String::from_str(package_sid) };
        let mut c: usize = 0;
        while c < chains.len()
            invariant
                c <= chains.len(),
                cv == chain_views(chains@),
                guard.sid_view() == package_sid@,
                no_duplicates(guard.applied_view()),
                forall|s: &str| call_requires(owned, (s,)),
                forall|s: &str, t: &str| call_requires(grant, (s, t)),
                forall|s: &str, t: &str| call_requires(revoke, (s, t)),
                forall|i: int| 0 <= i < guard.applied_view().len() ==> #[trigger] ancestor_granted(
                    cv,
                    guard.applied_view()[i],
                    owned,
                    grant,
                    package_sid@,
                ),
            decreases chains.len() - c,
        {
            let chain = &chains[c];
            let mut j: usize = 0;
            while j < chain.len()
                invariant
                    j <= chain.len(),
                    c < chains.len(),
                    chain == chains@[c as int],
                    cv == chain_views(chains@),
                    guard.sid_view() == package_sid@,
                    no_duplicates(guard.applied_view()),
                    forall|s: &str| call_requires(owned, (s,)),
                    forall|s: &str, t: &str| call_requires(grant, (s, t)),
                    forall|s: &str, t: &str| call_requires(revoke, (s, t)),
                    forall|i: int| 0 <= i < guard.applied_view().len() ==> #[trigger] ancestor_granted(
                        cv,
                        guard.applied_view()[i],
                        owned,
                        grant,
                        package_sid@,
                    ),
                decreases chain.len() - j,
            {
                let ancestor = &chain[j];
                proof {
                    assert(cv[c as int] == views(chain@));
                    assert(cv[c as int][j as int] == ancestor@);
                }
                if contains_path(&guard.applied, ancestor.as_str()) {
                    j = j + 1;
                    continue;
                }
                let o = owned(ancestor.as_str());
                assert(owned_gives(owned, ancestor@, o));
                match o {
                    Ok(true) => {},
                    Ok(false) => {
                        break;
                    },
                    Err(err) => {
                        let ghost granted = guard.applied_view();
                        let _ = guard.revert_all(&revoke);
                        assert(ancestors_failed_after(cv, granted, err, owned, grant, revoke, package_sid@));
                        return Err(err);
                    },
                }
                let g = grant(ancestor.as_str(), package_sid);
                assert(ancestor_grant_gives(grant, ancestor@, package_sid@, g));
                if let Err(err) = g {
                    let ghost granted = guard.applied_view();
                    let _ = guard.revert_all(&revoke);
                    assert(ancestors_failed_after(cv, granted, err, owned, grant, revoke, package_sid@));
                    return Err(err);
                }
                let ghost before = guard.applied_view();
                guard.applied.push(ancestor.clone());
                proof {
                    assert(guard.applied_view() =~= before.push(ancestor@));
                    assert(in_some_chain(cv, ancestor@));
                    assert(ancestor_granted(cv, ancestor@, owned, grant, package_sid@));
                    assert forall|i: int| 0 <= i < guard.applied_view().len() implies #[trigger] ancestor_granted(
                        cv,
                        guard.applied_view()[i],
                        owned,
                        grant,
                        package_sid@,
                    ) by {
                        if i < before.len() {
                            assert(guard.applied_view()[i] == before[i]);
                        }
                    }
                    assert forall|a: int, b: int| 0 <= a < b < guard.applied_view().len() implies guard.applied_view()[a]
                        != guard.applied_view()[b] by {
                        if b == before.len() {
                            assert(before[a] == guard.applied_view()[a]);
                            assert(before.contains(before[a]));
                        }
                    }
                }
                j = j + 1;
            }
            c = c + 1;
        }
        Ok(guard)
    }

    /// Revokes every grant, last first, and forgets them; a failed
    /// revocation is tolerated. Returns the revoked paths in the order
    /// revoked.
    pub fn revert_all<R>(&mut self, revoke: &R) -> (revoked: Vec<String>)
        where
            R: Fn(&str, &str) -> Result<(), NonoError>,
        requires
            forall|s: &str, t: &str| call_requires(*revoke, (s, t)),
        ensures
            final(self).applied_view().len() == 0,
            final(self).sid_view() == old(self).sid_view(),
            views(revoked@) == old(self).applied_view().reverse(),
            all_revoked(*revoke, views(revoked@), old(self).sid_view()),
    {
        let mut revoked: Vec<String> = Vec::new();
        let ghost all = self.applied_view();
        while self.applied.len() > 0
            invariant
                forall|s: &str, t: &str| call_requires(*revoke, (s, t)),
                self.sid_view() == old(self).sid_view(),
                all == old(self).applied_view(),
                all == self.applied_view() + views(revoked@).reverse(),
                all_revoked(*revoke, views(revoked@), self.sid_view()),
            decreases self.applied.len(),
        {
            let ghost cur = self.applied_view();
            let path = self.applied.pop().unwrap();
            let o = revoke(path.as_str(), self.package_sid.as_str());
            assert(revoke_gives(*revoke, path@, self.sid_view(), o));
            let ghost rv = views(revoked@);
            revoked.push(path);
            proof {
                assert(self.applied_view() =~= cur.drop_last());
                assert(cur.last() == path@);
                assert(views(revoked@) =~= rv.push(path@));
                assert(views(revoked@).reverse() =~= seq![path@] + rv.reverse());
                assert(cur =~= cur.drop_last().push(path@));
                assert(all =~= self.applied_view() + views(revoked@).reverse());
                assert(was_revoked(*revoke, path@, self.sid_view()));
                assert forall|k: int| 0 <= k < views(revoked@).len() implies #[trigger] was_revoked(
                    *revoke,
                    views(revoked@)[k],
                    self.sid_view(),
                ) by {
                    if k < rv.len() {
                        assert(views(revoked@)[k] == rv[k]);
                    }
                }
            }
        }
        proof {
            assert(views(revoked@).reverse() =~= all);
            assert(views(revoked@).reverse().reverse() =~= views(revoked@));
        }
        revoked
    }
}

/// The grants on ancestors never reach a path that the current user does
/// not own: every granted ancestor was answered as owned.
pub proof fn lemma_ancestor_grants_only_on_owned_paths<
    O: Fn(&str) -> Result<bool, NonoError>,
    G: Fn(&str, &str) -> Result<(), NonoError>,
>(chains: Seq<Seq<Seq<char>>>, applied: Seq<Seq<char>>, of: O, gf: G, sid: Seq<char>, p: Seq<char>)
    requires
        forall|i: int| 0 <= i < applied.len() ==> #[trigger] ancestor_granted(chains, applied[i], of, gf, sid),
        forall|o: Result<bool, NonoError>| #[trigger] owned_gives(of, p, o) ==> o != Ok::<bool, NonoError>(true),
    ensures
        !applied.contains(p),
{
    if applied.contains(p) {
        let i = choose|i: int| 0 <= i < applied.len() && applied[i] == p;
        assert(ancestor_granted(chains, applied[i], of, gf, sid));
    }
}

} // verus!
