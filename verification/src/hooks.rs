//! Hook bookkeeping.
//!
//! A hook diverts a target function's entry to a replacement and yields a
//! trampoline that still runs the original body. This table owns the record
//! of every installed hook: which target addresses are taken, which
//! trampoline belongs to each, and whether the redirect is currently active.
//! It enforces the global invariant that at most one hook exists per target
//! address at a time, and its toggles are idempotent: enabling an enabled
//! hook and uninstalling an absent one change nothing and raise no error.
//! The byte-level rewriting itself happens outside the library; the caller
//! records each successful rewrite here and consults the table before
//! touching a target again.
//!
//! The table is viewed as a map from target address to the pair of its
//! trampoline address and its enabled flag.

use vstd::assert_sets_equal;
use vstd::map::*;
use vstd::prelude::*;
use vstd::std_specs::vec::vec_index_mut;

use crate::errors::{HookEnableError, HookInstallError};

verus! {

/// One installed hook: the hooked target address, the trampoline that runs
/// the original instructions, and whether the redirect is active.
#[derive(Clone, Copy, Debug, PartialEq, Eq, Structural)]
pub struct HookEntry {
    pub target: u64,
    pub trampoline: u64,
    pub enabled: bool,
}

/// No two entries claim the same target address.
pub open spec fn targets_distinct(s: Seq<HookEntry>) -> bool {
    forall|i: int, j: int| 0 <= i < j < s.len() ==> s[i].target != s[j].target
}

/// The map an entry sequence stands for: target address to (trampoline,
/// enabled).
pub open spec fn entries_map(s: Seq<HookEntry>) -> Map<u64, (u64, bool)>
    decreases s.len(),
{
    if s.len() == 0 {
        Map::empty()
    } else {
        entries_map(s.drop_last()).insert(
            s.last().target,
            (s.last().trampoline, s.last().enabled),
        )
    }
}

/// A target is in the map exactly when some entry claims it.
pub proof fn lemma_entries_map_contains(s: Seq<HookEntry>, t: u64)
    ensures
        entries_map(s).contains_key(t) <==> exists|i: int| 0 <= i < s.len() && s[i].target == t,
    decreases s.len(),
{
    if s.len() > 0 {
        lemma_entries_map_contains(s.drop_last(), t);
        if s.last().target == t {
            assert(s[s.len() - 1].target == t);
        } else if entries_map(s).contains_key(t) {
            let i = choose|i: int| 0 <= i < s.drop_last().len() && s.drop_last()[i].target == t;
            assert(s[i].target == t);
        } else if exists|i: int| 0 <= i < s.len() && s[i].target == t {
            let i = choose|i: int| 0 <= i < s.len() && s[i].target == t;
            assert(s.drop_last()[i].target == t);
        }
    }
}

/// With distinct targets, each entry is the map's value at its target.
pub proof fn lemma_entries_map_value(s: Seq<HookEntry>, i: int)
    requires
        targets_distinct(s),
        0 <= i < s.len(),
    ensures
        entries_map(s).contains_key(s[i].target),
        entries_map(s)[s[i].target] == (s[i].trampoline, s[i].enabled),
    decreases s.len(),
{
    if i == s.len() - 1 {
    } else {
        assert(targets_distinct(s.drop_last()));
        assert(s.drop_last()[i] == s[i]);
        lemma_entries_map_value(s.drop_last(), i);
        assert(s[i].target != s.last().target);
    }
}

/// Appending a fresh entry inserts it into the map.
pub proof fn lemma_entries_map_push(s: Seq<HookEntry>, e: HookEntry)
    ensures
        entries_map(s.push(e)) == entries_map(s).insert(e.target, (e.trampoline, e.enabled)),
{
    assert(s.push(e).drop_last() =~= s);
    assert(s.push(e).last() == e);
}

/// Rewriting one entry in place, keeping its target, updates the map at that
/// target.
pub proof fn lemma_entries_map_update(s: Seq<HookEntry>, i: int, e: HookEntry)
    requires
        targets_distinct(s),
        0 <= i < s.len(),
        e.target == s[i].target,
    ensures
        entries_map(s.update(i, e)) == entries_map(s).insert(e.target, (e.trampoline, e.enabled)),
    decreases s.len(),
{
    let s2 = s.update(i, e);
    if i == s.len() - 1 {
        assert(s2.drop_last() =~= s.drop_last());
        assert(s2.last() == e);
    } else {
        assert(s2.drop_last() =~= s.drop_last().update(i, e));
        assert(s2.last() == s.last());
        assert(targets_distinct(s.drop_last()));
        assert(s.drop_last()[i] == s[i]);
        lemma_entries_map_update(s.drop_last(), i, e);
        assert(s.last().target != e.target);
        assert_maps_equal!(
            entries_map(s.drop_last()).insert(e.target, (e.trampoline, e.enabled))
                .insert(s.last().target, (s.last().trampoline, s.last().enabled)),
            entries_map(s).insert(e.target, (e.trampoline, e.enabled))
        );
    }
}

/// Removing an entry removes its target from the map.
pub proof fn lemma_entries_map_remove(s: Seq<HookEntry>, i: int)
    requires
        targets_distinct(s),
        0 <= i < s.len(),
    ensures
        entries_map(s.remove(i)) == entries_map(s).remove(s[i].target),
    decreases s.len(),
{
    let t = s[i].target;
    if i == s.len() - 1 {
        assert(s.remove(i) =~= s.drop_last());
        lemma_entries_map_contains(s.drop_last(), t);
        assert(forall|j: int|
            0 <= j < s.drop_last().len() ==> s.drop_last()[j] == s[j] && s[j].target != t);
        assert(!entries_map(s.drop_last()).contains_key(t));
        assert_maps_equal!(entries_map(s.drop_last()), entries_map(s).remove(t));
    } else {
        assert(s.remove(i).drop_last() =~= s.drop_last().remove(i));
        assert(s.remove(i).last() == s.last());
        assert(targets_distinct(s.drop_last()));
        assert(s.drop_last()[i] == s[i]);
        lemma_entries_map_remove(s.drop_last(), i);
        assert(s.last().target != t);
        assert_maps_equal!(
            entries_map(s.drop_last()).remove(t)
                .insert(s.last().target, (s.last().trampoline, s.last().enabled)),
            entries_map(s).remove(t)
        );
    }
}

/// The record of installed hooks, at most one per target address.
pub struct HookTable {
    entries: Vec<HookEntry>,
}

impl View for HookTable {
    type V = Map<u64, (u64, bool)>;

    closed spec fn view(&self) -> Map<u64, (u64, bool)> {
        entries_map(self.entries@)
    }
}

impl HookTable {
    /// Internal invariant: no target address appears twice.
    pub closed spec fn wf(&self) -> bool {
        targets_distinct(self.entries@)
    }

    /// An empty table: nothing is hooked.
    pub fn new() -> (t: HookTable)
        ensures
            t.wf(),
            t@ == Map::<u64, (u64, bool)>::empty(),
    {
        HookTable { entries: Vec::new() }
    }

    /// The position of the entry claiming `target`, if any.
    fn find(&self, target: u64) -> (r: Option<usize>)
        ensures
            match r {
                Some(i) => i < self.entries@.len() && self.entries@[i as int].target == target,
                None => forall|j: int|
                    0 <= j < self.entries@.len() ==> self.entries@[j].target != target,
            },
    {
        let mut i: usize = 0;
        while i < self.entries.len()
            invariant
                i <= self.entries@.len(),
                forall|j: int| 0 <= j < i ==> self.entries@[j].target != target,
            decreases self.entries@.len() - i,
        {
            if self.entries[i].target == target {
                return Some(i);
            }
            i = i + 1;
        }
        None
    }

    /// Whether a hook is installed at `target`.
    pub fn is_installed(&self, target: u64) -> (r: bool)
        requires
            self.wf(),
        ensures
            r == self@.contains_key(target),
    {
        proof {
            lemma_entries_map_contains(self.entries@, target);
        }
        self.find(target).is_some()
    }

    /// The trampoline of the hook at `target`, if one is installed.
    pub fn trampoline(&self, target: u64) -> (r: Option<u64>)
        requires
            self.wf(),
        ensures
            r == (if self@.contains_key(target) {
                Some(self@[target].0)
            } else {
                None::<u64>
            }),
    {
        proof {
            lemma_entries_map_contains(self.entries@, target);
        }
        match self.find(target) {
            Option::Some(i) => {
                proof {
                    lemma_entries_map_value(self.entries@, i as int);
                }
                Some(self.entries[i].trampoline)
            },
            Option::None => None,
        }
    }

    /// Whether the hook at `target` is installed and its redirect active.
    pub fn is_enabled(&self, target: u64) -> (r: bool)
        requires
            self.wf(),
        ensures
            r == (self@.contains_key(target) && self@[target].1),
    {
        proof {
            lemma_entries_map_contains(self.entries@, target);
        }
        match self.find(target) {
            Option::Some(i) => {
                proof {
                    lemma_entries_map_value(self.entries@, i as int);
                }
                self.entries[i].enabled
            },
            Option::None => false,
        }
    }

    /// Record a hook freshly installed at `target` with its `trampoline`.
    /// The redirect starts disabled. Fails, changing nothing, when the
    /// target address is already hooked: at most one hook per address.
    pub fn install(&mut self, target: u64, trampoline: u64) -> (r: Result<(), HookInstallError>)
        requires
            old(self).wf(),
        ensures
            final(self).wf(),
            old(self)@.contains_key(target) ==> r == Err::<(), HookInstallError>(
                HookInstallError::AlreadyHooked,
            ) && final(self)@ == old(self)@,
            !old(self)@.contains_key(target) ==> r == Ok::<(), HookInstallError>(()) && final(self)@ == old(self)@.insert(target, (trampoline, false)),
    {
        proof {
            lemma_entries_map_contains(self.entries@, target);
        }
        match self.find(target) {
            Option::Some(_) => Err(HookInstallError::AlreadyHooked),
            Option::None => {
                let entry = HookEntry { target, trampoline, enabled: false };
                proof {
                    lemma_entries_map_push(self.entries@, entry);
                }
                self.entries.push(entry);
                Ok(())
            },
        }
    }

    /// Turn the redirect at `target` on (`make_enabled` true) or off. The
    /// toggle is idempotent; only an absent hook is an error.
    fn set_enabled(&mut self, target: u64, make_enabled: bool) -> (r: Result<(), HookEnableError>)
        requires
            old(self).wf(),
        ensures
            final(self).wf(),
            !old(self)@.contains_key(target) ==> r == Err::<(), HookEnableError>(
                HookEnableError::NotInstalled,
            ) && final(self)@ == old(self)@,
            old(self)@.contains_key(target) ==> r == Ok::<(), HookEnableError>(()) && final(self)@ == old(self)@.insert(target, (old(self)@[target].0, make_enabled)),
    {
        proof {
            lemma_entries_map_contains(self.entries@, target);
        }
        match self.find(target) {
            Option::Some(i) => {
                proof {
                    lemma_entries_map_value(self.entries@, i as int);
                }
                let entry = HookEntry {
                    target,
                    trampoline: self.entries[i].trampoline,
                    enabled: make_enabled,
                };
                proof {
                    lemma_entries_map_update(self.entries@, i as int, entry);
                }
                let slot = vec_index_mut(&mut self.entries, i);
                *slot = entry;
                Ok(())
            },
            Option::None => Err(HookEnableError::NotInstalled),
        }
    }

    /// Activate the redirect at `target`. Enabling an already-enabled hook
    /// is a no-op, not an error: the table is left identical.
    pub fn enable(&mut self, target: u64) -> (r: Result<(), HookEnableError>)
        requires
            old(self).wf(),
        ensures
            final(self).wf(),
            !old(self)@.contains_key(target) ==> r == Err::<(), HookEnableError>(
                HookEnableError::NotInstalled,
            ) && final(self)@ == old(self)@,
            old(self)@.contains_key(target) ==> r == Ok::<(), HookEnableError>(()) && final(self)@ == old(self)@.insert(target, (old(self)@[target].0, true)),
            old(self)@.contains_key(target) && old(self)@[target].1 ==> final(self)@ == old(self)@,
    {
        let r = self.set_enabled(target, true);
        proof {
            if old(self)@.contains_key(target) && old(self)@[target].1 {
                assert_maps_equal!(
                    old(self)@.insert(target, (old(self)@[target].0, true)),
                    old(self)@
                );
            }
        }
        r
    }

    /// Deactivate the redirect at `target` without destroying the
    /// trampoline. Disabling an already-disabled hook is a no-op.
    pub fn disable(&mut self, target: u64) -> (r: Result<(), HookEnableError>)
        requires
            old(self).wf(),
        ensures
            final(self).wf(),
            !old(self)@.contains_key(target) ==> r == Err::<(), HookEnableError>(
                HookEnableError::NotInstalled,
            ) && final(self)@ == old(self)@,
            old(self)@.contains_key(target) ==> r == Ok::<(), HookEnableError>(()) && final(self)@ == old(self)@.insert(target, (old(self)@[target].0, false)),
            old(self)@.contains_key(target) && !old(self)@[target].1 ==> final(self)@ == old(self)@,
    {
        let r = self.set_enabled(target, false);
        proof {
            if old(self)@.contains_key(target) && !old(self)@[target].1 {
                assert_maps_equal!(
                    old(self)@.insert(target, (old(self)@[target].0, false)),
                    old(self)@
                );
            }
        }
        r
    }

    /// Set every redirect in the table to `make_enabled`.
    fn set_all(&mut self, make_enabled: bool)
        requires
            old(self).wf(),
        ensures
            final(self).wf(),
            final(self)@.dom() == old(self)@.dom(),
            forall|t: u64|
                old(self)@.contains_key(t) ==> final(self)@[t] == (old(self)@[t].0, make_enabled),
    {
        let ghost orig = self.entries@;
        let mut i: usize = 0;
        while i < self.entries.len()
            invariant
                i <= self.entries@.len(),
                self.entries@.len() == orig.len(),
                targets_distinct(orig),
                forall|j: int|
                    0 <= j < orig.len() ==> self.entries@[j].target == orig[j].target
                        && self.entries@[j].trampoline == orig[j].trampoline,
                forall|j: int| 0 <= j < i ==> self.entries@[j].enabled == make_enabled,
                forall|j: int| i <= j < orig.len() ==> self.entries@[j].enabled == orig[j].enabled,
            decreases self.entries@.len() - i,
        {
            let entry = HookEntry {
                target: self.entries[i].target,
                trampoline: self.entries[i].trampoline,
                enabled: make_enabled,
            };
            let slot = vec_index_mut(&mut self.entries, i);
            *slot = entry;
            i = i + 1;
        }
        proof {
            assert forall|a: int, b: int|
                0 <= a < b < self.entries@.len() implies self.entries@[a].target
                != self.entries@[b].target by {
                assert(self.entries@[a].target == orig[a].target);
                assert(self.entries@[b].target == orig[b].target);
            }
            lemma_entries_map_all_set(orig, self.entries@, make_enabled);
        }
    }

    /// Activate every installed redirect; trampolines and the set of hooked
    /// targets are untouched.
    pub fn enable_all(&mut self)
        requires
            old(self).wf(),
        ensures
            final(self).wf(),
            final(self)@.dom() == old(self)@.dom(),
            forall|t: u64|
                old(self)@.contains_key(t) ==> final(self)@[t] == (old(self)@[t].0, true),
    {
        self.set_all(true);
    }

    /// Deactivate every installed redirect without destroying a trampoline.
    pub fn disable_all(&mut self)
        requires
            old(self).wf(),
        ensures
            final(self).wf(),
            final(self)@.dom() == old(self)@.dom(),
            forall|t: u64|
                old(self)@.contains_key(t) ==> final(self)@[t] == (old(self)@[t].0, false),
    {
        self.set_all(false);
    }

    /// Forget the hook at `target`. Uninstalling where nothing is installed
    /// is a no-op, not an error; uninstalling twice equals uninstalling once.
    pub fn uninstall(&mut self, target: u64)
        requires
            old(self).wf(),
        ensures
            final(self).wf(),
            final(self)@ == old(self)@.remove(target),
    {
        proof {
            lemma_entries_map_contains(self.entries@, target);
        }
        match self.find(target) {
            Option::Some(i) => {
                proof {
                    lemma_entries_map_remove(self.entries@, i as int);
                    assert(forall|a: int, b: int|
                        0 <= a < b < self.entries@.remove(i as int).len()
                            ==> self.entries@.remove(i as int)[a].target != self.entries@.remove(
                            i as int,
                        )[b].target);
                }
                self.entries.remove(i);
            },
            Option::None => {
                proof {
                    assert_maps_equal!(self@.remove(target), self@);
                }
            },
        }
    }

    /// Forget every hook.
    pub fn uninstall_all(&mut self)
        requires
            old(self).wf(),
        ensures
            final(self).wf(),
            final(self)@ == Map::<u64, (u64, bool)>::empty(),
    {
        self.entries.clear();
    }

    /// How many hooks are installed.
    pub fn len(&self) -> (n: usize)
        requires
            self.wf(),
        ensures
            n == self@.dom().len(),
    {
        proof {
            lemma_entries_map_len(self.entries@);
        }
        self.entries.len()
    }
}

/// With distinct targets, the map has exactly one key per entry.
pub proof fn lemma_entries_map_len(s: Seq<HookEntry>)
    requires
        targets_distinct(s),
    ensures
        entries_map(s).dom().len() == s.len(),
        entries_map(s).dom().finite(),
    decreases s.len(),
{
    if s.len() > 0 {
        assert(targets_distinct(s.drop_last()));
        lemma_entries_map_len(s.drop_last());
        lemma_entries_map_contains(s.drop_last(), s.last().target);
        assert(forall|j: int|
            0 <= j < s.drop_last().len() ==> s.drop_last()[j] == s[j] && s[j].target != s.last().target);
        assert(!entries_map(s.drop_last()).contains_key(s.last().target));
    }
}

/// Two entry sequences equal but for every enabled flag set to `value` have
/// the same targets, the same trampolines, and pointwise-updated maps.
proof fn lemma_entries_map_all_set(orig: Seq<HookEntry>, now: Seq<HookEntry>, value: bool)
    requires
        targets_distinct(orig),
        now.len() == orig.len(),
        forall|j: int|
            0 <= j < orig.len() ==> now[j].target == orig[j].target && now[j].trampoline
                == orig[j].trampoline && now[j].enabled == value,
    ensures
        entries_map(now).dom() == entries_map(orig).dom(),
        forall|t: u64|
            entries_map(orig).contains_key(t) ==> entries_map(now)[t] == (
                entries_map(orig)[t].0,
                value,
            ),
{
    assert(targets_distinct(now));
    assert forall|t: u64|
        entries_map(now).contains_key(t) == entries_map(orig).contains_key(t) by {
        lemma_entries_map_contains(orig, t);
        lemma_entries_map_contains(now, t);
        if exists|i: int| 0 <= i < orig.len() && orig[i].target == t {
            let i = choose|i: int| 0 <= i < orig.len() && orig[i].target == t;
            assert(now[i].target == t);
        }
        if exists|i: int| 0 <= i < now.len() && now[i].target == t {
            let i = choose|i: int| 0 <= i < now.len() && now[i].target == t;
            assert(orig[i].target == t);
        }
    }
    assert_sets_equal!(entries_map(now).dom(), entries_map(orig).dom());
    assert forall|t: u64| entries_map(orig).contains_key(t) implies entries_map(now)[t] == (
        entries_map(orig)[t].0,
        value,
    ) by {
        lemma_entries_map_contains(orig, t);
        let i = choose|i: int| 0 <= i < orig.len() && orig[i].target == t;
        lemma_entries_map_value(orig, i);
        lemma_entries_map_value(now, i);
    }
}

} // verus!
