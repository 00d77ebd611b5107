//! The shared configuration: the mapping from output name to wallpaper
//! settings, the `reloaded` flag the watcher raises and the scheduler
//! clears, and the compare-and-replace step of the watcher bridge.
//!
//! The watcher sets the flag, the scheduler is its sole consumer: the flag
//! is cleared only after every surface has observed the new values.

use vstd::prelude::*;

use crate::wallpaper_info::{WallpaperInfo, WallpaperInfoV};

verus! {

/// The mathematical value of the mapping: the entries in insertion order,
/// each an output name and its settings.
pub open spec fn entries_view(entries: Seq<(String, WallpaperInfo)>) -> Seq<
    (Seq<char>, WallpaperInfoV),
> {
    Seq::new(entries.len(), |i: int| (entries[i].0@, entries[i].1@))
}

/// Well-formedness of the mapping: output names are unique keys.
pub open spec fn entries_wf(ev: Seq<(Seq<char>, WallpaperInfoV)>) -> bool {
    forall|i: int, j: int| 0 <= i < j < ev.len() ==> ev[i].0 != ev[j].0
}

/// Whether the mapping holds an entry for `name`.
pub open spec fn has_entry(ev: Seq<(Seq<char>, WallpaperInfoV)>, name: Seq<char>) -> bool {
    exists|i: int| 0 <= i < ev.len() && ev[i].0 == name
}

/// The index of the entry for `name`, where one exists.
pub open spec fn entry_index(ev: Seq<(Seq<char>, WallpaperInfoV)>, name: Seq<char>) -> int {
    choose|i: int| 0 <= i < ev.len() && ev[i].0 == name
}

/// The settings the mapping holds for `name`, if any.
pub open spec fn lookup(ev: Seq<(Seq<char>, WallpaperInfoV)>, name: Seq<char>) -> Option<
    WallpaperInfoV,
> {
    if has_entry(ev, name) {
        Some(ev[entry_index(ev, name)].1)
    } else {
        None
    }
}

/// What the watcher's compare-and-replace does with a parse result:
/// nothing on a failed parse, nothing on a value structurally equal to the
/// current one, an install — with the flag raised and the loop woken —
/// only on a genuinely different value.
pub open spec fn reload_decision(
    cur: Seq<(Seq<char>, WallpaperInfoV)>,
    parsed: Option<Seq<(Seq<char>, WallpaperInfoV)>>,
) -> ReloadOutcome {
    match parsed {
        None => ReloadOutcome::ParseFailed,
        Some(new) => if new == cur {
            ReloadOutcome::Unchanged
        } else {
            ReloadOutcome::Installed
        },
    }
}

/// The per-output wallpaper settings, shared between the scheduler and the
/// configuration watcher, together with the flag that signals "reloaded
/// since last consult".
#[derive(Debug)]
pub struct WallpaperConfig {
    /// One entry per configured output, keyed by output name.
    pub entries: Vec<(String, WallpaperInfo)>,
    /// Set by the watcher when a different configuration was installed;
    /// cleared by the scheduler once every surface has observed it.
    pub reloaded: bool,
}

/// What the watcher's compare-and-replace decided.
#[derive(Clone, Copy, PartialEq, Eq, Structural, Debug)]
pub enum ReloadOutcome {
    /// The file could not be read or parsed: the previous configuration
    /// stays authoritative, the change event is skipped.
    ParseFailed,
    /// The new value equals the current one structurally: nothing to do.
    Unchanged,
    /// A genuinely different value was installed and the flag was raised:
    /// the dispatch loop must be woken.
    Installed,
}

impl WallpaperConfig {
    /// The view of this mapping's entries.
    pub open spec fn ev(&self) -> Seq<(Seq<char>, WallpaperInfoV)> {
        entries_view(self.entries@)
    }

    /// Unique output names.
    pub open spec fn wf(&self) -> bool {
        entries_wf(self.ev())
    }

    /// An empty configuration with the flag down.
    pub fn new() -> (c: WallpaperConfig)
        ensures
            c.ev() =~= Seq::<(Seq<char>, WallpaperInfoV)>::empty(),
            !c.reloaded,
            c.wf(),
    {
        WallpaperConfig { entries: Vec::new(), reloaded: false }
    }

    /// Installs `info` as the settings of output `name`: replaces the
    /// entry of that name, or appends one. Keys stay unique.
    pub fn insert(&mut self, name: String, info: WallpaperInfo)
        requires
            old(self).wf(),
        ensures
            final(self).wf(),
            final(self).reloaded == old(self).reloaded,
            lookup(final(self).ev(), name@) == Some(info@),
            forall|n: Seq<char>|
                n != name@ ==> lookup(final(self).ev(), n) == lookup(old(self).ev(), n),
    {
        let ghost pre = old(self).ev();
        let n = self.entries.len();
        let mut i: usize = 0;
        while i < n
            invariant
                n == self.entries.len(),
                i <= n,
                self.entries@ == old(self).entries@,
                self.reloaded == old(self).reloaded,
                pre == old(self).ev(),
                old(self).wf(),
                forall|j: int| 0 <= j < i ==> pre[j].0 != name@,
            decreases n - i,
        {
            if self.entries[i].0 == name {
                proof {
                    assert(pre[i as int].0 == name@);
                    assert(entries_wf(pre));
                }
                self.entries[i].1 = info;
                proof {
                    let post = self.ev();
                    assert(post =~= pre.update(i as int, (name@, info@)));
                    lemma_lookup_update(pre, i as int, name@, info@);
                }
                return ;
            }
            i += 1;
        }
        self.entries.push((name, info));
        proof {
            let post = self.ev();
            assert(post =~= pre.push((name@, info@)));
            lemma_lookup_push(pre, name@, info@);
        }
    }

    /// The settings configured for output `name`, as a fresh snapshot, or
    /// `None` when the mapping has no entry of that name.
    pub fn get_output_by_name(&self, name: &String) -> (r: Option<WallpaperInfo>)
        requires
            self.wf(),
        ensures
            match r {
                Some(info) => lookup(self.ev(), name@) == Some(info@),
                None => lookup(self.ev(), name@) is None,
            },
    {
        let n = self.entries.len();
        let mut i: usize = 0;
        while i < n
            invariant
                n == self.entries.len(),
                forall|j: int| 0 <= j < i ==> self.ev()[j].0 != name@,
                self.wf(),
            decreases n - i,
        {
            if self.entries[i].0 == *name {
                proof {
                    let k = entry_index(self.ev(), name@);
                    assert(self.ev()[i as int].0 == name@);
                    assert(0 <= k < self.ev().len() && self.ev()[k].0 == name@);
                    if k != i as int {
                        assert(false);
                    }
                }
                return Some(self.entries[i].1.snapshot());
            }
            i += 1;
        }
        proof {
            assert(!has_entry(self.ev(), name@));
        }
        None
    }

    /// Structural equality of two mappings' entries, order included.
    pub fn entries_equal(&self, other: &WallpaperConfig) -> (r: bool)
        ensures
            r == (self.ev() == other.ev()),
    {
        let n = self.entries.len();
        if n != other.entries.len() {
            proof {
                assert(self.ev().len() != other.ev().len());
            }
            return false;
        }
        let mut i: usize = 0;
        while i < n
            invariant
                n == self.entries.len(),
                n == other.entries.len(),
                i <= n,
                forall|j: int| 0 <= j < i ==> self.ev()[j] == other.ev()[j],
            decreases n - i,
        {
            let same = self.entries[i].0 == other.entries[i].0
                && self.entries[i].1.same_as(&other.entries[i].1);
            if !same {
                proof {
                    assert(self.ev()[i as int] != other.ev()[i as int]);
                }
                return false;
            }
            i += 1;
        }
        proof {
            assert(self.ev() =~= other.ev());
        }
        true
    }

    /// The watcher bridge: what one write notification for the
    /// configuration file does to the shared value, once the file has been
    /// re-parsed outside the lock. `parsed` is `None` when reading or
    /// parsing failed: the previous configuration stays, the event is
    /// skipped. A result structurally equal to the current entries changes
    /// nothing — no flag, no surface updates, no timer churn on no-op
    /// rewrites. A different result is installed whole and the `reloaded`
    /// flag is raised; on that outcome alone the caller must signal the
    /// dispatch loop's wake channel.
    pub fn handle_reload(&mut self, parsed: Option<WallpaperConfig>) -> (r: ReloadOutcome)
        ensures
            r == reload_decision(
                old(self).ev(),
                match parsed {
                    None => None,
                    Some(c) => Some(c.ev()),
                },
            ),
            match parsed {
                None => *final(self) == *old(self) && r == ReloadOutcome::ParseFailed,
                Some(new) => {
                    if new.ev() == old(self).ev() {
                        *final(self) == *old(self) && r == ReloadOutcome::Unchanged
                    } else {
                        final(self).ev() == new.ev() && final(self).reloaded && r
                            == ReloadOutcome::Installed
                    }
                },
            },
    {
        match parsed {
            None => ReloadOutcome::ParseFailed,
            Some(new) => {
                if self.entries_equal(&new) {
                    ReloadOutcome::Unchanged
                } else {
                    self.entries = new.entries;
                    self.reloaded = true;
                    proof {
                        assert(final(self).ev() =~= new.ev());
                    }
                    ReloadOutcome::Installed
                }
            },
        }
    }
}

/// Updating the entry at a position with the same key leaves every lookup
/// but that key's untouched, and that key now yields the new settings.
proof fn lemma_lookup_update(
    ev: Seq<(Seq<char>, WallpaperInfoV)>,
    i: int,
    name: Seq<char>,
    info: WallpaperInfoV,
)
    requires
        entries_wf(ev),
        0 <= i < ev.len(),
        ev[i].0 == name,
    ensures
        entries_wf(ev.update(i, (name, info))),
        lookup(ev.update(i, (name, info)), name) == Some(info),
        forall|n: Seq<char>| n != name ==> lookup(ev.update(i, (name, info)), n) == lookup(ev, n),
{
    let post = ev.update(i, (name, info));
    assert(forall|j: int| 0 <= j < ev.len() && j != i ==> post[j] == ev[j]);
    assert(post[i].0 == name);
    assert(entries_wf(post));
    assert(has_entry(post, name));
    let k = entry_index(post, name);
    assert(0 <= k < post.len() && post[k].0 == name);
    if k != i {
        assert(post[k].0 == post[i].0);
        assert(false);
    }
    assert(forall|n: Seq<char>| n != name ==> #[trigger] lookup(post, n) == lookup(ev, n)) by {
        assert forall|n: Seq<char>| n != name implies #[trigger] lookup(post, n) == lookup(
            ev,
            n,
        ) by {
            lemma_lookup_same_entries(ev, post, n);
        }
    }
}

/// Appending an entry under a fresh key adds that key's lookup and leaves
/// every other untouched.
proof fn lemma_lookup_push(ev: Seq<(Seq<char>, WallpaperInfoV)>, name: Seq<char>, info: WallpaperInfoV)
    requires
        entries_wf(ev),
        forall|j: int| 0 <= j < ev.len() ==> ev[j].0 != name,
    ensures
        entries_wf(ev.push((name, info))),
        lookup(ev.push((name, info)), name) == Some(info),
        forall|n: Seq<char>| n != name ==> lookup(ev.push((name, info)), n) == lookup(ev, n),
{
    let post = ev.push((name, info));
    assert(forall|j: int| 0 <= j < ev.len() ==> post[j] == ev[j]);
    assert(post[ev.len() as int].0 == name);
    assert(entries_wf(post));
    let k = entry_index(post, name);
    assert(has_entry(post, name));
    assert(0 <= k < post.len() && post[k].0 == name);
    if k != ev.len() as int {
        assert(false);
    }
    assert forall|n: Seq<char>| n != name implies #[trigger] lookup(post, n) == lookup(ev, n) by {
        lemma_lookup_same_entries(ev, post, n);
    }
}

/// Two mappings that agree on every entry holding a key agree on that
/// key's lookup.
proof fn lemma_lookup_same_entries(
    a: Seq<(Seq<char>, WallpaperInfoV)>,
    b: Seq<(Seq<char>, WallpaperInfoV)>,
    n: Seq<char>,
)
    requires
        entries_wf(a),
        entries_wf(b),
        forall|j: int| 0 <= j < a.len() && a[j].0 == n ==> 0 <= j < b.len() && b[j] == a[j],
        forall|j: int| 0 <= j < b.len() && b[j].0 == n ==> 0 <= j < a.len() && a[j] == b[j],
    ensures
        lookup(a, n) == lookup(b, n),
{
    if has_entry(a, n) {
        let i = entry_index(a, n);
        assert(0 <= i < a.len() && a[i].0 == n);
        assert(b[i] == a[i]);
        assert(has_entry(b, n));
        let k = entry_index(b, n);
        assert(0 <= k < b.len() && b[k].0 == n);
        assert(a[k] == b[k]);
        if k != i {
            assert(false);
        }
    } else if has_entry(b, n) {
        let k = entry_index(b, n);
        assert(0 <= k < b.len() && b[k].0 == n);
        assert(a[k] == b[k]);
        assert(false);
    }
}

} // verus!
