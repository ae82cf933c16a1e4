//! Read-only configuration: the keymap, the themes and the timing knobs.

use vstd::prelude::*;
use crate::command::Command;
use crate::key::{Key, KeySequence};

verus! {

/// One keymap entry: a key sequence and the command it invokes.
#[derive(Clone, Debug, PartialEq, Eq)]
pub struct Keymap {
    pub key_sequence: KeySequence,
    pub command: Command,
}

/// The keymap: entries in the order in which they were configured.
#[derive(Clone, Debug, PartialEq, Eq)]
pub struct KeymapConfig {
    pub keymaps: Vec<Keymap>,
}

impl KeymapConfig {
    /// Entry `i` exists and its sequence starts with `s`.
    pub open spec fn prefix_matches_at(&self, i: int, s: Seq<Key>) -> bool {
        0 <= i < self.keymaps@.len() && s.is_prefix_of(self.keymaps@[i].key_sequence@)
    }

    /// Some entry's sequence starts with `s`.
    pub open spec fn has_prefix_match(&self, s: Seq<Key>) -> bool {
        exists|i: int| self.prefix_matches_at(i, s)
    }

    /// Entry `i` exists and its sequence is exactly `s`.
    pub open spec fn resolves_at(&self, i: int, s: Seq<Key>) -> bool {
        0 <= i < self.keymaps@.len() && self.keymaps@[i].key_sequence@ == s
    }

    /// Entry `i` is the first one whose sequence is exactly `s`.
    pub open spec fn first_resolving(&self, i: int, s: Seq<Key>) -> bool {
        self.resolves_at(i, s) && forall|j: int| 0 <= j < i ==> !self.resolves_at(j, s)
    }

    /// The command that `s` resolves to: that of the first entry whose
    /// sequence is exactly `s`, if there is one.
    pub open spec fn resolve(&self, s: Seq<Key>) -> Option<Command> {
        if exists|i: int| self.first_resolving(i, s) {
            Some(self.keymaps@[choose|i: int| self.first_resolving(i, s)].command)
        } else {
            None
        }
    }

    /// No entry's sequence is a prefix of another entry's sequence.
    pub open spec fn prefix_unique(&self) -> bool {
        forall|i: int, j: int|
            0 <= i < self.keymaps@.len() && 0 <= j < self.keymaps@.len() && i != j
                ==> !(#[trigger] self.keymaps@[i]).key_sequence@.is_prefix_of(
                (#[trigger] self.keymaps@[j]).key_sequence@,
            )
    }

    /// The indices of the entries whose sequence starts with `key_sequence`,
    /// in ascending order.
    pub fn find_matched_prefix_keymaps(&self, key_sequence: &KeySequence) -> (r: Vec<usize>)
        ensures
            forall|k: int| 0 <= k < r@.len() ==> self.prefix_matches_at(
                (#[trigger] r@[k]) as int,
                key_sequence@,
            ),
            forall|k: int, l: int| 0 <= k < l < r@.len() ==> r@[k] < r@[l],
            forall|i: int|
                self.prefix_matches_at(i, key_sequence@) ==> exists|k: int|
                    0 <= k < r@.len() && #[trigger] r@[k] == i,
            (r@.len() == 0) == !self.has_prefix_match(key_sequence@),
    {
        let mut found: Vec<usize> = Vec::new();
        let mut i: usize = 0;
        while i < self.keymaps.len()
            invariant
                i <= self.keymaps.len(),
                forall|k: int| 0 <= k < found@.len() ==> self.prefix_matches_at(
                    (#[trigger] found@[k]) as int,
                    key_sequence@,
                ) && found@[k] < i,
                forall|k: int, l: int| 0 <= k < l < found@.len() ==> found@[k] < found@[l],
                forall|j: int|
                    0 <= j < i && self.prefix_matches_at(j, key_sequence@) ==> exists|k: int|
                        0 <= k < found@.len() && #[trigger] found@[k] == j,
            decreases self.keymaps.len() - i,
        {
            if key_sequence.is_prefix(&self.keymaps[i].key_sequence) {
                let ghost before = found@;
                found.push(i);
                assert forall|j: int|
                    0 <= j < i + 1 && self.prefix_matches_at(j, key_sequence@) implies exists|
                    k: int,
                | 0 <= k < found@.len() && #[trigger] found@[k] == j by {
                    if j < i {
                        let k = choose|k: int| 0 <= k < before.len() && #[trigger] before[k] == j;
                        assert(found@[k] == j);
                    } else {
                        assert(found@[before.len() as int] == j);
                    }
                }
            }
            i += 1;
        }
        proof {
            if found@.len() > 0 {
                assert(self.prefix_matches_at(found@[0] as int, key_sequence@));
            }
        }
        found
    }

    /// The command of the first entry whose sequence is exactly
    /// `key_sequence`; `None` where no entry has that sequence.
    pub fn find_command_from_key_sequence(&self, key_sequence: &KeySequence) -> (r: Option<
        Command,
    >)
        ensures
            r == self.resolve(key_sequence@),
    {
        let mut i: usize = 0;
        while i < self.keymaps.len()
            invariant
                i <= self.keymaps.len(),
                forall|j: int| 0 <= j < i ==> !self.resolves_at(j, key_sequence@),
            decreases self.keymaps.len() - i,
        {
            if self.keymaps[i].key_sequence.same_keys(key_sequence) {
                proof {
                    assert(self.first_resolving(i as int, key_sequence@));
                    let c = choose|c: int| self.first_resolving(c, key_sequence@);
                    assert(c == i);
                }
                return Some(self.keymaps[i].command);
            }
            i += 1;
        }
        proof {
            assert forall|c: int| !self.first_resolving(c, key_sequence@) by {}
        }
        None
    }

    /// Under a prefix-unique keymap a sequence that is some entry's own
    /// sequence is that of no other entry, and it resolves to that entry's
    /// command.
    pub proof fn lemma_full_match_resolves_to_one_command(&self, i: int, s: Seq<Key>)
        requires
            self.prefix_unique(),
            self.resolves_at(i, s),
        ensures
            self.resolve(s) == Some(self.keymaps@[i].command),
            forall|j: int| self.resolves_at(j, s) ==> j == i,
    {
        assert forall|j: int| self.resolves_at(j, s) implies j == i by {
            if j != i {
                assert(self.keymaps@[i].key_sequence@.is_prefix_of(self.keymaps@[j].key_sequence@));
            }
        }
        assert(self.first_resolving(i, s));
    }

    /// Whatever the keymap, a sequence resolves to a command exactly when
    /// it is the sequence of some entry.
    pub proof fn lemma_resolves_iff_some_entry_matches(&self, s: Seq<Key>)
        ensures
            self.resolve(s).is_some() == (exists|i: int| self.resolves_at(i, s)),
    {
        if exists|i: int| self.resolves_at(i, s) {
            let i = choose|i: int| self.resolves_at(i, s);
            self.lemma_first_resolving_exists(i, s);
        }
    }

    proof fn lemma_first_resolving_exists(&self, i: int, s: Seq<Key>)
        requires
            self.resolves_at(i, s),
        ensures
            exists|k: int| self.first_resolving(k, s),
        decreases i,
    {
        if exists|j: int| 0 <= j < i && self.resolves_at(j, s) {
            let j = choose|j: int| 0 <= j < i && self.resolves_at(j, s);
            self.lemma_first_resolving_exists(j, s);
        } else {
            assert(self.first_resolving(i, s));
        }
    }
}

/// A colour theme, known to this core by its name only.
#[derive(Clone, Debug, PartialEq, Eq)]
pub struct Theme {
    pub name: String,
}

/// The themes that were configured, in their configured order.
#[derive(Clone, Debug, PartialEq, Eq)]
pub struct ThemeConfig {
    pub themes: Vec<Theme>,
}

/// `out` is `themes` with the first theme named `active` moved to the
/// front, or `themes` itself where no theme has that name.
pub open spec fn active_theme_first(themes: Seq<Theme>, active: Seq<char>, out: Seq<Theme>) -> bool {
    if exists|i: int| 0 <= i < themes.len() && themes[i].name@ == active {
        exists|i: int|
            0 <= i < themes.len() && (#[trigger] themes[i]).name@ == active && (forall|j: int|
                0 <= j < i ==> themes[j].name@ != active) && out == themes.remove(i).insert(
                0,
                themes[i],
            )
    } else {
        out == themes
    }
}

impl ThemeConfig {
    /// The configured themes with the active one first; the others keep
    /// their order.
    pub fn themes_with_active_first(&self, active: &Theme) -> (r: Vec<Theme>)
        ensures
            active_theme_first(self.themes@, active.name@, r@),
    {
        let mut themes: Vec<Theme> = Vec::new();
        let mut found: Option<usize> = None;
        let mut i: usize = 0;
        while i < self.themes.len()
            invariant
                i <= self.themes.len(),
                themes@ == self.themes@.take(i as int),
                match found {
                    Some(p) => p < i && self.themes@[p as int].name@ == active.name@ && forall|
                        j: int,
                    | 0 <= j < p ==> self.themes@[j].name@ != active.name@,
                    None => forall|j: int| 0 <= j < i ==> self.themes@[j].name@ != active.name@,
                },
            decreases self.themes.len() - i,
        {
            if found.is_none() && self.themes[i].name == active.name {
                found = Some(i);
            }
            themes.push(Theme { name: self.themes[i].name.clone() });
            assert(self.themes@.take(i as int).push(self.themes@[i as int]) == self.themes@.take(
                i as int + 1,
            ));
            i += 1;
        }
        assert(self.themes@.take(self.themes.len() as int) == self.themes@);
        match found {
            Some(p) => {
                let theme = themes.remove(p);
                themes.insert(0, theme);
                assert(self.themes@[p as int].name@ == active.name@);
            },
            None => {},
        }
        themes
    }
}

/// Timing configuration of the playback watcher.
#[derive(Clone, Copy, Debug, PartialEq, Eq)]
pub struct AppConfig {
    /// Period of the optional refresh timer in milliseconds; 0 disables it.
    pub playback_refresh_duration_in_ms: u64,
}

impl AppConfig {
    /// The period of the refresh timer in milliseconds, or `None` where the
    /// timer is disabled.
    pub fn refresh_timer_period(&self) -> (r: Option<u64>)
        ensures
            r == if self.playback_refresh_duration_in_ms > 0 {
                Some(self.playback_refresh_duration_in_ms)
            } else {
                None::<u64>
            },
    {
        if self.playback_refresh_duration_in_ms > 0 {
            Some(self.playback_refresh_duration_in_ms)
        } else {
            None
        }
    }
}

} // verus!
