//! Preset names and how a requested one is resolved.
//!
//! A preset is a named transformation profile. Only the names matter here:
//! a request may name any preset, and one that is not configured quietly
//! becomes the untransformed `"original"`.

use vstd::prelude::*;

verus! {

/// The reserved name of the untransformed variant. It needs no table entry.
pub open spec fn original() -> Seq<char> {
    "original"@
}

/// The configured preset names.
#[derive(Clone, Debug)]
pub struct PresetTable {
    names: Vec<String>,
}

impl View for PresetTable {
    type V = Set<Seq<char>>;

    closed spec fn view(&self) -> Set<Seq<char>> {
        Set::new(|name: Seq<char>| self.lists(name))
    }
}

impl PresetTable {
    /// `name` stands somewhere in the backing list.
    spec fn lists(&self, name: Seq<char>) -> bool {
        exists|i: int| 0 <= i < self.names.len() && #[trigger] self.names[i]@ == name
    }

    /// A table with no presets.
    pub fn new() -> (table: PresetTable)
        ensures
            table@ == Set::<Seq<char>>::empty(),
    {
        let table = PresetTable { names: Vec::new() };
        assert(table@ =~= Set::<Seq<char>>::empty());
        table
    }

    /// Adds `name` to the table. Adding a name twice changes nothing.
    pub fn insert(&mut self, name: String)
        ensures
            final(self)@ == old(self)@.insert(name@),
    {
        let ghost before = *self;
        self.names.push(name);
        assert forall|n: Seq<char>| final(self)@.contains(n) <==> before@.insert(name@).contains(
            n,
        ) by {
            if before.lists(n) {
                let i = choose|i: int| 0 <= i < before.names.len() && #[trigger] before.names[i]@ == n;
                assert(self.names[i]@ == n);
            }
            if n == name@ {
                assert(self.names[before.names.len() as int]@ == n);
            }
        }
        assert(self@ =~= before@.insert(name@));
    }

    /// Whether `name` is a configured preset.
    pub fn contains(&self, name: &String) -> (found: bool)
        ensures
            found == self@.contains(name@),
    {
        let mut i: usize = 0;
        while i < self.names.len()
            invariant
                i <= self.names.len(),
                forall|j: int| 0 <= j < i ==> #[trigger] self.names[j]@ != name@,
            decreases self.names.len() - i,
        {
            if self.names[i] == *name {
                return true;
            }
            i += 1;
        }
        false
    }
}

/// The preset a request resolves to. An absent request takes the default;
/// `"original"` and configured names stand as requested; any other name
/// becomes `"original"`.
pub open spec fn resolve_model(
    requested: Option<Seq<char>>,
    default_preset: Seq<char>,
    table: Set<Seq<char>>,
) -> Seq<char> {
    match requested {
        None => default_preset,
        Some(name) => if name == original() || table.contains(name) {
            name
        } else {
            original()
        },
    }
}

/// The text of an optional string.
pub open spec fn text_of(value: Option<String>) -> Option<Seq<char>> {
    match value {
        Some(s) => Some(s@),
        None => None,
    }
}

/// Resolves the preset of a request. Never fails: an unknown name falls back
/// to `"original"`.
pub fn resolve(requested: Option<String>, default_preset: &str, table: &PresetTable) -> (preset:
    String)
    ensures
        preset@ == resolve_model(text_of(requested), default_preset@, table@),
{
    match requested {
        None => default_preset.to_owned(),
        Some(name) => {
            let fallback: String = "original".to_owned();
            if name == fallback || table.contains(&name) {
                name
            } else {
                fallback
            }
        },
    }
}

} // verus!
