//! Workarounds for bugs of known clients, by application id.

use vstd::prelude::*;
use ahash::AHashMap;

verus! {

/// The workarounds a client needs.
#[derive(Copy, Clone, Debug, Default)]
pub struct Bugs {
    /// Whether the client's minimum and maximum size are respected.
    pub respect_min_max_size: bool,
    /// The smallest size the client is given, if any.
    pub min_size: Option<(i32, i32)>,
}

/// The workarounds of clients that need none.
pub open spec fn spec_no_bugs() -> Bugs {
    Bugs { respect_min_max_size: false, min_size: None }
}

/// The workarounds of the client with the application id.
pub open spec fn spec_bugs_for(app_id: Seq<char>) -> Bugs {
    if app_id == "chromium"@ {
        Bugs { respect_min_max_size: true, min_size: None }
    } else if app_id == "Alacritty"@ {
        Bugs { respect_min_max_size: false, min_size: Some((100, 100)) }
    } else {
        spec_no_bugs()
    }
}

#[verifier::external_type_specification]
#[verifier::external_body]
#[verifier::reject_recursive_types(K)]
#[verifier::reject_recursive_types(V)]
#[verifier::reject_recursive_types(S)]
pub struct ExAHashMap<K, V, S>(AHashMap<K, V, S>);

/// A table of workarounds by application id.
pub type BugMap = AHashMap<&'static str, Bugs>;

/// The entries of a table of workarounds, by application id.
pub uninterp spec fn bug_table_entries(m: BugMap) -> Map<Seq<char>, Bugs>;

/// A table without entries.
pub open spec fn spec_empty_table() -> Map<Seq<char>, Bugs> {
    Map::empty()
}

/// Calls `AHashMap::new`. The contract claims that the map is empty.
#[verifier::external_body]
fn bug_table_new() -> (r: BugMap)
    ensures
        bug_table_entries(r) == spec_empty_table(),
{
    AHashMap::new()
}

/// Calls `AHashMap::insert`. The contract claims that the key maps to the
/// value afterwards and that the other entries stay.
#[verifier::external_body]
fn bug_table_insert(m: &mut BugMap, k: &'static str, v: Bugs)
    ensures
        bug_table_entries(*final(m)) == bug_table_entries(*old(m)).insert(k@, v),
{
    m.insert(k, v);
}

/// Calls `AHashMap::get` and copies the value out. The contract claims that
/// the result is the value stored under the key, if any.
#[verifier::external_body]
fn bug_table_get(m: &BugMap, k: &str) -> (r: Option<Bugs>)
    ensures
        r == (if bug_table_entries(*m).contains_key(k@) {
            Some(bug_table_entries(*m)[k@])
        } else {
            None
        }),
{
    m.get(k).copied()
}

/// The table of workarounds of known clients.
pub struct BugTable {
    map: BugMap,
}

impl BugTable {
    pub closed spec fn entries(&self) -> Map<Seq<char>, Bugs> {
        bug_table_entries(self.map)
    }

    /// The table: chromium has its minimum and maximum size respected;
    /// Alacritty is at least 100x100.
    pub fn new() -> (r: Self)
        ensures
            r.entries() == Map::<Seq<char>, Bugs>::empty().insert(
                "chromium"@,
                Bugs { respect_min_max_size: true, min_size: None },
            ).insert("Alacritty"@, Bugs { respect_min_max_size: false, min_size: Some((100, 100)) }),
    {
        let mut map = bug_table_new();
        bug_table_insert(&mut map, "chromium", Bugs { respect_min_max_size: true, min_size: None });
        bug_table_insert(&mut map, "Alacritty", Bugs { respect_min_max_size: false, min_size: Some((100, 100)) });
        BugTable { map }
    }

    /// The workarounds of the client with the application id; none for
    /// unknown clients.
    pub fn get(&self, app_id: &str) -> (r: Bugs)
        ensures
            r == (if self.entries().contains_key(app_id@) {
                self.entries()[app_id@]
            } else {
                spec_no_bugs()
            }),
    {
        match bug_table_get(&self.map, app_id) {
            Some(b) => b,
            None => Bugs { respect_min_max_size: false, min_size: None },
        }
    }
}

/// The workarounds of the client with the application id.
pub fn get(app_id: &str) -> (r: Bugs)
    ensures
        r == spec_bugs_for(app_id@),
{
    let table = BugTable::new();
    proof {
        reveal_strlit("chromium");
        reveal_strlit("Alacritty");
        assert("chromium"@.len() == 8);
        assert("Alacritty"@.len() == 9);
    }
    table.get(app_id)
}

} // verus!
