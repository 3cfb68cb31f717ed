use vstd::prelude::*;
use crate::registry::{Account, Registry, UserRecord, is_snapshot_of, lemma_map_dom_len, lemma_map_of, map_of, account_of, record_valid, records_valid};

verus! {

/// The users that start-up restores: those of a readable snapshot whose records
/// are complete and unique, and none where the file was absent, unparsable or
/// held records that break those rules.
pub open spec fn restored(parsed: Option<Vec<UserRecord>>) -> Map<Seq<char>, Account> {
    match parsed {
        Some(entries) => if records_valid(entries@) {
            map_of(entries@)
        } else {
            Map::empty()
        },
        None => Map::empty(),
    }
}

/// A snapshot was read and parsed, but its records break the registry's rules,
/// so it was set aside.
pub open spec fn discarded(parsed: Option<Vec<UserRecord>>) -> bool {
    parsed matches Some(entries) && !records_valid(entries@)
}

/// The registry at start-up, from the parsed snapshot (`None` when the file is
/// absent or could not be parsed), and whether a parsed snapshot was set aside.
/// Start-up never fails on a bad snapshot.
pub fn load(parsed: Option<Vec<UserRecord>>) -> (r: (Registry, bool))
    ensures
        r.0.wf(),
        r.0@ == restored(parsed),
        r.1 == discarded(parsed),
{
    match parsed {
        Some(entries) => match Registry::from_records(entries) {
            Some(reg) => (reg, false),
            None => (Registry::new(), true),
        },
        None => (Registry::new(), false),
    }
}

/// Saving a registry and loading the snapshot back after a restart restores
/// every user, as many as were saved, each with its credential and container.
pub proof fn lemma_snapshot_round_trip(reg: Registry, saved: Vec<UserRecord>)
    requires
        reg.wf(),
        is_snapshot_of(saved@, reg@),
    ensures
        restored(Some(saved)) == reg@,
        reg@.len() == saved@.len(),
        forall|i: int|
            0 <= i < saved@.len() ==> #[trigger] reg@[saved@[i].username@] == account_of(saved@[i]),
{
    lemma_map_dom_len(saved@);
    lemma_map_of(saved@);
}

/// Two valid record sequences that hold the same records, in any order,
/// describe the same users.
pub proof fn lemma_same_records_same_map(a: Seq<UserRecord>, b: Seq<UserRecord>)
    requires
        records_valid(a),
        records_valid(b),
        forall|r: UserRecord| a.contains(r) <==> b.contains(r),
    ensures
        map_of(a) == map_of(b),
{
    lemma_map_of(a);
    lemma_map_of(b);
    assert forall|u: Seq<char>| #[trigger] map_of(a).contains_key(u) implies map_of(b).contains_key(u)
        && map_of(b)[u] == map_of(a)[u] by {
        let i = choose|i: int| 0 <= i < a.len() && (#[trigger] a[i]).username@ == u;
        assert(a.contains(a[i]));
        assert(b.contains(a[i]));
        let j = choose|j: int| 0 <= j < b.len() && b[j] == a[i];
        assert(map_of(a)[a[i].username@] == account_of(a[i]));
        assert(map_of(b)[b[j].username@] == account_of(b[j]));
        assert(map_of(b).contains_key(b[j].username@));
    }
    assert forall|u: Seq<char>| #[trigger] map_of(b).contains_key(u) implies map_of(a).contains_key(u) by {
        let j = choose|j: int| 0 <= j < b.len() && (#[trigger] b[j]).username@ == u;
        assert(b.contains(b[j]));
        assert(a.contains(b[j]));
        let i = choose|i: int| 0 <= i < a.len() && a[i] == b[j];
        assert(a[i].username@ == u);
    }
    assert(map_of(a) =~= map_of(b));
}

/// Loading the snapshot of a registry back after a restart, in another order
/// and with no username twice (as a file keyed by username holds it), restores
/// every user, as many as were saved, each with its credential and container.
pub proof fn lemma_reordered_snapshot_round_trip(
    reg: Registry,
    saved: Vec<UserRecord>,
    reloaded: Vec<UserRecord>,
)
    requires
        reg.wf(),
        is_snapshot_of(saved@, reg@),
        forall|r: UserRecord| saved@.contains(r) <==> reloaded@.contains(r),
        forall|i: int, j: int|
            #![trigger reloaded@[i], reloaded@[j]]
            0 <= i < j < reloaded@.len() ==> reloaded@[i].username@ != reloaded@[j].username@,
    ensures
        records_valid(reloaded@),
        !discarded(Some(reloaded)),
        restored(Some(reloaded)) == reg@,
        reg@.len() == reloaded@.len(),
{
    let s = saved@;
    let t = reloaded@;
    assert forall|k: int| 0 <= k < t.len() implies #[trigger] record_valid(t[k]) by {
        assert(t.contains(t[k]));
        assert(s.contains(t[k]));
        let j = choose|j: int| 0 <= j < s.len() && s[j] == t[k];
        assert(record_valid(s[j]));
    }
    lemma_same_records_same_map(s, t);
    lemma_map_dom_len(t);
}

} // verus!
