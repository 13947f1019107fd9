//! Enumeration: the error a failed OS device query reports, and the policy
//! for a device whose name lookup fails inside an otherwise successful batch:
//! that device is excluded, the batch is kept.

use vstd::prelude::*;
use crate::presence::{matched, name_matches};

verus! {

/// The OS device query could not complete (driver absent, permission denied,
/// API unavailable).
#[derive(Clone, Copy, Debug, PartialEq, Eq, Structural)]
pub struct EnumerationError;

/// The names that resolved, in order; a device whose name lookup failed is
/// left out rather than failing the whole batch.
pub open spec fn resolved_names(lookups: Seq<Option<String>>) -> Seq<String>
    decreases lookups.len(),
{
    if lookups.len() == 0 {
        Seq::empty()
    } else {
        match lookups.last() {
            Some(name) => resolved_names(lookups.drop_last()).push(name),
            None => resolved_names(lookups.drop_last()),
        }
    }
}

/// Collects the names that resolved, skipping each device whose name lookup
/// failed.
pub fn collect_names(lookups: &Vec<Option<String>>) -> (r: Vec<String>)
    ensures
        r@ == resolved_names(lookups@),
{
    let mut r: Vec<String> = Vec::new();
    let mut i: usize = 0;
    while i < lookups.len()
        invariant
            0 <= i <= lookups@.len(),
            r@ == resolved_names(lookups@.take(i as int)),
        decreases lookups@.len() - i,
    {
        match &lookups[i] {
            Some(name) => {
                r.push(name.clone());
            },
            None => {},
        }
        proof {
            assert(lookups@.take(i as int + 1).drop_last() =~= lookups@.take(i as int));
            assert(lookups@.take(i as int + 1).last() == lookups@[i as int]);
        }
        i += 1;
    }
    proof {
        assert(lookups@.take(lookups@.len() as int) =~= lookups@);
    }
    r
}

/// Appending one name to a device list matches a prefix exactly when the old
/// list matched it or the new name does.
pub proof fn lemma_matched_push(devices: Seq<String>, name: String, prefix: Seq<char>)
    ensures
        matched(devices.push(name), prefix) <==> matched(devices, prefix) || name_matches(
            prefix,
            name@,
        ),
{
    if matched(devices.push(name), prefix) {
        let w = choose|i: int|
            0 <= i < devices.push(name).len() && name_matches(prefix, devices.push(name)[i]@);
        if w < devices.len() {
            assert(devices.push(name)[w] == devices[w]);
            assert(name_matches(prefix, devices[w]@));
        } else {
            assert(devices.push(name)[w] == name);
        }
    }
    if matched(devices, prefix) {
        let w = choose|i: int| 0 <= i < devices.len() && name_matches(prefix, devices[i]@);
        assert(devices.push(name)[w] == devices[w]);
        assert(name_matches(prefix, devices.push(name)[w]@));
    }
    if name_matches(prefix, name@) {
        assert(devices.push(name)[devices.len() as int] == name);
        assert(name_matches(prefix, devices.push(name)[devices.len() as int]@));
    }
}

/// A failed name lookup never aborts the batch: the predicate over the
/// resolved names holds exactly when some lookup succeeded with a matching
/// name.
pub proof fn lemma_matched_over_resolved(lookups: Seq<Option<String>>, prefix: Seq<char>)
    ensures
        matched(resolved_names(lookups), prefix) <==> exists|i: int|
            0 <= i < lookups.len() && lookups[i] is Some && name_matches(
                prefix,
                lookups[i].unwrap()@,
            ),
    decreases lookups.len(),
{
    if lookups.len() == 0 {
    } else {
        let rest = lookups.drop_last();
        let last = lookups.last();
        lemma_matched_over_resolved(rest, prefix);
        if last is Some {
            lemma_matched_push(resolved_names(rest), last.unwrap(), prefix);
        }
        assert forall|i: int|
            0 <= i < rest.len() && rest[i] is Some && name_matches(
                prefix,
                rest[i].unwrap()@,
            ) implies lookups[i] is Some && name_matches(prefix, lookups[i].unwrap()@) by {
            assert(rest[i] == lookups[i]);
        }
        if exists|i: int|
            0 <= i < lookups.len() && lookups[i] is Some && name_matches(
                prefix,
                lookups[i].unwrap()@,
            ) {
            let w = choose|i: int|
                0 <= i < lookups.len() && lookups[i] is Some && name_matches(
                    prefix,
                    lookups[i].unwrap()@,
                );
            if w < rest.len() {
                assert(rest[w] == lookups[w]);
            }
        }
    }
}

/// When every name lookup succeeds, every device is kept.
pub proof fn lemma_all_resolved(lookups: Seq<Option<String>>)
    requires
        forall|i: int| 0 <= i < lookups.len() ==> lookups[i] is Some,
    ensures
        resolved_names(lookups).len() == lookups.len(),
    decreases lookups.len(),
{
    if lookups.len() > 0 {
        let rest = lookups.drop_last();
        assert forall|i: int| 0 <= i < rest.len() implies rest[i] is Some by {
            assert(rest[i] == lookups[i]);
        }
        lemma_all_resolved(rest);
        assert(lookups.last() == lookups[lookups.len() - 1]);
    }
}

/// One failed lookup among n devices drops exactly that device: n - 1 names
/// remain for the predicate test.
pub proof fn lemma_one_failure_keeps_the_rest(lookups: Seq<Option<String>>, k: int)
    requires
        0 <= k < lookups.len(),
        lookups[k] is None,
        forall|i: int| 0 <= i < lookups.len() && i != k ==> lookups[i] is Some,
    ensures
        resolved_names(lookups).len() == lookups.len() - 1,
    decreases lookups.len(),
{
    let rest = lookups.drop_last();
    assert(lookups.last() == lookups[lookups.len() - 1]);
    if k == lookups.len() - 1 {
        assert forall|i: int| 0 <= i < rest.len() implies rest[i] is Some by {
            assert(rest[i] == lookups[i]);
        }
        lemma_all_resolved(rest);
    } else {
        assert(rest[k] == lookups[k]);
        assert forall|i: int| 0 <= i < rest.len() && i != k implies rest[i] is Some by {
            assert(rest[i] == lookups[i]);
        }
        lemma_one_failure_keeps_the_rest(rest, k);
    }
}

} // verus!
