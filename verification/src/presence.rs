//! Presence: the two-valued state of the watched peripheral, and the
//! name-prefix predicate that decides it from a list of device names.

use vstd::prelude::*;

verus! {

/// Whether a device matching the configured name prefix is currently
/// connected, as last observed by a poll cycle.
#[derive(Clone, Copy, Debug, PartialEq, Eq, Structural)]
pub enum PresenceState {
    Present,
    Absent,
}

/// A device name matches the predicate when the prefix is a prefix of it.
pub open spec fn name_matches(prefix: Seq<char>, name: Seq<char>) -> bool {
    prefix.is_prefix_of(name)
}

/// At least one of the listed device names starts with the prefix.
pub open spec fn matched(devices: Seq<String>, prefix: Seq<char>) -> bool {
    exists|i: int| 0 <= i < devices.len() && name_matches(prefix, devices[i]@)
}

/// The name prefix of the peripheral watched in the reference deployment.
pub open spec fn hhkb_prefix() -> Seq<char> {
    "HHKB-Hybrid_"@
}

/// Reports whether `name` starts with `prefix`, character by character.
pub fn name_starts_with(name: &str, prefix: &str) -> (r: bool)
    ensures
        r == name_matches(prefix@, name@),
{
    let n = name.unicode_len();
    let p = prefix.unicode_len();
    if p > n {
        return false;
    }
    let mut i: usize = 0;
    while i < p
        invariant
            0 <= i <= p,
            p == prefix@.len(),
            n == name@.len(),
            p <= n,
            forall|j: int| 0 <= j < i ==> prefix@[j] == name@[j],
        decreases p - i,
    {
        if name.get_char(i) != prefix.get_char(i) {
            proof {
                assert(!prefix@.is_prefix_of(name@)) by {
                    if prefix@.is_prefix_of(name@) {
                        assert(prefix@[i as int] == name@.subrange(0, p as int)[i as int]);
                        assert(name@.subrange(0, p as int)[i as int] == name@[i as int]);
                    }
                }
            }
            return false;
        }
        i += 1;
    }
    proof {
        assert(prefix@ =~= name@.subrange(0, p as int));
    }
    true
}

/// Tests the device list against the predicate: true exactly when some listed
/// name starts with the prefix.
pub fn any_name_matches(devices: &Vec<String>, prefix: &str) -> (r: bool)
    ensures
        r == matched(devices@, prefix@),
{
    let mut i: usize = 0;
    while i < devices.len()
        invariant
            0 <= i <= devices@.len(),
            forall|j: int| 0 <= j < i ==> !name_matches(prefix@, devices@[j]@),
        decreases devices@.len() - i,
    {
        if name_starts_with(devices[i].as_str(), prefix) {
            return true;
        }
        i += 1;
    }
    false
}

/// The reference deployment's predicate: some connected device's name starts
/// with the HHKB prefix.
pub fn is_hhkb_connected(devices: &Vec<String>) -> (r: bool)
    ensures
        r == matched(devices@, hhkb_prefix()),
{
    any_name_matches(devices, "HHKB-Hybrid_")
}

/// The predicate holds of a device list exactly when at least one listed name
/// has the prefix as a prefix.
pub proof fn lemma_matched_characterization(devices: Seq<String>, prefix: Seq<char>)
    ensures
        matched(devices, prefix) <==> exists|i: int|
            0 <= i < devices.len() && prefix.is_prefix_of(devices[i]@),
{
}

/// An empty device list matches no prefix.
pub proof fn lemma_matched_empty_devices(prefix: Seq<char>)
    ensures
        !matched(Seq::<String>::empty(), prefix),
{
}

/// The empty prefix is a prefix of every name, so it matches any non-empty
/// device list.
pub proof fn lemma_empty_prefix_matches(devices: Seq<String>)
    requires
        devices.len() > 0,
    ensures
        matched(devices, Seq::<char>::empty()),
{
    assert(Seq::<char>::empty() =~= devices[0]@.subrange(0, 0));
    assert(name_matches(Seq::<char>::empty(), devices[0]@));
}

} // verus!
