//! Locating the recording device by name.
//!
//! The recording agent registers itself as a playback device some time after
//! launch, so discovering it is racy: the locator polls the collaborator's
//! device list under a bounded retry policy, scanning each list for an exact
//! name match. The first match wins (name uniqueness is assumed, not
//! enforced; a collision is a known ambiguity of the design). A match
//! without an identifier is fatal at once; an exhausted budget without any
//! match fails with `DeviceNotFound`.

use vstd::prelude::*;

verus! {

/// A playback device as the collaborator reports it: the identifier may be
/// missing. Ephemeral, looked up fresh each run.
#[derive(Debug)]
pub struct Device {
    pub id: Option<String>,
    pub name: String,
}

/// The bounded retry policy of device discovery. It exists to absorb the
/// race with the recording agent's startup latency; it is not a general
/// resilience mechanism.
#[derive(Clone, Copy, PartialEq, Eq, Structural, Debug)]
pub struct RetryPolicy {
    pub max_attempts: u32,
    pub delay_secs: u64,
}

impl RetryPolicy {
    /// The standard discovery policy: five attempts, ten seconds apart.
    pub fn standard() -> (p: RetryPolicy)
        ensures
            p.max_attempts == 5,
            p.delay_secs == 10,
    {
        RetryPolicy { max_attempts: 5, delay_secs: 10 }
    }
}

/// Device `d` matches the target name.
pub open spec fn device_matches(d: Device, name: Seq<char>) -> bool {
    d.name@ == name
}

/// Some device of the list matches the target name.
pub open spec fn some_device_matches(devices: Seq<Device>, name: Seq<char>) -> bool {
    exists|i: int| 0 <= i < devices.len() && device_matches(devices[i], name)
}

/// Device `i` is the first of the list to match the target name.
pub open spec fn first_match_at(devices: Seq<Device>, name: Seq<char>, i: int) -> bool {
    &&& 0 <= i < devices.len()
    &&& device_matches(devices[i], name)
    &&& forall|j: int| 0 <= j < i ==> !device_matches(devices[j], name)
}

/// What one poll of the device list decides.
#[derive(Debug)]
pub enum LocateStep {
    /// A device matching the name was found and carries this identifier.
    Found { device_id: String },
    /// A device matching the name was found but carries no identifier: a
    /// fatal data error, not retried past the match.
    MissingId,
    /// No match yet and budget remains: poll again after this delay.
    RetryAfterDelay { delay_secs: u64 },
    /// No match and the retry budget is exhausted.
    GiveUp,
}

/// The state of one device-discovery episode: how many polls were made
/// against which policy.
#[derive(Debug)]
pub struct DeviceLocator {
    pub policy: RetryPolicy,
    pub attempts_made: u32,
}

impl DeviceLocator {
    /// A fresh episode under the given policy.
    pub fn new(policy: RetryPolicy) -> (s: DeviceLocator)
        ensures
            s.policy == policy,
            s.attempts_made == 0,
    {
        DeviceLocator { policy, attempts_made: 0 }
    }

    /// Account one poll of the device list and decide what follows.
    ///
    /// The first device whose name equals the target decides: its
    /// identifier, or `MissingId` when it carries none. With no match the
    /// episode retries after the policy's delay until its attempt budget is
    /// spent, then gives up.
    #[verifier::loop_isolation(false)]
    pub fn observe(&mut self, devices: &Vec<Device>, target: &String) -> (r: LocateStep)
        requires
            old(self).attempts_made < old(self).policy.max_attempts,
        ensures
            final(self).policy == old(self).policy,
            final(self).attempts_made == old(self).attempts_made + 1,
            (r matches LocateStep::Found { device_id } ==> exists|i: int|
                #[trigger] first_match_at(devices@, target@, i) && devices@[i].id == Some(
                    device_id,
                )),
            (r is MissingId ==> exists|i: int|
                #[trigger] first_match_at(devices@, target@, i) && devices@[i].id is None),
            (r is Found || r is MissingId <==> some_device_matches(devices@, target@)),
            (r matches LocateStep::RetryAfterDelay { delay_secs } ==> delay_secs
                == old(self).policy.delay_secs),
            (r is RetryAfterDelay <==> !some_device_matches(devices@, target@)
                && old(self).attempts_made + 1 < old(self).policy.max_attempts),
            (r is GiveUp <==> !some_device_matches(devices@, target@) && old(self).attempts_made
                + 1 == old(self).policy.max_attempts),
    {
        self.attempts_made = self.attempts_made + 1;
        let mut i: usize = 0;
        while i < devices.len()
            invariant
                i <= devices@.len(),
                forall|j: int| 0 <= j < i ==> !device_matches(devices@[j], target@),
            decreases devices@.len() - i,
        {
            if devices[i].name.eq(target) {
                proof {
                    assert(first_match_at(devices@, target@, i as int));
                }
                return match &devices[i].id {
                    Some(id) => LocateStep::Found { device_id: id.clone() },
                    None => LocateStep::MissingId,
                };
            }
            i += 1;
        }
        if self.attempts_made < self.policy.max_attempts {
            LocateStep::RetryAfterDelay { delay_secs: self.policy.delay_secs }
        } else {
            LocateStep::GiveUp
        }
    }
}

} // verus!
