//! The snapshot returned by the upstream sync endpoint: a mapping from string
//! keys to integers, of which the mirror reads the current fragment index,
//! the signup fragment index, and an optional keyframe interval.

use vstd::prelude::*;

verus! {

/// Keyframe interval assumed when the snapshot does not carry one.
pub const DEFAULT_KEYFRAME_INTERVAL_SECONDS: u64 = 3;

/// One snapshot of the upstream sync endpoint, kept verbatim as the list of
/// key/value pairs the endpoint answered with.
pub struct SyncSnapshot {
    pub entries: Vec<(String, i32)>,
}

/// First value bound to `key` among `entries`, if any.
pub open spec fn spec_lookup(entries: Seq<(String, i32)>, key: Seq<char>) -> Option<i32>
    decreases entries.len(),
{
    if entries.len() == 0 {
        None
    } else if entries[0].0@ == key {
        Some(entries[0].1)
    } else {
        spec_lookup(entries.skip(1), key)
    }
}

impl SyncSnapshot {
    /// Value bound to `key`, if any.
    pub open spec fn spec_get(&self, key: Seq<char>) -> Option<i32> {
        spec_lookup(self.entries@, key)
    }

    /// Index of the fragment the upstream currently serves, possibly negative
    /// as a transition signal; absent when the snapshot is malformed.
    pub open spec fn spec_fragment(&self) -> Option<i32> {
        self.spec_get("fragment"@)
    }

    /// Index from which local storage of the stream should start.
    pub open spec fn spec_signup_fragment(&self) -> Option<i32> {
        self.spec_get("signup_fragment"@)
    }

    /// Seconds between supervisor ticks: the snapshot's `keyframe_interval`
    /// where it carries a usable (non-negative) one, the default otherwise.
    pub open spec fn spec_keyframe_interval_seconds(&self) -> u64 {
        match self.spec_get("keyframe_interval"@) {
            Option::Some(i) => if i >= 0 {
                i as u64
            } else {
                DEFAULT_KEYFRAME_INTERVAL_SECONDS
            },
            Option::None => DEFAULT_KEYFRAME_INTERVAL_SECONDS,
        }
    }

    pub fn new(entries: Vec<(String, i32)>) -> (s: Self)
        ensures
            s.entries@ == entries@,
    {
        SyncSnapshot { entries }
    }

    /// First value bound to `key`, if any.
    pub fn get(&self, key: &String) -> (r: Option<i32>)
        ensures
            r == self.spec_get(key@),
    {
        let n = self.entries.len();
        let mut i: usize = 0;
        proof {
            assert(self.entries@.skip(0) =~= self.entries@);
        }
        while i < n
            invariant
                n == self.entries@.len(),
                i <= n,
                spec_lookup(self.entries@, key@) == spec_lookup(
                    self.entries@.skip(i as int),
                    key@,
                ),
            decreases n - i,
        {
            let found = self.entries[i].0 == *key;
            proof {
                assert(self.entries@.skip(i as int)[0] == self.entries@[i as int]);
                assert(self.entries@.skip(i as int).skip(1) =~= self.entries@.skip(i as int + 1));
            }
            if found {
                return Some(self.entries[i].1);
            }
            i += 1;
        }
        None
    }

    pub fn fragment(&self) -> (r: Option<i32>)
        ensures
            r == self.spec_fragment(),
    {
        self.get(&"fragment".to_owned())
    }

    pub fn signup_fragment(&self) -> (r: Option<i32>)
        ensures
            r == self.spec_signup_fragment(),
    {
        self.get(&"signup_fragment".to_owned())
    }

    pub fn keyframe_interval_seconds(&self) -> (r: u64)
        ensures
            r == self.spec_keyframe_interval_seconds(),
    {
        match self.get(&"keyframe_interval".to_owned()) {
            Some(i) => if i >= 0 {
                i as u64
            } else {
                DEFAULT_KEYFRAME_INTERVAL_SECONDS
            },
            None => DEFAULT_KEYFRAME_INTERVAL_SECONDS,
        }
    }
}

} // verus!
