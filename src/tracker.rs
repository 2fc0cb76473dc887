//! The last accepted measurement of each sensor, and the decision whether a
//! new one is fresh.
use crate::reading::{repeat_rule, Reading};
use std::collections::HashMap;
use vstd::prelude::*;

verus! {

broadcast use vstd::std_specs::hash::group_hash_axioms;

/// `accepted` is a decision that the freshness rule allows for `reading` from
/// `address`, given the last accepted measurement of each address: a sensor
/// without one is always fresh, and otherwise the decision depends on the
/// seconds that passed between the two captures.
pub open spec fn fresh_decision(
    last: Map<u64, Reading>,
    address: u64,
    reading: Reading,
    accepted: bool,
) -> bool {
    if last.contains_key(address) {
        exists|elapsed_secs: nat|
            accepted == !#[trigger] repeat_rule(last[address], reading, elapsed_secs)
    } else {
        accepted
    }
}

/// The last accepted measurement of each sensor, by its radio address.
pub struct FreshnessTracker {
    last: HashMap<u64, Reading>,
}

impl View for FreshnessTracker {
    type V = Map<u64, Reading>;

    closed spec fn view(&self) -> Map<u64, Reading> {
        self.last@
    }
}

impl FreshnessTracker {
    /// A tracker that has accepted nothing yet.
    pub fn new() -> (r: FreshnessTracker)
        ensures
            r@ == Map::<u64, Reading>::empty(),
    {
        FreshnessTracker { last: HashMap::new() }
    }

    /// The last measurement accepted from `address`.
    pub fn last_reading(&self, address: u64) -> (r: Option<&Reading>)
        ensures
            match r {
                Some(m) => self@.contains_key(address) && *m == self@[address],
                None => !self@.contains_key(address),
            },
    {
        self.last.get(&address)
    }

    /// Decides whether `reading` from `address` is fresh, and if so keeps it as
    /// the last measurement of that address.
    pub fn offer(&mut self, address: u64, reading: Reading) -> (accepted: bool)
        ensures
            fresh_decision(old(self)@, address, reading, accepted),
            final(self)@ == if accepted {
                old(self)@.insert(address, reading)
            } else {
                old(self)@
            },
    {
        let accepted = match self.last.get(&address) {
            Some(previous) => !previous.is_repeat_reading(&reading),
            None => true,
        };
        if accepted {
            self.last.insert(address, reading);
        }
        accepted
    }
}

} // verus!
