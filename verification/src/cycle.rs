//! The recurring cleaning cycle's stored state: where the cycle stands, the
//! running countdown value, the configured start value, and the brew pair.
//! The snapshot rule reconstructs the stored mode from the values themselves:
//! a countdown that has moved off its start value counts as started.

use crate::coffee::{CoffeeRoast, CoffeesToBrew};
use vstd::prelude::*;

verus! {

/// Where the cycle stands.
#[derive(PartialEq, Eq, Structural, Copy, Clone, Debug)]
pub enum CsState {
    NotStarted,
    Started,
    Flex,
}

/// One stored snapshot of the cycle.
#[derive(Copy, Clone, Debug)]
pub struct CsData {
    pub cycle_state: CsState,
    pub current_cycle_time: i32,
    pub start_time_value: i32,
    pub last_brewed: CoffeesToBrew,
}

impl CsData {
    /// The snapshot to persist, given the countdown's current value, the
    /// configured start value and the brew pair: the cycle counts as started
    /// exactly when the countdown has moved off the start value.
    pub fn snapshot(
        current_cycle_time: i32,
        start_time_value: i32,
        last_brewed: CoffeesToBrew,
    ) -> (r: CsData)
        ensures
            r.current_cycle_time == current_cycle_time,
            r.start_time_value == start_time_value,
            r.last_brewed == last_brewed,
            r.cycle_state == if start_time_value != current_cycle_time {
                CsState::Started
            } else {
                CsState::NotStarted
            },
    {
        let mut d = CsData {
            current_cycle_time,
            cycle_state: CsState::NotStarted,
            last_brewed,
            start_time_value,
        };
        if d.start_time_value != d.current_cycle_time {
            d.cycle_state = CsState::Started;
        }
        d
    }
}

impl Default for CsData {
    /// The built-in cycle: not started, a thirty-minute countdown, and Pike
    /// with nothing queued; it also seeds the cycle when nothing was stored.
    fn default() -> (r: CsData)
        ensures
            r.cycle_state == CsState::NotStarted,
            r.current_cycle_time == 1800,
            r.start_time_value == 1800,
            r.last_brewed == CoffeesToBrew(CoffeeRoast::Pike, None::<CoffeeRoast>),
    {
        CsData {
            cycle_state: CsState::NotStarted,
            current_cycle_time: 1800,
            start_time_value: 1800,
            last_brewed: CoffeesToBrew(CoffeeRoast::Pike, None),
        }
    }
}

} // verus!
