use str0m::{Rtc, RtcError};
use vstd::prelude::*;

use crate::rtc_core::rtc::{now, rtc_config_build, rtc_config_new};

verus! {

/// The Core level logic for RAMS.
/// This acts as a wrapper over the str0m::Rtc state machine.
/// It provides pure, sans-IO WebRTC primitives with default properties.
pub struct StateMachine {
    pub rtc: Rtc,
}

impl StateMachine {
    /// Create a new sans-IO StateMachine wrapper; building the engine never fails.
    pub fn new() -> (r: Result<Self, RtcError>)
        ensures
            r is Ok,
    {
        let config = rtc_config_new();
        // Potential future config properties could be exposed here independently of str0m
        Ok(Self { rtc: rtc_config_build(config, now()) })
    }
}

} // verus!
