use vstd::prelude::*;
use crate::tdp::{
    Access, Capabilities, CapabilitiesView, Control, Outcome, Reply, TDPDevice, TDPResult,
};

verus! {

/// The AMD backend. Its vendor path reports what the hardware can do when the
/// backend is constructed; the transport behind it is the caller's.
pub struct TDP {
    control: Control,
}

impl TDP {
    pub fn new(caps: Capabilities) -> (r: TDP)
        ensures
            r.capabilities() == caps@,
            r.pending() is None,
    {
        TDP { control: Control::new(caps) }
    }

    pub fn caps(&self) -> (r: &Capabilities)
        ensures
            r@ == self.capabilities(),
    {
        self.control.caps()
    }
}

impl TDPDevice for TDP {
    closed spec fn capabilities(&self) -> CapabilitiesView {
        self.control.capabilities()
    }

    closed spec fn pending(&self) -> Option<Access> {
        self.control.pending()
    }

    fn tdp(&self) -> (r: TDPResult<Access>) {
        self.control.tdp()
    }

    fn set_tdp(&mut self, value: u32) -> (r: TDPResult<Access>) {
        self.control.set_tdp(value)
    }

    fn boost(&self) -> (r: TDPResult<Access>) {
        self.control.boost()
    }

    fn set_boost(&mut self, value: u32) -> (r: TDPResult<Access>) {
        self.control.set_boost(value)
    }

    fn thermal_throttle_limit_c(&self) -> (r: TDPResult<Access>) {
        self.control.thermal_throttle_limit_c()
    }

    fn set_thermal_throttle_limit_c(&mut self, limit: u32) -> (r: TDPResult<Access>) {
        self.control.set_thermal_throttle_limit_c(limit)
    }

    fn power_profile(&self) -> (r: TDPResult<Access>) {
        self.control.power_profile()
    }

    fn set_power_profile(&mut self, profile: String) -> (r: TDPResult<Access>) {
        self.control.set_power_profile(profile)
    }

    fn complete(&mut self, access: Access, outcome: Outcome) -> (r: TDPResult<Reply>) {
        self.control.complete(access, outcome)
    }
}

} // verus!
