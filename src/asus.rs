use vstd::prelude::*;
use vstd::string::*;
use crate::tdp::{
    Access, Capabilities, CapabilitiesView, Control, Limit, Outcome, Reply, TDPDevice, TDPResult,
};

verus! {

/// Lowest APU slow package power target that asus-wmi accepts, in watts.
pub const TDP_MIN: u32 = 5;

/// Highest APU slow package power target that asus-wmi accepts, in watts.
pub const TDP_MAX: u32 = 130;

/// Lowest slow package power tracking limit that asus-wmi accepts, in watts.
pub const BOOST_MIN: u32 = 5;

/// Highest slow package power tracking limit that asus-wmi accepts, in watts.
pub const BOOST_MAX: u32 = 250;

/// The sentinel attributes read from one `asus-nb-wmi` platform device; an
/// attribute the device lacks is `None`.
pub struct PlatformDevice {
    pub ppt_pl1_spl: Option<String>,
    pub ppt_pl2_sppt: Option<String>,
}

impl PlatformDevice {
    /// Both sentinel attributes are present: the asus-wmi module is active.
    pub open spec fn has_sentinels(&self) -> bool {
        self.ppt_pl1_spl is Some && self.ppt_pl2_sppt is Some
    }
}

/// What the ASUS backend can do: the power targets of the asusd daemon, no
/// control of the throttle temperature, and the three thermal policies in the
/// order of their codes.
pub open spec fn asus_capabilities() -> CapabilitiesView {
    CapabilitiesView {
        tdp: Some(Limit { min: TDP_MIN, max: TDP_MAX }),
        boost: Some(Limit { min: BOOST_MIN, max: BOOST_MAX }),
        throttle_limit: None,
        profiles: seq!["balanced"@, "performance"@, "quiet"@],
    }
}

fn capabilities() -> (r: Capabilities)
    ensures
        r@ == asus_capabilities(),
{
    let profiles = vec![
        String::from_str("balanced"),
        String::from_str("performance"),
        String::from_str("quiet"),
    ];
    let r = Capabilities {
        tdp: Some(Limit { min: TDP_MIN, max: TDP_MAX }),
        boost: Some(Limit { min: BOOST_MIN, max: BOOST_MAX }),
        throttle_limit: None,
        profiles,
    };
    assert(r@.profiles =~= asus_capabilities().profiles);
    r
}

/// The asusd backend, found through the asus-wmi platform attributes.
pub struct ASUS {
    ppt_pl1_spl: String,
    ppt_pl2_sppt: String,
    control: Control,
}

impl ASUS {
    pub closed spec fn spl(&self) -> Seq<char> {
        self.ppt_pl1_spl@
    }

    pub closed spec fn sppt(&self) -> Seq<char> {
        self.ppt_pl2_sppt@
    }

    /// Detects the asus-wmi module from the `asus-nb-wmi` platform devices:
    /// the backend is built from the first device that carries both sentinel
    /// attributes, and there is none when no device does.
    pub fn new(devices: &Vec<PlatformDevice>) -> (r: Option<ASUS>)
        ensures
            r is None <==> forall|i: int| 0 <= i < devices@.len() ==> !devices@[i].has_sentinels(),
            r matches Some(a) ==> exists|i: int|
                {
                    &&& 0 <= i < devices@.len()
                    &&& devices@[i].has_sentinels()
                    &&& forall|j: int| 0 <= j < i ==> !devices@[j].has_sentinels()
                    &&& a.spl() == devices@[i].ppt_pl1_spl.unwrap()@
                    &&& a.sppt() == devices@[i].ppt_pl2_sppt.unwrap()@
                },
            r matches Some(a) ==> a.capabilities() == asus_capabilities() && a.pending() is None,
    {
        let mut i: usize = 0;
        while i < devices.len()
            invariant
                i <= devices@.len(),
                forall|j: int| 0 <= j < i ==> !devices@[j].has_sentinels(),
            decreases devices@.len() - i,
        {
            let device = &devices[i];
            if let (Some(spl), Some(sppt)) = (&device.ppt_pl1_spl, &device.ppt_pl2_sppt) {
                let a = ASUS {
                    ppt_pl1_spl: spl.clone(),
                    ppt_pl2_sppt: sppt.clone(),
                    control: Control::new(capabilities()),
                };
                assert(devices@[i as int].has_sentinels());
                return Some(a);
            }
            i = i + 1;
        }
        None
    }

    /// The `ppt_pl1_spl` value seen at detection.
    pub fn ppt_pl1_spl(&self) -> (r: &String)
        ensures
            r@ == self.spl(),
    {
        &self.ppt_pl1_spl
    }

    /// The `ppt_pl2_sppt` value seen at detection.
    pub fn ppt_pl2_sppt(&self) -> (r: &String)
        ensures
            r@ == self.sppt(),
    {
        &self.ppt_pl2_sppt
    }

    pub fn caps(&self) -> (r: &Capabilities)
        ensures
            r@ == self.capabilities(),
    {
        self.control.caps()
    }
}

impl TDPDevice for ASUS {
    closed spec fn capabilities(&self) -> CapabilitiesView {
        self.control.capabilities()
    }

    closed spec fn pending(&self) -> Option<Access> {
        self.control.pending()
    }

    fn tdp(&self) -> (r: TDPResult<Access>) {
        self.control.tdp()
    }

    fn set_tdp(&mut self, value: u32) -> (r: TDPResult<Access>)
        ensures
            final(self).spl() == old(self).spl(),
            final(self).sppt() == old(self).sppt(),
    {
        self.control.set_tdp(value)
    }

    fn boost(&self) -> (r: TDPResult<Access>) {
        self.control.boost()
    }

    fn set_boost(&mut self, value: u32) -> (r: TDPResult<Access>)
        ensures
            final(self).spl() == old(self).spl(),
            final(self).sppt() == old(self).sppt(),
    {
        self.control.set_boost(value)
    }

    fn thermal_throttle_limit_c(&self) -> (r: TDPResult<Access>) {
        self.control.thermal_throttle_limit_c()
    }

    fn set_thermal_throttle_limit_c(&mut self, limit: u32) -> (r: TDPResult<Access>)
        ensures
            final(self).spl() == old(self).spl(),
            final(self).sppt() == old(self).sppt(),
    {
        self.control.set_thermal_throttle_limit_c(limit)
    }

    fn power_profile(&self) -> (r: TDPResult<Access>) {
        self.control.power_profile()
    }

    fn set_power_profile(&mut self, profile: String) -> (r: TDPResult<Access>)
        ensures
            final(self).spl() == old(self).spl(),
            final(self).sppt() == old(self).sppt(),
    {
        self.control.set_power_profile(profile)
    }

    fn complete(&mut self, access: Access, outcome: Outcome) -> (r: TDPResult<Reply>)
        ensures
            final(self).spl() == old(self).spl(),
            final(self).sppt() == old(self).sppt(),
    {
        self.control.complete(access, outcome)
    }
}

} // verus!
