use vstd::prelude::*;
use crate::tdp::{
    Access, CapabilitiesView, Capability, Outcome, Reply, TDPDevice, TDPResult,
    completion, pending_after, profile_answer, read_answer, write_answer,
};
use crate::asus::ASUS;

verus! {

/// The vendors, one for each backend.
#[derive(Clone, Copy, PartialEq, Eq, Structural, Debug)]
pub enum Vendor {
    Asus,
    Amd,
    Intel,
}

/// The order in which backends are probed.
pub open spec fn precedence() -> Seq<Vendor> {
    seq![Vendor::Asus, Vendor::Amd, Vendor::Intel]
}

/// The selected backend: exactly one of the vendor backends.
pub enum TDPDevices {
    ASUS(ASUS),
    AMD(crate::amd::TDP),
    INTEL(crate::intel::TDP),
}

impl TDPDevices {
    pub open spec fn vendor(&self) -> Vendor {
        match self {
            TDPDevices::ASUS(_) => Vendor::Asus,
            TDPDevices::AMD(_) => Vendor::Amd,
            TDPDevices::INTEL(_) => Vendor::Intel,
        }
    }

    /// The ASUS backend, if that is the one held.
    pub fn asus(&self) -> (r: Option<&ASUS>)
        ensures
            match self {
                TDPDevices::ASUS(a) => r == Some(a),
                _ => r is None,
            },
    {
        if let TDPDevices::ASUS(asus) = self {
            return Some(asus);
        }
        None
    }

    /// The AMD backend, if that is the one held.
    pub fn amd(&self) -> (r: Option<&crate::amd::TDP>)
        ensures
            match self {
                TDPDevices::AMD(a) => r == Some(a),
                _ => r is None,
            },
    {
        if let TDPDevices::AMD(amd) = self {
            return Some(amd);
        }
        None
    }

    /// The Intel backend, if that is the one held.
    pub fn intel(&self) -> (r: Option<&crate::intel::TDP>)
        ensures
            match self {
                TDPDevices::INTEL(i) => r == Some(i),
                _ => r is None,
            },
    {
        if let TDPDevices::INTEL(intel) = self {
            return Some(intel);
        }
        None
    }
}

impl TDPDevice for TDPDevices {
    open spec fn capabilities(&self) -> CapabilitiesView {
        match self {
            TDPDevices::ASUS(dev) => dev.capabilities(),
            TDPDevices::AMD(dev) => dev.capabilities(),
            TDPDevices::INTEL(dev) => dev.capabilities(),
        }
    }

    open spec fn pending(&self) -> Option<Access> {
        match self {
            TDPDevices::ASUS(dev) => dev.pending(),
            TDPDevices::AMD(dev) => dev.pending(),
            TDPDevices::INTEL(dev) => dev.pending(),
        }
    }

    fn tdp(&self) -> (r: TDPResult<Access>) {
        match self {
            TDPDevices::ASUS(dev) => dev.tdp(),
            TDPDevices::AMD(dev) => dev.tdp(),
            TDPDevices::INTEL(dev) => dev.tdp(),
        }
    }

    fn set_tdp(&mut self, value: u32) -> (r: TDPResult<Access>)
        ensures
            final(self).vendor() == old(self).vendor(),
            *old(self) matches TDPDevices::ASUS(a) ==> (*final(self) matches TDPDevices::ASUS(b)
                && b.spl() == a.spl() && b.sppt() == a.sppt()),
    {
        match self {
            TDPDevices::ASUS(dev) => dev.set_tdp(value),
            TDPDevices::AMD(dev) => dev.set_tdp(value),
            TDPDevices::INTEL(dev) => dev.set_tdp(value),
        }
    }

    fn boost(&self) -> (r: TDPResult<Access>) {
        match self {
            TDPDevices::ASUS(dev) => dev.boost(),
            TDPDevices::AMD(dev) => dev.boost(),
            TDPDevices::INTEL(dev) => dev.boost(),
        }
    }

    fn set_boost(&mut self, value: u32) -> (r: TDPResult<Access>)
        ensures
            final(self).vendor() == old(self).vendor(),
            *old(self) matches TDPDevices::ASUS(a) ==> (*final(self) matches TDPDevices::ASUS(b)
                && b.spl() == a.spl() && b.sppt() == a.sppt()),
    {
        match self {
            TDPDevices::ASUS(dev) => dev.set_boost(value),
            TDPDevices::AMD(dev) => dev.set_boost(value),
            TDPDevices::INTEL(dev) => dev.set_boost(value),
        }
    }

    fn thermal_throttle_limit_c(&self) -> (r: TDPResult<Access>) {
        match self {
            TDPDevices::ASUS(dev) => dev.thermal_throttle_limit_c(),
            TDPDevices::AMD(dev) => dev.thermal_throttle_limit_c(),
            TDPDevices::INTEL(dev) => dev.thermal_throttle_limit_c(),
        }
    }

    fn set_thermal_throttle_limit_c(&mut self, limit: u32) -> (r: TDPResult<Access>)
        ensures
            final(self).vendor() == old(self).vendor(),
            *old(self) matches TDPDevices::ASUS(a) ==> (*final(self) matches TDPDevices::ASUS(b)
                && b.spl() == a.spl() && b.sppt() == a.sppt()),
    {
        match self {
            TDPDevices::ASUS(dev) => dev.set_thermal_throttle_limit_c(limit),
            TDPDevices::AMD(dev) => dev.set_thermal_throttle_limit_c(limit),
            TDPDevices::INTEL(dev) => dev.set_thermal_throttle_limit_c(limit),
        }
    }

    fn power_profile(&self) -> (r: TDPResult<Access>) {
        match self {
            TDPDevices::ASUS(dev) => dev.power_profile(),
            TDPDevices::AMD(dev) => dev.power_profile(),
            TDPDevices::INTEL(dev) => dev.power_profile(),
        }
    }

    fn set_power_profile(&mut self, profile: String) -> (r: TDPResult<Access>)
        ensures
            final(self).vendor() == old(self).vendor(),
            *old(self) matches TDPDevices::ASUS(a) ==> (*final(self) matches TDPDevices::ASUS(b)
                && b.spl() == a.spl() && b.sppt() == a.sppt()),
    {
        match self {
            TDPDevices::ASUS(dev) => dev.set_power_profile(profile),
            TDPDevices::AMD(dev) => dev.set_power_profile(profile),
            TDPDevices::INTEL(dev) => dev.set_power_profile(profile),
        }
    }

    fn complete(&mut self, access: Access, outcome: Outcome) -> (r: TDPResult<Reply>)
        ensures
            final(self).vendor() == old(self).vendor(),
            *old(self) matches TDPDevices::ASUS(a) ==> (*final(self) matches TDPDevices::ASUS(b)
                && b.spl() == a.spl() && b.sppt() == a.sppt()),
    {
        match self {
            TDPDevices::ASUS(dev) => dev.complete(access, outcome),
            TDPDevices::AMD(dev) => dev.complete(access, outcome),
            TDPDevices::INTEL(dev) => dev.complete(access, outcome),
        }
    }
}

/// Picks the backend at startup. Probes are asked for in [`precedence`]
/// order, one at a time; the first probe that finds its hardware ends the
/// search, and when every probe misses there is no device.
pub struct Selector {
    tried: usize,
    found: Option<TDPDevices>,
    history: Ghost<Seq<bool>>,
}

impl Selector {
    /// How many probes have been recorded.
    pub closed spec fn tried(&self) -> nat {
        self.tried as nat
    }

    /// The backend found so far, if any.
    pub closed spec fn found(&self) -> Option<TDPDevices> {
        self.found
    }

    /// For each recorded probe in order, whether it found its hardware.
    pub closed spec fn history(&self) -> Seq<bool> {
        self.history@
    }

    /// The selector's invariant: one history entry per probe, a backend held
    /// exactly when some probe succeeded, and never two successes.
    pub open spec fn wf(&self) -> bool {
        &&& self.history().len() == self.tried()
        &&& self.tried() <= precedence().len()
        &&& (self.found() is Some <==> self.history().contains(true))
        &&& forall|i: int, j: int|
            0 <= i < self.history().len() && 0 <= j < self.history().len() && self.history()[i]
                && self.history()[j] ==> i == j
    }

    /// No further probe is due: a backend was found or every vendor was tried.
    pub open spec fn done(&self) -> bool {
        self.found() is Some || self.tried() >= precedence().len()
    }

    pub fn new() -> (r: Selector)
        ensures
            r.wf(),
            r.tried() == 0,
            r.found() is None,
    {
        Selector { tried: 0, found: None, history: Ghost(Seq::empty()) }
    }

    /// The vendor to probe next, or `None` once selection is over.
    pub fn next_probe(&self) -> (r: Option<Vendor>)
        ensures
            self.done() ==> r is None,
            !self.done() ==> r == Some(precedence()[self.tried() as int]),
    {
        if self.found.is_some() {
            None
        } else if self.tried == 0 {
            Some(Vendor::Asus)
        } else if self.tried == 1 {
            Some(Vendor::Amd)
        } else if self.tried == 2 {
            Some(Vendor::Intel)
        } else {
            None
        }
    }

    /// Records what the due probe found: its backend, or `None` on a miss.
    pub fn record(&mut self, outcome: Option<TDPDevices>)
        requires
            old(self).wf(),
            !old(self).done(),
            outcome matches Some(d) ==> d.vendor() == precedence()[old(self).tried() as int],
        ensures
            final(self).wf(),
            final(self).tried() == old(self).tried() + 1,
            final(self).history() == old(self).history().push(outcome is Some),
            final(self).found() == outcome,
    {
        let ghost old_history = self.history@;
        let ghost hit = outcome is Some;
        self.tried = self.tried + 1;
        self.found = outcome;
        self.history = Ghost(self.history@.push(hit));
        proof {
            assert(!old_history.contains(true));
            let h = self.history@;
            assert forall|i: int| 0 <= i < old_history.len() implies !h[i] by {
                assert(h[i] == old_history[i]);
                if h[i] {
                    assert(old_history.contains(true));
                }
            }
            if hit {
                assert(h.contains(true)) by {
                    assert(h[h.len() - 1]);
                }
            } else {
                assert forall|i: int| 0 <= i < h.len() implies !h[i] by {}
            }
        }
    }

    /// The backend selected, or `None` when no vendor's hardware was found.
    pub fn selected(self) -> (r: Option<TDPDevices>)
        ensures
            r == self.found(),
    {
        self.found
    }
}

/// At most one backend is ever selected: no two recorded probes succeeded,
/// and once one has, no further probe is due, so the backend found cannot be
/// replaced.
pub proof fn lemma_at_most_one_selected(s: &Selector)
    requires
        s.wf(),
    ensures
        s.found() is Some ==> s.done(),
        forall|i: int, j: int|
            0 <= i < s.history().len() && 0 <= j < s.history().len() && s.history()[i]
                && s.history()[j] ==> i == j,
{
}

/// When no probe finds its hardware, selection ends with no device rather
/// than an error: after every vendor has missed, no probe is due and nothing
/// is selected.
pub proof fn lemma_no_sentinels_no_device(s: &Selector)
    requires
        s.wf(),
        forall|i: int| 0 <= i < s.history().len() ==> !s.history()[i],
    ensures
        s.found() is None,
        s.tried() == precedence().len() ==> s.done(),
{
    if s.found() is Some {
        let i = choose|i: int| 0 <= i < s.history().len() && s.history()[i] == true;
        assert(s.history()[i]);
    }
}

/// Every operation owes the same answer to a holder of `caps` and `pending`
/// as to `d`.
pub open spec fn answers_agree(
    d: TDPDevices,
    caps: CapabilitiesView,
    pending: Option<Access>,
    c: Capability,
    v: u32,
    name: Seq<char>,
    access: Access,
    outcome: Outcome,
) -> bool {
    &&& read_answer(d.capabilities(), c) == read_answer(caps, c)
    &&& write_answer(d.capabilities(), d.pending(), c, v) == write_answer(caps, pending, c, v)
    &&& profile_answer(d.capabilities(), d.pending(), name) == profile_answer(caps, pending, name)
    &&& completion(d.capabilities(), d.pending(), access, outcome) == completion(
        caps,
        pending,
        access,
        outcome,
    )
    &&& pending_after(d.pending(), access) == pending_after(pending, access)
}

/// Forwarding is transparent: the dispatch variant offers exactly what the
/// backend it holds offers and has the same write in flight, so every
/// operation owes the same answer whether it is asked of the variant or of
/// that backend.
pub proof fn lemma_dispatch_transparent(
    d: TDPDevices,
    c: Capability,
    v: u32,
    name: Seq<char>,
    access: Access,
    outcome: Outcome,
)
    ensures
        d matches TDPDevices::ASUS(b) ==> {
            &&& d.capabilities() == b.capabilities()
            &&& d.pending() == b.pending()
            &&& answers_agree(d, b.capabilities(), b.pending(), c, v, name, access, outcome)
        },
        d matches TDPDevices::AMD(b) ==> {
            &&& d.capabilities() == b.capabilities()
            &&& d.pending() == b.pending()
            &&& answers_agree(d, b.capabilities(), b.pending(), c, v, name, access, outcome)
        },
        d matches TDPDevices::INTEL(b) ==> {
            &&& d.capabilities() == b.capabilities()
            &&& d.pending() == b.pending()
            &&& answers_agree(d, b.capabilities(), b.pending(), c, v, name, access, outcome)
        },
{
}

} // verus!
