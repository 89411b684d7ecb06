use vstd::prelude::*;
use vstd::string::*;

verus! {

/// The four ways an operation can fail.
#[derive(Debug)]
pub enum TDPError {
    /// The operation has no meaning on this backend or hardware.
    FeatureUnsupported,
    /// A backend call failed.
    FailedOperation(String),
    /// A caller-supplied value was rejected.
    InvalidArgument(String),
    /// The transport itself failed.
    IOError(String),
}

pub type TDPResult<T> = Result<T, TDPError>;

/// What a [`TDPError`] says, with its detail as a character sequence.
pub ghost enum Failure {
    FeatureUnsupported,
    FailedOperation(Seq<char>),
    InvalidArgument(Seq<char>),
    IOError(Seq<char>),
}

impl View for TDPError {
    type V = Failure;

    open spec fn view(&self) -> Failure {
        match self {
            TDPError::FeatureUnsupported => Failure::FeatureUnsupported,
            TDPError::FailedOperation(d) => Failure::FailedOperation(d@),
            TDPError::InvalidArgument(d) => Failure::InvalidArgument(d@),
            TDPError::IOError(d) => Failure::IOError(d@),
        }
    }
}

impl PartialEq for TDPError {
    fn eq(&self, other: &TDPError) -> (r: bool) {
        match (self, other) {
            (TDPError::FeatureUnsupported, TDPError::FeatureUnsupported) => true,
            (TDPError::FailedOperation(a), TDPError::FailedOperation(b)) => a.eq(b),
            (TDPError::InvalidArgument(a), TDPError::InvalidArgument(b)) => a.eq(b),
            (TDPError::IOError(a), TDPError::IOError(b)) => a.eq(b),
            _ => false,
        }
    }
}

impl vstd::std_specs::cmp::PartialEqSpecImpl for TDPError {
    open spec fn obeys_eq_spec() -> bool {
        true
    }

    open spec fn eq_spec(&self, other: &TDPError) -> bool {
        self@ == other@
    }
}

impl TDPError {
    /// The error as text: a phrase naming its kind, followed by its detail.
    pub fn into_message(self) -> (r: String)
        ensures
            r@ == message_of(self@),
            r@.len() > 0,
    {
        proof {
            lemma_message_tells_kind(self@, self@);
        }
        match self {
            TDPError::FeatureUnsupported => String::from_str("feature unsupported"),
            TDPError::FailedOperation(d) => String::from_str("failed operation: ").concat(
                d.as_str(),
            ),
            TDPError::InvalidArgument(d) => String::from_str("invalid argument: ").concat(
                d.as_str(),
            ),
            TDPError::IOError(d) => String::from_str("I/O error: ").concat(d.as_str()),
        }
    }
}

/// The text of an error: its kind, then its detail.
pub open spec fn message_of(f: Failure) -> Seq<char> {
    match f {
        Failure::FeatureUnsupported => "feature unsupported"@,
        Failure::FailedOperation(d) => "failed operation: "@ + d,
        Failure::InvalidArgument(d) => "invalid argument: "@ + d,
        Failure::IOError(d) => "I/O error: "@ + d,
    }
}

/// Both failures are of the same kind, whatever their details.
pub open spec fn same_kind(a: Failure, b: Failure) -> bool {
    match (a, b) {
        (Failure::FeatureUnsupported, Failure::FeatureUnsupported) => true,
        (Failure::FailedOperation(_), Failure::FailedOperation(_)) => true,
        (Failure::InvalidArgument(_), Failure::InvalidArgument(_)) => true,
        (Failure::IOError(_), Failure::IOError(_)) => true,
        _ => false,
    }
}

/// An error's text is never empty and tells its kind: two errors of
/// different kinds never read alike, whatever their details.
pub proof fn lemma_message_tells_kind(a: Failure, b: Failure)
    ensures
        message_of(a).len() > 0,
        message_of(a) == message_of(b) ==> same_kind(a, b),
{
    reveal_strlit("feature unsupported");
    reveal_strlit("failed operation: ");
    reveal_strlit("invalid argument: ");
    reveal_strlit("I/O error: ");
    let ma = message_of(a);
    let mb = message_of(b);
    assert(ma.len() > 1 && ma[0] == message_kind_chars(a).0 && ma[1] == message_kind_chars(a).1);
    assert(mb.len() > 1 && mb[0] == message_kind_chars(b).0 && mb[1] == message_kind_chars(b).1);
}

/// The first two characters of an error's text, fixed by its kind.
spec fn message_kind_chars(f: Failure) -> (char, char) {
    match f {
        Failure::FeatureUnsupported => ('f', 'e'),
        Failure::FailedOperation(_) => ('f', 'a'),
        Failure::InvalidArgument(_) => ('i', 'n'),
        Failure::IOError(_) => ('I', '/'),
    }
}

/// A result with its error seen through [`Failure`].
pub open spec fn view_result<T>(r: TDPResult<T>) -> Result<T, Failure> {
    match r {
        Ok(v) => Ok(v),
        Err(e) => Err(e@),
    }
}

/// The controls a backend may offer.
#[derive(Clone, Copy, PartialEq, Eq, Structural, Debug)]
pub enum Capability {
    /// Sustained package power, in watts.
    Tdp,
    /// Transient power allowance above the sustained limit, in watts.
    Boost,
    /// Temperature at which the hardware starts throttling, in degrees Celsius.
    ThrottleLimit,
    /// A named bundle of tuning parameters.
    PowerProfile,
}

/// An inclusive range of accepted values.
#[derive(Clone, Copy, PartialEq, Eq, Structural, Debug)]
pub struct Limit {
    pub min: u32,
    pub max: u32,
}

impl Limit {
    pub open spec fn contains(self, v: u32) -> bool {
        self.min <= v <= self.max
    }

    pub fn accepts(&self, v: u32) -> (r: bool)
        ensures
            r == self.contains(v),
    {
        self.min <= v && v <= self.max
    }
}

/// What a backend can do: the accepted range of each numeric control
/// (`None` where the hardware lacks it) and the names of its power profiles,
/// whose position is the code the hardware uses (empty where it has none).
pub struct Capabilities {
    pub tdp: Option<Limit>,
    pub boost: Option<Limit>,
    pub throttle_limit: Option<Limit>,
    pub profiles: Vec<String>,
}

/// The abstract content of [`Capabilities`].
pub ghost struct CapabilitiesView {
    pub tdp: Option<Limit>,
    pub boost: Option<Limit>,
    pub throttle_limit: Option<Limit>,
    pub profiles: Seq<Seq<char>>,
}

impl View for Capabilities {
    type V = CapabilitiesView;

    open spec fn view(&self) -> CapabilitiesView {
        CapabilitiesView {
            tdp: self.tdp,
            boost: self.boost,
            throttle_limit: self.throttle_limit,
            profiles: self.profiles@.map_values(|s: String| s@),
        }
    }
}

impl CapabilitiesView {
    /// The accepted range of a numeric control; `None` for the power profile.
    pub open spec fn limit_of(self, c: Capability) -> Option<Limit> {
        match c {
            Capability::Tdp => self.tdp,
            Capability::Boost => self.boost,
            Capability::ThrottleLimit => self.throttle_limit,
            Capability::PowerProfile => None,
        }
    }

    pub open spec fn supports(self, c: Capability) -> bool {
        match c {
            Capability::PowerProfile => self.profiles.len() > 0,
            _ => self.limit_of(c) is Some,
        }
    }
}

impl Capabilities {
    pub fn limit(&self, c: Capability) -> (r: Option<Limit>)
        ensures
            r == self@.limit_of(c),
    {
        match c {
            Capability::Tdp => self.tdp,
            Capability::Boost => self.boost,
            Capability::ThrottleLimit => self.throttle_limit,
            Capability::PowerProfile => None,
        }
    }

    pub fn supports(&self, c: Capability) -> (r: bool)
        ensures
            r == self@.supports(c),
    {
        match c {
            Capability::PowerProfile => self.profiles.len() > 0,
            _ => self.limit(c).is_some(),
        }
    }

    /// The position of the first profile called `name`.
    pub fn profile_index(&self, name: &String) -> (r: Option<usize>)
        ensures
            match r {
                Some(i) => {
                    &&& i < self@.profiles.len()
                    &&& self@.profiles[i as int] == name@
                    &&& forall|j: int| 0 <= j < i ==> self@.profiles[j] != name@
                },
                None => !self@.profiles.contains(name@),
            },
    {
        let n = self.profiles.len();
        let mut i: usize = 0;
        while i < n
            invariant
                n == self.profiles.len(),
                i <= n,
                forall|j: int| 0 <= j < i ==> self@.profiles[j] != name@,
            decreases n - i,
        {
            if self.profiles[i] == *name {
                return Some(i);
            }
            i = i + 1;
        }
        None
    }
}

/// An access that a backend asks its caller to carry out on its transport.
#[derive(Clone, Copy, PartialEq, Eq, Structural, Debug)]
pub enum Access {
    /// Read the current setting of a control.
    Read(Capability),
    /// Write a value to a control. For the power profile the value is the
    /// profile's code.
    Write(Capability, u32),
}

/// What came of an [`Access`] on the transport.
#[derive(Debug)]
pub enum Outcome {
    /// The transport answered with a value.
    Value(u32),
    /// The transport acknowledged a write.
    Written,
    /// The transport could not be reached; the text names it.
    Unreachable(String),
    /// The transport was reached but refused the call; the text says why.
    Rejected(String),
    /// The transport reported an I/O failure; the text says where.
    Io(String),
}

/// The successful result of an operation.
#[derive(Debug)]
pub enum Reply {
    /// A numeric setting that was read.
    Value(u32),
    /// The name of the active power profile.
    Profile(String),
    /// A write that was applied.
    Applied,
}

pub ghost enum ReplyView {
    Value(u32),
    Profile(Seq<char>),
    Applied,
}

impl View for Reply {
    type V = ReplyView;

    open spec fn view(&self) -> ReplyView {
        match self {
            Reply::Value(v) => ReplyView::Value(*v),
            Reply::Profile(s) => ReplyView::Profile(s@),
            Reply::Applied => ReplyView::Applied,
        }
    }
}

/// A completion result seen through the views of its reply and its error.
pub open spec fn view_reply(r: TDPResult<Reply>) -> Result<ReplyView, Failure> {
    match r {
        Ok(v) => Ok(v@),
        Err(e) => Err(e@),
    }
}

pub open spec fn out_of_range_detail() -> Seq<char> {
    "value outside the accepted range"@
}

pub open spec fn unknown_profile_detail() -> Seq<char> {
    "unknown power profile"@
}

pub open spec fn busy_detail() -> Seq<char> {
    "another write is in progress"@
}

pub open spec fn no_value_detail() -> Seq<char> {
    "transport answered without a value"@
}

pub open spec fn unexpected_value_detail() -> Seq<char> {
    "transport answered a write with a value"@
}

pub open spec fn unrequested_write_detail() -> Seq<char> {
    "write was not requested or has already completed"@
}

pub open spec fn unknown_code_detail() -> Seq<char> {
    "hardware reported an unknown power profile"@
}

/// The answer owed to a read of `c`.
pub open spec fn read_answer(caps: CapabilitiesView, c: Capability) -> Result<Access, Failure> {
    if caps.supports(c) {
        Ok(Access::Read(c))
    } else {
        Err(Failure::FeatureUnsupported)
    }
}

/// The answer owed to a write of `v` to the numeric control `c`, while
/// `pending` is the write still in flight, if any. Unsupported controls and
/// out-of-range values are refused before anything else.
pub open spec fn write_answer(
    caps: CapabilitiesView,
    pending: Option<Access>,
    c: Capability,
    v: u32,
) -> Result<Access, Failure> {
    if !caps.supports(c) {
        Err(Failure::FeatureUnsupported)
    } else if !caps.limit_of(c).unwrap().contains(v) {
        Err(Failure::InvalidArgument(out_of_range_detail()))
    } else if pending is Some {
        Err(Failure::FailedOperation(busy_detail()))
    } else {
        Ok(Access::Write(c, v))
    }
}

/// The answer owed to selecting the power profile called `name`.
pub open spec fn profile_answer(
    caps: CapabilitiesView,
    pending: Option<Access>,
    name: Seq<char>,
) -> Result<Access, Failure> {
    if !caps.supports(Capability::PowerProfile) {
        Err(Failure::FeatureUnsupported)
    } else if !caps.profiles.contains(name) {
        Err(Failure::InvalidArgument(unknown_profile_detail()))
    } else if pending is Some {
        Err(Failure::FailedOperation(busy_detail()))
    } else {
        Ok(
            Access::Write(
                Capability::PowerProfile,
                caps.profiles.index_of_first(name).unwrap() as u32,
            ),
        )
    }
}

/// The result owed once `access` has come to `outcome`, while `pending` is
/// the write in flight: a write that was never handed out, or has already
/// completed, is refused.
pub open spec fn completion(
    caps: CapabilitiesView,
    pending: Option<Access>,
    access: Access,
    outcome: Outcome,
) -> Result<ReplyView, Failure> {
    if access is Write && pending != Some(access) {
        Err(Failure::FailedOperation(unrequested_write_detail()))
    } else {
        outcome_completion(caps, access, outcome)
    }
}

/// What `outcome` means for `access`, judged on the outcome alone.
pub open spec fn outcome_completion(caps: CapabilitiesView, access: Access, outcome: Outcome) -> Result<
    ReplyView,
    Failure,
> {
    match outcome {
        Outcome::Unreachable(d) => Err(Failure::FailedOperation(d@)),
        Outcome::Rejected(d) => Err(Failure::FailedOperation(d@)),
        Outcome::Io(d) => Err(Failure::IOError(d@)),
        Outcome::Value(v) => match access {
            Access::Read(Capability::PowerProfile) => if v < caps.profiles.len() {
                Ok(ReplyView::Profile(caps.profiles[v as int]))
            } else {
                Err(Failure::FailedOperation(unknown_code_detail()))
            },
            Access::Read(_) => Ok(ReplyView::Value(v)),
            Access::Write(_, _) => Err(Failure::FailedOperation(unexpected_value_detail())),
        },
        Outcome::Written => match access {
            Access::Read(_) => Err(Failure::FailedOperation(no_value_detail())),
            Access::Write(_, _) => Ok(ReplyView::Applied),
        },
    }
}

/// The write still in flight once `access` has completed: a completed write
/// is no longer pending.
pub open spec fn pending_after(pending: Option<Access>, access: Access) -> Option<Access> {
    if pending == Some(access) {
        None
    } else {
        pending
    }
}

pub fn answer_read(caps: &Capabilities, c: Capability) -> (r: TDPResult<Access>)
    ensures
        view_result(r) == read_answer(caps@, c),
{
    if caps.supports(c) {
        Ok(Access::Read(c))
    } else {
        Err(TDPError::FeatureUnsupported)
    }
}

pub fn answer_write(caps: &Capabilities, pending: Option<Access>, c: Capability, v: u32) -> (r:
    TDPResult<Access>)
    requires
        c != Capability::PowerProfile,
    ensures
        view_result(r) == write_answer(caps@, pending, c, v),
{
    match caps.limit(c) {
        None => Err(TDPError::FeatureUnsupported),
        Some(limit) => {
            if !limit.accepts(v) {
                Err(TDPError::InvalidArgument(String::from_str("value outside the accepted range")))
            } else if pending.is_some() {
                Err(TDPError::FailedOperation(String::from_str("another write is in progress")))
            } else {
                Ok(Access::Write(c, v))
            }
        },
    }
}

pub fn answer_profile(caps: &Capabilities, pending: Option<Access>, name: &String) -> (r:
    TDPResult<Access>)
    ensures
        view_result(r) == profile_answer(caps@, pending, name@),
{
    if !caps.supports(Capability::PowerProfile) {
        return Err(TDPError::FeatureUnsupported);
    }
    match caps.profile_index(name) {
        None => Err(TDPError::InvalidArgument(String::from_str("unknown power profile"))),
        Some(i) => {
            if pending.is_some() {
                Err(TDPError::FailedOperation(String::from_str("another write is in progress")))
            } else {
                proof {
                    caps@.profiles.index_of_first_ensures(name@);
                }
                Ok(Access::Write(Capability::PowerProfile, i as u32))
            }
        },
    }
}

pub fn complete_access(caps: &Capabilities, access: Access, outcome: Outcome) -> (r: TDPResult<
    Reply,
>)
    ensures
        view_reply(r) == outcome_completion(caps@, access, outcome),
{
    match outcome {
        Outcome::Unreachable(d) => Err(TDPError::FailedOperation(d)),
        Outcome::Rejected(d) => Err(TDPError::FailedOperation(d)),
        Outcome::Io(d) => Err(TDPError::IOError(d)),
        Outcome::Value(v) => match access {
            Access::Read(Capability::PowerProfile) => {
                if (v as usize) < caps.profiles.len() {
                    Ok(Reply::Profile(caps.profiles[v as usize].clone()))
                } else {
                    Err(
                        TDPError::FailedOperation(
                            String::from_str("hardware reported an unknown power profile"),
                        ),
                    )
                }
            },
            Access::Read(_) => Ok(Reply::Value(v)),
            Access::Write(_, _) => Err(
                TDPError::FailedOperation(String::from_str("transport answered a write with a value")),
            ),
        },
        Outcome::Written => match access {
            Access::Read(_) => Err(
                TDPError::FailedOperation(String::from_str("transport answered without a value")),
            ),
            Access::Write(_, _) => Ok(Reply::Applied),
        },
    }
}

/// The pending write once an accepted request has been handed out.
pub open spec fn pending_after_request(pending: Option<Access>, r: Result<Access, Failure>) -> Option<
    Access,
> {
    match r {
        Ok(a) => Some(a),
        Err(_) => pending,
    }
}

/// The operations every backend offers. Each request returns the access to
/// perform on the backend's transport, or an error decided without touching
/// the hardware; `complete` turns what came of that access into the result.
/// At most one write is in flight per backend: a write requested while
/// another is pending is refused until that one has completed.
pub trait TDPDevice: Sized {
    /// What the backend can do.
    spec fn capabilities(&self) -> CapabilitiesView;

    /// The write handed out and not yet completed, if any.
    spec fn pending(&self) -> Option<Access>;

    fn tdp(&self) -> (r: TDPResult<Access>)
        ensures
            view_result(r) == read_answer(self.capabilities(), Capability::Tdp),
    ;

    fn set_tdp(&mut self, value: u32) -> (r: TDPResult<Access>)
        ensures
            view_result(r) == write_answer(
                old(self).capabilities(),
                old(self).pending(),
                Capability::Tdp,
                value,
            ),
            final(self).capabilities() == old(self).capabilities(),
            final(self).pending() == pending_after_request(old(self).pending(), view_result(r)),
    ;

    fn boost(&self) -> (r: TDPResult<Access>)
        ensures
            view_result(r) == read_answer(self.capabilities(), Capability::Boost),
    ;

    fn set_boost(&mut self, value: u32) -> (r: TDPResult<Access>)
        ensures
            view_result(r) == write_answer(
                old(self).capabilities(),
                old(self).pending(),
                Capability::Boost,
                value,
            ),
            final(self).capabilities() == old(self).capabilities(),
            final(self).pending() == pending_after_request(old(self).pending(), view_result(r)),
    ;

    fn thermal_throttle_limit_c(&self) -> (r: TDPResult<Access>)
        ensures
            view_result(r) == read_answer(self.capabilities(), Capability::ThrottleLimit),
    ;

    fn set_thermal_throttle_limit_c(&mut self, limit: u32) -> (r: TDPResult<Access>)
        ensures
            view_result(r) == write_answer(
                old(self).capabilities(),
                old(self).pending(),
                Capability::ThrottleLimit,
                limit,
            ),
            final(self).capabilities() == old(self).capabilities(),
            final(self).pending() == pending_after_request(old(self).pending(), view_result(r)),
    ;

    fn power_profile(&self) -> (r: TDPResult<Access>)
        ensures
            view_result(r) == read_answer(self.capabilities(), Capability::PowerProfile),
    ;

    fn set_power_profile(&mut self, profile: String) -> (r: TDPResult<Access>)
        ensures
            view_result(r) == profile_answer(old(self).capabilities(), old(self).pending(), profile@),
            final(self).capabilities() == old(self).capabilities(),
            final(self).pending() == pending_after_request(old(self).pending(), view_result(r)),
    ;

    /// Turns what came of `access` into the operation's result.
    fn complete(&mut self, access: Access, outcome: Outcome) -> (r: TDPResult<Reply>)
        ensures
            view_reply(r) == completion(
                old(self).capabilities(),
                old(self).pending(),
                access,
                outcome,
            ),
            final(self).capabilities() == old(self).capabilities(),
            final(self).pending() == pending_after(old(self).pending(), access),
    ;
}

/// A value outside a supported control's range is refused with
/// `InvalidArgument`: no access is handed out, so nothing is written, and the
/// pending write is left as it was. An unknown profile name is refused the
/// same way.
pub proof fn lemma_out_of_range_rejected(
    caps: CapabilitiesView,
    pending: Option<Access>,
    c: Capability,
    v: u32,
    name: Seq<char>,
)
    ensures
        c != Capability::PowerProfile && caps.supports(c) && !caps.limit_of(c).unwrap().contains(
            v,
        ) ==> {
            &&& write_answer(caps, pending, c, v) == Err::<Access, Failure>(
                Failure::InvalidArgument(out_of_range_detail()),
            )
            &&& pending_after_request(pending, write_answer(caps, pending, c, v)) == pending
        },
        caps.supports(Capability::PowerProfile) && !caps.profiles.contains(name) ==> {
            &&& profile_answer(caps, pending, name) == Err::<Access, Failure>(
                Failure::InvalidArgument(unknown_profile_detail()),
            )
            &&& pending_after_request(pending, profile_answer(caps, pending, name)) == pending
        },
{
}

/// A control the backend lacks fails fast with `FeatureUnsupported`, for
/// reads and writes alike, whatever the value and whatever is in flight;
/// never with `FailedOperation`.
pub proof fn lemma_unsupported_fails_fast(
    caps: CapabilitiesView,
    pending: Option<Access>,
    c: Capability,
    v: u32,
    name: Seq<char>,
)
    requires
        !caps.supports(c),
    ensures
        read_answer(caps, c) == Err::<Access, Failure>(Failure::FeatureUnsupported),
        c != Capability::PowerProfile ==> write_answer(caps, pending, c, v) == Err::<
            Access,
            Failure,
        >(Failure::FeatureUnsupported),
        c == Capability::PowerProfile ==> profile_answer(caps, pending, name) == Err::<
            Access,
            Failure,
        >(Failure::FeatureUnsupported),
{
}

/// Writes never interleave: while a write is in flight every further write
/// request is refused and the write in flight stays the only one; an accepted
/// write carries exactly the requested value and becomes the one in flight.
pub proof fn lemma_one_write_in_flight(
    caps: CapabilitiesView,
    pending: Option<Access>,
    c: Capability,
    v: u32,
    name: Seq<char>,
)
    requires
        c != Capability::PowerProfile,
    ensures
        pending is Some ==> {
            &&& write_answer(caps, pending, c, v) is Err
            &&& pending_after_request(pending, write_answer(caps, pending, c, v)) == pending
            &&& profile_answer(caps, pending, name) is Err
            &&& pending_after_request(pending, profile_answer(caps, pending, name)) == pending
        },
        write_answer(caps, pending, c, v) is Ok ==> {
            &&& pending is None
            &&& write_answer(caps, pending, c, v) == Ok::<Access, Failure>(Access::Write(c, v))
            &&& pending_after_request(pending, write_answer(caps, pending, c, v)) == Some(
                Access::Write(c, v),
            )
        },
        pending_after(Some(Access::Write(c, v)), Access::Write(c, v)) is None,
{
}

/// The state every backend keeps: what it can do, and the write in flight.
pub struct Control {
    caps: Capabilities,
    pending: Option<Access>,
}

impl Control {
    pub fn new(caps: Capabilities) -> (r: Control)
        ensures
            r.capabilities() == caps@,
            r.pending() is None,
    {
        Control { caps, pending: None }
    }

    pub fn caps(&self) -> (r: &Capabilities)
        ensures
            r@ == self.capabilities(),
    {
        &self.caps
    }

    fn request_write(&mut self, c: Capability, v: u32) -> (r: TDPResult<Access>)
        requires
            c != Capability::PowerProfile,
        ensures
            view_result(r) == write_answer(old(self).capabilities(), old(self).pending(), c, v),
            final(self).capabilities() == old(self).capabilities(),
            final(self).pending() == pending_after_request(old(self).pending(), view_result(r)),
    {
        let r = answer_write(&self.caps, self.pending, c, v);
        if let Ok(a) = r {
            self.pending = Some(a);
        }
        r
    }
}

impl TDPDevice for Control {
    closed spec fn capabilities(&self) -> CapabilitiesView {
        self.caps@
    }

    closed spec fn pending(&self) -> Option<Access> {
        self.pending
    }

    fn tdp(&self) -> (r: TDPResult<Access>) {
        answer_read(&self.caps, Capability::Tdp)
    }

    fn set_tdp(&mut self, value: u32) -> (r: TDPResult<Access>) {
        self.request_write(Capability::Tdp, value)
    }

    fn boost(&self) -> (r: TDPResult<Access>) {
        answer_read(&self.caps, Capability::Boost)
    }

    fn set_boost(&mut self, value: u32) -> (r: TDPResult<Access>) {
        self.request_write(Capability::Boost, value)
    }

    fn thermal_throttle_limit_c(&self) -> (r: TDPResult<Access>) {
        answer_read(&self.caps, Capability::ThrottleLimit)
    }

    fn set_thermal_throttle_limit_c(&mut self, limit: u32) -> (r: TDPResult<Access>) {
        self.request_write(Capability::ThrottleLimit, limit)
    }

    fn power_profile(&self) -> (r: TDPResult<Access>) {
        answer_read(&self.caps, Capability::PowerProfile)
    }

    fn set_power_profile(&mut self, profile: String) -> (r: TDPResult<Access>) {
        let r = answer_profile(&self.caps, self.pending, &profile);
        if let Ok(a) = r {
            self.pending = Some(a);
        }
        r
    }

    fn complete(&mut self, access: Access, outcome: Outcome) -> (r: TDPResult<Reply>) {
        if self.pending == Some(access) {
            self.pending = None;
        } else if let Access::Write(_, _) = access {
            return Err(
                TDPError::FailedOperation(
                    String::from_str("write was not requested or has already completed"),
                ),
            );
        }
        complete_access(&self.caps, access, outcome)
    }
}

} // verus!
