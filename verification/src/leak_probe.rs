//! The DNS-leak probe, one request at a time.
//!
//! The probe has three phases in strict order: it obtains a session id,
//! triggers ten lookups of names that embed the id, and fetches the
//! verdict. The probe itself sends nothing: each stage gives the URL to
//! request and takes the outcome.

use vstd::prelude::*;
use vstd::string::*;
use crate::dns_leak::{annotated, enrich, DnsData, DnsDataView};
use crate::text::{decimal, to_decimal};

verus! {

/// The host of the leak-test service.
pub const API_URL: &'static str = "bash.ws";

/// The number of lookups the second phase triggers.
pub const FAN_OUT: u8 = 10;

/// Why a probe produced no verdict.
#[derive(Debug, Clone, Copy, PartialEq, Eq, Structural)]
pub enum ProbeError {
    /// The session id could not be obtained.
    SessionUnavailable,
    /// The verdict could not be fetched or read.
    VerdictUnavailable,
}

/// The URL that issues a session id.
pub open spec fn session_url(service: Seq<char>) -> Seq<char> {
    "https://"@ + service + "/id"@
}

/// The URL of the `index`-th lookup of a session: a subdomain of the
/// service that embeds the index and the session id.
pub open spec fn probe_url(index: nat, id: Seq<char>, service: Seq<char>) -> Seq<char> {
    "https://"@ + decimal(index) + "."@ + id + "."@ + service
}

/// The URL of a session's verdict.
pub open spec fn verdict_url(service: Seq<char>, id: Seq<char>) -> Seq<char> {
    "https://"@ + service + "/dnsleak/test/"@ + id + "?json"@
}

/// A probe that waits for its session id.
#[derive(Debug)]
pub struct AwaitingSession {
    service: String,
}

impl View for AwaitingSession {
    type V = Seq<char>;

    closed spec fn view(&self) -> Seq<char> {
        self.service@
    }
}

/// A probe in its second phase, about to trigger one more lookup.
#[derive(Debug)]
pub struct FanOut {
    service: String,
    id: String,
    sent: u8,
}

/// A `FanOut` as plain values; `sent` lookups have been triggered.
pub ghost struct FanOutView {
    pub service: Seq<char>,
    pub id: Seq<char>,
    pub sent: nat,
}

impl View for FanOut {
    type V = FanOutView;

    closed spec fn view(&self) -> FanOutView {
        FanOutView { service: self.service@, id: self.id@, sent: self.sent as nat }
    }
}

/// A probe that waits for the verdict.
#[derive(Debug)]
pub struct AwaitingVerdict {
    service: String,
    id: String,
}

/// An `AwaitingVerdict` as plain text.
pub ghost struct AwaitingVerdictView {
    pub service: Seq<char>,
    pub id: Seq<char>,
}

impl View for AwaitingVerdict {
    type V = AwaitingVerdictView;

    closed spec fn view(&self) -> AwaitingVerdictView {
        AwaitingVerdictView { service: self.service@, id: self.id@ }
    }
}

/// Where a probe stands after a lookup was triggered.
#[derive(Debug)]
pub enum FanOutStep {
    Probe(FanOut),
    Verdict(AwaitingVerdict),
}

/// A `FanOutStep` as plain values.
pub ghost enum FanOutStepView {
    Probe(FanOutView),
    Verdict(AwaitingVerdictView),
}

impl View for FanOutStep {
    type V = FanOutStepView;

    open spec fn view(&self) -> FanOutStepView {
        match self {
            FanOutStep::Probe(fan_out) => FanOutStepView::Probe(fan_out@),
            FanOutStep::Verdict(awaiting) => FanOutStepView::Verdict(awaiting@),
        }
    }
}

/// What follows a triggered lookup: the next lookup until ten are out,
/// then the verdict.
pub open spec fn after_lookup(f: FanOutView) -> FanOutStepView {
    if f.sent + 1 < FAN_OUT {
        FanOutStepView::Probe(FanOutView { sent: f.sent + 1, ..f })
    } else {
        FanOutStepView::Verdict(AwaitingVerdictView { service: f.service, id: f.id })
    }
}

/// What follows the session request: the first lookup, or
/// `SessionUnavailable` where no id came back.
pub open spec fn after_session(service: Seq<char>, body: Option<Seq<char>>) -> Result<
    FanOutView,
    ProbeError,
> {
    match body {
        Some(id) => Ok(FanOutView { service, id, sent: 0 }),
        None => Err(ProbeError::SessionUnavailable),
    }
}

/// What follows the verdict request: the records, each annotated, or
/// `VerdictUnavailable` where none could be read.
pub open spec fn after_verdict(records: Option<Seq<DnsDataView>>) -> Result<
    Seq<DnsDataView>,
    ProbeError,
> {
    match records {
        Some(raw) => Ok(raw.map_values(|r: DnsDataView| annotated(r))),
        None => Err(ProbeError::VerdictUnavailable),
    }
}

/// The outcome of `AwaitingSession::session` as plain values.
pub open spec fn fan_out_view(r: Result<FanOut, ProbeError>) -> Result<FanOutView, ProbeError> {
    match r {
        Ok(fan_out) => Ok(fan_out@),
        Err(e) => Err(e),
    }
}

/// The outcome of a probe as plain values.
pub open spec fn verdict_view(r: Result<Vec<DnsData>, ProbeError>) -> Result<
    Seq<DnsDataView>,
    ProbeError,
> {
    match r {
        Ok(records) => Ok(records.deep_view()),
        Err(e) => Err(e),
    }
}

impl AwaitingSession {
    /// Starts a probe against `service`.
    pub fn new(service: &str) -> (probe: Self)
        ensures
            probe@ == service@,
    {
        AwaitingSession { service: String::from_str(service) }
    }

    /// The URL to request now; its response body is the session id.
    pub fn request(&self) -> (url: String)
        ensures
            url@ == session_url(self@),
    {
        let mut url = String::from_str("https://");
        url.append(self.service.as_str());
        url.append("/id");
        url
    }

    /// Takes the response body, or `None` where the request failed. The
    /// body is the session id, as it came.
    pub fn session(self, body: Option<String>) -> (r: Result<FanOut, ProbeError>)
        ensures
            fan_out_view(r) == after_session(self@, body.deep_view()),
    {
        match body {
            Some(id) => Ok(FanOut { service: self.service, id, sent: 0 }),
            None => Err(ProbeError::SessionUnavailable),
        }
    }
}

impl FanOut {
    #[verifier::type_invariant]
    spec fn well_formed(self) -> bool {
        self.sent < FAN_OUT
    }

    /// The URL to request now; whatever comes of the request is of no
    /// interest.
    pub fn request(&self) -> (url: String)
        ensures
            self@.sent < FAN_OUT,
            url@ == probe_url(self@.sent, self@.id, self@.service),
    {
        proof {
            use_type_invariant(self);
        }
        let mut url = String::from_str("https://");
        url.append(to_decimal(self.sent as u64).as_str());
        url.append(".");
        url.append(self.id.as_str());
        url.append(".");
        url.append(self.service.as_str());
        url
    }

    /// Records that the request was made, with whatever outcome.
    pub fn probed(self) -> (step: FanOutStep)
        ensures
            self@.sent < FAN_OUT,
            step@ == after_lookup(self@),
    {
        proof {
            use_type_invariant(&self);
        }
        if self.sent + 1 < FAN_OUT {
            FanOutStep::Probe(FanOut { service: self.service, id: self.id, sent: self.sent + 1 })
        } else {
            FanOutStep::Verdict(AwaitingVerdict { service: self.service, id: self.id })
        }
    }
}

impl AwaitingVerdict {
    /// The URL to request now; its response is the verdict, in JSON.
    pub fn request(&self) -> (url: String)
        ensures
            url@ == verdict_url(self@.service, self@.id),
    {
        let mut url = String::from_str("https://");
        url.append(self.service.as_str());
        url.append("/dnsleak/test/");
        url.append(self.id.as_str());
        url.append("?json");
        url
    }

    /// Takes the records read from the response, or `None` where the
    /// request failed or the response could not be read, and ends the
    /// probe.
    pub fn verdict(self, records: Option<Vec<DnsData>>) -> (r: Result<Vec<DnsData>, ProbeError>)
        ensures
            verdict_view(r) == after_verdict(records.deep_view()),
    {
        match records {
            Some(raw) => Ok(enrich(&raw)),
            None => Err(ProbeError::VerdictUnavailable),
        }
    }
}

/// The stage a session reaches once `k` lookups were triggered.
pub open spec fn after_lookups(start: FanOutView, k: nat) -> FanOutStepView
    decreases k,
{
    if k == 0 {
        FanOutStepView::Probe(start)
    } else {
        match after_lookups(start, (k - 1) as nat) {
            FanOutStepView::Probe(f) => after_lookup(f),
            FanOutStepView::Verdict(v) => FanOutStepView::Verdict(v),
        }
    }
}

/// A session triggers exactly ten lookups, with the indices 0 to 9 in
/// order, before it asks for the verdict. After `k` lookups the `k`-th is
/// due while `k` is under ten, and the verdict is due at ten. What came of
/// the lookups plays no part.
pub proof fn lemma_fan_out_is_ten(service: Seq<char>, id: Seq<char>, k: nat)
    requires
        k <= FAN_OUT,
    ensures
        after_session(service, Some(id)) == Ok::<FanOutView, ProbeError>(
            FanOutView { service, id, sent: 0 },
        ),
        k < FAN_OUT ==> after_lookups(FanOutView { service, id, sent: 0 }, k)
            == FanOutStepView::Probe(FanOutView { service, id, sent: k }),
        k == FAN_OUT ==> after_lookups(FanOutView { service, id, sent: 0 }, k)
            == FanOutStepView::Verdict(AwaitingVerdictView { service, id }),
    decreases k,
{
    if k > 0 {
        lemma_fan_out_is_ten(service, id, (k - 1) as nat);
    }
}

/// What a whole probe comes to, given the body of the session response
/// and the records of the verdict response, each `None` where the request
/// failed.
pub open spec fn probe_outcome(
    body: Option<Seq<char>>,
    records: Option<Seq<DnsDataView>>,
) -> Result<Seq<DnsDataView>, ProbeError> {
    match body {
        None => Err(ProbeError::SessionUnavailable),
        Some(_) => after_verdict(records),
    }
}

/// The stages of a probe compose to `probe_outcome`: without a session id
/// the probe ends at once; with one, ten lookups lead to the verdict
/// request for that id, and the probe ends in what the verdict gives.
pub proof fn lemma_probe_outcome(
    service: Seq<char>,
    body: Option<Seq<char>>,
    records: Option<Seq<DnsDataView>>,
)
    ensures
        match after_session(service, body) {
            Err(e) => probe_outcome(body, records) == Err::<Seq<DnsDataView>, ProbeError>(e),
            Ok(start) => {
                &&& body == Some(start.id)
                &&& after_lookups(start, FAN_OUT as nat) == FanOutStepView::Verdict(
                    AwaitingVerdictView { service, id: start.id },
                )
                &&& probe_outcome(body, records) == after_verdict(records)
            },
        },
{
    if let Some(id) = body {
        lemma_fan_out_is_ten(service, id, FAN_OUT as nat);
    }
}

} // verus!
