//! A traceroute run, one decision at a time.
//!
//! The run itself sends nothing. Each stage says what the driver must do
//! next (look the host up, probe the target, look an address up) and takes
//! the outcome, which leads to the next stage or ends the run.

use vstd::prelude::*;
use vstd::string::*;
use crate::trace::{
    lemma_table_groups, rows_before, rows_of, select_target, selection, standard_config,
    table_rows, trace_result, NamedHop, NamedHopView, ProbedHop, ProbedHopView, Responder,
    ResponderView, Snapshot, SnapshotView, Target, TargetView, TraceConfig, TraceData,
    TraceDataView, TraceError, TraceErrorView,
};

verus! {

/// Every answering address of a snapshot, TTL by TTL, in the engine's
/// order.
pub open spec fn flat_addresses(hops: Seq<ProbedHopView>) -> Seq<Seq<char>> {
    hops.map_values(|hop: ProbedHopView| hop.addresses).flatten()
}

/// How many addresses the TTLs before the `j`-th hold.
pub open spec fn addresses_before(hops: Seq<ProbedHopView>, j: int) -> nat {
    flat_addresses(hops.take(j)).len()
}

/// The snapshot with each address paired with its name, where `names`
/// holds one name for each address of `flat_addresses(hops)`.
pub open spec fn named_hops(hops: Seq<ProbedHopView>, names: Seq<Seq<char>>) -> Seq<NamedHopView> {
    Seq::new(
        hops.len(),
        |j: int|
            NamedHopView {
                ttl: hops[j].ttl,
                responders: Seq::new(
                    hops[j].addresses.len(),
                    |i: int|
                        ResponderView {
                            address: hops[j].addresses[i],
                            host: names[addresses_before(hops, j) + i],
                        },
                ),
                samples: hops[j].samples,
            },
    )
}

/// The addresses of the first `j + 1` TTLs are those of the first `j`
/// followed by those of the `j`-th.
pub proof fn lemma_flat_addresses_step(hops: Seq<ProbedHopView>, j: int)
    requires
        0 <= j < hops.len(),
    ensures
        flat_addresses(hops.take(j + 1)) == flat_addresses(hops.take(j)) + hops[j].addresses,
        addresses_before(hops, j + 1) == addresses_before(hops, j) + hops[j].addresses.len(),
{
    let each = |hop: ProbedHopView| hop.addresses;
    assert(hops.take(j + 1).map_values(each) =~= hops.take(j).map_values(each).push(
        hops[j].addresses,
    ));
    hops.take(j).map_values(each).lemma_flatten_push(hops[j].addresses);
}

/// The addresses before the `j`-th TTL are among all addresses.
pub proof fn lemma_addresses_before_bound(hops: Seq<ProbedHopView>, j: int)
    requires
        0 <= j <= hops.len(),
    ensures
        addresses_before(hops, j) <= flat_addresses(hops).len(),
        j < hops.len() ==> addresses_before(hops, j) + hops[j].addresses.len() <= flat_addresses(
            hops,
        ).len(),
        addresses_before(hops, hops.len() as int) == flat_addresses(hops).len(),
    decreases hops.len() - j,
{
    assert(hops.take(hops.len() as int) =~= hops);
    if j < hops.len() {
        lemma_flat_addresses_step(hops, j);
        lemma_addresses_before_bound(hops, j + 1);
    }
}

fn collect_addresses(hops: &Vec<ProbedHop>) -> (all: Vec<String>)
    ensures
        all.deep_view() == flat_addresses(hops.deep_view()),
{
    let mut all: Vec<String> = Vec::new();
    let mut j: usize = 0;
    assert(hops.deep_view().take(0).map_values(|hop: ProbedHopView| hop.addresses) =~= Seq::<
        Seq<Seq<char>>,
    >::empty());
    while j < hops.len()
        invariant
            j <= hops.len(),
            all.deep_view() == flat_addresses(hops.deep_view().take(j as int)),
        decreases hops.len() - j,
    {
        let hop = &hops[j];
        let mut i: usize = 0;
        let ghost before = all.deep_view();
        while i < hop.addresses.len()
            invariant
                i <= hop.addresses.len(),
                all.deep_view() == before + hop@.addresses.take(i as int),
            decreases hop.addresses.len() - i,
        {
            let ghost prior = all.deep_view();
            let address = hop.addresses[i].clone();
            all.push(address);
            assert(all.deep_view() =~= prior.push(hop@.addresses[i as int]));
            assert(all.deep_view() =~= before + hop@.addresses.take(i + 1));
            i += 1;
        }
        proof {
            assert(hop@.addresses.take(i as int) =~= hop@.addresses);
            lemma_flat_addresses_step(hops.deep_view(), j as int);
        }
        j += 1;
    }
    assert(hops.deep_view().take(j as int) =~= hops.deep_view());
    all
}

fn attach_names(hops: &Vec<ProbedHop>, names: &Vec<String>) -> (named: Vec<NamedHop>)
    requires
        names.len() == flat_addresses(hops.deep_view()).len(),
    ensures
        named.deep_view() == named_hops(hops.deep_view(), names.deep_view()),
{
    let mut named: Vec<NamedHop> = Vec::new();
    let mut offset: usize = 0;
    let mut j: usize = 0;
    assert(hops.deep_view().take(0).map_values(|hop: ProbedHopView| hop.addresses) =~= Seq::<
        Seq<Seq<char>>,
    >::empty());
    while j < hops.len()
        invariant
            j <= hops.len(),
            names.len() == flat_addresses(hops.deep_view()).len(),
            offset == addresses_before(hops.deep_view(), j as int),
            named.len() == j,
            forall|k: int|
                0 <= k < j ==> (#[trigger] named[k])@ == named_hops(
                    hops.deep_view(),
                    names.deep_view(),
                )[k],
        decreases hops.len() - j,
    {
        let hop = &hops[j];
        proof {
            lemma_addresses_before_bound(hops.deep_view(), j as int);
            lemma_flat_addresses_step(hops.deep_view(), j as int);
        }
        let mut responders: Vec<Responder> = Vec::new();
        let mut i: usize = 0;
        while i < hop.addresses.len()
            invariant
                i <= hop.addresses.len(),
                offset + hop.addresses.len() <= names.len(),
                responders.len() == i,
                forall|k: int|
                    0 <= k < i ==> (#[trigger] responders[k])@ == (ResponderView {
                        address: hop@.addresses[k],
                        host: names.deep_view()[offset + k],
                    }),
            decreases hop.addresses.len() - i,
        {
            responders.push(
                Responder { address: hop.addresses[i].clone(), host: names[offset + i].clone() },
            );
            i += 1;
        }
        let mut samples: Vec<String> = Vec::new();
        let mut s: usize = 0;
        while s < hop.samples.len()
            invariant
                s <= hop.samples.len(),
                samples.deep_view() == hop@.samples.take(s as int),
            decreases hop.samples.len() - s,
        {
            let ghost prior = samples.deep_view();
            let sample = hop.samples[s].clone();
            samples.push(sample);
            assert(samples.deep_view() =~= prior.push(hop@.samples[s as int]));
            assert(samples.deep_view() =~= hop@.samples.take(s + 1));
            s += 1;
        }
        assert(hop@.samples.take(s as int) =~= hop@.samples);
        let entry = NamedHop { ttl: hop.ttl, responders, samples };
        assert(entry@.responders =~= named_hops(
            hops.deep_view(),
            names.deep_view(),
        )[j as int].responders);
        named.push(entry);
        offset = offset + hop.addresses.len();
        j += 1;
    }
    assert(named.deep_view() =~= named_hops(hops.deep_view(), names.deep_view()));
    named
}

/// A run that waits for the forward lookup of its host.
#[derive(Debug)]
pub struct Resolving {
    hostname: String,
}

impl View for Resolving {
    type V = Seq<char>;

    closed spec fn view(&self) -> Seq<char> {
        self.hostname@
    }
}

/// A run that waits for the engine to probe its target.
#[derive(Debug)]
pub struct Probing {
    hostname: String,
    target: Target,
}

/// A `Probing` as plain values.
pub ghost struct ProbingView {
    pub hostname: Seq<char>,
    pub target: TargetView,
}

impl View for Probing {
    type V = ProbingView;

    closed spec fn view(&self) -> ProbingView {
        ProbingView { hostname: self.hostname@, target: self.target@ }
    }
}

/// A run that waits for the name of one answering address.
#[derive(Debug)]
pub struct Naming {
    hostname: String,
    target: String,
    hops: Vec<ProbedHop>,
    pending: Vec<String>,
    names: Vec<String>,
}

/// A `Naming` as plain values: the snapshot being named and the names
/// received so far, one for each of its first addresses. The addresses
/// still to name are not part of it: they are `flat_addresses(hops)` from
/// `names.len()` on.
pub ghost struct NamingView {
    pub hostname: Seq<char>,
    pub target: Seq<char>,
    pub hops: Seq<ProbedHopView>,
    pub names: Seq<Seq<char>>,
}

impl View for Naming {
    type V = NamingView;

    closed spec fn view(&self) -> NamingView {
        NamingView {
            hostname: self.hostname@,
            target: self.target@,
            hops: self.hops.deep_view(),
            names: self.names.deep_view(),
        }
    }
}

/// Where a run stands once its snapshot is in: one more name is needed, or
/// the table is ready.
#[derive(Debug)]
pub enum NamingStep {
    Lookup(Naming),
    Done(TraceData),
}

/// A `NamingStep` as plain values.
pub ghost enum NamingStepView {
    Lookup(NamingView),
    Done(TraceDataView),
}

impl View for NamingStep {
    type V = NamingStepView;

    open spec fn view(&self) -> NamingStepView {
        match self {
            NamingStep::Lookup(naming) => NamingStepView::Lookup(naming@),
            NamingStep::Done(data) => NamingStepView::Done(data@),
        }
    }
}

/// What follows once `n.names` are in: the lookup of the next address while
/// one is unnamed, else the finished table, made with the standard
/// parameters.
pub open spec fn naming_step(n: NamingView) -> NamingStepView {
    if n.names.len() < flat_addresses(n.hops).len() {
        NamingStepView::Lookup(n)
    } else {
        NamingStepView::Done(
            trace_result(n.hostname, n.target, standard_config(), named_hops(n.hops, n.names)),
        )
    }
}

/// What follows the engine's snapshot: its error ends the run; otherwise
/// naming starts with no name received.
pub open spec fn after_probe(p: ProbingView, snapshot: SnapshotView) -> Result<
    NamingStepView,
    TraceErrorView,
> {
    match snapshot.error {
        Some(detail) => Err(TraceErrorView::EngineFailure(detail)),
        None => Ok(
            naming_step(
                NamingView {
                    hostname: p.hostname,
                    target: p.target.address,
                    hops: snapshot.hops,
                    names: Seq::empty(),
                },
            ),
        ),
    }
}

/// What follows the forward lookup: probing the selected address, or
/// `UnknownHost`.
pub open spec fn after_resolve(hostname: Seq<char>, addresses: Seq<Seq<char>>) -> Result<
    ProbingView,
    TraceErrorView,
> {
    match selection(hostname, addresses) {
        Ok(target) => Ok(ProbingView { hostname, target }),
        Err(e) => Err(e),
    }
}

/// The outcome of `Resolving::resolved` as plain values.
pub open spec fn probing_view(r: Result<Probing, TraceError>) -> Result<
    ProbingView,
    TraceErrorView,
> {
    match r {
        Ok(probing) => Ok(probing@),
        Err(e) => Err(e@),
    }
}

/// The outcome of `Probing::traced` as plain values.
pub open spec fn naming_view(r: Result<NamingStep, TraceError>) -> Result<
    NamingStepView,
    TraceErrorView,
> {
    match r {
        Ok(step) => Ok(step@),
        Err(e) => Err(e@),
    }
}

impl Resolving {
    /// Starts a run to `hostname`.
    pub fn new(hostname: &str) -> (run: Self)
        ensures
            run@ == hostname@,
    {
        Resolving { hostname: String::from_str(hostname) }
    }

    /// The host to look up.
    pub fn hostname(&self) -> (name: &str)
        ensures
            name@ == self@,
    {
        self.hostname.as_str()
    }

    /// Takes the addresses the host resolved to, in the resolver's order.
    /// With none the run ends in `UnknownHost`: no `Probing` stage comes
    /// of it, so nothing is probed. Otherwise the first is probed,
    /// whatever the others are.
    pub fn resolved(self, addresses: &Vec<String>) -> (r: Result<Probing, TraceError>)
        ensures
            probing_view(r) == after_resolve(self@, addresses.deep_view()),
            r is Err <==> addresses.len() == 0,
            r matches Ok(probing) ==> probing@.target.address == addresses[0]@,
            r matches Err(e) ==> e@ == TraceErrorView::UnknownHost(self@),
    {
        match select_target(self.hostname.as_str(), addresses) {
            Ok(target) => Ok(Probing { hostname: self.hostname, target }),
            Err(e) => Err(e),
        }
    }

    /// Takes the failure of the lookup: the run ends in `UnknownHost`.
    pub fn unresolved(self) -> (e: TraceError)
        ensures
            e@ == TraceErrorView::UnknownHost(self@),
    {
        TraceError::UnknownHost(self.hostname)
    }
}

impl Probing {
    /// The address to probe.
    pub fn target(&self) -> (address: &str)
        ensures
            address@ == self@.target.address,
    {
        self.target.address.as_str()
    }

    /// The warning to show before probing, where the host had several
    /// addresses.
    pub fn warning(&self) -> (text: Option<String>)
        ensures
            text.deep_view() == self@.target.warning,
    {
        match &self.target.warning {
            Some(text) => Some(text.clone()),
            None => None,
        }
    }

    /// The parameters to probe with: always the standard ones.
    pub fn config(&self) -> (config: TraceConfig)
        ensures
            config == standard_config(),
    {
        TraceConfig::default()
    }

    /// Takes the engine's final snapshot. Its error, if it carries one,
    /// ends the run in `EngineFailure` with that text and without a table.
    pub fn traced(self, snapshot: Snapshot) -> (r: Result<NamingStep, TraceError>)
        ensures
            naming_view(r) == after_probe(self@, snapshot@),
            r is Err <==> snapshot@.error is Some,
    {
        match snapshot.error {
            Some(detail) => Err(TraceError::EngineFailure(detail)),
            None => {
                let pending = collect_addresses(&snapshot.hops);
                let names: Vec<String> = Vec::new();
                assert(names.deep_view() =~= Seq::<Seq<char>>::empty());
                Ok(settle(self.hostname, self.target.address, snapshot.hops, pending, names))
            },
        }
    }
}

fn settle(
    hostname: String,
    target: String,
    hops: Vec<ProbedHop>,
    pending: Vec<String>,
    names: Vec<String>,
) -> (step: NamingStep)
    requires
        pending.deep_view() == flat_addresses(hops.deep_view()),
        names.len() <= pending.len(),
    ensures
        step@ == naming_step(
            NamingView {
                hostname: hostname@,
                target: target@,
                hops: hops.deep_view(),
                names: names.deep_view(),
            },
        ),
{
    if names.len() < pending.len() {
        NamingStep::Lookup(Naming { hostname, target, hops, pending, names })
    } else {
        let named = attach_names(&hops, &names);
        let config = TraceConfig::default();
        NamingStep::Done(TraceData::assemble(hostname.as_str(), target.as_str(), &config, &named))
    }
}

impl Naming {
    #[verifier::type_invariant]
    spec fn well_formed(self) -> bool {
        &&& self.pending.deep_view() == flat_addresses(self.hops.deep_view())
        &&& self.names.len() < self.pending.len()
    }

    /// The address to look up now: the first one without a name.
    pub fn address(&self) -> (address: &str)
        ensures
            self@.names.len() < flat_addresses(self@.hops).len(),
            address@ == flat_addresses(self@.hops)[self@.names.len() as int],
    {
        proof {
            use_type_invariant(self);
        }
        self.pending[self.names.len()].as_str()
    }

    /// Takes the name found for `address()`.
    pub fn named(self, host: String) -> (step: NamingStep)
        ensures
            step@ == naming_step(NamingView { names: self@.names.push(host@), ..self@ }),
    {
        proof {
            use_type_invariant(&self);
        }
        let Naming { hostname, target, hops, pending, names } = self;
        let mut names = names;
        let ghost prior = names.deep_view();
        names.push(host);
        assert(names.deep_view() =~= prior.push(host@));
        settle(hostname, target, hops, pending, names)
    }
}

/// In the finished table every answering address has its own row, which
/// shows the address and the name that was given for it; the rows of a TTL
/// follow the engine's order of its addresses, and only the first of them
/// carries the TTL.
pub proof fn lemma_named_rows(hops: Seq<ProbedHopView>, names: Seq<Seq<char>>, j: int, i: int)
    requires
        0 <= j < hops.len(),
        0 <= i < hops[j].addresses.len(),
    ensures
        ({
            let named = named_hops(hops, names);
            let table = table_rows(named);
            let row = rows_before(named, j) + i;
            &&& row < table.len()
            &&& table[row].address == Some(hops[j].addresses[i])
            &&& table[row].host == Some(names[addresses_before(hops, j) + i])
            &&& table[row].ttl is Some <==> i == 0
        }),
{
    let named = named_hops(hops, names);
    lemma_table_groups(named, j);
    let low = rows_before(named, j) as int;
    let high = rows_before(named, j + 1) as int;
    assert(table_rows(named).subrange(low, high)[i] == rows_of(named[j])[i]);
}

/// A silent TTL keeps its place in the finished table, as one row with
/// the TTL and neither host nor address.
pub proof fn lemma_silent_row(hops: Seq<ProbedHopView>, names: Seq<Seq<char>>, j: int)
    requires
        0 <= j < hops.len(),
        hops[j].addresses.len() == 0,
    ensures
        ({
            let named = named_hops(hops, names);
            let table = table_rows(named);
            let row = rows_before(named, j) as int;
            &&& row < table.len()
            &&& rows_before(named, j + 1) == row + 1
            &&& table[row].ttl is Some
            &&& table[row].host is None
            &&& table[row].address is None
        }),
{
    let named = named_hops(hops, names);
    lemma_table_groups(named, j);
    let low = rows_before(named, j) as int;
    let high = rows_before(named, j + 1) as int;
    assert(table_rows(named).subrange(low, high)[0] == rows_of(named[j])[0]);
}

/// The stage a run reaches from `step` once the names `more` have come
/// in, one for each lookup it asked for.
pub open spec fn after_names(step: NamingStepView, more: Seq<Seq<char>>) -> NamingStepView
    decreases more.len(),
{
    if more.len() == 0 {
        step
    } else {
        match step {
            NamingStepView::Lookup(n) => after_names(
                naming_step(NamingView { names: n.names.push(more.first()), ..n }),
                more.drop_first(),
            ),
            NamingStepView::Done(data) => NamingStepView::Done(data),
        }
    }
}

/// What a whole run comes to, given the addresses the host resolved to,
/// the engine's snapshot and the name found for each answering address.
pub open spec fn run_outcome(
    hostname: Seq<char>,
    addresses: Seq<Seq<char>>,
    snapshot: SnapshotView,
    names: Seq<Seq<char>>,
) -> Result<TraceDataView, TraceErrorView> {
    if addresses.len() == 0 {
        Err(TraceErrorView::UnknownHost(hostname))
    } else {
        match snapshot.error {
            Some(detail) => Err(TraceErrorView::EngineFailure(detail)),
            None => Ok(
                trace_result(
                    hostname,
                    addresses[0],
                    standard_config(),
                    named_hops(snapshot.hops, names),
                ),
            ),
        }
    }
}

/// Naming goes on until every address has its name, and then ends in the
/// table of the snapshot with those names.
pub proof fn lemma_naming_completes(n: NamingView, more: Seq<Seq<char>>)
    requires
        n.names.len() + more.len() == flat_addresses(n.hops).len(),
    ensures
        after_names(naming_step(n), more) == NamingStepView::Done(
            trace_result(
                n.hostname,
                n.target,
                standard_config(),
                named_hops(n.hops, n.names + more),
            ),
        ),
    decreases more.len(),
{
    if more.len() == 0 {
        assert(n.names + more =~= n.names);
    } else {
        let next = NamingView { names: n.names.push(more.first()), ..n };
        assert(next.names + more.drop_first() =~= n.names + more);
        lemma_naming_completes(next, more.drop_first());
    }
}

/// The stages of a run compose to `run_outcome`: a host without address
/// ends the run at the lookup, an engine error ends it at the snapshot,
/// and otherwise the run ends, after one lookup for each answering
/// address, in the table of the snapshot.
pub proof fn lemma_run_outcome(
    hostname: Seq<char>,
    addresses: Seq<Seq<char>>,
    snapshot: SnapshotView,
    names: Seq<Seq<char>>,
)
    requires
        names.len() == flat_addresses(snapshot.hops).len(),
    ensures
        match after_resolve(hostname, addresses) {
            Err(e) => run_outcome(hostname, addresses, snapshot, names) == Err::<
                TraceDataView,
                TraceErrorView,
            >(e),
            Ok(probing) => match after_probe(probing, snapshot) {
                Err(e) => run_outcome(hostname, addresses, snapshot, names) == Err::<
                    TraceDataView,
                    TraceErrorView,
                >(e),
                Ok(step) => match after_names(step, names) {
                    NamingStepView::Done(data) => run_outcome(hostname, addresses, snapshot, names)
                        == Ok::<TraceDataView, TraceErrorView>(data),
                    NamingStepView::Lookup(_) => false,
                },
            },
        },
{
    if addresses.len() > 0 && snapshot.error is None {
        let start = NamingView {
            hostname,
            target: addresses[0],
            hops: snapshot.hops,
            names: Seq::empty(),
        };
        lemma_naming_completes(start, names);
        assert(start.names + names =~= names);
    }
}

} // verus!
