//! The traceroute table: what the probing engine reports, and the rows
//! made of it.

use vstd::prelude::*;
use vstd::string::*;
use vstd::seq_lib::lemma_flatten_concat;
use crate::text::{decimal, join, joined, lemma_decimal_nonempty, to_decimal};

verus! {

/// How probes are carried.
#[derive(Debug, Clone, Copy, PartialEq, Eq, Structural)]
pub enum Transport {
    Icmp,
    Udp,
    Tcp,
}

/// Which of a probe's two ports stays fixed while the other varies.
#[derive(Debug, Clone, Copy, PartialEq, Eq, Structural)]
pub enum PortMode {
    FixedSource,
    FixedDestination,
}

/// The parameters of a probing run.
#[derive(Debug, Clone, Copy, PartialEq, Eq, Structural)]
pub struct TraceConfig {
    pub transport: Transport,
    pub port_mode: PortMode,
    pub port: u16,
    pub packet_size: u16,
    pub first_ttl: u8,
    pub max_ttl: u8,
    pub rounds: usize,
    pub max_flows: usize,
    pub min_round_millis: u64,
    pub max_round_millis: u64,
    pub tos: u8,
}

/// The fixed parameters every run uses: UDP probes to a fixed destination
/// port from 33434 on, 52-byte packets, TTL 1 to 64, three rounds of one
/// flow, 100 ms per round, type of service 0.
pub open spec fn standard_config() -> TraceConfig {
    TraceConfig {
        transport: Transport::Udp,
        port_mode: PortMode::FixedDestination,
        port: 33434,
        packet_size: 52,
        first_ttl: 1,
        max_ttl: 64,
        rounds: 3,
        max_flows: 1,
        min_round_millis: 100,
        max_round_millis: 100,
        tos: 0,
    }
}

impl Default for TraceConfig {
    fn default() -> (config: Self)
        ensures
            config == standard_config(),
    {
        TraceConfig {
            transport: Transport::Udp,
            port_mode: PortMode::FixedDestination,
            port: 33434,
            packet_size: 52,
            first_ttl: 1,
            max_ttl: 64,
            rounds: 3,
            max_flows: 1,
            min_round_millis: 100,
            max_round_millis: 100,
            tos: 0,
        }
    }
}

/// Why a traceroute produced no table.
#[derive(Debug, Clone, PartialEq)]
pub enum TraceError {
    /// The named host resolved to no address.
    UnknownHost(String),
    /// The engine's final snapshot carried this error.
    EngineFailure(String),
}

/// A `TraceError` as plain text.
pub ghost enum TraceErrorView {
    UnknownHost(Seq<char>),
    EngineFailure(Seq<char>),
}

impl View for TraceError {
    type V = TraceErrorView;

    open spec fn view(&self) -> TraceErrorView {
        match self {
            TraceError::UnknownHost(hostname) => TraceErrorView::UnknownHost(hostname@),
            TraceError::EngineFailure(detail) => TraceErrorView::EngineFailure(detail@),
        }
    }
}

/// The one-line diagnostic of an error.
pub open spec fn error_message(e: TraceErrorView) -> Seq<char> {
    match e {
        TraceErrorView::UnknownHost(hostname) => "traceroute: unknown host "@ + hostname,
        TraceErrorView::EngineFailure(detail) => "error: "@ + detail,
    }
}

impl TraceError {
    /// The one-line diagnostic shown to the user.
    pub fn message(&self) -> (text: String)
        ensures
            text@ == error_message(self@),
    {
        match self {
            TraceError::UnknownHost(hostname) => {
                let mut text = String::from_str("traceroute: unknown host ");
                text.append(hostname.as_str());
                text
            },
            TraceError::EngineFailure(detail) => {
                let mut text = String::from_str("error: ");
                text.append(detail.as_str());
                text
            },
        }
    }
}

/// One TTL of the engine's final snapshot: the addresses that answered, in
/// the engine's order, and the latency of each round as text.
#[derive(Debug, Clone, PartialEq)]
pub struct ProbedHop {
    pub ttl: u8,
    pub addresses: Vec<String>,
    pub samples: Vec<String>,
}

/// A `ProbedHop` as plain values.
pub ghost struct ProbedHopView {
    pub ttl: u8,
    pub addresses: Seq<Seq<char>>,
    pub samples: Seq<Seq<char>>,
}

impl View for ProbedHop {
    type V = ProbedHopView;

    open spec fn view(&self) -> ProbedHopView {
        ProbedHopView {
            ttl: self.ttl,
            addresses: self.addresses.deep_view(),
            samples: self.samples.deep_view(),
        }
    }
}

impl DeepView for ProbedHop {
    type V = ProbedHopView;

    open spec fn deep_view(&self) -> ProbedHopView {
        self@
    }
}

/// The engine's final state after all rounds.
#[derive(Debug, Clone, PartialEq)]
pub struct Snapshot {
    pub error: Option<String>,
    pub hops: Vec<ProbedHop>,
}

/// A `Snapshot` as plain values.
pub ghost struct SnapshotView {
    pub error: Option<Seq<char>>,
    pub hops: Seq<ProbedHopView>,
}

impl View for Snapshot {
    type V = SnapshotView;

    open spec fn view(&self) -> SnapshotView {
        SnapshotView { error: self.error.deep_view(), hops: self.hops.deep_view() }
    }
}

/// An address that answered, with the name reverse lookup gave for it.
#[derive(Debug, Clone, PartialEq)]
pub struct Responder {
    pub address: String,
    pub host: String,
}

/// A `Responder` as plain text.
pub ghost struct ResponderView {
    pub address: Seq<char>,
    pub host: Seq<char>,
}

impl View for Responder {
    type V = ResponderView;

    open spec fn view(&self) -> ResponderView {
        ResponderView { address: self.address@, host: self.host@ }
    }
}

impl DeepView for Responder {
    type V = ResponderView;

    open spec fn deep_view(&self) -> ResponderView {
        self@
    }
}

/// One TTL with every answering address named.
#[derive(Debug, Clone, PartialEq)]
pub struct NamedHop {
    pub ttl: u8,
    pub responders: Vec<Responder>,
    pub samples: Vec<String>,
}

/// A `NamedHop` as plain values.
pub ghost struct NamedHopView {
    pub ttl: u8,
    pub responders: Seq<ResponderView>,
    pub samples: Seq<Seq<char>>,
}

impl View for NamedHop {
    type V = NamedHopView;

    open spec fn view(&self) -> NamedHopView {
        NamedHopView {
            ttl: self.ttl,
            responders: self.responders.deep_view(),
            samples: self.samples.deep_view(),
        }
    }
}

impl DeepView for NamedHop {
    type V = NamedHopView;

    open spec fn deep_view(&self) -> NamedHopView {
        self@
    }
}

/// One row of the traceroute table.
#[derive(Debug, Clone, PartialEq)]
pub struct Hop {
    ttl: Option<String>,
    host: Option<String>,
    address: Option<String>,
    samples: String,
}

/// A `Hop` as plain values. `ttl` is present on the first row of a TTL
/// only; `host` and `address` are absent on the row of a silent TTL.
pub ghost struct HopView {
    pub ttl: Option<Seq<char>>,
    pub host: Option<Seq<char>>,
    pub address: Option<Seq<char>>,
    pub samples: Seq<char>,
}

impl View for Hop {
    type V = HopView;

    closed spec fn view(&self) -> HopView {
        HopView {
            ttl: self.ttl.deep_view(),
            host: self.host.deep_view(),
            address: self.address.deep_view(),
            samples: self.samples@,
        }
    }
}

impl DeepView for Hop {
    type V = HopView;

    open spec fn deep_view(&self) -> HopView {
        self@
    }
}

/// The text of an optional cell, or `blank` where it is absent.
pub open spec fn cell_text(cell: Option<Seq<char>>, blank: Seq<char>) -> Seq<char> {
    match cell {
        Some(text) => text,
        None => blank,
    }
}

fn cell_or(cell: &Option<String>, blank: &str) -> (text: String)
    ensures
        text@ == cell_text(cell.deep_view(), blank@),
{
    match cell {
        Some(text) => text.clone(),
        None => String::from_str(blank),
    }
}

impl Hop {
    /// The TTL cell: the TTL in decimal on the first row of a TTL, empty on
    /// the rows that continue it. Always `Some`.
    pub fn ttl(&self) -> (cell: Option<String>)
        ensures
            cell.deep_view() == Some(cell_text(self@.ttl, Seq::empty())),
    {
        proof {
            reveal_strlit("");
        }
        assert(""@ =~= Seq::<char>::empty());
        Some(cell_or(&self.ttl, ""))
    }

    /// The host cell: the reverse-lookup name, or `*` for a silent TTL.
    pub fn host(&self) -> (cell: String)
        ensures
            cell@ == cell_text(self@.host, seq!['*']),
    {
        proof {
            reveal_strlit("*");
        }
        assert("*"@ =~= seq!['*']);
        cell_or(&self.host, "*")
    }

    /// The address cell: the address, or `*` for a silent TTL.
    pub fn address(&self) -> (cell: String)
        ensures
            cell@ == cell_text(self@.address, seq!['*']),
    {
        proof {
            reveal_strlit("*");
        }
        assert("*"@ =~= seq!['*']);
        cell_or(&self.address, "*")
    }

    /// The samples cell: the latencies of the rounds, two spaces apart.
    pub fn samples(&self) -> (cell: String)
        ensures
            cell@ == self@.samples,
    {
        self.samples.clone()
    }
}

/// The rows of one TTL: one row for each answering address, in the
/// engine's order, the first of them carrying the TTL; for a silent TTL a
/// single row with the TTL and neither host nor address. Every row repeats
/// the samples of the TTL, two spaces apart.
pub open spec fn rows_of(hop: NamedHopView) -> Seq<HopView> {
    let ttl = decimal(hop.ttl as nat);
    let samples = joined(hop.samples, seq![' ', ' ']);
    if hop.responders.len() == 0 {
        seq![HopView { ttl: Some(ttl), host: None, address: None, samples }]
    } else {
        Seq::new(
            hop.responders.len(),
            |i: int|
                HopView {
                    ttl: if i == 0 {
                        Some(ttl)
                    } else {
                        None
                    },
                    host: Some(hop.responders[i].host),
                    address: Some(hop.responders[i].address),
                    samples,
                },
        )
    }
}

/// The number of rows a TTL gives: one for each answering address, and one
/// for a silent TTL.
pub open spec fn row_count(hop: NamedHopView) -> nat {
    if hop.responders.len() == 0 {
        1
    } else {
        hop.responders.len()
    }
}

/// The whole table: the rows of each TTL, in the order of the snapshot.
pub open spec fn table_rows(hops: Seq<NamedHopView>) -> Seq<HopView> {
    hops.map_values(|hop: NamedHopView| rows_of(hop)).flatten()
}

/// The fixed-format description of a run.
pub open spec fn summary_text(
    hostname: Seq<char>,
    target: Seq<char>,
    max_ttl: nat,
    packet_size: nat,
) -> Seq<char> {
    "Traceroute to "@ + hostname + " ("@ + target + "), "@ + decimal(max_ttl) + " hops max, "@
        + decimal(packet_size) + " byte packets"@
}

/// The warning given when a host has more than one address.
pub open spec fn warning_text(hostname: Seq<char>, address: Seq<char>) -> Seq<char> {
    "traceroute: Warning: "@ + hostname + " has multiple addresses; using "@ + address
}

/// Joins the latencies of a TTL's rounds with two spaces.
pub fn format_samples(samples: &Vec<String>) -> (text: String)
    ensures
        text@ == joined(samples.deep_view(), seq![' ', ' ']),
{
    proof {
        reveal_strlit("  ");
    }
    assert("  "@ =~= seq![' ', ' ']);
    join(samples, "  ")
}

/// Makes the rows of one TTL.
pub fn hop_rows(hop: &NamedHop) -> (rows: Vec<Hop>)
    ensures
        rows.deep_view() == rows_of(hop@),
        rows.len() == row_count(hop@),
        rows[0]@.ttl == Some(decimal(hop.ttl as nat)),
        forall|i: int| 0 < i < rows.len() ==> (#[trigger] rows[i])@.ttl is None,
{
    proof {
        lemma_rows_of_ttl(hop@);
    }
    let ttl = to_decimal(hop.ttl as u64);
    let samples = format_samples(&hop.samples);
    let mut rows: Vec<Hop> = Vec::new();
    if hop.responders.len() == 0 {
        rows.push(Hop { ttl: Some(ttl), host: None, address: None, samples });
        assert(rows.deep_view() =~= rows_of(hop@));
        return rows;
    }
    let mut i: usize = 0;
    while i < hop.responders.len()
        invariant
            i <= hop.responders.len(),
            hop.responders.len() > 0,
            ttl@ == decimal(hop.ttl as nat),
            samples@ == joined(hop@.samples, seq![' ', ' ']),
            rows.len() == i,
            forall|j: int| 0 <= j < i ==> (#[trigger] rows[j])@ == rows_of(hop@)[j],
        decreases hop.responders.len() - i,
    {
        let responder = &hop.responders[i];
        let row = Hop {
            ttl: if i == 0 {
                Some(ttl.clone())
            } else {
                None
            },
            host: Some(responder.host.clone()),
            address: Some(responder.address.clone()),
            samples: samples.clone(),
        };
        rows.push(row);
        i += 1;
    }
    assert(rows.deep_view() =~= rows_of(hop@));
    rows
}

/// Reconciles a named snapshot into the table: for each TTL in the order
/// given, its rows.
pub fn reconcile(hops: &Vec<NamedHop>) -> (rows: Vec<Hop>)
    ensures
        rows.deep_view() == table_rows(hops.deep_view()),
{
    let mut rows: Vec<Hop> = Vec::new();
    let mut i: usize = 0;
    assert(hops.deep_view().take(0).map_values(|hop: NamedHopView| rows_of(hop)) =~= Seq::<
        Seq<HopView>,
    >::empty());
    while i < hops.len()
        invariant
            i <= hops.len(),
            rows.deep_view() == table_rows(hops.deep_view().take(i as int)),
        decreases hops.len() - i,
    {
        let mut group = hop_rows(&hops[i]);
        let ghost before = rows.deep_view();
        let ghost added = group.deep_view();
        rows.append(&mut group);
        proof {
            let each = |hop: NamedHopView| rows_of(hop);
            let done = hops.deep_view().take(i as int);
            let next = hops.deep_view().take(i + 1);
            assert(next.map_values(each) =~= done.map_values(each).push(rows_of(hops[i as int]@)));
            done.map_values(each).lemma_flatten_push(rows_of(hops[i as int]@));
            assert(rows.deep_view() =~= before + added);
        }
        i += 1;
    }
    assert(hops.deep_view().take(i as int) =~= hops.deep_view());
    rows
}

/// Writes the summary line of a run.
pub fn summarize(hostname: &str, target: &str, config: &TraceConfig) -> (text: String)
    ensures
        text@ == summary_text(
            hostname@,
            target@,
            config.max_ttl as nat,
            config.packet_size as nat,
        ),
{
    let mut text = String::from_str("Traceroute to ");
    text.append(hostname);
    text.append(" (");
    text.append(target);
    text.append("), ");
    text.append(to_decimal(config.max_ttl as u64).as_str());
    text.append(" hops max, ");
    text.append(to_decimal(config.packet_size as u64).as_str());
    text.append(" byte packets");
    text
}

/// The address a run probes, and the warning to show with it, if any.
#[derive(Debug, Clone, PartialEq)]
pub struct Target {
    pub address: String,
    pub warning: Option<String>,
}

/// A `Target` as plain text.
pub ghost struct TargetView {
    pub address: Seq<char>,
    pub warning: Option<Seq<char>>,
}

impl View for Target {
    type V = TargetView;

    open spec fn view(&self) -> TargetView {
        TargetView { address: self.address@, warning: self.warning.deep_view() }
    }
}

/// What resolving `hostname` to `addresses` leads to: the first address,
/// with a warning where there are several, or `UnknownHost` where there is
/// none.
pub open spec fn selection(hostname: Seq<char>, addresses: Seq<Seq<char>>) -> Result<
    TargetView,
    TraceErrorView,
> {
    if addresses.len() == 0 {
        Err(TraceErrorView::UnknownHost(hostname))
    } else {
        Ok(
            TargetView {
                address: addresses[0],
                warning: if addresses.len() > 1 {
                    Some(warning_text(hostname, addresses[0]))
                } else {
                    None
                },
            },
        )
    }
}

/// A `Result` of a selection as plain values.
pub open spec fn selection_view(r: Result<Target, TraceError>) -> Result<
    TargetView,
    TraceErrorView,
> {
    match r {
        Ok(target) => Ok(target@),
        Err(e) => Err(e@),
    }
}

/// Picks the address to probe among those a host resolved to, in the
/// resolver's order.
pub fn select_target(hostname: &str, addresses: &Vec<String>) -> (r: Result<Target, TraceError>)
    ensures
        selection_view(r) == selection(hostname@, addresses.deep_view()),
{
    if addresses.len() == 0 {
        return Err(TraceError::UnknownHost(String::from_str(hostname)));
    }
    let address = addresses[0].clone();
    let warning = if addresses.len() > 1 {
        let mut text = String::from_str("traceroute: Warning: ");
        text.append(hostname);
        text.append(" has multiple addresses; using ");
        text.append(address.as_str());
        Some(text)
    } else {
        None
    };
    Ok(Target { address, warning })
}

/// The outcome of a traceroute run.
#[derive(Debug, Clone, PartialEq)]
pub struct TraceData {
    summary: String,
    hops: Vec<Hop>,
}

/// A `TraceData` as plain values.
pub ghost struct TraceDataView {
    pub summary: Seq<char>,
    pub hops: Seq<HopView>,
}

impl View for TraceData {
    type V = TraceDataView;

    closed spec fn view(&self) -> TraceDataView {
        TraceDataView { summary: self.summary@, hops: self.hops.deep_view() }
    }
}

/// The outcome of a run to `target` whose engine reported `hops`.
pub open spec fn trace_result(
    hostname: Seq<char>,
    target: Seq<char>,
    config: TraceConfig,
    hops: Seq<NamedHopView>,
) -> TraceDataView {
    TraceDataView {
        summary: summary_text(hostname, target, config.max_ttl as nat, config.packet_size as nat),
        hops: table_rows(hops),
    }
}

impl TraceData {
    /// Reconciles the named snapshot of a run and summarizes the run.
    pub fn assemble(
        hostname: &str,
        target: &str,
        config: &TraceConfig,
        hops: &Vec<NamedHop>,
    ) -> (data: Self)
        ensures
            data@ == trace_result(hostname@, target@, *config, hops.deep_view()),
    {
        TraceData { summary: summarize(hostname, target, config), hops: reconcile(hops) }
    }

    /// The summary line.
    pub fn summary(&self) -> (text: &str)
        ensures
            text@ == self@.summary,
    {
        self.summary.as_str()
    }

    /// The `i`-th row of the table, as the value that `hops` hands to its
    /// callback and `rows` holds at `i`.
    pub closed spec fn row_at(&self, i: int) -> Hop {
        self.hops[i]
    }

    /// The `i`-th row shows what the table's view holds at `i`.
    pub proof fn lemma_row_at(&self, i: int)
        requires
            0 <= i < self@.hops.len(),
        ensures
            self.row_at(i)@ == self@.hops[i],
    {
    }

    /// The rows of the table, in order.
    pub fn rows(&self) -> (rows: &Vec<Hop>)
        ensures
            rows.deep_view() == self@.hops,
            forall|i: int| 0 <= i < rows.len() ==> #[trigger] rows[i] == self.row_at(i),
    {
        &self.hops
    }

    /// Calls `f` on each row of the table, first to last. `f` need only
    /// accept the rows of this table, and what it promises of a call then
    /// holds of every row.
    pub fn hops<F>(&self, f: F) where F: FnMut(&Hop)
        requires
            forall|i: int|
                0 <= i < self@.hops.len() ==> call_requires(f, (&#[trigger] self.row_at(i),)),
        ensures
            forall|i: int|
                0 <= i < self@.hops.len() ==> call_ensures(f, (&#[trigger] self.row_at(i),), ()),
    {
        let mut g = f;
        let mut i: usize = 0;
        while i < self.hops.len()
            invariant
                i <= self.hops.len(),
                self.hops.len() == self@.hops.len(),
                g == f,
                forall|j: int|
                    0 <= j < self.hops.len() ==> call_requires(f, (&#[trigger] self.row_at(j),)),
                forall|j: int|
                    0 <= j < i ==> call_ensures(f, (&#[trigger] self.row_at(j),), ()),
            decreases self.hops.len() - i,
        {
            assert(self.hops[i as int] == self.row_at(i as int));
            g(&self.hops[i]);
            i += 1;
        }
    }
}

/// The number of rows that the TTLs before the `j`-th give.
pub open spec fn rows_before(hops: Seq<NamedHopView>, j: int) -> nat {
    table_rows(hops.take(j)).len()
}

/// A TTL with `k` answering addresses gives `max(k, 1)` rows. The first of
/// them carries the TTL, which is not blank, and no other row does.
pub proof fn lemma_rows_of_ttl(hop: NamedHopView)
    ensures
        rows_of(hop).len() == row_count(hop),
        rows_of(hop)[0].ttl == Some(decimal(hop.ttl as nat)),
        decimal(hop.ttl as nat).len() > 0,
        forall|i: int| 0 < i < rows_of(hop).len() ==> (#[trigger] rows_of(hop)[i]).ttl is None,
{
    lemma_decimal_nonempty(hop.ttl as nat);
}

/// In the table of a snapshot the rows of the `j`-th TTL stand together,
/// after the rows of the TTLs before it, and are exactly `rows_of` that
/// TTL: no TTL is dropped, and none gives more or fewer rows than
/// `row_count` says.
pub proof fn lemma_table_groups(hops: Seq<NamedHopView>, j: int)
    requires
        0 <= j < hops.len(),
    ensures
        rows_before(hops, j + 1) == rows_before(hops, j) + row_count(hops[j]),
        rows_before(hops, j + 1) <= table_rows(hops).len(),
        table_rows(hops).subrange(rows_before(hops, j) as int, rows_before(hops, j + 1) as int)
            == rows_of(hops[j]),
{
    let each = |hop: NamedHopView| rows_of(hop);
    let head = hops.take(j);
    let upto = hops.take(j + 1);
    let rest = hops.skip(j + 1);
    lemma_rows_of_ttl(hops[j]);
    assert(upto.map_values(each) =~= head.map_values(each).push(rows_of(hops[j])));
    head.map_values(each).lemma_flatten_push(rows_of(hops[j]));
    assert(table_rows(upto) == table_rows(head) + rows_of(hops[j]));
    assert(hops.map_values(each) =~= upto.map_values(each) + rest.map_values(each));
    lemma_flatten_concat(upto.map_values(each), rest.map_values(each));
    assert(table_rows(hops) == table_rows(upto) + table_rows(rest));
    assert(table_rows(hops).subrange(rows_before(hops, j) as int, rows_before(hops, j + 1) as int)
        =~= rows_of(hops[j]));
}

/// The table has one group of rows for each TTL: its length is the sum of
/// the row counts.
pub proof fn lemma_table_len(hops: Seq<NamedHopView>)
    ensures
        rows_before(hops, 0) == 0,
        rows_before(hops, hops.len() as int) == table_rows(hops).len(),
{
    assert(hops.take(0).map_values(|hop: NamedHopView| rows_of(hop)) =~= Seq::<
        Seq<HopView>,
    >::empty());
    assert(hops.take(hops.len() as int) =~= hops);
}

/// Reconciling keeps no state: two tables made of the same named snapshot
/// are the same, row by row.
pub proof fn lemma_reconcile_repeatable(
    hops: Seq<NamedHopView>,
    first: Seq<HopView>,
    second: Seq<HopView>,
)
    requires
        first == table_rows(hops),
        second == table_rows(hops),
    ensures
        first == second,
{
}

} // verus!
