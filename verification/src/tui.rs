//! What the screen shows and what a key does, as plain values: the cells
//! of the two tables, the line about the user's own address, and the
//! command a key stands for. Drawing and reading keys are the driver's.

use vstd::prelude::*;
use vstd::string::*;
use crate::dns_leak::{DnsData, DnsDataView};
use crate::trace::{cell_text, Hop, HopView, TraceData};

verus! {

/// Whether the record at `i` is the first of `kind`.
pub open spec fn is_first_of_kind(data: Seq<DnsDataView>, kind: Seq<char>, i: int) -> bool {
    &&& 0 <= i < data.len()
    &&& data[i].type_field == kind
    &&& forall|j: int| 0 <= j < i ==> (#[trigger] data[j]).type_field != kind
}

/// Whether no record is of `kind`.
pub open spec fn lacks_kind(data: Seq<DnsDataView>, kind: Seq<char>) -> bool {
    forall|j: int| 0 <= j < data.len() ==> (#[trigger] data[j]).type_field != kind
}

/// The cells of the line about the user's own address: the address, the
/// country display and the AS, with the punctuation between them.
pub open spec fn address_cells(r: DnsDataView) -> Seq<Seq<char>> {
    seq![r.ip, " ["@, r.country_name, ", "@, r.asn, "]"@]
}

/// The cells of a row of the leak table.
pub open spec fn dns_cells(r: DnsDataView) -> Seq<Seq<char>> {
    seq![r.ip, r.country_name, r.asn]
}

/// The rows of the leak table: the records of kind `dns`, in order.
pub open spec fn dns_table(data: Seq<DnsDataView>) -> Seq<Seq<Seq<char>>> {
    data.filter(|r: DnsDataView| r.type_field == "dns"@).map_values(|r: DnsDataView| dns_cells(r))
}

/// The cells of a row of the traceroute table; an absent TTL is shown
/// empty, an absent host or address as `*`.
pub open spec fn hop_cells(hop: HopView) -> Seq<Seq<char>> {
    seq![
        cell_text(hop.ttl, Seq::empty()),
        cell_text(hop.host, seq!['*']),
        cell_text(hop.address, seq!['*']),
        hop.samples,
    ]
}

/// The title of the traceroute table.
pub open spec fn title_text(summary: Seq<char>) -> Seq<char> {
    "| "@ + summary + " |"@
}

fn has_kind(record: &DnsData, kind: &String) -> (b: bool)
    ensures
        b == (record@.type_field == kind@),
{
    record.type_field == *kind
}

/// Finds the first record whose kind is `kind`.
pub fn find_kind(data: &Vec<DnsData>, kind: &str) -> (found: Option<usize>)
    ensures
        match found {
            Some(i) => is_first_of_kind(data.deep_view(), kind@, i as int),
            None => lacks_kind(data.deep_view(), kind@),
        },
{
    let wanted = String::from_str(kind);
    let mut i: usize = 0;
    while i < data.len()
        invariant
            i <= data.len(),
            wanted@ == kind@,
            forall|j: int| 0 <= j < i ==> (#[trigger] data.deep_view()[j]).type_field != kind@,
        decreases data.len() - i,
    {
        if has_kind(&data[i], &wanted) {
            return Some(i);
        }
        i += 1;
    }
    None
}

/// At most one record is the first of its kind, and none is where the
/// kind is lacking.
pub proof fn lemma_first_of_kind_unique(data: Seq<DnsDataView>, kind: Seq<char>, i: int, j: int)
    requires
        is_first_of_kind(data, kind, i),
    ensures
        is_first_of_kind(data, kind, j) ==> i == j,
        !lacks_kind(data, kind),
{
    if is_first_of_kind(data, kind, j) {
        if i < j {
            assert(data[i].type_field != kind);
        }
        if j < i {
            assert(data[j].type_field != kind);
        }
    }
    assert(data[i].type_field == kind);
}

/// The line about the user's own address, cell by cell.
pub fn address_line(record: &DnsData) -> (cells: Vec<String>)
    ensures
        cells.deep_view() == address_cells(record@),
{
    let mut cells: Vec<String> = Vec::new();
    cells.push(record.ip.clone());
    cells.push(String::from_str(" ["));
    cells.push(record.country_name.clone());
    cells.push(String::from_str(", "));
    cells.push(record.asn.clone());
    cells.push(String::from_str("]"));
    assert(cells.deep_view() =~= address_cells(record@));
    cells
}

/// The rows of the leak table.
pub fn dns_rows(data: &Vec<DnsData>) -> (rows: Vec<Vec<String>>)
    ensures
        rows.deep_view() == dns_table(data.deep_view()),
{
    let wanted = String::from_str("dns");
    let mut rows: Vec<Vec<String>> = Vec::new();
    let mut i: usize = 0;
    proof {
        reveal(Seq::filter);
    }
    assert(rows.deep_view() =~= dns_table(data.deep_view().take(0)));
    while i < data.len()
        invariant
            i <= data.len(),
            wanted@ == "dns"@,
            rows.deep_view() == dns_table(data.deep_view().take(i as int)),
        decreases data.len() - i,
    {
        let record = &data[i];
        let ghost before = rows.deep_view();
        let ghost done = data.deep_view().take(i as int);
        let ghost next = data.deep_view().take(i + 1);
        proof {
            reveal(Seq::filter);
            assert(next.drop_last() =~= done);
            assert(next.last() == record@);
        }
        if has_kind(record, &wanted) {
            let mut cells: Vec<String> = Vec::new();
            cells.push(record.ip.clone());
            cells.push(record.country_name.clone());
            cells.push(record.asn.clone());
            assert(cells.deep_view() =~= dns_cells(record@));
            rows.push(cells);
            assert(rows.deep_view() =~= before.push(dns_cells(record@)));
            assert(rows.deep_view() =~= dns_table(next));
        } else {
            assert(rows.deep_view() =~= dns_table(next));
        }
        i += 1;
    }
    assert(data.deep_view().take(i as int) =~= data.deep_view());
    rows
}

/// The conclusion shown under the leak table: the `ip` field of the first
/// record of kind `conclusion`, or nothing where there is none.
pub fn conclusion(data: &Vec<DnsData>) -> (text: String)
    ensures
        forall|i: int|
            is_first_of_kind(data.deep_view(), "conclusion"@, i) ==> text@ == (
            #[trigger] data.deep_view()[i]).ip,
        lacks_kind(data.deep_view(), "conclusion"@) ==> text@ == Seq::<char>::empty(),
{
    match find_kind(data, "conclusion") {
        Some(found) => {
            proof {
                assert forall|i: int|
                    is_first_of_kind(data.deep_view(), "conclusion"@, i) implies i == found by {
                    lemma_first_of_kind_unique(data.deep_view(), "conclusion"@, found as int, i);
                }
                lemma_first_of_kind_unique(data.deep_view(), "conclusion"@, found as int, 0);
            }
            data[found].ip.clone()
        },
        None => {
            assert forall|i: int| !is_first_of_kind(data.deep_view(), "conclusion"@, i) by {
                if is_first_of_kind(data.deep_view(), "conclusion"@, i) {
                    lemma_first_of_kind_unique(data.deep_view(), "conclusion"@, i, i);
                }
            }
            String::new()
        },
    }
}

/// The cells of one row of the traceroute table.
pub fn hop_row(hop: &Hop) -> (cells: Vec<String>)
    ensures
        cells.deep_view() == hop_cells(hop@),
{
    let mut cells: Vec<String> = Vec::new();
    let ttl = match hop.ttl() {
        Some(text) => text,
        None => String::new(),
    };
    cells.push(ttl);
    cells.push(hop.host());
    cells.push(hop.address());
    cells.push(hop.samples());
    assert(cells.deep_view() =~= hop_cells(hop@));
    cells
}

/// The rows of the traceroute table, in order.
pub fn trace_rows(trace: &TraceData) -> (rows: Vec<Vec<String>>)
    ensures
        rows.deep_view() == trace@.hops.map_values(|hop: HopView| hop_cells(hop)),
{
    let hops = trace.rows();
    let mut rows: Vec<Vec<String>> = Vec::new();
    let mut i: usize = 0;
    while i < hops.len()
        invariant
            i <= hops.len(),
            rows.len() == i,
            forall|j: int| 0 <= j < i ==> (#[trigger] rows[j]).deep_view() == hop_cells(hops[j]@),
        decreases hops.len() - i,
    {
        rows.push(hop_row(&hops[i]));
        i += 1;
    }
    assert(rows.deep_view() =~= hops.deep_view().map_values(|hop: HopView| hop_cells(hop)));
    rows
}

/// The title of the traceroute table: the summary between bars.
pub fn trace_title(summary: &str) -> (title: String)
    ensures
        title@ == title_text(summary@),
{
    let mut title = String::from_str("| ");
    title.append(summary);
    title.append(" |");
    title
}

/// A key press, as far as the screen tells keys apart.
#[derive(Debug, Clone, Copy, PartialEq, Eq, Structural)]
pub enum Key {
    Char(char),
    Up,
    Down,
    Other,
}

/// What a key press asks for.
#[derive(Debug, Clone, Copy, PartialEq, Eq, Structural)]
pub enum Command {
    /// Leave the screen.
    Quit,
    /// Move the selection in the leak table one row down.
    SelectNext,
    /// Move the selection in the leak table one row up.
    SelectPrevious,
    /// Nothing.
    Ignore,
}

/// The command of each key: `q` quits, the arrows move the selection, and
/// every other key does nothing.
pub open spec fn command_of(key: Key) -> Command {
    match key {
        Key::Char(c) => if c == 'q' {
            Command::Quit
        } else {
            Command::Ignore
        },
        Key::Down => Command::SelectNext,
        Key::Up => Command::SelectPrevious,
        Key::Other => Command::Ignore,
    }
}

/// Tells what a key press asks for.
pub fn command_for(key: Key) -> (command: Command)
    ensures
        command == command_of(key),
{
    match key {
        Key::Char(c) => if c == 'q' {
            Command::Quit
        } else {
            Command::Ignore
        },
        Key::Down => Command::SelectNext,
        Key::Up => Command::SelectPrevious,
        Key::Other => Command::Ignore,
    }
}

} // verus!
