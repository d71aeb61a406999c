//! The records of a DNS-leak verdict and their annotation for display.

use vstd::prelude::*;
use vstd::string::*;

verus! {

/// One row of the leak verdict.
///
/// `country_name` arrives as the plain country name; `annotate` replaces it
/// by the display text, the name followed by the country's flag.
#[derive(Debug, Clone, PartialEq)]
pub struct DnsData {
    pub ip: String,
    pub country: String,
    pub country_name: String,
    pub asn: String,
    pub type_field: String,
}

/// What a `DnsData` holds, as plain text.
pub ghost struct DnsDataView {
    pub ip: Seq<char>,
    pub country: Seq<char>,
    pub country_name: Seq<char>,
    pub asn: Seq<char>,
    pub type_field: Seq<char>,
}

impl View for DnsData {
    type V = DnsDataView;

    open spec fn view(&self) -> DnsDataView {
        DnsDataView {
            ip: self.ip@,
            country: self.country@,
            country_name: self.country_name@,
            asn: self.asn@,
            type_field: self.type_field@,
        }
    }
}

impl DeepView for DnsData {
    type V = DnsDataView;

    open spec fn deep_view(&self) -> DnsDataView {
        self@
    }
}

impl Default for DnsData {
    /// The record whose five fields are all empty.
    fn default() -> (r: Self)
        ensures
            r@ == (DnsDataView {
                ip: Seq::empty(),
                country: Seq::empty(),
                country_name: Seq::empty(),
                asn: Seq::empty(),
                type_field: Seq::empty(),
            }),
    {
        DnsData {
            ip: String::new(),
            country: String::new(),
            country_name: String::new(),
            asn: String::new(),
            type_field: String::new(),
        }
    }
}

/// The flag that `country_emoji::flag` gives for a country code or name,
/// `None` where it knows none.
pub uninterp spec fn flag_glyph(code: Seq<char>) -> Option<Seq<char>>;

/// The text shown in place of a flag that is not known.
pub open spec fn placeholder() -> Seq<char> {
    seq!['?']
}

/// The glyph shown for a looked-up flag: the flag, or the placeholder.
pub open spec fn glyph_or_placeholder(found: Option<Seq<char>>) -> Seq<char> {
    match found {
        Some(glyph) => glyph,
        None => placeholder(),
    }
}

/// The display text of a country: its name, a space, its glyph.
pub open spec fn display_text(country_name: Seq<char>, found: Option<Seq<char>>) -> Seq<char> {
    country_name + seq![' '] + glyph_or_placeholder(found)
}

/// A record after annotation: only `country_name` differs.
pub open spec fn annotated(r: DnsDataView) -> DnsDataView {
    DnsDataView { country_name: display_text(r.country_name, flag_glyph(r.country)), ..r }
}

/// Calls `country_emoji::flag`.
///
/// Trusted: the result is the crate's answer for `code`, a function of the
/// text alone (the crate consults only its built-in tables). For the empty
/// text both of its lookups, by code and by name, find nothing. A flag that
/// it returns is made of the two regional-indicator letters of a country
/// code, so it is two characters long.
#[verifier::external_body]
fn lookup_flag(code: &str) -> (found: Option<String>)
    ensures
        found.deep_view() == flag_glyph(code@),
        code@.len() == 0 ==> found is None,
        found matches Some(glyph) ==> glyph@.len() == 2,
{
    country_emoji::flag(code)
}

/// Builds the display text from a country name and the flag found for its
/// code, if any.
pub fn country_display(country_name: &str, found: Option<&str>) -> (text: String)
    ensures
        text@ == display_text(
            country_name@,
            match found {
                Some(glyph) => Some(glyph@),
                None => None,
            },
        ),
{
    proof {
        reveal_strlit(" ");
        reveal_strlit("?");
    }
    let mut text = String::from_str(country_name);
    text.append(" ");
    match found {
        Some(glyph) => {
            text.append(glyph);
        },
        None => {
            text.append("?");
        },
    }
    assert(" "@ =~= seq![' ']);
    assert("?"@ =~= placeholder());
    text
}

/// Annotates one record: `country_name` becomes the name followed by the
/// flag of `country`, or by the placeholder where the code is empty or has
/// no flag. The other fields are kept.
pub fn annotate(record: &DnsData) -> (out: DnsData)
    ensures
        out@ == annotated(record@),
        record@.country.len() == 0 ==> flag_glyph(record@.country) is None,
        flag_glyph(record@.country) is None <==> out@.country_name == record@.country_name
            + seq![' ', '?'],
{
    let found = lookup_flag(record.country.as_str());
    let text = match &found {
        Some(glyph) => country_display(record.country_name.as_str(), Some(glyph.as_str())),
        None => country_display(record.country_name.as_str(), None),
    };
    proof {
        let name = record@.country_name;
        assert(name + seq![' '] + placeholder() =~= name + seq![' ', '?']);
        if let Some(glyph) = found {
            assert((name + seq![' '] + glyph@).len() == name.len() + 3);
            assert((name + seq![' ', '?']).len() == name.len() + 2);
        }
    }
    DnsData {
        ip: record.ip.clone(),
        country: record.country.clone(),
        country_name: text,
        asn: record.asn.clone(),
        type_field: record.type_field.clone(),
    }
}

/// Annotates every record of a verdict, keeping their number and order.
pub fn enrich(data: &Vec<DnsData>) -> (out: Vec<DnsData>)
    ensures
        out.deep_view() == data.deep_view().map_values(|r: DnsDataView| annotated(r)),
        forall|i: int|
            0 <= i < data.len() ==> (flag_glyph(#[trigger] data[i]@.country) is None
                <==> out[i]@.country_name == data[i]@.country_name + seq![' ', '?']),
        forall|i: int|
            0 <= i < data.len() && (#[trigger] data[i]@.country).len() == 0 ==> flag_glyph(
                data[i]@.country,
            ) is None,
{
    let mut out: Vec<DnsData> = Vec::new();
    let mut i: usize = 0;
    while i < data.len()
        invariant
            i <= data.len(),
            out.len() == i,
            forall|j: int| 0 <= j < i ==> (#[trigger] out[j])@ == annotated(data[j]@),
            forall|j: int|
                0 <= j < i ==> (flag_glyph(#[trigger] data[j]@.country) is None
                    <==> out[j]@.country_name == data[j]@.country_name + seq![' ', '?']),
            forall|j: int|
                0 <= j < i && (#[trigger] data[j]@.country).len() == 0 ==> flag_glyph(
                    data[j]@.country,
                ) is None,
        decreases data.len() - i,
    {
        let record = annotate(&data[i]);
        out.push(record);
        i += 1;
    }
    assert(out.deep_view() =~= data.deep_view().map_values(|r: DnsDataView| annotated(r)));
    out
}

} // verus!
