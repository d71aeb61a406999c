use dnsleaktest::dns_leak::{annotate, country_display, enrich, DnsData};

fn record(kind: &str, ip: &str, country: &str, country_name: &str, asn: &str) -> DnsData {
    DnsData {
        ip: ip.to_string(),
        country: country.to_string(),
        country_name: country_name.to_string(),
        asn: asn.to_string(),
        type_field: kind.to_string(),
    }
}

const US_FLAG: &str = "\u{1F1FA}\u{1F1F8}";

#[test]
fn display_joins_name_and_glyph_with_a_space() {
    assert_eq!(country_display("Chile", Some("\u{1F1E8}\u{1F1F1}")), "Chile \u{1F1E8}\u{1F1F1}");
    assert_eq!(country_display("Chile", Some("x")), "Chile x");
}

#[test]
fn display_without_glyph_ends_in_placeholder() {
    assert_eq!(country_display("Atlantis", None), "Atlantis ?");
    assert_eq!(country_display("", None), " ?");
}

#[test]
fn annotate_adds_the_flag_of_the_country_code() {
    let out = annotate(&record("dns", "8.8.8.8", "US", "United States", "AS15169"));
    assert_eq!(out.country_name, format!("United States {}", US_FLAG));
    assert!(out.country_name.starts_with("United States"));
    assert_ne!(out.country_name, "United States US");
}

#[test]
fn annotate_keeps_the_other_fields() {
    let input = record("dns", "8.8.8.8", "US", "United States", "AS15169");
    let out = annotate(&input);
    assert_eq!(out.ip, input.ip);
    assert_eq!(out.country, input.country);
    assert_eq!(out.asn, input.asn);
    assert_eq!(out.type_field, input.type_field);
}

#[test]
fn annotate_uses_the_placeholder_for_an_empty_code() {
    let out = annotate(&record("conclusion", "No DNS leak detected", "", "", ""));
    assert_eq!(out.country_name, " ?");
}

#[test]
fn annotate_uses_the_placeholder_for_an_unmapped_code() {
    let out = annotate(&record("dns", "10.0.0.1", "ZZ", "Nowhere", "AS0"));
    assert_eq!(out.country_name, "Nowhere ?");
}

#[test]
fn annotate_reads_the_code_not_the_name() {
    let out = annotate(&record("dns", "1.1.1.1", "DE", "Allemagne", "AS13335"));
    assert_eq!(out.country_name, "Allemagne \u{1F1E9}\u{1F1EA}");
}

#[test]
fn annotate_takes_a_lower_case_code() {
    let out = annotate(&record("dns", "1.1.1.1", "jp", "Japan", "AS1"));
    assert_eq!(out.country_name, "Japan \u{1F1EF}\u{1F1F5}");
}

#[test]
fn enrich_keeps_all_rows_in_order() {
    let input = vec![
        record("ip", "1.2.3.4", "FR", "France", "AS3215"),
        record("dns", "8.8.8.8", "US", "United States", "AS15169"),
        record("conclusion", "No DNS leak detected", "", "", ""),
    ];
    let out = enrich(&input);
    assert_eq!(out.len(), 3);
    assert_eq!(out[0], record("ip", "1.2.3.4", "FR", "France \u{1F1EB}\u{1F1F7}", "AS3215"));
    assert_eq!(
        out[1],
        record("dns", "8.8.8.8", "US", &format!("United States {}", US_FLAG), "AS15169")
    );
    assert!(out[1].country_name.contains("United States"));
    assert!(out[1].country_name.contains(US_FLAG));
    assert_eq!(out[2], record("conclusion", "No DNS leak detected", "", " ?", ""));
}

#[test]
fn enrich_of_nothing_is_nothing() {
    assert_eq!(enrich(&Vec::new()), Vec::<DnsData>::new());
}

#[test]
fn enrich_placeholder_only_where_no_flag_is_known() {
    let input = vec![
        record("dns", "a", "US", "n", ""),
        record("dns", "b", "", "n", ""),
        record("dns", "c", "XX", "n", ""),
        record("dns", "d", "BR", "n", ""),
    ];
    let out = enrich(&input);
    let with_placeholder: Vec<bool> = out.iter().map(|r| r.country_name == "n ?").collect();
    assert_eq!(with_placeholder, vec![false, true, true, false]);
}

#[test]
fn default_record_is_empty() {
    assert_eq!(DnsData::default(), record("", "", "", "", ""));
}
