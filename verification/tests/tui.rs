use dnsleaktest::dns_leak::DnsData;
use dnsleaktest::trace::{NamedHop, Responder, TraceConfig, TraceData};
use dnsleaktest::tui::{
    address_line, command_for, conclusion, dns_rows, find_kind, hop_row, trace_rows, trace_title,
    Command, Key,
};

fn record(kind: &str, ip: &str, country_name: &str, asn: &str) -> DnsData {
    DnsData {
        ip: ip.to_string(),
        country: String::new(),
        country_name: country_name.to_string(),
        asn: asn.to_string(),
        type_field: kind.to_string(),
    }
}

fn texts(items: &[&str]) -> Vec<String> {
    items.iter().map(|s| s.to_string()).collect()
}

fn verdict() -> Vec<DnsData> {
    vec![
        record("dns", "8.8.8.8", "United States X", "AS15169"),
        record("ip", "1.2.3.4", "France Y", "AS3215"),
        record("dns", "8.8.4.4", "United States X", "AS15169"),
        record("conclusion", "No DNS leak detected", " ?", ""),
        record("ip", "5.6.7.8", "Spain Z", "AS3352"),
        record("conclusion", "ignored", " ?", ""),
        record("other", "9.9.9.9", "?", "?"),
    ]
}

#[test]
fn first_record_of_a_kind_is_found() {
    let data = verdict();
    assert_eq!(find_kind(&data, "ip"), Some(1));
    assert_eq!(find_kind(&data, "dns"), Some(0));
    assert_eq!(find_kind(&data, "conclusion"), Some(3));
    assert_eq!(find_kind(&data, "other"), Some(6));
}

#[test]
fn missing_kind_is_not_found() {
    assert_eq!(find_kind(&verdict(), "IP"), None);
    assert_eq!(find_kind(&verdict(), ""), None);
    assert_eq!(find_kind(&Vec::new(), "ip"), None);
}

#[test]
fn own_address_line_has_six_cells() {
    let data = verdict();
    let line = address_line(&data[1]);
    assert_eq!(line, texts(&["1.2.3.4", " [", "France Y", ", ", "AS3215", "]"]));
}

#[test]
fn leak_table_lists_the_dns_records_in_order() {
    assert_eq!(
        dns_rows(&verdict()),
        vec![
            texts(&["8.8.8.8", "United States X", "AS15169"]),
            texts(&["8.8.4.4", "United States X", "AS15169"]),
        ]
    );
}

#[test]
fn leak_table_without_dns_records_is_empty() {
    assert!(dns_rows(&vec![record("ip", "1.2.3.4", "n", "a")]).is_empty());
    assert!(dns_rows(&Vec::new()).is_empty());
}

#[test]
fn conclusion_is_the_first_one() {
    assert_eq!(conclusion(&verdict()), "No DNS leak detected");
}

#[test]
fn conclusion_is_empty_when_there_is_none() {
    assert_eq!(conclusion(&vec![record("ip", "1.2.3.4", "n", "a")]), "");
}

#[test]
fn trace_table_cells() {
    let hops = vec![
        NamedHop {
            ttl: 1,
            responders: vec![
                Responder { address: "10.0.0.1".to_string(), host: "gw".to_string() },
                Responder { address: "10.0.0.2".to_string(), host: "gw2".to_string() },
            ],
            samples: texts(&["1.000 ms", "2.000 ms"]),
        },
        NamedHop { ttl: 2, responders: Vec::new(), samples: Vec::new() },
    ];
    let data = TraceData::assemble("h", "t", &TraceConfig::default(), &hops);
    assert_eq!(
        trace_rows(&data),
        vec![
            texts(&["1", "gw", "10.0.0.1", "1.000 ms  2.000 ms"]),
            texts(&["", "gw2", "10.0.0.2", "1.000 ms  2.000 ms"]),
            texts(&["2", "*", "*", ""]),
        ]
    );
    assert_eq!(hop_row(&data.rows()[1]), texts(&["", "gw2", "10.0.0.2", "1.000 ms  2.000 ms"]));
}

#[test]
fn trace_title_puts_the_summary_between_bars() {
    assert_eq!(trace_title("Traceroute to h (t), 64 hops max, 52 byte packets"),
        "| Traceroute to h (t), 64 hops max, 52 byte packets |");
    assert_eq!(trace_title(""), "|  |");
}

#[test]
fn q_quits() {
    assert_eq!(command_for(Key::Char('q')), Command::Quit);
}

#[test]
fn arrows_move_the_selection() {
    assert_eq!(command_for(Key::Down), Command::SelectNext);
    assert_eq!(command_for(Key::Up), Command::SelectPrevious);
}

#[test]
fn other_keys_do_nothing() {
    assert_eq!(command_for(Key::Char('Q')), Command::Ignore);
    assert_eq!(command_for(Key::Char('x')), Command::Ignore);
    assert_eq!(command_for(Key::Other), Command::Ignore);
}
