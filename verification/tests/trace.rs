use dnsleaktest::trace::{
    format_samples, hop_rows, reconcile, select_target, summarize, Hop, NamedHop, PortMode,
    Responder, Target, TraceConfig, TraceData, TraceError, Transport,
};

fn texts(items: &[&str]) -> Vec<String> {
    items.iter().map(|s| s.to_string()).collect()
}

fn named(ttl: u8, responders: &[(&str, &str)], samples: &[&str]) -> NamedHop {
    NamedHop {
        ttl,
        responders: responders
            .iter()
            .map(|(address, host)| Responder {
                address: address.to_string(),
                host: host.to_string(),
            })
            .collect(),
        samples: texts(samples),
    }
}

type Cells = (Option<String>, String, String, String);

fn cells(hop: &Hop) -> Cells {
    (hop.ttl(), hop.host(), hop.address(), hop.samples())
}

fn row(ttl: &str, host: &str, address: &str, samples: &str) -> Cells {
    (Some(ttl.to_string()), host.to_string(), address.to_string(), samples.to_string())
}

#[test]
fn standard_config_has_the_fixed_parameters() {
    let config = TraceConfig::default();
    assert_eq!(config.transport, Transport::Udp);
    assert_eq!(config.port_mode, PortMode::FixedDestination);
    assert_eq!(config.port, 33434);
    assert_eq!(config.packet_size, 52);
    assert_eq!(config.first_ttl, 1);
    assert_eq!(config.max_ttl, 64);
    assert_eq!(config.rounds, 3);
    assert_eq!(config.max_flows, 1);
    assert_eq!(config.min_round_millis, 100);
    assert_eq!(config.max_round_millis, 100);
    assert_eq!(config.tos, 0);
}

#[test]
fn samples_are_two_spaces_apart() {
    assert_eq!(format_samples(&texts(&["12.340 ms", "13.001 ms"])), "12.340 ms  13.001 ms");
    assert_eq!(format_samples(&texts(&["1.000 ms"])), "1.000 ms");
    assert_eq!(format_samples(&texts(&[])), "");
}

#[test]
fn silent_ttl_gives_one_blank_row() {
    let rows = hop_rows(&named(3, &[], &[]));
    assert_eq!(rows.len(), 1);
    assert_eq!(cells(&rows[0]), row("3", "*", "*", ""));
}

#[test]
fn one_address_gives_one_row_with_the_ttl() {
    let samples = ["0.512 ms", "0.498 ms", "0.530 ms"];
    let rows = hop_rows(&named(1, &[("10.0.0.1", "gateway.lan")], &samples));
    assert_eq!(rows.len(), 1);
    assert_eq!(
        cells(&rows[0]),
        row("1", "gateway.lan", "10.0.0.1", "0.512 ms  0.498 ms  0.530 ms")
    );
}

#[test]
fn several_addresses_give_a_row_each_and_the_ttl_once() {
    let hop = named(
        7,
        &[("192.0.2.1", "a.example"), ("192.0.2.2", "b.example"), ("192.0.2.3", "192.0.2.3")],
        &["9.100 ms", "9.200 ms"],
    );
    let rows = hop_rows(&hop);
    assert_eq!(rows.len(), 3);
    assert_eq!(cells(&rows[0]), row("7", "a.example", "192.0.2.1", "9.100 ms  9.200 ms"));
    assert_eq!(cells(&rows[1]), row("", "b.example", "192.0.2.2", "9.100 ms  9.200 ms"));
    assert_eq!(cells(&rows[2]), row("", "192.0.2.3", "192.0.2.3", "9.100 ms  9.200 ms"));
}

#[test]
fn row_count_is_the_larger_of_address_count_and_one() {
    let mut k: usize = 0;
    while k < 6 {
        let responders: Vec<(&str, &str)> = (0..k).map(|_| ("198.51.100.1", "h")).collect();
        let rows = hop_rows(&named(200, &responders, &["1.000 ms"]));
        assert_eq!(rows.len(), if k == 0 { 1 } else { k });
        let with_ttl = rows.iter().filter(|r| r.ttl() != Some(String::new())).count();
        assert_eq!(with_ttl, 1);
        assert_eq!(rows[0].ttl(), Some("200".to_string()));
        k += 1;
    }
}

#[test]
fn table_follows_the_order_of_the_snapshot() {
    let hops = vec![
        named(1, &[("10.0.0.1", "gw")], &["1.000 ms"]),
        named(2, &[], &[]),
        named(3, &[("203.0.113.1", "x"), ("203.0.113.2", "y")], &["3.000 ms", "3.500 ms"]),
    ];
    let rows = reconcile(&hops);
    let got: Vec<_> = rows.iter().map(cells).collect();
    assert_eq!(
        got,
        vec![
            row("1", "gw", "10.0.0.1", "1.000 ms"),
            row("2", "*", "*", ""),
            row("3", "x", "203.0.113.1", "3.000 ms  3.500 ms"),
            row("", "y", "203.0.113.2", "3.000 ms  3.500 ms"),
        ]
    );
}

#[test]
fn table_of_an_empty_snapshot_is_empty() {
    assert!(reconcile(&Vec::new()).is_empty());
}

#[test]
fn ttl_order_is_kept_even_when_not_ascending() {
    let rows = reconcile(&vec![named(5, &[], &[]), named(4, &[], &[])]);
    assert_eq!(rows[0].ttl(), Some("5".to_string()));
    assert_eq!(rows[1].ttl(), Some("4".to_string()));
}

#[test]
fn reconcile_twice_gives_the_same_table() {
    let hops = vec![
        named(1, &[("10.0.0.1", "gw"), ("10.0.0.2", "gw2")], &["1.000 ms"]),
        named(2, &[], &["*"]),
        named(255, &[("203.0.113.9", "far")], &[]),
    ];
    let first = reconcile(&hops);
    let second = reconcile(&hops);
    assert_eq!(first, second);
    assert_eq!(first.len(), 4);
}

#[test]
fn summary_has_the_fixed_format() {
    let text = summarize("discord.com", "162.159.128.233", &TraceConfig::default());
    assert_eq!(text, "Traceroute to discord.com (162.159.128.233), 64 hops max, 52 byte packets");
}

#[test]
fn summary_reads_ttl_and_size_from_the_config() {
    let mut config = TraceConfig::default();
    config.max_ttl = 255;
    config.packet_size = 1500;
    assert_eq!(
        summarize("h", "::1", &config),
        "Traceroute to h (::1), 255 hops max, 1500 byte packets"
    );
}

#[test]
fn no_address_is_unknown_host() {
    assert_eq!(
        select_target("nowhere.invalid", &Vec::new()),
        Err(TraceError::UnknownHost("nowhere.invalid".to_string()))
    );
}

#[test]
fn one_address_is_used_without_warning() {
    assert_eq!(
        select_target("one.example", &texts(&["192.0.2.7"])),
        Ok(Target { address: "192.0.2.7".to_string(), warning: None })
    );
}

#[test]
fn first_of_several_addresses_is_used_with_a_warning() {
    assert_eq!(
        select_target("two.example", &texts(&["192.0.2.7", "192.0.2.8"])),
        Ok(Target {
            address: "192.0.2.7".to_string(),
            warning: Some(
                "traceroute: Warning: two.example has multiple addresses; using 192.0.2.7"
                    .to_string()
            ),
        })
    );
    let swapped = select_target("two.example", &texts(&["192.0.2.8", "192.0.2.7"])).unwrap();
    assert_eq!(swapped.address, "192.0.2.8");
}

#[test]
fn error_messages() {
    assert_eq!(
        TraceError::UnknownHost("nowhere.invalid".to_string()).message(),
        "traceroute: unknown host nowhere.invalid"
    );
    assert_eq!(
        TraceError::EngineFailure("socket permission denied".to_string()).message(),
        "error: socket permission denied"
    );
}

#[test]
fn assembled_data_has_summary_and_rows() {
    let hops = vec![named(1, &[("10.0.0.1", "gw")], &["1.000 ms"]), named(2, &[], &[])];
    let data = TraceData::assemble("h.example", "10.9.9.9", &TraceConfig::default(), &hops);
    assert_eq!(data.summary(), "Traceroute to h.example (10.9.9.9), 64 hops max, 52 byte packets");
    assert_eq!(data.rows(), &reconcile(&hops));
    let mut seen = Vec::new();
    data.hops(|hop| seen.push(cells(hop)));
    assert_eq!(seen, vec![row("1", "gw", "10.0.0.1", "1.000 ms"), row("2", "*", "*", "")]);
}

#[test]
fn hops_hands_each_row_to_the_callback_once_in_order() {
    let hops = vec![
        named(1, &[("10.0.0.1", "gw"), ("10.0.0.2", "gw2")], &["1.000 ms"]),
        named(2, &[], &[]),
        named(3, &[("203.0.113.1", "x")], &["3.000 ms", "3.500 ms"]),
    ];
    let data = TraceData::assemble("h.example", "10.9.9.9", &TraceConfig::default(), &hops);
    let mut seen: Vec<Hop> = Vec::new();
    data.hops(|hop| seen.push(hop.clone()));
    assert_eq!(seen.len(), 4);
    assert_eq!(&seen, data.rows());
}

#[test]
fn hops_never_calls_back_on_an_empty_table() {
    let data = TraceData::assemble("h.example", "10.9.9.9", &TraceConfig::default(), &Vec::new());
    let mut calls = 0;
    data.hops(|_| calls += 1);
    assert_eq!(calls, 0);
}
