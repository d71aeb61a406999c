use dnsleaktest::validation::Hostname;

#[test]
fn hostname_is_kept_as_given() {
    let hostname = Hostname::new("discord.com".to_string());
    assert_eq!(hostname.hostname(), "discord.com");
    assert_eq!(hostname.to_string(), "discord.com");
}

#[test]
fn hostname_is_not_trimmed_or_checked() {
    let hostname = Hostname::new("  not a host  ".to_string());
    assert_eq!(hostname.hostname(), "  not a host  ");
}
