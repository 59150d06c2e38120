use softether_exporter::config::{bind_address, pacing_millis, parse_millis, Config, Hub, Settings};

fn text(s: &str) -> Option<String> {
    Some(s.to_string())
}

#[test]
fn resolve_fills_in_every_default() {
    let config = Config { vpncmd: None, server: None, sleep: None, adminpassword: None, hubs: vec![] };
    let settings = Settings::resolve(&config);
    assert_eq!(settings.vpncmd, "vpncmd");
    assert_eq!(settings.server, "localhost");
    assert_eq!(settings.sleep_millis, 500);
    assert_eq!(settings.adminpassword, "");
    assert!(settings.hubs.is_empty());
}

#[test]
fn resolve_keeps_what_is_configured() {
    let config = Config {
        vpncmd: text("/opt/vpncmd/vpncmd"),
        server: text("vpn.example.org:5555"),
        sleep: text("250"),
        adminpassword: text("secret"),
        hubs: vec![
            Hub { name: text("HUB1"), password: text("one") },
            Hub { name: text("HUB2"), password: None },
        ],
    };
    let settings = Settings::resolve(&config);
    assert_eq!(settings.vpncmd, "/opt/vpncmd/vpncmd");
    assert_eq!(settings.server, "vpn.example.org:5555");
    assert_eq!(settings.sleep_millis, 250);
    assert_eq!(settings.adminpassword, "secret");
    assert_eq!(settings.hubs, vec!["HUB1".to_string(), "HUB2".to_string()]);
}

#[test]
fn resolve_keeps_hub_order_and_names_a_nameless_hub_empty() {
    let config = Config {
        vpncmd: None,
        server: None,
        sleep: None,
        adminpassword: None,
        hubs: vec![
            Hub { name: text("B"), password: None },
            Hub { name: None, password: text("x") },
            Hub { name: text("A"), password: None },
            Hub { name: text(""), password: None },
        ],
    };
    let settings = Settings::resolve(&config);
    assert_eq!(
        settings.hubs,
        vec!["B".to_string(), String::new(), "A".to_string(), String::new()]
    );
}

#[test]
fn resolve_falls_back_on_an_unreadable_sleep() {
    for bad in ["", "fast", "-1", "1.5", " 500", "500 ", "5_00", "18446744073709551616"] {
        let config = Config {
            vpncmd: None,
            server: None,
            sleep: text(bad),
            adminpassword: None,
            hubs: vec![],
        };
        assert_eq!(Settings::resolve(&config).sleep_millis, 500, "sleep = {:?}", bad);
    }
}

#[test]
fn parse_millis_reads_plain_digits() {
    assert_eq!(parse_millis("500"), Some(500));
    assert_eq!(parse_millis("0"), Some(0));
    assert_eq!(parse_millis("007"), Some(7));
    assert_eq!(parse_millis("1234567890"), Some(1234567890));
}

#[test]
fn parse_millis_accepts_one_leading_plus() {
    assert_eq!(parse_millis("+7"), Some(7));
    assert_eq!(parse_millis("++7"), None);
    assert_eq!(parse_millis("+"), None);
    assert_eq!(parse_millis("7+"), None);
}

#[test]
fn parse_millis_rejects_everything_else() {
    for bad in ["", "-5", "-0", "12a", "a12", " 5", "5 ", "1 2", "0x10", "1e3", "1.0", "٣", "５"] {
        assert_eq!(parse_millis(bad), None, "text = {:?}", bad);
    }
}

#[test]
fn parse_millis_stops_at_the_limit_of_64_bits() {
    assert_eq!(parse_millis("18446744073709551615"), Some(u64::MAX));
    assert_eq!(parse_millis("18446744073709551616"), None);
    assert_eq!(parse_millis("18446744073709551625"), None);
    assert_eq!(parse_millis("99999999999999999999"), None);
    assert_eq!(parse_millis("184467440737095516150"), None);
    assert_eq!(parse_millis("000000000000000000000000000001"), Some(1));
}

#[test]
fn parse_millis_agrees_with_the_standard_parser() {
    let samples = [
        "", "+", "-", "0", "+0", "-0", "1", "10", "500", "+500", "-500", "5 00", "abc", "12abc",
        "18446744073709551615", "18446744073709551616", "+18446744073709551615", "00012",
        "1_000", "½", "１２", "\n12", "12\n", "+-1", "4294967296",
    ];
    for s in samples {
        assert_eq!(parse_millis(s), s.parse::<u64>().ok(), "text = {:?}", s);
    }
}

#[test]
fn pacing_millis_defaults_to_500() {
    assert_eq!(pacing_millis(&None), 500);
    assert_eq!(pacing_millis(&text("nope")), 500);
    assert_eq!(pacing_millis(&text("0")), 0);
    assert_eq!(pacing_millis(&text("1500")), 1500);
}

#[test]
fn bind_address_expands_a_port_only_value() {
    assert_eq!(bind_address(":9411"), "0.0.0.0:9411");
    assert_eq!(bind_address(":"), "0.0.0.0:");
    assert_eq!(bind_address("::1"), "0.0.0.0::1");
}

#[test]
fn bind_address_leaves_a_full_address_alone() {
    assert_eq!(bind_address("127.0.0.1:9411"), "127.0.0.1:9411");
    assert_eq!(bind_address("localhost:80"), "localhost:80");
    assert_eq!(bind_address(""), "");
    assert_eq!(bind_address("9411:"), "9411:");
}
