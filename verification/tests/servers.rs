use stream_client::addr::{
    addr_host, addr_ip, allow_hole_punch_fallback, classify_path, is_privateish_ip,
    normalize_server_addr, parse_ip, parse_ipv6, pick_remote_reachable, IpAddr, PathClass,
};
use stream_client::cards::{is_text_less, merge_servers, recency_order};
use stream_client::discovery::{ApiHost, Discovery, LanUpgrade, UpgradeStep};
use stream_client::home::{
    backfill_saved_server, deletable, empty_list_text, forget_server, matches_query, path_label,
    search, search_finds, text_contains,
};
use stream_client::servers::{
    drop_expired, ensure_server_in_list, format_last_connected, keep_manual_servers, note_beacon,
    parse_beacon, read_beacon, touch_server_connected, DiscoveredServer, ServerEntry,
};
use stream_client::time::{Duration, Instant};

fn start() -> Instant {
    Instant::from_nanos(100_000_000_000)
}

fn after(t: Instant, secs: u64) -> Instant {
    t.saturating_add(Duration::from_secs(secs))
}

fn entry(address: &str, last_connected: u64, manually_added: bool) -> ServerEntry {
    ServerEntry {
        address: address.to_string(),
        nickname: String::new(),
        peer_id: None,
        last_connected,
        manually_added,
    }
}

fn seen(hostname: &str, address: &str, peer_id: &str, at: Instant) -> DiscoveredServer {
    DiscoveredServer {
        hostname: hostname.to_string(),
        address: address.to_string(),
        token: "secret".to_string(),
        peer_id: peer_id.to_string(),
        last_seen: at,
    }
}

#[test]
fn addresses_are_read_exactly() {
    for text in [
        "256.0.0.1", "1.2.3", "01.2.3.4", "1.2.3.4.5", "1:2:3:4:5:6:7", "1::2::3", "12345::",
        "fd00::g", "", " 1.2.3.4", "1.2.3.4 ", ":", ":::", "1.2.3.4::",
    ] {
        assert!(parse_ip(text).is_none(), "{text}");
    }
    assert!(matches!(parse_ip("127.0.0.1"), Some(IpAddr::V4([127, 0, 0, 1]))));
    assert!(matches!(parse_ip("0.0.0.0"), Some(IpAddr::V4([0, 0, 0, 0]))));
    assert_eq!(parse_ipv6("::"), Some([0; 8]));
    assert_eq!(parse_ipv6("::1"), Some([0, 0, 0, 0, 0, 0, 0, 1]));
    assert_eq!(parse_ipv6("FE80::1"), Some([0xfe80, 0, 0, 0, 0, 0, 0, 1]));
    assert_eq!(parse_ipv6("1:2:3:4:5:6:7:8"), Some([1, 2, 3, 4, 5, 6, 7, 8]));
    assert_eq!(parse_ipv6("::ffff:1.2.3.4"), Some([0, 0, 0, 0, 0, 0xffff, 0x0102, 0x0304]));
}

#[test]
fn hosts_and_ports_are_told_apart() {
    assert_eq!(addr_host("10.0.0.5:28480"), "10.0.0.5");
    assert_eq!(addr_host("[fe80::1]:28480"), "fe80::1");
    assert!(addr_ip("example.org:1").is_none());
    assert_eq!(normalize_server_addr("10.0.0.5"), "10.0.0.5:28480");
    assert_eq!(normalize_server_addr("10.0.0.5:99"), "10.0.0.5:99");
    assert_eq!(
        normalize_server_addr(normalize_server_addr("host").as_str()),
        normalize_server_addr("host")
    );
}

#[test]
fn private_servers_are_not_punched() {
    let private = parse_ip("192.168.1.2").expect("address");
    let public = parse_ip("8.8.8.8").expect("address");
    assert!(is_privateish_ip(&private) && !is_privateish_ip(&public));
    assert!(allow_hole_punch_fallback(&public) && !allow_hole_punch_fallback(&private));
    assert_eq!(classify_path("192.168.1.2:1"), PathClass::Lan);
    assert_eq!(classify_path("100.64.0.1:1"), PathClass::Vpn);
    assert_eq!(classify_path("8.8.8.8:1"), PathClass::Public);
    let picked = pick_remote_reachable(&vec![
        "192.168.1.2:1".to_string(),
        "8.8.8.8:1".to_string(),
    ]);
    assert_eq!(picked.as_deref(), Some("8.8.8.8:1"));
}

#[test]
fn adding_a_server_twice_adds_it_once() {
    let mut list = Vec::new();
    assert!(ensure_server_in_list(&mut list, "10.0.0.5:28480"));
    assert!(!ensure_server_in_list(&mut list, "10.0.0.5:28480"));
    assert_eq!(list.len(), 1);
    assert!(touch_server_connected(&mut list, "10.0.0.5:28480", 77));
    assert_eq!(list[0].last_connected, 77);
    assert!(!touch_server_connected(&mut list, "other:1", 78));
    let mut mixed = vec![entry("a:1", 1, true), entry("b:1", 2, false)];
    assert!(keep_manual_servers(&mut mixed));
    assert_eq!(mixed.len(), 1);
    assert!(!keep_manual_servers(&mut mixed));
}

#[test]
fn ages_are_told_in_words() {
    assert_eq!(format_last_connected(0, 100), "Never connected");
    assert_eq!(format_last_connected(100, 50), "Just now");
    assert_eq!(format_last_connected(100, 100 + 119), "1 min ago");
    assert_eq!(format_last_connected(100, 100 + 7_200), "2 hours ago");
    assert_eq!(format_last_connected(100, 100 + 3 * 86_400), "3 days ago");
    assert_eq!(format_last_connected(100, 100 + 2_592_000), "Long ago");
}

#[test]
fn beacons_are_noted_and_expire() {
    assert!(parse_beacon("ST_DISCOVER\nbox\n28480\nsecret").is_none());
    assert!(parse_beacon("OTHER\nbox\n28480\nsecret\npeer").is_none());
    let beacon = parse_beacon("ST_DISCOVER\nbox\n99999\nsecret\n peer \n").expect("beacon");
    assert_eq!((beacon.port, beacon.peer_id.as_str()), (28480, "peer"));
    let mut servers = Vec::new();
    assert!(note_beacon(&mut servers, beacon, "10.0.0.7", start()));
    assert_eq!(servers[0].address, "10.0.0.7:28480");
    assert!(!drop_expired(&mut servers, after(start(), 9)));
    assert!(drop_expired(&mut servers, after(start(), 11)));
    assert!(servers.is_empty());
}

#[test]
fn nearby_servers_are_preferred() {
    let discovery = Discovery {
        servers: vec![seen("box", "10.0.0.7:28480", "peer", start())],
        api_host: Some(ApiHost {
            peer_id: Some("peer".to_string()),
            hostname: Some("box".to_string()),
            candidates: vec!["8.8.8.8:28480".to_string()],
            last_seen: start(),
        }),
    };
    assert_eq!(
        discovery.best_addr_for_peer("secret", start(), "peer").as_deref(),
        Some("10.0.0.7:28480")
    );
    assert_eq!(
        discovery.best_addr_for_peer("other", start(), "peer").as_deref(),
        Some("8.8.8.8:28480")
    );
    assert_eq!(
        discovery
            .pending_lan_upgrade("secret", start(), &Some("peer".to_string()), "8.8.8.8:28480")
            .as_deref(),
        Some("10.0.0.7:28480")
    );
    assert_eq!(
        discovery.pending_lan_upgrade(
            "secret",
            start(),
            &Some("peer".to_string()),
            "10.0.0.7:28480"
        ),
        None
    );
}

#[test]
fn beacons_are_read_from_any_bytes() {
    let beacon = read_beacon(b"ST_DISCOVER\nbo\xffx\n28490\nsecret\npeer").expect("beacon");
    assert_eq!((beacon.hostname.as_str(), beacon.port), ("bo\u{fffd}x", 28490));
    assert!(read_beacon(b"ST_DISCOVER\xff\nbox\n28490\nsecret\npeer").is_none());
    assert!(read_beacon(b"").is_none());
}

#[test]
fn upgrades_wait_for_steady_beacons() {
    let mut upgrade = LanUpgrade { since: None };
    let lan = Some("10.0.0.7:28480".to_string());
    assert!(matches!(upgrade.maybe_upgrade_to_lan(lan.clone(), start()), UpgradeStep::Wait));
    assert!(matches!(
        upgrade.maybe_upgrade_to_lan(None, after(start(), 1)),
        UpgradeStep::Stay
    ));
    assert!(matches!(
        upgrade.maybe_upgrade_to_lan(lan.clone(), after(start(), 2)),
        UpgradeStep::Wait
    ));
    assert!(matches!(
        upgrade.maybe_upgrade_to_lan(lan, after(start(), 4)),
        UpgradeStep::Move(to) if to == "10.0.0.7:28480"
    ));
}

#[test]
fn saved_and_nearby_servers_share_a_card() {
    let mut saved = entry("10.0.0.7:28480", 100, true);
    saved.peer_id = Some("peer".to_string());
    let list = vec![entry("10.9.9.9:28480", 50, true), saved];
    assert_eq!(recency_order(&list), vec![1, 0]);
    let discovery = Discovery {
        servers: vec![
            seen("box", "10.0.0.7:28480", "peer", start()),
            seen("new", "10.0.0.8:28480", "other", start()),
        ],
        api_host: None,
    };
    let cards = merge_servers(&list, &discovery, "secret", start(), 200);
    assert_eq!(cards.len(), 3);
    for (i, card) in cards.iter().enumerate() {
        for other in &cards[..i] {
            assert_ne!(card.card_key, other.card_key);
        }
    }
    assert!(is_text_less("a", "b") && !is_text_less("b", "a") && is_text_less("", "a"));
}

#[test]
fn searching_ignores_case() {
    assert!(matches_query("10.0.0.7:28480", "living room", "living r"));
    assert!(matches_query("10.0.0.7:28480", "living room", ""));
    assert!(!matches_query("10.0.0.7:28480", "living room", "LIVING"));
    assert!(text_contains("abcabd", "abd") && !text_contains("ab", "abc"));
    assert!(text_contains("x", ""));
    let discovery = Discovery { servers: Vec::new(), api_host: None };
    let mut named = entry("10.0.0.7:28480", 1, true);
    named.nickname = "Living ROOM Ä".to_string();
    let cards = merge_servers(&vec![named], &discovery, "secret", start(), 200);
    assert!(search_finds("LIVING", &cards[0]));
    assert!(search_finds(" room ä ", &cards[0]));
    assert!(search_finds("  ", &cards[0]));
    assert!(!search_finds("kitchen", &cards[0]));
}

#[test]
fn searching_keeps_the_order_of_the_cards() {
    let discovery = Discovery { servers: Vec::new(), api_host: None };
    let mut saved = vec![
        entry("10.0.0.7:28480", 3, true),
        entry("10.0.0.8:28480", 2, true),
        entry("10.0.0.9:28480", 1, true),
    ];
    saved[0].nickname = "Living room".to_string();
    saved[1].nickname = "Attic".to_string();
    saved[2].nickname = "LIVING quarters".to_string();
    let found = |query: &str| {
        let cards = merge_servers(&saved, &discovery, "secret", start(), 200);
        let found = search(cards, query);
        found.iter().map(|card| card.display_name.clone()).collect::<Vec<_>>()
    };
    assert_eq!(found(" Living "), vec!["Living room", "LIVING quarters"]);
    assert_eq!(found("0.8:"), vec!["Attic"]);
    assert_eq!(found(""), vec!["Living room", "Attic", "LIVING quarters"]);
    assert!(found("kitchen").is_empty());
}

#[test]
fn cards_refer_to_saved_servers() {
    let discovery = Discovery {
        servers: vec![seen("box", "10.0.0.7:28480", "peer", start())],
        api_host: None,
    };
    let mut list = Vec::new();
    let cards = merge_servers(&list, &discovery, "secret", start(), 200);
    assert_eq!(cards.len(), 1);
    assert_eq!(deletable(&cards[0]), None);
    backfill_saved_server(&mut list, &cards[0]);
    list.push(entry("10.1.1.1:28480", 1, true));
    let count = list.len();
    forget_server(&mut list, 0);
    assert_eq!(list.len(), count - 1);
    assert_ne!(path_label(PathClass::Lan), path_label(PathClass::Public));
    assert!(!empty_list_text(true, true, true).is_empty());
}

#[test]
fn listings_expire_and_need_a_name() {
    let listing = |peer_id: Option<&str>, candidates: Vec<String>| Discovery {
        servers: Vec::new(),
        api_host: Some(ApiHost {
            peer_id: peer_id.map(str::to_string),
            hostname: None,
            candidates,
            last_seen: start(),
        }),
    };
    let known = listing(Some("peer"), vec!["192.168.1.2:28480".to_string()]);
    assert!(known.lists_any(after(start(), 29)));
    assert!(!known.lists_any(after(start(), 30)));
    assert!(!listing(Some(""), vec!["8.8.8.8:28480".to_string()]).lists_any(start()));
    assert!(!listing(None, vec!["8.8.8.8:28480".to_string()]).lists_any(start()));
    assert!(!listing(Some("peer"), Vec::new()).lists_any(start()));
    assert!(!Discovery { servers: Vec::new(), api_host: None }.lists_any(start()));
}
