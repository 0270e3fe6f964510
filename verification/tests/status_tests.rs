use mc_status::config::{Data, ServerEndpoint, PRESENCE_INTERVAL_MS, PRESENCE_TIMEOUT_MS, QUERY_TIMEOUT_MS};
use mc_status::decimal::u64_to_string;
use mc_status::formatter::format_status;
use mc_status::handlers::{presence_trace, presence_value, query_reply, status_message};
use mc_status::status::{classify_handshake, HandshakeResult, QueryOutcome};

fn online(latency: u64, online_count: u64, max_count: u64, players: &[&str]) -> QueryOutcome {
    QueryOutcome::Online {
        latency,
        online_count,
        max_count,
        sample_players: players.iter().map(|p| p.to_string()).collect(),
    }
}

#[test]
fn offline_message_ignores_player_flag() {
    let with = format_status(&QueryOutcome::Offline, true);
    let without = format_status(&QueryOutcome::Offline, false);
    assert_eq!(with, Some("❌ Server currently closed".to_string()));
    assert_eq!(without, Some("❌ Server currently closed".to_string()));
}

#[test]
fn empty_sample_falls_back_to_compact_form() {
    let o = online(120, 5, 20, &[]);
    let detailed = format_status(&o, true);
    let compact = format_status(&o, false);
    assert_eq!(detailed, Some("✅ 5 players online (latency: 120 ms)".to_string()));
    assert_eq!(detailed, compact);
}

#[test]
fn sampled_players_are_listed_line_by_line() {
    let o = online(80, 2, 20, &["Alice", "Bob"]);
    assert_eq!(
        format_status(&o, true),
        Some("✅ 2 players online (latency: 80 ms):\n- Alice\n- Bob".to_string())
    );
}

#[test]
fn single_player_gets_one_line() {
    let o = online(3, 1, 8, &["Zed"]);
    assert_eq!(
        format_status(&o, true),
        Some("✅ 1 players online (latency: 3 ms):\n- Zed".to_string())
    );
}

#[test]
fn compact_form_omits_players_even_when_sampled() {
    let o = online(80, 2, 20, &["Alice", "Bob"]);
    assert_eq!(format_status(&o, false), Some("✅ 2 players online (latency: 80 ms)".to_string()));
}

#[test]
fn player_order_is_kept_as_the_server_gave_it() {
    let o = online(9, 3, 10, &["Zed", "Al", "Mo"]);
    assert_eq!(
        format_status(&o, true),
        Some("✅ 3 players online (latency: 9 ms):\n- Zed\n- Al\n- Mo".to_string())
    );
}

#[test]
fn unreachable_formats_to_nothing() {
    assert_eq!(format_status(&QueryOutcome::Unreachable, true), None);
    assert_eq!(format_status(&QueryOutcome::Unreachable, false), None);
}

#[test]
fn failed_handshake_classifies_as_unreachable() {
    let o = classify_handshake(HandshakeResult::Failed, true);
    assert!(matches!(o, QueryOutcome::Unreachable));
    let o = classify_handshake(HandshakeResult::Failed, false);
    assert!(matches!(o, QueryOutcome::Unreachable));
}

#[test]
fn refused_handshake_classifies_as_offline() {
    let o = classify_handshake(HandshakeResult::Refused, true);
    assert!(matches!(o, QueryOutcome::Offline));
}

#[test]
fn completed_handshake_keeps_requested_sample() {
    let h = HandshakeResult::Completed {
        latency: 42,
        online_count: 2,
        max_count: 10,
        sample_players: Some(vec!["Alice".to_string(), "Bob".to_string()]),
    };
    match classify_handshake(h, true) {
        QueryOutcome::Online { latency, online_count, max_count, sample_players } => {
            assert_eq!(latency, 42);
            assert_eq!(online_count, 2);
            assert_eq!(max_count, 10);
            assert_eq!(sample_players, vec!["Alice".to_string(), "Bob".to_string()]);
        }
        _ => panic!("expected an online outcome"),
    }
}

#[test]
fn unrequested_sample_is_dropped() {
    let h = HandshakeResult::Completed {
        latency: 42,
        online_count: 2,
        max_count: 10,
        sample_players: Some(vec!["Alice".to_string()]),
    };
    match classify_handshake(h, false) {
        QueryOutcome::Online { sample_players, .. } => {
            assert!(sample_players.is_empty());
        }
        _ => panic!("expected an online outcome"),
    }
}

#[test]
fn missing_sample_means_empty_sample() {
    let h = HandshakeResult::Completed {
        latency: 7,
        online_count: 0,
        max_count: 10,
        sample_players: None,
    };
    match classify_handshake(h, true) {
        QueryOutcome::Online { sample_players, .. } => {
            assert!(sample_players.is_empty());
        }
        _ => panic!("expected an online outcome"),
    }
}

#[test]
fn unreachable_reply_is_the_fixed_fallback() {
    assert_eq!(
        query_reply(&QueryOutcome::Unreachable),
        "❌ Failed to retrieve server status".to_string()
    );
}

#[test]
fn reply_uses_detailed_form_when_online() {
    let o = online(80, 2, 20, &["Alice", "Bob"]);
    assert_eq!(query_reply(&o), "✅ 2 players online (latency: 80 ms):\n- Alice\n- Bob".to_string());
}

#[test]
fn reply_reports_closed_server() {
    assert_eq!(query_reply(&QueryOutcome::Offline), "❌ Server currently closed".to_string());
}

#[test]
fn unreachable_clears_presence() {
    assert_eq!(presence_value(&QueryOutcome::Unreachable), None);
}

#[test]
fn presence_shows_compact_form() {
    let o = online(120, 5, 20, &["Alice"]);
    assert_eq!(presence_value(&o), Some("✅ 5 players online (latency: 120 ms)".to_string()));
    assert_eq!(
        presence_value(&QueryOutcome::Offline),
        Some("❌ Server currently closed".to_string())
    );
}

#[test]
fn alternating_cycles_carry_nothing_over() {
    let cycles = vec![
        online(10, 4, 20, &[]),
        QueryOutcome::Offline,
        QueryOutcome::Unreachable,
        online(11, 1, 20, &["Alice"]),
        QueryOutcome::Unreachable,
        QueryOutcome::Offline,
    ];
    let values = presence_trace(&cycles);
    assert_eq!(
        values,
        vec![
            Some("✅ 4 players online (latency: 10 ms)".to_string()),
            Some("❌ Server currently closed".to_string()),
            None,
            Some("✅ 1 players online (latency: 11 ms)".to_string()),
            None,
            Some("❌ Server currently closed".to_string()),
        ]
    );
}

#[test]
fn status_message_mirrors_classification_and_formatting() {
    let h = HandshakeResult::Completed {
        latency: 80,
        online_count: 2,
        max_count: 10,
        sample_players: Some(vec!["Alice".to_string(), "Bob".to_string()]),
    };
    assert_eq!(
        status_message(h, true),
        Some("✅ 2 players online (latency: 80 ms):\n- Alice\n- Bob".to_string())
    );
    assert_eq!(
        status_message(HandshakeResult::Refused, true),
        Some("❌ Server currently closed".to_string())
    );
    assert_eq!(status_message(HandshakeResult::Failed, true), None);
    assert_eq!(status_message(HandshakeResult::Failed, false), None);
}

#[test]
fn decimal_rendering_is_exact() {
    assert_eq!(u64_to_string(0), "0".to_string());
    assert_eq!(u64_to_string(7), "7".to_string());
    assert_eq!(u64_to_string(10), "10".to_string());
    assert_eq!(u64_to_string(120), "120".to_string());
    assert_eq!(u64_to_string(2500), "2500".to_string());
    assert_eq!(u64_to_string(u64::MAX), "18446744073709551615".to_string());
}

#[test]
fn endpoint_rejects_only_the_empty_address() {
    assert!(ServerEndpoint::new(String::new()).is_none());
    let e = ServerEndpoint::new("mc.example.net:25565".to_string()).unwrap();
    assert_eq!(e.address(), "mc.example.net:25565");
}

#[test]
fn data_carries_the_endpoint_through() {
    let e = ServerEndpoint::new("mc.example.net".to_string()).unwrap();
    let d = Data::new(e);
    assert_eq!(d.endpoint().address(), "mc.example.net");
}

#[test]
fn timeouts_are_positive_and_distinct() {
    assert!(QUERY_TIMEOUT_MS > 0);
    assert!(PRESENCE_TIMEOUT_MS > 0);
    assert!(PRESENCE_INTERVAL_MS > 0);
    assert!(QUERY_TIMEOUT_MS < PRESENCE_TIMEOUT_MS);
}
