use zapfast::call_diagnostics::{CallDiagnostics, DiagnosticValue};
use zapfast::panel::{diagnostic_detail, diagnostic_rows};

fn probed() -> Vec<String> {
    vec!["192.168.1.23".to_string()]
}

#[test]
fn snapshot_never_claims_a_call_or_a_peer() {
    let diagnostics = CallDiagnostics::snapshot(&probed(), 1_700_000_000);
    assert_eq!(diagnostics.call.label(), "Unavailable");
    assert_eq!(diagnostics.remote_peer.label(), "Relayed");
    assert_eq!(diagnostics.stun.label(), "Unavailable");
    assert_eq!(diagnostics.turn.label(), "Unavailable");
    assert_eq!(diagnostics.public_ip.label(), "Unavailable");
    assert_eq!(diagnostics.asn_isp.label(), "Unavailable");
    assert_eq!(diagnostics.geo.label(), "Unavailable");
    assert_eq!(diagnostics.connection_type.label(), "Unknown");
}

#[test]
fn relay_wording_never_substitutes_infrastructure_for_people() {
    let detail = CallDiagnostics::remote_peer_detail();
    assert!(detail.contains("Peer IP unavailable"));
    assert!(detail.contains("relayed"));
}

#[test]
fn local_probing_never_panics_and_stays_textual() {
    // Sandboxes may have no route; both outcomes are honest states.
    for addrs in [probed(), Vec::new()] {
        assert!(addrs.len() <= 1);
        let diagnostics = CallDiagnostics::snapshot(&addrs, 0);
        match &diagnostics.local {
            DiagnosticValue::Text(addr) => assert!(!addr.is_empty()),
            DiagnosticValue::Unavailable(_) => {}
            other => panic!("unexpected local state: {other:?}"),
        }
    }
}

#[test]
fn labels_stay_free_of_em_dashes() {
    // User-facing writing uses commas, colons, parentheses, or full stops.
    for value in [
        DiagnosticValue::Text("x".into()),
        DiagnosticValue::Unknown,
        DiagnosticValue::Unavailable("reason"),
        DiagnosticValue::Relayed,
    ] {
        assert!(!value.label().contains('\u{2014}'));
        assert!(!value.label().contains('\u{2013}'));
    }
    let detail = CallDiagnostics::remote_peer_detail();
    assert!(!detail.contains('\u{2014}'));
    assert!(!detail.contains('\u{2013}'));
}

#[test]
fn snapshot_shows_the_first_local_address() {
    let addrs = vec!["10.0.0.2".to_string(), "10.0.0.3".to_string()];
    let diagnostics = CallDiagnostics::snapshot(&addrs, 42);
    assert_eq!(diagnostics.local, DiagnosticValue::Text("10.0.0.2".into()));
    assert_eq!(diagnostics.updated_at, 42);
    let none = CallDiagnostics::snapshot(&Vec::new(), 7);
    assert_eq!(
        none.local,
        DiagnosticValue::Unavailable("No local route could be determined.")
    );
    assert_eq!(none.local.detail(), Some("No local route could be determined."));
}

#[test]
fn snapshot_reasons_are_explicit() {
    let diagnostics = CallDiagnostics::snapshot(&probed(), 0);
    assert_eq!(
        diagnostics.call.detail(),
        Some("Voice and video calls are not supported in ZapFast yet.")
    );
    assert_eq!(
        diagnostics.public_ip.detail(),
        Some("Determining it would query an external service, which ZapFast does not do.")
    );
    assert_eq!(diagnostics.stun.detail(), Some("No call means no STUN session."));
    assert_eq!(diagnostics.turn.detail(), Some("No call means no TURN session."));
    assert_eq!(diagnostics.remote_peer, DiagnosticValue::Relayed);
    assert_eq!(diagnostics.connection_type.detail(), None);
    assert_eq!(diagnostics.local.detail(), None);
    assert_eq!(diagnostics.local.label(), "192.168.1.23");
}

#[test]
fn detail_lines_join_label_reason_and_note() {
    assert_eq!(
        diagnostic_detail(&DiagnosticValue::Unavailable("No route."), None),
        "Unavailable: No route."
    );
    assert_eq!(
        diagnostic_detail(&DiagnosticValue::Unavailable("No route."), Some("Local only.")),
        "Unavailable: No route.: Local only."
    );
    assert_eq!(
        diagnostic_detail(&DiagnosticValue::Text("10.0.0.2".into()), Some("Observed.")),
        "10.0.0.2: Observed."
    );
    assert_eq!(diagnostic_detail(&DiagnosticValue::Unknown, None), "Unknown");
    let relayed = diagnostic_detail(&DiagnosticValue::Relayed, None);
    assert_eq!(
        relayed,
        format!("Relayed: {}", CallDiagnostics::remote_peer_detail())
    );
    // A relayed row with its own note does not repeat the relay explanation.
    assert_eq!(
        diagnostic_detail(&DiagnosticValue::Relayed, Some("Own note.")),
        "Relayed: Own note."
    );
}

#[test]
fn rows_follow_the_panel_order() {
    let diagnostics = CallDiagnostics::snapshot(&probed(), 0);
    let rows = diagnostic_rows(&diagnostics);
    let titles: Vec<_> = rows.iter().map(|row| row.title).collect();
    assert_eq!(
        titles,
        [
            "Call state",
            "Local address",
            "Connection type",
            "Public IP",
            "ASN / ISP",
            "Approximate location (GeoIP)",
            "STUN",
            "TURN / relay",
            "Remote peer"
        ]
    );
    assert_eq!(
        rows[0].detail,
        "Unavailable: Voice and video calls are not supported in ZapFast yet."
    );
    assert_eq!(
        rows[1].detail,
        "192.168.1.23: Observed from this device's own routing table. No traffic was sent to learn it."
    );
    assert_eq!(
        rows[2].detail,
        "Unknown: Cannot be determined without platform network APIs, so it is not guessed."
    );
    assert_eq!(
        rows[8].detail,
        format!("Relayed: {}", CallDiagnostics::remote_peer_detail())
    );
    for row in &rows {
        assert!(!row.detail.contains('\u{2014}'));
        assert!(!row.detail.contains('\u{2013}'));
    }
}
