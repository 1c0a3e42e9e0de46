//! Local-only call network diagnostics.
//!
//! ZapFast has no voice/video call stack (call messages are shown as
//! unsupported), so there is no active call, no STUN/TURN session, and no
//! peer endpoint to inspect. This module reports exactly that, plus the one
//! thing the device can observe by itself: the local address its own routing
//! table would use, which the caller looks up and hands in. It performs no
//! network I/O and contacts no external service.
//!
//! GeoIP, ASN, and public-IP lookups are intentionally unimplemented: they
//! need an external database or API, which would send user data to a third
//! party. Any future provider must be explicit opt-in, and its results must
//! always be labelled approximate: an IP address never identifies an exact
//! physical location.
use vstd::prelude::*;

verus! {

/// A diagnostics row value. Anything the client cannot observe is an
/// explicit state, never a guess.
#[derive(Clone, Debug, PartialEq, Eq)]
pub enum DiagnosticValue {
    Text(String),
    Unknown,
    Unavailable(&'static str),
    Relayed,
}

impl DiagnosticValue {
    pub open spec fn label_text(&self) -> Seq<char> {
        match self {
            DiagnosticValue::Text(text) => text@,
            DiagnosticValue::Unknown => "Unknown"@,
            DiagnosticValue::Unavailable(_) => "Unavailable"@,
            DiagnosticValue::Relayed => "Relayed"@,
        }
    }

    pub fn label(&self) -> (r: &str)
        ensures
            r@ == self.label_text(),
    {
        match self {
            DiagnosticValue::Text(text) => text.as_str(),
            DiagnosticValue::Unknown => "Unknown",
            DiagnosticValue::Unavailable(_) => "Unavailable",
            DiagnosticValue::Relayed => "Relayed",
        }
    }

    /// The reason an unavailable value gives; no other value has one.
    pub open spec fn reason(&self) -> Option<&'static str> {
        match self {
            DiagnosticValue::Unavailable(reason) => Some(*reason),
            _ => None,
        }
    }

    pub fn detail(&self) -> (r: Option<&'static str>)
        ensures
            r == self.reason(),
    {
        match self {
            DiagnosticValue::Text(_) | DiagnosticValue::Unknown | DiagnosticValue::Relayed => None,
            DiagnosticValue::Unavailable(reason) => Some(reason),
        }
    }
}

/// Point-in-time snapshot rendered by the diagnostics panel.
#[derive(Clone, Debug)]
pub struct CallDiagnostics {
    pub call: DiagnosticValue,
    pub local: DiagnosticValue,
    pub connection_type: DiagnosticValue,
    pub public_ip: DiagnosticValue,
    pub asn_isp: DiagnosticValue,
    pub geo: DiagnosticValue,
    pub stun: DiagnosticValue,
    pub turn: DiagnosticValue,
    pub remote_peer: DiagnosticValue,
    pub updated_at: i64,
}

pub open spec fn remote_peer_detail_text() -> Seq<char> {
    "Peer IP unavailable: the call is being relayed, or there is no call. Relay server locations describe infrastructure, not people."@
}

impl CallDiagnostics {
    /// A snapshot taken at `now` (Unix seconds), given the local addresses that
    /// the device's routing table reported. Only the first address is shown;
    /// every row that would need a call or an external service says so.
    pub fn snapshot(local_addresses: &Vec<String>, now: i64) -> (r: Self)
        ensures
            r.call == DiagnosticValue::Unavailable(
                "Voice and video calls are not supported in ZapFast yet.",
            ),
            local_addresses@.len() > 0 ==> (r.local matches DiagnosticValue::Text(addr) && addr@
                == local_addresses@[0]@),
            local_addresses@.len() == 0 ==> r.local == DiagnosticValue::Unavailable(
                "No local route could be determined.",
            ),
            r.connection_type == DiagnosticValue::Unknown,
            r.public_ip == DiagnosticValue::Unavailable(
                "Determining it would query an external service, which ZapFast does not do.",
            ),
            r.asn_isp == DiagnosticValue::Unavailable(
                "Determining it would query an external service, which ZapFast does not do.",
            ),
            r.geo == DiagnosticValue::Unavailable(
                "No GeoIP provider is configured. An IP address only ever indicates an approximate network location, never an exact address.",
            ),
            r.stun == DiagnosticValue::Unavailable("No call means no STUN session."),
            r.turn == DiagnosticValue::Unavailable("No call means no TURN session."),
            r.remote_peer == DiagnosticValue::Relayed,
            r.updated_at == now,
    {
        let local = if local_addresses.len() > 0 {
            DiagnosticValue::Text(local_addresses[0].clone())
        } else {
            DiagnosticValue::Unavailable("No local route could be determined.")
        };
        CallDiagnostics {
            call: DiagnosticValue::Unavailable(
                "Voice and video calls are not supported in ZapFast yet.",
            ),
            local,
            connection_type: DiagnosticValue::Unknown,
            public_ip: DiagnosticValue::Unavailable(
                "Determining it would query an external service, which ZapFast does not do.",
            ),
            asn_isp: DiagnosticValue::Unavailable(
                "Determining it would query an external service, which ZapFast does not do.",
            ),
            geo: DiagnosticValue::Unavailable(
                "No GeoIP provider is configured. An IP address only ever indicates an approximate network location, never an exact address.",
            ),
            stun: DiagnosticValue::Unavailable("No call means no STUN session."),
            turn: DiagnosticValue::Unavailable("No call means no TURN session."),
            remote_peer: DiagnosticValue::Relayed,
            updated_at: now,
        }
    }

    /// Peer endpoint explanation. Never substitute relay infrastructure for
    /// either party's location or identity.
    pub fn remote_peer_detail() -> (r: &'static str)
        ensures
            r@ == remote_peer_detail_text(),
    {
        "Peer IP unavailable: the call is being relayed, or there is no call. Relay server locations describe infrastructure, not people."
    }
}

} // verus!
