//! What the experimental tools page shows for the call diagnostics: one row
//! per observation, with its title and a one-line explanation.
use vstd::prelude::*;
use crate::call_diagnostics::{CallDiagnostics, DiagnosticValue};
use crate::call_diagnostics;
use vstd::string::StringExecFns;

verus! {

/// `": "` followed by `note`.
pub open spec fn note_text(note: Seq<char>) -> Seq<char> {
    ": "@ + note
}

/// The explanation of a diagnostics row: the value's label, then its reason
/// when it is unavailable, then the row's own note, then, for a relayed peer
/// without a note of its own, the relay explanation; each after `": "`.
pub open spec fn diagnostic_detail_text(value: DiagnosticValue, extra: Option<Seq<char>>) -> Seq<char> {
    value.label_text() + match value.reason() {
        Some(reason) => note_text(reason@),
        None => Seq::empty(),
    } + match extra {
        Some(note) => note_text(note),
        None => Seq::empty(),
    } + if value is Relayed && extra is None {
        note_text(call_diagnostics::remote_peer_detail_text())
    } else {
        Seq::empty()
    }
}

/// The explanation line of a diagnostics row.
pub fn diagnostic_detail(value: &DiagnosticValue, extra: Option<&str>) -> (r: String)
    ensures
        r@ == diagnostic_detail_text(
            *value,
            match extra {
                Some(note) => Some(note@),
                None => None,
            },
        ),
{
    let mut detail = value.label().to_owned();
    let ghost after_label = detail@;
    if let Some(reason) = value.detail() {
        detail.append(": ");
        detail.append(reason);
    }
    let ghost after_reason = detail@;
    if let Some(note) = extra {
        detail.append(": ");
        detail.append(note);
    }
    let ghost after_extra = detail@;
    let relayed = match value {
        DiagnosticValue::Relayed => true,
        _ => false,
    };
    if relayed && extra.is_none() {
        detail.append(": ");
        detail.append(CallDiagnostics::remote_peer_detail());
    }
    proof {
        let ex = match extra {
            Some(note) => Some(note@),
            None => None,
        };
        let a = match value.reason() {
            Some(reason) => note_text(reason@),
            None => Seq::<char>::empty(),
        };
        let b = match ex {
            Some(note) => note_text(note),
            None => Seq::<char>::empty(),
        };
        let c = if *value is Relayed && ex is None {
            note_text(call_diagnostics::remote_peer_detail_text())
        } else {
            Seq::<char>::empty()
        };
        assert(after_reason =~= after_label + a);
        assert(after_extra =~= after_label + a + b);
        assert(detail@ =~= after_label + a + b + c);
    }
    detail
}

/// One row of the diagnostics panel.
pub struct DiagnosticRow {
    pub title: &'static str,
    pub detail: String,
}

/// The row a title, a value and an optional note give.
pub open spec fn is_row(
    row: DiagnosticRow,
    title: Seq<char>,
    value: DiagnosticValue,
    extra: Option<Seq<char>>,
) -> bool {
    &&& row.title@ == title
    &&& row.detail@ == diagnostic_detail_text(value, extra)
}

fn row(title: &'static str, value: &DiagnosticValue, extra: Option<&str>) -> (r: DiagnosticRow)
    ensures
        is_row(
            r,
            title@,
            *value,
            match extra {
                Some(note) => Some(note@),
                None => None,
            },
        ),
{
    DiagnosticRow { title, detail: diagnostic_detail(value, extra) }
}

/// The rows of the diagnostics panel for a snapshot, top to bottom.
pub fn diagnostic_rows(snapshot: &CallDiagnostics) -> (rows: Vec<DiagnosticRow>)
    ensures
        rows@.len() == 9,
        is_row(rows@[0], "Call state"@, snapshot.call, None),
        is_row(
            rows@[1],
            "Local address"@,
            snapshot.local,
            Some(
                "Observed from this device's own routing table. No traffic was sent to learn it."@,
            ),
        ),
        is_row(
            rows@[2],
            "Connection type"@,
            snapshot.connection_type,
            Some("Cannot be determined without platform network APIs, so it is not guessed."@),
        ),
        is_row(rows@[3], "Public IP"@, snapshot.public_ip, None),
        is_row(rows@[4], "ASN / ISP"@, snapshot.asn_isp, None),
        is_row(rows@[5], "Approximate location (GeoIP)"@, snapshot.geo, None),
        is_row(rows@[6], "STUN"@, snapshot.stun, None),
        is_row(rows@[7], "TURN / relay"@, snapshot.turn, None),
        is_row(rows@[8], "Remote peer"@, snapshot.remote_peer, Some(call_diagnostics::remote_peer_detail_text())),
{
    let mut rows: Vec<DiagnosticRow> = Vec::new();
    rows.push(row("Call state", &snapshot.call, None));
    rows.push(
        row(
            "Local address",
            &snapshot.local,
            Some(
                "Observed from this device's own routing table. No traffic was sent to learn it.",
            ),
        ),
    );
    rows.push(
        row(
            "Connection type",
            &snapshot.connection_type,
            Some("Cannot be determined without platform network APIs, so it is not guessed."),
        ),
    );
    rows.push(row("Public IP", &snapshot.public_ip, None));
    rows.push(row("ASN / ISP", &snapshot.asn_isp, None));
    rows.push(row("Approximate location (GeoIP)", &snapshot.geo, None));
    rows.push(row("STUN", &snapshot.stun, None));
    rows.push(row("TURN / relay", &snapshot.turn, None));
    rows.push(row("Remote peer", &snapshot.remote_peer, Some(CallDiagnostics::remote_peer_detail())));
    rows
}

/// Free of em dashes and en dashes: user-facing writing uses commas, colons,
/// parentheses, or full stops.
pub open spec fn free_of_long_dashes(s: Seq<char>) -> bool {
    !s.contains('\u{2014}') && !s.contains('\u{2013}')
}

proof fn concat_free_of_long_dashes(a: Seq<char>, b: Seq<char>)
    requires
        free_of_long_dashes(a),
        free_of_long_dashes(b),
    ensures
        free_of_long_dashes(a + b),
{
    assert forall|c: char| (a + b).contains(c) implies a.contains(c) || b.contains(c) by {
        let i = choose|i: int| 0 <= i < (a + b).len() && (a + b)[i] == c;
        if i < a.len() {
            assert(a[i] == c);
        } else {
            assert(b[i - a.len()] == c);
        }
    }
}

/// A diagnostics label uses no long dash, unless it is observed text that
/// holds one.
pub proof fn labels_free_of_long_dashes(value: DiagnosticValue)
    requires
        value matches DiagnosticValue::Text(text) ==> free_of_long_dashes(text@),
    ensures
        free_of_long_dashes(value.label_text()),
{
    reveal_strlit("Unknown");
    reveal_strlit("Unavailable");
    reveal_strlit("Relayed");
}

/// The relay explanation uses no long dash.
pub proof fn relay_wording_free_of_long_dashes()
    ensures
        free_of_long_dashes(call_diagnostics::remote_peer_detail_text()),
{
    reveal_strlit(
        "Peer IP unavailable: the call is being relayed, or there is no call. Relay server locations describe infrastructure, not people.",
    );
}

/// A row's explanation uses no long dash when the observed text, the reason
/// and the note use none.
pub proof fn details_free_of_long_dashes(value: DiagnosticValue, extra: Option<Seq<char>>)
    requires
        value matches DiagnosticValue::Text(text) ==> free_of_long_dashes(text@),
        value.reason() matches Some(reason) ==> free_of_long_dashes(reason@),
        extra matches Some(note) ==> free_of_long_dashes(note),
    ensures
        free_of_long_dashes(diagnostic_detail_text(value, extra)),
{
    reveal_strlit(": ");
    let sep = ": "@;
    let empty = Seq::<char>::empty();
    assert(free_of_long_dashes(empty));
    assert(free_of_long_dashes(sep));
    labels_free_of_long_dashes(value);
    relay_wording_free_of_long_dashes();
    let a = match value.reason() {
        Some(reason) => note_text(reason@),
        None => empty,
    };
    let b = match extra {
        Some(note) => note_text(note),
        None => empty,
    };
    let c = if value is Relayed && extra is None {
        note_text(call_diagnostics::remote_peer_detail_text())
    } else {
        empty
    };
    if let Some(reason) = value.reason() {
        concat_free_of_long_dashes(sep, reason@);
    }
    if let Some(note) = extra {
        concat_free_of_long_dashes(sep, note);
    }
    concat_free_of_long_dashes(sep, call_diagnostics::remote_peer_detail_text());
    concat_free_of_long_dashes(value.label_text(), a);
    concat_free_of_long_dashes(value.label_text() + a, b);
    concat_free_of_long_dashes(value.label_text() + a + b, c);
}

/// A row's explanation starts with the value's label; a row's own note is
/// always its last part; an unavailable value without a note ends with its
/// reason; a relayed peer without a note ends with the relay explanation; and
/// any other value without a note is shown by its label alone.
pub proof fn detail_line_parts(value: DiagnosticValue, extra: Option<Seq<char>>)
    ensures
        diagnostic_detail_text(value, extra).take(value.label_text().len() as int)
            == value.label_text(),
        extra matches Some(note) ==> diagnostic_detail_text(value, extra).skip(
            diagnostic_detail_text(value, extra).len() - note.len() - 2,
        ) == ": "@ + note,
        extra is None ==> (value matches DiagnosticValue::Unavailable(reason)
            ==> diagnostic_detail_text(value, extra) == value.label_text() + ": "@ + reason@),
        (value is Relayed && extra is None) ==> diagnostic_detail_text(value, extra)
            == value.label_text() + ": "@ + call_diagnostics::remote_peer_detail_text(),
        (!(value is Relayed) && !(value is Unavailable) && extra is None) ==> diagnostic_detail_text(
            value,
            extra,
        ) == value.label_text(),
{
    reveal_strlit(": ");
    let d = diagnostic_detail_text(value, extra);
    assert(d.take(value.label_text().len() as int) =~= value.label_text());
    if let Some(note) = extra {
        let a = match value.reason() {
            Some(reason) => note_text(reason@),
            None => Seq::<char>::empty(),
        };
        assert(d =~= (value.label_text() + a) + (": "@ + note));
        assert(d.skip(d.len() - note.len() - 2) =~= ": "@ + note);
    }
}

} // verus!
