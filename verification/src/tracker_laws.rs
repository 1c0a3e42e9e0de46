//! Properties of the activity tracker that span several calls.
use vstd::prelude::*;
use crate::activity::{
    ActivityEvent, ActivityEventKind, ActivityState, TargetView, TrackerView, MAX_HISTORY,
    MIN_DIGITS,
};
use crate::activity;
use crate::phone;
use crate::text;

verus! {

/// Starting the target that is already monitored is a no-op that reports `false`.
pub proof fn restarting_same_target_is_noop(v: TrackerView, target: TargetView, first: i64, again: i64)
    ensures
        v.started(target, first).0.started(target, again) == (v.started(target, first).0, false),
{
}

/// After a stop, starting any target begins a fresh session whose timeline
/// holds only the start.
pub proof fn start_after_stop_is_fresh(v: TrackerView, target: TargetView, now: i64)
    ensures
        v.stopped().started(target, now).1,
        v.stopped().started(target, now).0.history == seq![
            ActivityEvent { at: now, kind: ActivityEventKind::Started },
        ],
        v.stopped().started(target, now).0.last_state == ActivityState::Unknown,
{
}

/// A repeated presence report adds nothing: once a report has been noted,
/// the same report again returns `None` and leaves the tracker as it is.
pub proof fn repeated_presence_is_silent(
    v: TrackerView,
    id: Seq<char>,
    online: bool,
    first: i64,
    again: i64,
)
    ensures
        v.after_presence(id, online, first).0.after_presence(id, online, again) == (
            v.after_presence(id, online, first).0,
            None::<ActivityState>,
        ),
{
}

/// Presence drives the state and the timeline once per change: a report is
/// either silent and changes nothing, or returns the new state, which is then
/// the tracker's state, and appends exactly the matching entry.
pub proof fn presence_records_once_per_change(v: TrackerView, id: Seq<char>, online: bool, now: i64)
    ensures
        v.after_presence(id, online, now).1 is None ==> v.after_presence(id, online, now).0 == v,
        v.after_presence(id, online, now).1 is Some ==> {
            let w = v.after_presence(id, online, now).0;
            &&& v.after_presence(id, online, now).1 == Some(activity::presence_state(online))
            &&& v.last_state != activity::presence_state(online)
            &&& w.last_state == activity::presence_state(online)
            &&& w.last_change_at == Some(now)
            &&& w.history == activity::capped_history(
                v.history.push(ActivityEvent { at: now, kind: activity::presence_change_kind(online) }),
            )
        },
{
}

/// Other contacts never leak into the session: reports about a chat that is
/// not monitored change nothing.
pub proof fn other_chats_never_leak(v: TrackerView, id: Seq<char>, online: bool, now: i64)
    requires
        !v.watches(id),
    ensures
        v.after_presence(id, online, now) == (v, None::<ActivityState>),
        v.after_typing(id, now) == v,
{
}

/// Monitoring never starts by itself: presence and typing keep the target,
/// the input and the notification switch; stopping always ends monitoring.
pub proof fn monitoring_never_starts_by_itself(v: TrackerView, id: Seq<char>, online: bool, now: i64)
    ensures
        v.after_presence(id, online, now).0.target == v.target,
        v.after_presence(id, online, now).0.input == v.input,
        v.after_presence(id, online, now).0.notify_on_change == v.notify_on_change,
        v.after_typing(id, now).target == v.target,
        v.after_typing(id, now).input == v.input,
        v.after_typing(id, now).notify_on_change == v.notify_on_change,
        !v.stopped().monitoring(),
        v.stopped().history.len() == 0,
        v.stopped().last_state == ActivityState::Unknown,
{
}

/// Typing updates the last activity without changing the state.
pub proof fn typing_keeps_state(v: TrackerView, id: Seq<char>, now: i64)
    ensures
        v.after_typing(id, now).last_state == v.last_state,
        v.after_typing(id, now).last_change_at == v.last_change_at,
        v.watches(id) ==> v.after_typing(id, now).last_typing_at == Some(now),
{
}

/// Consecutive typing bursts collapse into one timeline entry.
pub proof fn consecutive_typing_collapses(v: TrackerView, id: Seq<char>, first: i64, again: i64)
    requires
        v.watches(id),
    ensures
        v.after_typing(id, first).ends_with_typing(),
        v.after_typing(id, first).after_typing(id, again).history == v.after_typing(
            id,
            first,
        ).history,
{
    if !v.ends_with_typing() {
        let full = v.history.push(ActivityEvent { at: first, kind: ActivityEventKind::TypingSeen });
        let h = activity::capped_history(full);
        assert(h.last() == full.last());
    }
}

/// The timeline never holds more than [`MAX_HISTORY`] entries: every
/// operation keeps a tracker within the cap.
pub proof fn history_stays_capped(
    v: TrackerView,
    target: TargetView,
    id: Seq<char>,
    online: bool,
    now: i64,
)
    requires
        v.history.len() <= MAX_HISTORY,
    ensures
        v.started(target, now).0.history.len() <= MAX_HISTORY,
        v.stopped().history.len() <= MAX_HISTORY,
        v.after_presence(id, online, now).0.history.len() <= MAX_HISTORY,
        v.after_typing(id, now).history.len() <= MAX_HISTORY,
{
}

/// The monitoring screen is ready exactly when its input parses.
pub proof fn ready_exactly_when_parsed(input: Seq<char>)
    ensures
        (text::ascii_digits(input).len() >= MIN_DIGITS) <==> activity::monitor_target_of(input) is Some,
{
}

/// A parsed input names a person's chat whose number is the input's digits,
/// so the number a monitor starts on is the number its label shows.
pub proof fn parsed_target_names_its_digits(input: Seq<char>)
    requires
        activity::monitor_target_of(input) is Some,
    ensures
        phone::phone_in_id(activity::monitor_target_of(input)->0) == Some(text::ascii_digits(input)),
{
    let d = text::ascii_digits(input);
    let id = d + phone::user_server();
    let n = id.len() - phone::user_server().len();
    assert(n == d.len());
    assert(id.skip(n) =~= phone::user_server());
    assert(id.take(n) =~= d);
    assert forall|i: int| 0 <= i < d.len() implies text::is_ascii_digit(#[trigger] d[i]) by {
        input.lemma_filter_pred(|c: char| text::is_ascii_digit(c), i);
    }
    assert(text::all_ascii_digits(id.take(n)));
}

/// Appending to the timeline puts the new entry last and keeps the newest
/// earlier entries in order, up to the cap.
proof fn appended_entry_is_newest(h: Seq<ActivityEvent>, e: ActivityEvent)
    ensures
        activity::capped_history(h.push(e)).len() == if h.len() < MAX_HISTORY {
            h.len() + 1
        } else {
            MAX_HISTORY as nat
        },
        activity::capped_history(h.push(e)).last() == e,
        forall|i: int|
            0 <= i < activity::capped_history(h.push(e)).len() - 1 ==> #[trigger] activity::capped_history(
                h.push(e),
            )[i] == h[h.len() + 1 - activity::capped_history(h.push(e)).len() + i],
{
}

/// A report for the monitored chat whose state (online is Active, offline
/// is Inactive) differs from the current one is never silent: it returns that
/// state, makes it current at `now`, and appends the matching entry stamped
/// `now`, keeping the older entries in order.
pub proof fn differing_presence_is_recorded(v: TrackerView, id: Seq<char>, online: bool, now: i64)
    requires
        v.target matches Some(t) && t.id == id,
        (if online { ActivityState::Active } else { ActivityState::Inactive }) != v.last_state,
    ensures
        ({
            let (w, r) = v.after_presence(id, online, now);
            let state = if online { ActivityState::Active } else { ActivityState::Inactive };
            let kind = if online {
                ActivityEventKind::BecameActive
            } else {
                ActivityEventKind::BecameInactive
            };
            &&& r == Some(state)
            &&& w.last_state == state
            &&& w.last_change_at == Some(now)
            &&& w.last_typing_at == v.last_typing_at
            &&& w.target == v.target
            &&& w.history.len() == if v.history.len() < MAX_HISTORY {
                v.history.len() + 1
            } else {
                MAX_HISTORY as nat
            }
            &&& w.history.last() == ActivityEvent { at: now, kind }
            &&& forall|i: int|
                0 <= i < w.history.len() - 1 ==> #[trigger] w.history[i] == v.history[v.history.len()
                    + 1 - w.history.len() + i]
        }),
{
    let kind = if online { ActivityEventKind::BecameActive } else { ActivityEventKind::BecameInactive };
    appended_entry_is_newest(v.history, ActivityEvent { at: now, kind });
}

/// A report that matches the current state, or that is about another chat,
/// returns nothing and changes nothing.
pub proof fn same_or_foreign_presence_is_silent(v: TrackerView, id: Seq<char>, online: bool, now: i64)
    requires
        !(v.target matches Some(t) && t.id == id) || (if online {
            ActivityState::Active
        } else {
            ActivityState::Inactive
        }) == v.last_state,
    ensures
        v.after_presence(id, online, now) == (v, None::<ActivityState>),
{
}

/// A typing burst in the monitored chat sets the last typing time to `now`;
/// when it adds an entry (the newest entry is not already a typing entry),
/// that entry is a typing entry stamped `now` and the older entries stay in
/// order; otherwise the timeline is unchanged.
pub proof fn typing_entry_carries_its_time(v: TrackerView, id: Seq<char>, now: i64)
    requires
        v.target matches Some(t) && t.id == id,
    ensures
        v.after_typing(id, now).last_typing_at == Some(now),
        v.after_typing(id, now).last_state == v.last_state,
        v.after_typing(id, now).last_change_at == v.last_change_at,
        (v.history.len() > 0 && v.history.last().kind == ActivityEventKind::TypingSeen)
            ==> v.after_typing(id, now).history == v.history,
        !(v.history.len() > 0 && v.history.last().kind == ActivityEventKind::TypingSeen) ==> {
            let h = v.after_typing(id, now).history;
            &&& h.len() == if v.history.len() < MAX_HISTORY {
                v.history.len() + 1
            } else {
                MAX_HISTORY as nat
            }
            &&& h.last() == ActivityEvent { at: now, kind: ActivityEventKind::TypingSeen }
            &&& forall|i: int|
                0 <= i < h.len() - 1 ==> #[trigger] h[i] == v.history[v.history.len() + 1 - h.len()
                    + i]
        },
{
    appended_entry_is_newest(
        v.history,
        ActivityEvent { at: now, kind: ActivityEventKind::TypingSeen },
    );
}

/// The last activity is the latest observation: absent only when neither a
/// typing burst nor a state change was seen, never earlier than either, and
/// always one of them.
pub proof fn last_activity_is_latest_observation(v: TrackerView)
    ensures
        v.last_activity_at() is None <==> (v.last_typing_at is None && v.last_change_at is None),
        v.last_typing_at matches Some(t) ==> (v.last_activity_at() matches Some(x) && x >= t),
        v.last_change_at matches Some(c) ==> (v.last_activity_at() matches Some(x) && x >= c),
        v.last_activity_at() matches Some(x) ==> (v.last_typing_at == Some(x)
            || v.last_change_at == Some(x)),
{
}

/// Starting a target other than the monitored one always succeeds and begins
/// a fresh session on it: unknown state, no observations, and a timeline that
/// holds only the start stamped `now`; the input and the notification switch
/// are kept.
pub proof fn starting_new_target_begins_fresh(v: TrackerView, target: TargetView, now: i64)
    requires
        v.target != Some(target),
    ensures
        ({
            let (w, r) = v.started(target, now);
            &&& r
            &&& w.target == Some(target)
            &&& w.last_state == ActivityState::Unknown
            &&& w.last_change_at is None
            &&& w.last_typing_at is None
            &&& w.history.len() == 1
            &&& w.history[0] == ActivityEvent { at: now, kind: ActivityEventKind::Started }
            &&& w.input == v.input
            &&& w.notify_on_change == v.notify_on_change
        }),
{
}

/// Stopping ends monitoring and clears the session, keeping only the input
/// and the notification switch.
pub proof fn stop_clears_the_session(v: TrackerView)
    ensures
        v.stopped().target is None,
        v.stopped().history.len() == 0,
        v.stopped().last_state == ActivityState::Unknown,
        v.stopped().last_change_at is None,
        v.stopped().last_typing_at is None,
        v.stopped().input == v.input,
        v.stopped().notify_on_change == v.notify_on_change,
{
}

} // verus!
