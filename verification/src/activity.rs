//! Opt-in device activity tracking from WhatsApp presence.
//!
//! The tracker records only what WhatsApp already exposes for a subscribed
//! chat: online state, last-seen timestamps, and typing indicators. Anything
//! hidden by the contact's privacy settings, or never delivered, stays
//! [`ActivityState::Unknown`]. Monitoring is session-only: it never starts by
//! itself and stops when the target is cleared. No polling, no bypasses.
use vstd::prelude::*;
use crate::phone;
use crate::text;
use vstd::string::StringExecFns;

verus! {

/// How many timeline entries are kept per monitored number.
pub const MAX_HISTORY: usize = 50;

/// Minimum digits for a monitorable phone number, like the new-contact dialog.
pub const MIN_DIGITS: usize = 7;

/// Observable activity state of a monitored number.
#[derive(Clone, Copy, Debug, PartialEq, Eq, Structural)]
pub enum ActivityState {
    Active,
    Inactive,
    Unknown,
}

impl Default for ActivityState {
    /// Nothing is known before the first presence update.
    fn default() -> (r: Self)
        ensures
            r == ActivityState::Unknown,
    {
        ActivityState::Unknown
    }
}

impl ActivityState {
    pub open spec fn label_text(self) -> Seq<char> {
        match self {
            ActivityState::Active => "Active"@,
            ActivityState::Inactive => "Inactive"@,
            ActivityState::Unknown => "Unknown"@,
        }
    }

    pub fn label(self) -> (r: &'static str)
        ensures
            r@ == self.label_text(),
    {
        match self {
            ActivityState::Active => "Active",
            ActivityState::Inactive => "Inactive",
            ActivityState::Unknown => "Unknown",
        }
    }

    pub open spec fn detail_text(self) -> Seq<char> {
        match self {
            ActivityState::Active => "Online now, as reported by WhatsApp."@,
            ActivityState::Inactive => "Offline, or hidden by their privacy settings."@,
            ActivityState::Unknown => "No presence data yet. Start monitoring and wait for an update."@,
        }
    }

    /// Honest one-line meaning. Inactive explicitly includes privacy-hiding
    /// because WhatsApp reports those contacts as offline.
    pub fn detail(self) -> (r: &'static str)
        ensures
            r@ == self.detail_text(),
    {
        match self {
            ActivityState::Active => "Online now, as reported by WhatsApp.",
            ActivityState::Inactive => "Offline, or hidden by their privacy settings.",
            ActivityState::Unknown => "No presence data yet. Start monitoring and wait for an update.",
        }
    }
}

/// One timeline entry.
#[derive(Clone, Copy, Debug, PartialEq, Eq, Structural)]
pub enum ActivityEventKind {
    Started,
    BecameActive,
    BecameInactive,
    TypingSeen,
    Stopped,
}

impl ActivityEventKind {
    pub open spec fn label_text(self) -> Seq<char> {
        match self {
            ActivityEventKind::Started => "Monitoring started"@,
            ActivityEventKind::BecameActive => "Became active"@,
            ActivityEventKind::BecameInactive => "Became inactive"@,
            ActivityEventKind::TypingSeen => "Typing"@,
            ActivityEventKind::Stopped => "Monitoring stopped"@,
        }
    }

    pub fn label(self) -> (r: &'static str)
        ensures
            r@ == self.label_text(),
    {
        match self {
            ActivityEventKind::Started => "Monitoring started",
            ActivityEventKind::BecameActive => "Became active",
            ActivityEventKind::BecameInactive => "Became inactive",
            ActivityEventKind::TypingSeen => "Typing",
            ActivityEventKind::Stopped => "Monitoring stopped",
        }
    }
}

/// Timestamped timeline entry (Unix seconds, like the archive).
#[derive(Clone, Copy, Debug, PartialEq, Eq, Structural)]
pub struct ActivityEvent {
    pub at: i64,
    pub kind: ActivityEventKind,
}

/// Number under observation.
#[derive(Clone, Debug, PartialEq, Eq)]
pub struct MonitoredTarget {
    /// Canonical chat id (`<digits>@s.whatsapp.net`).
    pub id: String,
    /// Display name: address-book name when known, else formatted number.
    pub label: String,
}

/// What a [`MonitoredTarget`] holds, as texts.
pub struct TargetView {
    pub id: Seq<char>,
    pub label: Seq<char>,
}

impl View for MonitoredTarget {
    type V = TargetView;

    open spec fn view(&self) -> TargetView {
        TargetView { id: self.id@, label: self.label@ }
    }
}

/// Session-only activity monitor. The views read this; the application
/// feeds it from presence and typing events.
#[derive(Clone, Debug)]
pub struct ActivityTracker {
    /// Raw number input from the monitoring screen.
    pub input: String,
    pub target: Option<MonitoredTarget>,
    pub notify_on_change: bool,
    pub history: Vec<ActivityEvent>,
    pub last_state: ActivityState,
    pub last_change_at: Option<i64>,
    pub last_typing_at: Option<i64>,
}

/// What an [`ActivityTracker`] holds, with texts and the timeline as sequences.
#[verifier::ext_equal]
pub struct TrackerView {
    pub input: Seq<char>,
    pub target: Option<TargetView>,
    pub notify_on_change: bool,
    pub history: Seq<ActivityEvent>,
    pub last_state: ActivityState,
    pub last_change_at: Option<i64>,
    pub last_typing_at: Option<i64>,
}

impl View for ActivityTracker {
    type V = TrackerView;

    open spec fn view(&self) -> TrackerView {
        TrackerView {
            input: self.input@,
            target: match self.target {
                Some(t) => Some(t@),
                None => None,
            },
            notify_on_change: self.notify_on_change,
            history: self.history@,
            last_state: self.last_state,
            last_change_at: self.last_change_at,
            last_typing_at: self.last_typing_at,
        }
    }
}

/// The timeline after an append: the newest [`MAX_HISTORY`] entries.
pub open spec fn capped_history(h: Seq<ActivityEvent>) -> Seq<ActivityEvent> {
    if h.len() > MAX_HISTORY {
        h.skip(h.len() - MAX_HISTORY)
    } else {
        h
    }
}

/// The state a presence report means.
pub open spec fn presence_state(online: bool) -> ActivityState {
    if online {
        ActivityState::Active
    } else {
        ActivityState::Inactive
    }
}

/// The timeline entry a change to that state records.
pub open spec fn presence_change_kind(online: bool) -> ActivityEventKind {
    if online {
        ActivityEventKind::BecameActive
    } else {
        ActivityEventKind::BecameInactive
    }
}

impl TrackerView {
    pub open spec fn monitoring(self) -> bool {
        self.target is Some
    }

    /// The tracker is monitoring the chat `id`.
    pub open spec fn watches(self, id: Seq<char>) -> bool {
        match self.target {
            Some(t) => t.id == id,
            None => false,
        }
    }

    /// The same tracker with one more timeline entry, capped.
    pub open spec fn recorded(self, kind: ActivityEventKind, now: i64) -> TrackerView {
        TrackerView {
            history: capped_history(self.history.push(ActivityEvent { at: now, kind })),
            ..self
        }
    }

    /// Starting to monitor `target`: a no-op (and `false`) when it is already
    /// the target; otherwise a fresh session whose timeline holds the start.
    pub open spec fn started(self, target: TargetView, now: i64) -> (TrackerView, bool) {
        if self.target == Some(target) {
            (self, false)
        } else {
            (
                TrackerView {
                    target: Some(target),
                    last_state: ActivityState::Unknown,
                    last_change_at: None,
                    last_typing_at: None,
                    history: seq![ActivityEvent { at: now, kind: ActivityEventKind::Started }],
                    ..self
                },
                true,
            )
        }
    }

    /// Stopping: no target, and the session state cleared.
    pub open spec fn stopped(self) -> TrackerView {
        TrackerView {
            target: None,
            history: Seq::empty(),
            last_state: ActivityState::Unknown,
            last_change_at: None,
            last_typing_at: None,
            ..self
        }
    }

    /// A presence report for chat `id`: only a report for the monitored chat
    /// that changes the state is recorded, and then the new state is returned.
    pub open spec fn after_presence(self, id: Seq<char>, online: bool, now: i64) -> (
        TrackerView,
        Option<ActivityState>,
    ) {
        if !self.watches(id) || presence_state(online) == self.last_state {
            (self, None)
        } else {
            (
                TrackerView {
                    last_state: presence_state(online),
                    last_change_at: Some(now),
                    ..self
                }.recorded(presence_change_kind(online), now),
                Some(presence_state(online)),
            )
        }
    }

    /// The newest timeline entry is a typing entry.
    pub open spec fn ends_with_typing(self) -> bool {
        self.history.len() > 0 && self.history.last().kind == ActivityEventKind::TypingSeen
    }

    /// A typing burst in chat `id`: for the monitored chat, the time is kept and
    /// a typing entry is recorded unless the newest entry already is one.
    pub open spec fn after_typing(self, id: Seq<char>, now: i64) -> TrackerView {
        if !self.watches(id) {
            self
        } else if self.ends_with_typing() {
            TrackerView { last_typing_at: Some(now), ..self }
        } else {
            TrackerView { last_typing_at: Some(now), ..self }.recorded(
                ActivityEventKind::TypingSeen,
                now,
            )
        }
    }

    /// The latest observed activity: the later of the last typing burst and
    /// the last state change, when there is one.
    pub open spec fn last_activity_at(self) -> Option<i64> {
        match (self.last_typing_at, self.last_change_at) {
            (Some(t), Some(c)) => Some(if t >= c { t } else { c }),
            (Some(t), None) => Some(t),
            (None, Some(c)) => Some(c),
            (None, None) => None,
        }
    }
}

/// Drops the oldest entries until at most [`MAX_HISTORY`] remain.
fn keep_latest(history: &mut Vec<ActivityEvent>)
    ensures
        final(history)@ == capped_history(old(history)@),
{
    let ghost full = history@;
    while history.len() > MAX_HISTORY
        invariant
            history.len() <= full.len(),
            history@ == full.skip(full.len() - history.len()),
            full.len() <= MAX_HISTORY ==> history.len() == full.len(),
            full.len() > MAX_HISTORY ==> history.len() >= MAX_HISTORY,
        decreases history.len(),
    {
        history.remove(0);
        proof {
            assert(history@ =~= full.skip(full.len() - history.len()));
        }
    }
    proof {
        if full.len() <= MAX_HISTORY {
            assert(history@ =~= full);
        }
    }
}

impl Default for ActivityTracker {
    /// An idle tracker: no input, no target, empty timeline, state unknown.
    fn default() -> (r: Self)
        ensures
            r@.input == Seq::<char>::empty(),
            r@.target is None,
            !r@.notify_on_change,
            r@.history == Seq::<ActivityEvent>::empty(),
            r@.last_state == ActivityState::Unknown,
            r@.last_change_at is None,
            r@.last_typing_at is None,
    {
        ActivityTracker {
            input: String::new(),
            target: None,
            notify_on_change: false,
            history: Vec::new(),
            last_state: ActivityState::Unknown,
            last_change_at: None,
            last_typing_at: None,
        }
    }
}

impl ActivityTracker {
    pub fn monitoring(&self) -> (r: bool)
        ensures
            r == self@.monitoring(),
    {
        self.target.is_some()
    }

    /// Whether the monitored chat is `id`.
    fn watches(&self, id: &str) -> (r: bool)
        ensures
            r == self@.watches(id@),
    {
        match &self.target {
            Some(t) => text::same_text(t.id.as_str(), id),
            None => false,
        }
    }

    /// Starts monitoring a target. Returns false when already monitoring it.
    pub fn start(&mut self, target: MonitoredTarget, now: i64) -> (r: bool)
        ensures
            (final(self)@, r) == old(self)@.started(target@, now),
            r ==> final(self).target == Some(target),
    {
        let same = match &self.target {
            Some(t) => t.id == target.id && t.label == target.label,
            None => false,
        };
        if same {
            return false;
        }
        self.target = Some(target);
        self.last_state = ActivityState::Unknown;
        self.last_change_at = None;
        self.last_typing_at = None;
        self.history.clear();
        self.push(ActivityEventKind::Started, now);
        proof {
            assert(self@.history =~= seq![ActivityEvent { at: now, kind: ActivityEventKind::Started }]);
        }
        true
    }

    /// Stops monitoring and clears the session state.
    pub fn stop(&mut self)
        ensures
            final(self)@ == old(self)@.stopped(),
    {
        self.target = None;
        self.history.clear();
        self.last_state = ActivityState::Unknown;
        self.last_change_at = None;
        self.last_typing_at = None;
    }

    /// Records a presence update. Returns the new state when the monitored
    /// target changed state (for timeline and notification callers).
    pub fn note_presence(&mut self, id: &str, online: bool, now: i64) -> (r: Option<ActivityState>)
        ensures
            (final(self)@, r) == old(self)@.after_presence(id@, online, now),
    {
        if !self.watches(id) {
            return None;
        }
        let state = if online {
            ActivityState::Active
        } else {
            ActivityState::Inactive
        };
        if state == self.last_state {
            return None;
        }
        self.last_state = state;
        self.last_change_at = Some(now);
        self.push(
            if online {
                ActivityEventKind::BecameActive
            } else {
                ActivityEventKind::BecameInactive
            },
            now,
        );
        Some(state)
    }

    /// Records a typing burst without changing the state. Consecutive bursts
    /// collapse into one entry so the timeline does not spam per keystroke.
    pub fn note_typing(&mut self, id: &str, now: i64)
        ensures
            final(self)@ == old(self)@.after_typing(id@, now),
    {
        if !self.watches(id) {
            return;
        }
        self.last_typing_at = Some(now);
        let n = self.history.len();
        let duplicate = n > 0 && self.history[n - 1].kind == ActivityEventKind::TypingSeen;
        if !duplicate {
            self.push(ActivityEventKind::TypingSeen, now);
        }
    }

    fn push(&mut self, kind: ActivityEventKind, now: i64)
        ensures
            final(self)@ == old(self)@.recorded(kind, now),
            final(self).target == old(self).target,
    {
        self.history.push(ActivityEvent { at: now, kind });
        keep_latest(&mut self.history);
    }

    /// The latest observed activity time, if any: what the monitoring screen
    /// shows as "Last Activity".
    pub fn last_activity_at(&self) -> (r: Option<i64>)
        ensures
            r == self@.last_activity_at(),
    {
        match (self.last_typing_at, self.last_change_at) {
            (Some(t), Some(c)) => Some(if t >= c { t } else { c }),
            (Some(t), None) => Some(t),
            (None, Some(c)) => Some(c),
            (None, None) => None,
        }
    }
}

/// The chat id for a monitored number: the digits of the input followed by
/// the user server, when the input has at least [`MIN_DIGITS`] digits.
pub open spec fn monitor_target_of(input: Seq<char>) -> Option<Seq<char>> {
    if text::ascii_digits(input).len() >= MIN_DIGITS {
        Some(text::ascii_digits(input) + phone::user_server())
    } else {
        None
    }
}

/// Parses user-entered input into a monitorable chat id. Accepts formatted
/// numbers (`+39 333 123 4567`) and keeps the new-contact minimum of 7 digits.
pub fn parse_monitor_target(input: &str) -> (r: Option<String>)
    ensures
        match r {
            Some(id) => monitor_target_of(input@) == Some(id@),
            None => monitor_target_of(input@) is None,
        },
{
    let digits = text::digits_of(input);
    if digits.len() >= MIN_DIGITS {
        let mut id = text::string_of_chars(&digits, 0, digits.len());
        proof {
            assert(digits@.subrange(0, digits.len() as int) =~= digits@);
        }
        id.append("@s.whatsapp.net");
        Some(id)
    } else {
        None
    }
}

/// Whether the monitoring screen may start on this input: it has enough digits.
pub fn monitor_input_ready(input: &str) -> (r: bool)
    ensures
        r == (text::ascii_digits(input@).len() >= MIN_DIGITS),
{
    text::digits_of(input).len() >= MIN_DIGITS
}

/// The label a target is shown with: the known name unless it is blank, else
/// the formatted number of a person's id, else the id itself.
pub open spec fn target_label(id: Seq<char>, known: Option<Seq<char>>) -> Seq<char> {
    match known {
        Some(name) if !text::is_blank(name) => name,
        _ => match phone::phone_in_id(id) {
            Some(digits) => phone::formatted_phone(digits),
            None => id,
        },
    }
}

/// Display label for a target: the known name, else the formatted number.
pub fn label_for(id: &str, known: Option<&str>) -> (r: String)
    ensures
        r@ == target_label(
            id@,
            match known {
                Some(name) => Some(name@),
                None => None,
            },
        ),
{
    if let Some(name) = known {
        if !text::is_blank_text(name) {
            return name.to_owned();
        }
    }
    match phone::phone_of(id) {
        Some(digits) => phone::phone(digits.as_str()),
        None => id.to_owned(),
    }
}

} // verus!
