# zapfast

The experimental tools of the ZapFast desktop client, as a verified library:

- `src/activity.rs`: the session-only activity tracker (presence, typing,
  a capped timeline), number parsing and target labels.
- `src/call_diagnostics.rs`: the call diagnostics snapshot, built from the
  local address the device reported and the current time.
- `src/panel.rs`: the rows and explanation lines the tools page shows.
- `src/phone.rs`, `src/text.rs`: phone numbers in chat ids, and character helpers.
- `src/tracker_laws.rs`: properties of the tracker across calls.

`app/` draws the page with egui and makes the two observations the library
does not: the routing-table address and the clock.
