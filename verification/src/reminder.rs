//! Reminder decisions: whether the clock allows a reminder at all, and
//! which reminders a coming game earns right now.  The scheduler loop that
//! sleeps, fetches the schedule and sends messages lives at the process
//! edge; it asks these functions what to do.

use vstd::prelude::*;

verus! {

/// Which reminders have already gone out for the tracked game.
#[derive(Debug, Clone, PartialEq, Eq, Structural)]
pub struct ReminderState {
    pub sent_24h: bool,
    pub sent_15m: bool,
}

/// Reminders are only sent between the configured start hour (inclusive)
/// and end hour (exclusive).
pub open spec fn within_hours(current_hour: int, start_hour: int, end_hour: int) -> bool {
    start_hour <= current_hour < end_hour
}

pub fn is_within_reminder_hours(current_hour: u32, start_hour: u32, end_hour: u32) -> (r: bool)
    ensures
        r == within_hours(current_hour as int, start_hour as int, end_hour as int),
{
    start_hour <= current_hour && current_hour < end_hour
}

/// The day-before reminder goes out when twenty-four whole hours remain
/// until the game: between 1440 and 1499 minutes ahead.
pub open spec fn due_24h(minutes_until: int) -> bool {
    1440 <= minutes_until < 1500
}

/// The last-call reminder goes out within the final quarter hour.
pub open spec fn due_15m(minutes_until: int) -> bool {
    0 < minutes_until <= 15
}

/// Which reminders to send now for a game `minutes_until` minutes ahead,
/// given what was already sent; and the state afterwards.
pub fn reminders_due(minutes_until: i64, state: &ReminderState) -> (r: (bool, bool, ReminderState))
    ensures
        r.0 == (due_24h(minutes_until as int) && !state.sent_24h),
        r.1 == (due_15m(minutes_until as int) && !state.sent_15m),
        r.2.sent_24h == (state.sent_24h || r.0),
        r.2.sent_15m == (state.sent_15m || r.1),
{
    let send_24h = 1440 <= minutes_until && minutes_until < 1500 && !state.sent_24h;
    let send_15m = 0 < minutes_until && minutes_until <= 15 && !state.sent_15m;
    let next = ReminderState {
        sent_24h: state.sent_24h || send_24h,
        sent_15m: state.sent_15m || send_15m,
    };
    (send_24h, send_15m, next)
}

} // verus!
