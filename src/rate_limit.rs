use vstd::prelude::*;

verus! {

/// Length of the rolling accounting window, in seconds.
pub const SECONDS_PER_DAY: i64 = 86400;

/// Whether `cooldown` seconds have passed since `last`.
pub open spec fn cooldown_elapsed_spec(now: i64, last: i64, cooldown: i64) -> bool {
    now >= last + cooldown
}

/// Decides `now >= last + cooldown` over the integers, so that no sum can wrap.
pub fn cooldown_elapsed(now: i64, last: i64, cooldown: i64) -> (r: bool)
    ensures
        r == cooldown_elapsed_spec(now, last, cooldown),
{
    (now as i128) >= (last as i128) + (cooldown as i128)
}

/// A single-call ceiling: `amount` may pass when it does not exceed `cap`.
pub fn within_rate_cap(amount: u64, cap: u64) -> (r: bool)
    ensures
        r == (amount <= cap),
{
    amount <= cap
}

/// Volume accounted in the current window, reset lazily once the window
/// has run out.
#[derive(Clone, Copy, Debug, PartialEq, Eq, Structural)]
pub struct DailyWindow {
    pub total: u64,
    pub last_reset: i64,
}

impl DailyWindow {
    pub open spec fn window_elapsed(self, now: i64) -> bool {
        now - self.last_reset >= SECONDS_PER_DAY
    }

    /// The window as seen at `now`: emptied and restarted when a full day
    /// has passed since the last reset.
    pub open spec fn rolled(self, now: i64) -> DailyWindow {
        if self.window_elapsed(now) {
            DailyWindow { total: 0, last_reset: now }
        } else {
            self
        }
    }

    /// Whether `amount` fits under `cap` in the window as seen at `now`.
    pub open spec fn admits(self, now: i64, amount: u64, cap: u64) -> bool {
        self.rolled(now).total + amount <= cap
    }

    /// The window after `amount` is committed at `now`.
    pub open spec fn committed(self, now: i64, amount: u64) -> DailyWindow {
        DailyWindow { total: (self.rolled(now).total + amount) as u64, ..self.rolled(now) }
    }

    pub fn roll(&mut self, now: i64)
        ensures
            *final(self) == old(self).rolled(now),
    {
        if (now as i128) - (self.last_reset as i128) >= SECONDS_PER_DAY as i128 {
            self.total = 0;
            self.last_reset = now;
        }
    }

    pub fn check_admits(&self, now: i64, amount: u64, cap: u64) -> (r: bool)
        ensures
            r == self.admits(now, amount, cap),
    {
        let mut w = *self;
        w.roll(now);
        (w.total as u128) + (amount as u128) <= cap as u128
    }

    /// Rolls the window and adds `amount` to it.
    pub fn commit(&mut self, now: i64, amount: u64)
        requires
            old(self).rolled(now).total + amount <= u64::MAX,
        ensures
            *final(self) == old(self).committed(now, amount),
    {
        self.roll(now);
        self.total = self.total + amount;
    }
}

/// Once `first` is committed at `now1`, a second amount within the same
/// day is admitted only if both fit under the cap together; once a full day
/// has passed since the window's reset, any amount up to the cap is admitted.
pub proof fn daily_cap_window(
    window: DailyWindow,
    now1: i64,
    first: u64,
    now2: i64,
    second: u64,
    cap: u64,
)
    requires
        window.admits(now1, first, cap),
    ensures
        ({
            let after = window.committed(now1, first);
            &&& !after.window_elapsed(now2) ==> (after.admits(now2, second, cap) <==> after.total
                + second <= cap)
            &&& after.window_elapsed(now2) ==> (after.admits(now2, second, cap) <==> second
                <= cap)
            &&& after.total == window.rolled(now1).total + first
        }),
{
}

} // verus!
