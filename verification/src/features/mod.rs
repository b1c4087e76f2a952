//! What the overlay shows: the clock and the countdown timer.

pub mod clock;
pub mod pomodoro;
