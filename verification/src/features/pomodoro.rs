//! The countdown timer: its modes, the durations it cycles through and
//! the digits it shows.

use vstd::prelude::*;

verus! {

/// What the timer is doing.
#[derive(Debug, Clone, Copy, PartialEq, Eq, Structural)]
pub enum PomodoroMode {
    /// Not started.
    Idle,
    /// Appearing. No trigger leads here any more.
    Reveal,
    /// Counting down.
    Counting,
    /// Showing the completion effect.
    Completion,
}

/// What can happen to the timer.
#[derive(Debug, Clone, Copy, PartialEq, Eq, Structural)]
pub enum PomodoroTrigger {
    /// The user starts the timer.
    Start,
    /// The user stops the timer.
    Stop,
    /// The countdown has reached zero.
    Expired,
    /// The user asks for the completion effect at once.
    Complete,
    /// The completion effect has played to its end.
    EffectDone,
}

/// The number of durations to choose from.
pub const DURATION_COUNT: usize = 6;

/// The mode that a trigger leads to from a mode.
///
/// Starting always leads to counting and stopping to idle. The countdown
/// can only expire or be completed while counting, and the effect can only
/// end while it plays; elsewhere these change nothing.
pub open spec fn next_mode(mode: PomodoroMode, trigger: PomodoroTrigger) -> PomodoroMode {
    match (trigger, mode) {
        (PomodoroTrigger::Start, _) => PomodoroMode::Counting,
        (PomodoroTrigger::Stop, _) => PomodoroMode::Idle,
        (PomodoroTrigger::Expired, PomodoroMode::Counting) => PomodoroMode::Completion,
        (PomodoroTrigger::Complete, PomodoroMode::Counting) => PomodoroMode::Completion,
        (PomodoroTrigger::EffectDone, PomodoroMode::Completion) => PomodoroMode::Idle,
        _ => mode,
    }
}

/// The length in seconds of the duration at an index: 30, 25, 20, 15, 10
/// and 5 minutes.
pub open spec fn duration_at(index: int) -> int {
    if index == 0 {
        1800
    } else if index == 1 {
        1500
    } else if index == 2 {
        1200
    } else if index == 3 {
        900
    } else if index == 4 {
        600
    } else {
        300
    }
}

/// The index that a scroll step leads to: the next one for a step up, the
/// one before for any other step, around the ends.
pub open spec fn cycled_index(index: int, delta: i32) -> int {
    if delta > 0 {
        (index + 1) % 6
    } else if index == 0 {
        5
    } else {
        index - 1
    }
}

/// The two decimal digits of a number, tens first, each kept to eight bits.
pub open spec fn digit_pair(n: u32) -> (int, int) {
    (((n / 10) as u8) as int, ((n % 10) as u8) as int)
}

/// The countdown timer.
#[derive(Debug, Clone, Copy)]
pub struct Pomodoro {
    mode: PomodoroMode,
    duration_index: usize,
    minute_digits: [u8; 2],
    second_digits: [u8; 2],
    last_sec: i32,
}

/// The state of a timer, as plain values.
pub struct PomodoroView {
    pub mode: PomodoroMode,
    /// The index of the chosen duration, below six.
    pub duration_index: int,
    /// The digits of the minutes on display, tens first.
    pub minute: (int, int),
    /// The digits of the seconds on display, tens first.
    pub second: (int, int),
    /// The whole second that was on display last while counting, or -1.
    pub last_sec: int,
}

impl View for Pomodoro {
    type V = PomodoroView;

    closed spec fn view(&self) -> PomodoroView {
        PomodoroView {
            mode: self.mode,
            duration_index: self.duration_index as int,
            minute: (self.minute_digits[0] as int, self.minute_digits[1] as int),
            second: (self.second_digits[0] as int, self.second_digits[1] as int),
            last_sec: self.last_sec as int,
        }
    }
}

/// A timer after a trigger. Starting and stopping begin the seconds
/// display anew.
pub open spec fn triggered(timer: PomodoroView, trigger: PomodoroTrigger) -> PomodoroView {
    PomodoroView {
        mode: next_mode(timer.mode, trigger),
        last_sec: if trigger == PomodoroTrigger::Start || trigger == PomodoroTrigger::Stop {
            -1
        } else {
            timer.last_sec
        },
        ..timer
    }
}

/// A timer after a scroll step over its duration.
pub open spec fn cycled(timer: PomodoroView, delta: i32) -> PomodoroView {
    PomodoroView { duration_index: cycled_index(timer.duration_index, delta), ..timer }
}

/// A timer after the remaining time, in whole seconds, has been put on
/// display. The last second follows only while counting.
pub open spec fn displayed(timer: PomodoroView, remaining: u32) -> PomodoroView {
    PomodoroView {
        minute: digit_pair(remaining / 60),
        second: digit_pair(remaining % 60),
        last_sec: if timer.mode == PomodoroMode::Counting {
            (remaining as i32) as int
        } else {
            timer.last_sec
        },
        ..timer
    }
}

impl Pomodoro {
    #[verifier::type_invariant]
    spec fn inv(self) -> bool {
        self.duration_index < DURATION_COUNT
    }

    /// An idle timer with the longest duration chosen.
    pub fn new() -> (timer: Self)
        ensures
            timer@ == (PomodoroView {
                mode: PomodoroMode::Idle,
                duration_index: 0,
                minute: (0, 0),
                second: (0, 0),
                last_sec: -1,
            }),
    {
        Pomodoro {
            mode: PomodoroMode::Idle,
            duration_index: 0,
            minute_digits: [0, 0],
            second_digits: [0, 0],
            last_sec: -1,
        }
    }

    /// What the timer is doing.
    pub fn mode(&self) -> (mode: PomodoroMode)
        ensures
            mode == self@.mode,
    {
        self.mode
    }

    /// The index of the chosen duration.
    pub fn duration_index(&self) -> (index: usize)
        ensures
            index == self@.duration_index,
            index < DURATION_COUNT,
    {
        proof {
            use_type_invariant(self);
        }
        self.duration_index
    }

    /// The chosen duration in seconds.
    pub fn duration(&self) -> (seconds: u32)
        ensures
            seconds == duration_at(self@.duration_index),
    {
        match self.duration_index {
            0 => 1800,
            1 => 1500,
            2 => 1200,
            3 => 900,
            4 => 600,
            _ => 300,
        }
    }

    /// The digits of the minutes and of the seconds on display.
    pub fn digits(&self) -> (digits: ([u8; 2], [u8; 2]))
        ensures
            (digits.0[0] as int, digits.0[1] as int) == self@.minute,
            (digits.1[0] as int, digits.1[1] as int) == self@.second,
    {
        (self.minute_digits, self.second_digits)
    }

    /// Applies a trigger to the timer.
    pub fn apply(&mut self, trigger: PomodoroTrigger)
        ensures
            final(self)@ == triggered(old(self)@, trigger),
    {
        proof {
            use_type_invariant(&*self);
        }
        match trigger {
            PomodoroTrigger::Start => {
                self.mode = PomodoroMode::Counting;
                self.last_sec = -1;
            },
            PomodoroTrigger::Stop => {
                self.mode = PomodoroMode::Idle;
                self.last_sec = -1;
            },
            PomodoroTrigger::Expired | PomodoroTrigger::Complete => {
                if let PomodoroMode::Counting = self.mode {
                    self.mode = PomodoroMode::Completion;
                }
            },
            PomodoroTrigger::EffectDone => {
                if let PomodoroMode::Completion = self.mode {
                    self.mode = PomodoroMode::Idle;
                }
            },
        }
    }

    /// Starts the countdown.
    pub fn start(&mut self)
        ensures
            final(self)@ == triggered(old(self)@, PomodoroTrigger::Start),
            final(self)@.mode == PomodoroMode::Counting,
    {
        self.apply(PomodoroTrigger::Start);
    }

    /// Stops the countdown and goes back to idle.
    pub fn stop(&mut self)
        ensures
            final(self)@ == triggered(old(self)@, PomodoroTrigger::Stop),
            final(self)@.mode == PomodoroMode::Idle,
    {
        self.apply(PomodoroTrigger::Stop);
    }

    /// Shows the completion effect at once, if the timer is counting.
    pub fn trigger_completion(&mut self)
        ensures
            final(self)@ == triggered(old(self)@, PomodoroTrigger::Complete),
    {
        self.apply(PomodoroTrigger::Complete);
    }

    /// Chooses the next duration for a scroll step up, else the one
    /// before. Returns the chosen duration in seconds.
    pub fn cycle_duration(&mut self, delta: i32) -> (seconds: u32)
        ensures
            final(self)@ == cycled(old(self)@, delta),
            seconds == duration_at(final(self)@.duration_index),
    {
        proof {
            use_type_invariant(&*self);
        }
        if delta > 0 {
            self.duration_index = (self.duration_index + 1) % DURATION_COUNT;
        } else {
            if self.duration_index == 0 {
                self.duration_index = DURATION_COUNT - 1;
            } else {
                self.duration_index -= 1;
            }
        }
        self.duration()
    }

    /// Puts the remaining time, in whole seconds, on display. Returns
    /// whether the second has changed while counting: the digits then flip.
    pub fn update(&mut self, remaining: u32) -> (flipped: bool)
        ensures
            final(self)@ == displayed(old(self)@, remaining),
            flipped == (old(self)@.mode == PomodoroMode::Counting && (remaining as i32) as int
                != old(self)@.last_sec),
    {
        proof {
            use_type_invariant(&*self);
        }
        let mut flipped: bool = false;
        if let PomodoroMode::Counting = self.mode {
            let current_sec: i32 = remaining as i32;
            if current_sec != self.last_sec {
                self.last_sec = current_sec;
                flipped = true;
            }
        }
        let mins: u32 = remaining / 60;
        let secs: u32 = remaining % 60;
        self.minute_digits = [(mins / 10) as u8, (mins % 10) as u8];
        self.second_digits = [(secs / 10) as u8, (secs % 10) as u8];
        flipped
    }
}

} // verus!
