//! The clock: the digits of the local time on a twelve hour face.

use vstd::prelude::*;

verus! {

/// The hour on a twelve hour face: 12 in place of 0.
pub open spec fn hour_12(hour: u8) -> int {
    if hour % 12 == 0 {
        12
    } else {
        (hour % 12) as int
    }
}

/// The two decimal digits of a number, tens first.
pub open spec fn two_digits(n: int) -> (int, int) {
    (n / 10, n % 10)
}

/// The clock face: the digits on display and the second they were set at.
#[derive(Debug, Clone, Copy)]
pub struct Clock {
    last_sec: i32,
    hour_digits: [u8; 2],
    minute_digits: [u8; 2],
    second_digits: [u8; 2],
    is_pm: bool,
}

/// What a clock shows, as plain numbers.
pub struct ClockView {
    pub last_sec: int,
    pub hour: (int, int),
    pub minute: (int, int),
    pub second: (int, int),
    pub is_pm: bool,
}

impl View for Clock {
    type V = ClockView;

    closed spec fn view(&self) -> ClockView {
        ClockView {
            last_sec: self.last_sec as int,
            hour: (self.hour_digits[0] as int, self.hour_digits[1] as int),
            minute: (self.minute_digits[0] as int, self.minute_digits[1] as int),
            second: (self.second_digits[0] as int, self.second_digits[1] as int),
            is_pm: self.is_pm,
        }
    }
}

/// What a clock shows after it has been set to a time of day, where the
/// second differs from the one it was set at last. With the same second
/// it shows what it showed.
pub open spec fn set_to(face: ClockView, hour: u8, minute: u8, second: u8) -> ClockView {
    if second as int == face.last_sec {
        face
    } else {
        ClockView {
            last_sec: second as int,
            hour: two_digits(hour_12(hour)),
            minute: two_digits(minute as int),
            second: two_digits(second as int),
            is_pm: hour >= 12,
        }
    }
}

/// Reads the local time of day as hour, minute and second, through
/// `time::OffsetDateTime::now_local` and the accessors `hour`, `minute` and
/// `second` of what it returns. The time crate documents the hour as
/// always in 0..24 and the minute and the second as always in 0..60; the
/// reading is `None` where the local offset cannot be determined.
#[verifier::external_body]
fn local_time() -> (now: Option<(u8, u8, u8)>)
    ensures
        now matches Some((hour, minute, second)) ==> hour < 24 && minute < 60 && second < 60,
{
    match time::OffsetDateTime::now_local() {
        Ok(t) => Some((t.hour(), t.minute(), t.second())),
        Err(_) => None,
    }
}

impl Clock {
    /// A clock that shows zeros and has not been set yet.
    pub fn new() -> (clock: Self)
        ensures
            clock@ == (ClockView {
                last_sec: -1,
                hour: (0, 0),
                minute: (0, 0),
                second: (0, 0),
                is_pm: false,
            }),
    {
        Clock {
            last_sec: -1,
            hour_digits: [0, 0],
            minute_digits: [0, 0],
            second_digits: [0, 0],
            is_pm: false,
        }
    }

    /// Sets the clock to a time of day. Returns whether the second has
    /// changed, and with it the display.
    pub fn set_time(&mut self, hour: u8, minute: u8, second: u8) -> (ticked: bool)
        ensures
            final(self)@ == set_to(old(self)@, hour, minute, second),
            ticked == (second as int != old(self)@.last_sec),
    {
        let sec: i32 = second as i32;
        if sec != self.last_sec {
            self.last_sec = sec;
            let hour_24: u8 = hour;
            self.is_pm = hour_24 >= 12;
            let mut h: u8 = hour_24 % 12;
            if h == 0 {
                h = 12;
            }
            let hour_12: u8 = h;
            self.hour_digits = [hour_12 / 10, hour_12 % 10];
            self.minute_digits = [minute / 10, minute % 10];
            self.second_digits = [second / 10, second % 10];
            true
        } else {
            false
        }
    }

    /// Sets the clock to the local time. Where the local time cannot be
    /// read the clock shows what it showed. Returns whether the second has
    /// changed.
    pub fn update(&mut self) -> (ticked: bool)
        ensures
            (!ticked && final(self)@ == old(self)@) || (exists|hour: u8, minute: u8, second: u8|
                hour < 24 && minute < 60 && second < 60 && final(self)@ == #[trigger] set_to(
                    old(self)@,
                    hour,
                    minute,
                    second,
                ) && ticked == (second as int != old(self)@.last_sec)),
    {
        match local_time() {
            Some((hour, minute, second)) => self.set_time(hour, minute, second),
            None => false,
        }
    }

    /// The digits of the hour, of the minute and of the second.
    pub fn digits(&self) -> (digits: ([u8; 2], [u8; 2], [u8; 2]))
        ensures
            (digits.0[0] as int, digits.0[1] as int) == self@.hour,
            (digits.1[0] as int, digits.1[1] as int) == self@.minute,
            (digits.2[0] as int, digits.2[1] as int) == self@.second,
    {
        (self.hour_digits, self.minute_digits, self.second_digits)
    }

    /// Whether the clock shows an hour of the afternoon.
    pub fn is_pm(&self) -> (pm: bool)
        ensures
            pm == self@.is_pm,
    {
        self.is_pm
    }
}

} // verus!
