use vstd::prelude::*;

verus! {

/// A wall-clock time of day in hours, minutes and seconds. The all-zero
/// value doubles as the stored sentinel meaning "not yet recorded".
#[derive(Clone, Copy, PartialEq, Eq, Structural, Debug)]
pub struct TimeOfDay {
    pub hour: u8,
    pub minute: u8,
    pub second: u8,
}

impl TimeOfDay {
    pub open spec fn wf(self) -> bool {
        self.hour < 24 && self.minute < 60 && self.second < 60
    }

    /// The sentinel that an arrival field holds until the first mark of the
    /// day fills it.
    pub open spec fn spec_is_unset(self) -> bool {
        self == (TimeOfDay { hour: 0, minute: 0, second: 0 })
    }

    pub fn unset() -> (r: TimeOfDay)
        ensures
            r.spec_is_unset(),
            r.wf(),
    {
        TimeOfDay { hour: 0, minute: 0, second: 0 }
    }

    pub fn is_unset(&self) -> (r: bool)
        ensures
            r == self.spec_is_unset(),
    {
        self.hour == 0 && self.minute == 0 && self.second == 0
    }

    /// The time as given when its fields are in range, and nothing otherwise.
    pub fn new(hour: u8, minute: u8, second: u8) -> (r: Option<TimeOfDay>)
        ensures
            r matches Some(t) ==> t == (TimeOfDay { hour, minute, second }) && t.wf(),
            r is None ==> !(TimeOfDay { hour, minute, second }).wf(),
    {
        if hour < 24 && minute < 60 && second < 60 {
            Some(TimeOfDay { hour, minute, second })
        } else {
            None
        }
    }
}

/// Relies on chrono's `Local::now`, `DateTime::with_timezone` and the
/// `Timelike` accessors together with chrono-tz's `Asia::Kolkata`: the
/// current wall-clock time of day in the organization's timezone.
/// `Timelike` documents hours as 0 to 23 and minutes and seconds as 0 to
/// 59; nothing more can be promised of a clock reading.
#[verifier::external_body]
pub fn current_time_kolkata() -> (t: TimeOfDay)
    ensures
        t.wf(),
{
    let now = chrono::Local::now().with_timezone(&chrono_tz::Asia::Kolkata).time();
    TimeOfDay {
        hour: chrono::Timelike::hour(&now) as u8,
        minute: chrono::Timelike::minute(&now) as u8,
        second: chrono::Timelike::second(&now) as u8,
    }
}

} // verus!
