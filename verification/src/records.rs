use vstd::prelude::*;
use crate::clock::TimeOfDay;
use crate::date::Date;

verus! {

/// A member's mutable counters, as the store holds them. Profile fields
/// play no part in the transition and stay with the data-access layer.
#[derive(Clone, Copy, PartialEq, Eq, Structural, Debug)]
pub struct Member {
    pub id: i32,
    /// The current consecutive-presence run, ending at the most recently
    /// processed day.
    pub streak: i32,
    /// The historical maximum of `streak`.
    pub max_streak: i32,
}

impl Member {
    /// The store's invariant on the counters: a run is never negative and
    /// never exceeds the recorded maximum.
    pub open spec fn wf(self) -> bool {
        0 <= self.streak <= self.max_streak
    }
}

/// One member's attendance for one calendar day. The row exists before any
/// mark touches it; the engine only rewrites its fields.
#[derive(Clone, Copy, PartialEq, Eq, Structural, Debug)]
pub struct Attendance {
    pub id: i32,
    pub date: Date,
    /// First arrival of the day; the all-zero sentinel until a mark fills it.
    pub time_in: TimeOfDay,
    /// The most recent mark of the day.
    pub time_out: TimeOfDay,
    pub is_present: bool,
}

impl Attendance {
    pub open spec fn wf(self) -> bool {
        self.date.wf() && self.time_in.wf() && self.time_out.wf()
    }
}

/// Whether the previous day counts as present: a missing row counts exactly
/// like a day marked absent.
pub open spec fn spec_prev_present(prev: Option<Attendance>) -> bool {
    match prev {
        Some(a) => a.is_present,
        None => false,
    }
}

/// The new current run: an absent mark resets it to zero; a present mark
/// extends the run when the previous day was present and starts a fresh run
/// of one otherwise.
pub open spec fn spec_new_streak(streak: int, prev_present: bool, is_present: bool) -> int {
    if !is_present {
        0
    } else if prev_present {
        streak + 1
    } else {
        1
    }
}

/// The new maximum: raised exactly when the new run surpasses it, and
/// untouched otherwise — in particular by an absent mark.
pub open spec fn spec_new_max(max_streak: int, new_streak: int) -> int {
    if new_streak > max_streak {
        new_streak
    } else {
        max_streak
    }
}

/// Recomputes both counters for one mark against the previous day.
pub fn next_streaks(member: &Member, prev_present: bool, is_present: bool) -> (r: (i32, i32))
    requires
        member.wf(),
        member.streak < i32::MAX,
    ensures
        r.0 as int == spec_new_streak(member.streak as int, prev_present, is_present),
        r.1 as int == spec_new_max(member.max_streak as int, r.0 as int),
        0 <= r.0 <= r.1,
        member.max_streak <= r.1,
{
    let streak: i32 = if !is_present {
        0
    } else if prev_present {
        member.streak + 1
    } else {
        1
    };
    let max_streak: i32 = if streak > member.max_streak {
        streak
    } else {
        member.max_streak
    };
    (streak, max_streak)
}

/// The attendance row after a mark at `now`: the first mark of the day
/// fills the arrival, every mark moves the departure, and presence is what
/// the caller said. Identity fields stay as they are.
pub open spec fn spec_marked_record(rec: Attendance, now: TimeOfDay, is_present: bool) -> Attendance {
    Attendance {
        time_in: if rec.time_in.spec_is_unset() {
            now
        } else {
            rec.time_in
        },
        time_out: now,
        is_present: is_present,
        ..rec
    }
}

/// Rewrites one attendance row for a mark at `now`.
pub fn marked_record(rec: &Attendance, now: TimeOfDay, is_present: bool) -> (r: Attendance)
    ensures
        r == spec_marked_record(*rec, now, is_present),
{
    Attendance {
        time_in: if rec.time_in.is_unset() {
            now
        } else {
            rec.time_in
        },
        time_out: now,
        is_present: is_present,
        ..*rec
    }
}

/// Of two marks on a day whose arrival is still unset, the first — at any
/// time other than the sentinel — sets both time fields to its own time;
/// the second leaves the arrival alone and moves only the departure.
pub proof fn lemma_first_mark_owns_time_in(
    rec: Attendance,
    t1: TimeOfDay,
    p1: bool,
    t2: TimeOfDay,
    p2: bool,
)
    requires
        rec.time_in.spec_is_unset(),
        !t1.spec_is_unset(),
    ensures
        spec_marked_record(rec, t1, p1).time_in == t1,
        spec_marked_record(rec, t1, p1).time_out == t1,
        spec_marked_record(spec_marked_record(rec, t1, p1), t2, p2).time_in == t1,
        spec_marked_record(spec_marked_record(rec, t1, p1), t2, p2).time_out == t2,
{
}

} // verus!
