use vstd::prelude::*;
use crate::auth::{spec_verify, verify_tag, AuthError};
use crate::clock::{current_time_kolkata, TimeOfDay};
use crate::codec::{canonical_message, spec_canonical_bytes};
use crate::date::Date;
use crate::records::{
    marked_record, next_streaks, spec_marked_record, spec_new_max, spec_new_streak,
    spec_prev_present, Attendance, Member,
};

verus! {

/// Why a verified mark could not be applied to the store's snapshot.
#[derive(Clone, Copy, PartialEq, Eq, Structural, Debug)]
pub enum TransitionError {
    /// The member row is absent; fatal to the request.
    MemberNotFound,
    /// The day's attendance row was never created; fatal to the request.
    RecordNotFound,
}

/// Everything a mark request can be turned away with.
#[derive(Clone, Copy, PartialEq, Eq, Structural, Debug)]
pub enum MarkError {
    MalformedSignature,
    SignatureMismatch,
    MemberNotFound,
    RecordNotFound,
}

/// What one applied mark writes back: the member's new counters and the
/// day's rewritten attendance row, to be persisted in one atomic unit.
#[derive(Clone, Copy, PartialEq, Eq, Structural, Debug)]
pub struct MarkOutcome {
    pub member: Member,
    pub record: Attendance,
}

/// The transition applied to one fetched snapshot: no member row fails the
/// request, so does a missing attendance row for the day — in both cases
/// nothing is written; otherwise both counters are recomputed against the
/// previous day and the day's row is rewritten for a mark at `now`.
pub open spec fn spec_mark_step(
    member: Option<Member>,
    prev: Option<Attendance>,
    today: Option<Attendance>,
    is_present: bool,
    now: TimeOfDay,
) -> Result<MarkOutcome, TransitionError> {
    match member {
        None => Err(TransitionError::MemberNotFound),
        Some(m) => match today {
            None => Err(TransitionError::RecordNotFound),
            Some(rec) => {
                let s = spec_new_streak(m.streak as int, spec_prev_present(prev), is_present);
                Ok(
                    MarkOutcome {
                        member: Member {
                            id: m.id,
                            streak: s as i32,
                            max_streak: spec_new_max(m.max_streak as int, s) as i32,
                        },
                        record: spec_marked_record(rec, now, is_present),
                    },
                )
            },
        },
    }
}

/// Decides one verified mark against a fetched snapshot. The counters'
/// invariant is preserved and the recorded maximum never goes down.
pub fn mark_step(
    member: Option<Member>,
    prev: Option<Attendance>,
    today: Option<Attendance>,
    is_present: bool,
    now: TimeOfDay,
) -> (r: Result<MarkOutcome, TransitionError>)
    requires
        member matches Some(m) ==> m.wf() && m.streak < i32::MAX,
    ensures
        r == spec_mark_step(member, prev, today, is_present, now),
        r matches Ok(o) ==> member matches Some(m) && o.member.wf() && o.member.id == m.id
            && o.member.max_streak >= m.max_streak,
{
    match member {
        None => Err(TransitionError::MemberNotFound),
        Some(m) => match today {
            None => Err(TransitionError::RecordNotFound),
            Some(rec) => {
                let prev_present = match prev {
                    Some(p) => p.is_present,
                    None => false,
                };
                let (streak, max_streak) = next_streaks(&m, prev_present, is_present);
                Ok(
                    MarkOutcome {
                        member: Member { id: m.id, streak, max_streak },
                        record: marked_record(&rec, now, is_present),
                    },
                )
            },
        },
    }
}

/// The whole request, for every input: the tag is judged first, over the
/// canonical payload, and a rejected tag produces no transition at all;
/// an accepted one has the transition applied to the snapshot.
pub open spec fn spec_mark_attendance(
    secret: Seq<u8>,
    member_id: int,
    date: Date,
    is_present: bool,
    tag: Seq<char>,
    member: Option<Member>,
    prev: Option<Attendance>,
    today: Option<Attendance>,
    now: TimeOfDay,
) -> Result<MarkOutcome, MarkError> {
    match spec_verify(secret, spec_canonical_bytes(member_id, date, is_present), tag) {
        Err(AuthError::MalformedSignature) => Err(MarkError::MalformedSignature),
        Err(AuthError::SignatureMismatch) => Err(MarkError::SignatureMismatch),
        Ok(()) => match spec_mark_step(member, prev, today, is_present, now) {
            Err(TransitionError::MemberNotFound) => Err(MarkError::MemberNotFound),
            Err(TransitionError::RecordNotFound) => Err(MarkError::RecordNotFound),
            Ok(o) => Ok(o),
        },
    }
}

/// The engine behind the mutation surface. It owns the shared signing
/// secret, fixed at construction for the life of the process; storage stays
/// with the caller, who hands in the rows it fetched and persists what comes
/// back.
pub struct MutationRoot {
    pub secret: Vec<u8>,
}

impl MutationRoot {
    /// An engine with its signing secret.
    pub fn new(secret: Vec<u8>) -> (r: MutationRoot)
        ensures
            r.secret@ == secret@,
    {
        MutationRoot { secret }
    }

    /// Checks the client's tag over the canonical payload of the request.
    /// Pure: safe to call before any storage access, and a failure must
    /// abort the request before anything is read or written.
    pub fn verify(&self, member_id: i32, date: &Date, is_present: bool, signature: &str) -> (r:
        Result<(), AuthError>)
        requires
            date.wf(),
        ensures
            r == spec_verify(
                self.secret@,
                spec_canonical_bytes(member_id as int, *date, is_present),
                signature@,
            ),
    {
        let msg = canonical_message(member_id, date, is_present);
        verify_tag(self.secret.as_slice(), msg.as_slice(), signature)
    }

    /// One authenticated mark against a fetched snapshot, taking effect at
    /// `now`: verification first, then the transition.
    pub fn mark_attendance_at(
        &self,
        member_id: i32,
        date: &Date,
        is_present: bool,
        signature: &str,
        member: Option<Member>,
        prev: Option<Attendance>,
        today: Option<Attendance>,
        now: TimeOfDay,
    ) -> (r: Result<MarkOutcome, MarkError>)
        requires
            date.wf(),
            member matches Some(m) ==> m.wf() && m.streak < i32::MAX,
        ensures
            r == spec_mark_attendance(
                self.secret@,
                member_id as int,
                *date,
                is_present,
                signature@,
                member,
                prev,
                today,
                now,
            ),
    {
        match self.verify(member_id, date, is_present, signature) {
            Err(AuthError::MalformedSignature) => Err(MarkError::MalformedSignature),
            Err(AuthError::SignatureMismatch) => Err(MarkError::SignatureMismatch),
            Ok(()) => match mark_step(member, prev, today, is_present, now) {
                Err(TransitionError::MemberNotFound) => Err(MarkError::MemberNotFound),
                Err(TransitionError::RecordNotFound) => Err(MarkError::RecordNotFound),
                Ok(o) => Ok(o),
            },
        }
    }

    /// As `mark_attendance_at`, taking effect at the clock's current
    /// Asia/Kolkata time of day: what a reading of the clock decides is
    /// pinned for every reading it can return.
    pub fn mark_attendance(
        &self,
        member_id: i32,
        date: &Date,
        is_present: bool,
        signature: &str,
        member: Option<Member>,
        prev: Option<Attendance>,
        today: Option<Attendance>,
    ) -> (r: Result<MarkOutcome, MarkError>)
        requires
            date.wf(),
            member matches Some(m) ==> m.wf() && m.streak < i32::MAX,
        ensures
            exists|now: TimeOfDay|
                now.wf() && r == spec_mark_attendance(
                    self.secret@,
                    member_id as int,
                    *date,
                    is_present,
                    signature@,
                    member,
                    prev,
                    today,
                    now,
                ),
    {
        let now = current_time_kolkata();
        let r = self.mark_attendance_at(
            member_id,
            date,
            is_present,
            signature,
            member,
            prev,
            today,
            now,
        );
        proof {
            assert(now.wf() && r == spec_mark_attendance(
                self.secret@,
                member_id as int,
                *date,
                is_present,
                signature@,
                member,
                prev,
                today,
                now,
            ));
        }
        r
    }
}

/// A request whose tag is turned away ends the same way on every snapshot:
/// the verdict depends on the tag alone, and no transition — so no write —
/// takes place.
pub proof fn lemma_rejected_tag_writes_nothing(
    secret: Seq<u8>,
    member_id: int,
    date: Date,
    is_present: bool,
    tag: Seq<char>,
    member: Option<Member>,
    prev: Option<Attendance>,
    today: Option<Attendance>,
    now: TimeOfDay,
)
    requires
        spec_verify(secret, spec_canonical_bytes(member_id, date, is_present), tag) is Err,
    ensures
        spec_mark_attendance(
            secret,
            member_id,
            date,
            is_present,
            tag,
            member,
            prev,
            today,
            now,
        ) is Err,
        spec_mark_attendance(secret, member_id, date, is_present, tag, member, prev, today, now)
            == spec_mark_attendance(
            secret,
            member_id,
            date,
            is_present,
            tag,
            None,
            None,
            None,
            now,
        ),
{
}

/// Two present marks for the same member and day, serialized in either
/// order, end in the same counters: the run grows by two when the previous
/// day was present and settles at one otherwise — exactly the sequential
/// outcomes, never anything past them. The first mark rewrites only the
/// day's own row, so the second still reads the same previous-day row and
/// the first mark's member counters.
pub proof fn lemma_serialized_marks_agree(
    m: Member,
    prev: Option<Attendance>,
    rec: Attendance,
    t1: TimeOfDay,
    t2: TimeOfDay,
)
    requires
        m.wf(),
        m.streak + 2 <= i32::MAX,
    ensures
        ({
            let first_a = spec_mark_step(Some(m), prev, Some(rec), true, t1);
            let second_a = spec_mark_step(
                Some(first_a->Ok_0.member),
                prev,
                Some(first_a->Ok_0.record),
                true,
                t2,
            );
            let first_b = spec_mark_step(Some(m), prev, Some(rec), true, t2);
            let second_b = spec_mark_step(
                Some(first_b->Ok_0.member),
                prev,
                Some(first_b->Ok_0.record),
                true,
                t1,
            );
            &&& first_a is Ok
            &&& second_a is Ok
            &&& first_b is Ok
            &&& second_b is Ok
            &&& second_a->Ok_0.member == second_b->Ok_0.member
            &&& second_a->Ok_0.member.streak as int == if spec_prev_present(prev) {
                m.streak + 2
            } else {
                1int
            }
        }),
{
}

} // verus!
