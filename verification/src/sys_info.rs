//! Operating-system version checks.

use vstd::prelude::*;

verus! {

/// The first Windows 11 build number.
pub const WIN11_FIRST_BUILD: u32 = 22000;

/// Whether the system is Windows 11 (major version 10 or later and build
/// 22000 or later), from the version query's `status` (0 on success) and the
/// reported major version and build number. A failed query means no.
pub fn is_win11(status: i32, major_version: u32, build_number: u32) -> (b: bool)
    ensures
        b == (status == 0 && major_version >= 10 && build_number >= WIN11_FIRST_BUILD),
{
    if status == 0 {
        major_version >= 10 && build_number >= WIN11_FIRST_BUILD
    } else {
        false
    }
}

/// The Windows 11 answer from a version query's `status`, major version and
/// build number.
pub open spec fn win11_from_query(status: i32, major_version: u32, build_number: u32) -> bool {
    status == 0 && major_version >= 10 && build_number >= WIN11_FIRST_BUILD
}

/// The process-wide Windows 11 answer: computed from the first version query
/// and then reused, so the system is queried once.
pub struct Win11Check {
    known: Option<bool>,
}

impl View for Win11Check {
    type V = Option<bool>;

    closed spec fn view(&self) -> Option<bool> {
        self.known
    }
}

/// The answer and the new state after a query result is offered: a known
/// answer is kept and returned; otherwise the query decides it.
pub open spec fn win11_step(known: Option<bool>, status: i32, major_version: u32, build_number: u32) -> (
    Option<bool>,
    bool,
) {
    match known {
        Some(v) => (known, v),
        None => {
            let v = win11_from_query(status, major_version, build_number);
            (Some(v), v)
        },
    }
}

impl Win11Check {
    /// Nothing known yet: the first caller queries the system.
    pub fn new() -> (c: Self)
        ensures
            c@ is None,
    {
        Win11Check { known: None }
    }

    /// The answer, when a query has already decided it; while this is
    /// `Some`, no query is needed.
    pub fn known(&self) -> (v: Option<bool>)
        ensures
            v == self@,
    {
        self.known
    }

    /// Records the result of a version query and returns the answer: the
    /// one already known, if any (the query result is then ignored), else
    /// the one the query gives.
    pub fn record(&mut self, status: i32, major_version: u32, build_number: u32) -> (b: bool)
        ensures
            (final(self)@, b) == win11_step(old(self)@, status, major_version, build_number),
    {
        match self.known {
            Some(v) => v,
            None => {
                let v = is_win11(status, major_version, build_number);
                self.known = Some(v);
                v
            },
        }
    }
}

/// The answer never changes once given: whatever later queries report, every
/// later call returns the answer of the first query.
pub proof fn lemma_win11_answer_stable(
    known: Option<bool>,
    first: (i32, u32, u32),
    later: (i32, u32, u32),
)
    ensures
        ({
            let (s1, b1) = win11_step(known, first.0, first.1, first.2);
            let (s2, b2) = win11_step(s1, later.0, later.1, later.2);
            &&& s1 == Some(b1)
            &&& b2 == b1
            &&& s2 == s1
            &&& known is None ==> b1 == (first.0 == 0 && first.1 >= 10 && first.2 >= 22000)
        }),
{
}

} // verus!
