//! Shared application state: one instance for the life of the process. It
//! holds the health-check greeting, the visit counter — the only shared
//! mutable in-process value — and the store the pool handle reaches.

use vstd::prelude::*;
use crate::store::{course_table_wf, tutor_table_wf, CourseTable, TutorTable};

verus! {

/// What the connection pool reaches: the two tables of the store.
pub struct Database {
    pub courses: CourseTable,
    pub tutors: TutorTable,
}

/// The application state every request borrows.
pub struct AppState {
    pub health_check_response: String,
    pub visit_count: u64,
    pub db: Database,
}

impl AppState {
    /// Both tables satisfy the schema's constraints.
    pub open spec fn wf(&self) -> bool {
        course_table_wf(self.db.courses@) && tutor_table_wf(self.db.tutors@)
    }

    /// A fresh state: counter at zero, empty store, the given greeting.
    pub fn new(health_check_response: String) -> (s: Self)
        ensures
            s.wf(),
            s.visit_count == 0,
            s.health_check_response == health_check_response,
            s.db.courses@.len() == 0,
            s.db.tutors@.len() == 0,
    {
        AppState {
            health_check_response,
            visit_count: 0,
            db: Database { courses: CourseTable::new(), tutors: TutorTable::new() },
        }
    }

    /// The sole critical section: take the counter, add one, read the new
    /// value. Each call raises the counter by exactly one — it never resets —
    /// and touches nothing else.
    pub fn increment_visit_count(&mut self) -> (n: u64)
        requires
            old(self).visit_count < u64::MAX,
        ensures
            final(self).visit_count == old(self).visit_count + 1,
            n == final(self).visit_count,
            final(self).health_check_response == old(self).health_check_response,
            final(self).db == old(self).db,
    {
        self.visit_count = self.visit_count + 1;
        self.visit_count
    }
}

} // verus!
