//! Domain records: plain data carriers with no behaviour beyond construction.

use vstd::prelude::*;

verus! {

/// A point in time, kept as microseconds since the Unix epoch: the resolution
/// the relational store assigns to a row's creation time.
#[derive(Clone, Copy, Debug, PartialEq, Eq, Structural)]
pub struct Timestamp {
    pub micros: i64,
}

/// A course offered by a tutor. `posted_time` is `None` until the store
/// persists the record and assigns it.
#[derive(Debug)]
pub struct Course {
    pub course_id: i32,
    pub tutor_id: i32,
    pub course_name: String,
    pub posted_time: Option<Timestamp>,
}

impl Clone for Course {
    fn clone(&self) -> (r: Self)
        ensures
            r == *self,
    {
        Course {
            course_id: self.course_id,
            tutor_id: self.tutor_id,
            course_name: self.course_name.clone(),
            posted_time: self.posted_time,
        }
    }
}

/// A tutor, identified by `tutor_id`, with its descriptive fields.
#[derive(Debug)]
pub struct Tutor {
    pub tutor_id: i32,
    pub tutor_name: String,
    pub tutor_profile: String,
}

impl Clone for Tutor {
    fn clone(&self) -> (r: Self)
        ensures
            r == *self,
    {
        Tutor {
            tutor_id: self.tutor_id,
            tutor_name: self.tutor_name.clone(),
            tutor_profile: self.tutor_profile.clone(),
        }
    }
}

} // verus!
