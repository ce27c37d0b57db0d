//! The data-access layer: one operation per function, each specified against
//! the store model in `store`. Every function runs one query's worth of work:
//! it selects, inserts, updates or deletes rows and maps absence or a
//! constraint violation to the error taxonomy.

use vstd::prelude::*;
use crate::errors::EzyTutorError;
use crate::models::{Course, Timestamp, Tutor};
use crate::store::{
    course_has_key, course_table_wf, courses_for, find_course, find_tutor, has_course, has_tutor,
    tutor_table_wf, CourseTable, TutorTable,
};

verus! {

/// All courses of one tutor, in the store's return order. An empty result is
/// deliberately an error, not an empty success list: callers get `NotFound`.
#[verifier::loop_isolation(false)]
pub fn get_courses_for_tutor_db(table: &CourseTable, tutor_id: i32) -> (r: Result<
    Vec<Course>,
    EzyTutorError,
>)
    ensures
        courses_for(table@, tutor_id as int).len() > 0 ==> (r matches Ok(cs) && cs@ == courses_for(
            table@,
            tutor_id as int,
        )),
        courses_for(table@, tutor_id as int).len() == 0 ==> (r matches Err(e)
            && e matches EzyTutorError::NotFound(m) && m@ == "Courses not found for tutor"@),
{
    let mut courses: Vec<Course> = Vec::new();
    let mut i: usize = 0;
    while i < table.rows.len()
        invariant
            i <= table.rows.len(),
            courses@ == courses_for(table.rows@.take(i as int), tutor_id as int),
        decreases table.rows.len() - i,
    {
        let row = &table.rows[i];
        if row.tutor_id == tutor_id {
            courses.push(row.clone());
        }
        proof {
            assert(table.rows@.take(i + 1).drop_last() =~= table.rows@.take(i as int));
            assert(table.rows@.take(i + 1).last() == table.rows@[i as int]);
        }
        i += 1;
    }
    proof {
        assert(table.rows@.take(table.rows@.len() as int) =~= table.rows@);
    }
    if courses.len() == 0 {
        Err(EzyTutorError::NotFound(String::from_str("Courses not found for tutor")))
    } else {
        Ok(courses)
    }
}

/// The course matching both keys. Of more than one logical match the first
/// row returned is taken; zero rows map to `NotFound`.
#[verifier::loop_isolation(false)]
pub fn get_course_details_db(table: &CourseTable, tutor_id: i32, course_id: i32) -> (r: Result<
    Course,
    EzyTutorError,
>)
    ensures
        find_course(table@, tutor_id as int, course_id as int) matches Some(c) ==> (r matches Ok(rc)
            && rc == c),
        find_course(table@, tutor_id as int, course_id as int) is None ==> (r matches Err(e)
            && e matches EzyTutorError::NotFound(m) && m@ == "Course id not found"@),
{
    proof {
        assert(table.rows@.skip(0) =~= table.rows@);
    }
    let mut i: usize = 0;
    while i < table.rows.len()
        invariant
            i <= table.rows.len(),
            find_course(table.rows@, tutor_id as int, course_id as int) == find_course(
                table.rows@.skip(i as int),
                tutor_id as int,
                course_id as int,
            ),
        decreases table.rows.len() - i,
    {
        let row = &table.rows[i];
        proof {
            assert(table.rows@.skip(i as int)[0] == table.rows@[i as int]);
            assert(table.rows@.skip(i as int).skip(1) =~= table.rows@.skip(i + 1));
        }
        if row.tutor_id == tutor_id && row.course_id == course_id {
            return Ok(row.clone());
        }
        i += 1;
    }
    proof {
        assert(table.rows@.skip(table.rows@.len() as int) =~= Seq::<Course>::empty());
    }
    Err(EzyTutorError::NotFound(String::from_str("Course id not found")))
}

/// Inserts a course with the caller-supplied keys and name; the store assigns
/// `posted_time`. A duplicate key violates the uniqueness constraint and
/// surfaces as `DatabaseError`, leaving the table untouched.
#[verifier::loop_isolation(false)]
pub fn post_new_course_db(table: &mut CourseTable, new_course: Course, now: Timestamp) -> (r:
    Result<Course, EzyTutorError>)
    requires
        course_table_wf(old(table)@),
    ensures
        course_table_wf(final(table)@),
        has_course(old(table)@, new_course.tutor_id as int, new_course.course_id as int) ==> (
        r matches Err(e) && e is DatabaseError && final(table)@ == old(table)@),
        !has_course(old(table)@, new_course.tutor_id as int, new_course.course_id as int) ==> (
        r matches Ok(c) && {
            &&& c.tutor_id == new_course.tutor_id
            &&& c.course_id == new_course.course_id
            &&& c.course_name == new_course.course_name
            &&& c.posted_time == Some(now)
            &&& final(table)@ == old(table)@.push(c)
        }),
{
    let mut i: usize = 0;
    while i < table.rows.len()
        invariant
            i <= table.rows.len(),
            table.rows@ == old(table)@,
            forall|j: int|
                0 <= j < i ==> !course_has_key(
                    #[trigger] table.rows@[j],
                    new_course.tutor_id as int,
                    new_course.course_id as int,
                ),
        decreases table.rows.len() - i,
    {
        let row = &table.rows[i];
        if row.tutor_id == new_course.tutor_id && row.course_id == new_course.course_id {
            return Err(
                EzyTutorError::DatabaseError(
                    String::from_str("course id already exists for tutor"),
                ),
            );
        }
        i += 1;
    }
    let inserted = Course {
        course_id: new_course.course_id,
        tutor_id: new_course.tutor_id,
        course_name: new_course.course_name,
        posted_time: Some(now),
    };
    let result = inserted.clone();
    proof {
        let s = table.rows@;
        let c = inserted;
        assert forall|p: int, q: int| 0 <= p < q < s.push(c).len() implies !course_has_key(
            #[trigger] s.push(c)[p],
            #[trigger] s.push(c)[q].tutor_id as int,
            s.push(c)[q].course_id as int,
        ) by {
            if q < s.len() {
                assert(s.push(c)[p] == s[p] && s.push(c)[q] == s[q]);
            } else {
                assert(s.push(c)[p] == s[p] && s.push(c)[q] == c);
            }
        }
        assert(forall|p: int| 0 <= p < s.push(c).len() ==> (#[trigger] s.push(c)[p]).posted_time is Some);
    }
    table.rows.push(inserted);
    Ok(result)
}

/// All tutors on record. As with courses, an empty result is `NotFound`.
#[verifier::loop_isolation(false)]
pub fn get_all_tutors_db(table: &TutorTable) -> (r: Result<Vec<Tutor>, EzyTutorError>)
    ensures
        table@.len() > 0 ==> (r matches Ok(ts) && ts@ == table@),
        table@.len() == 0 ==> (r matches Err(e) && e matches EzyTutorError::NotFound(m) && m@
            == "No tutors found"@),
{
    let mut tutors: Vec<Tutor> = Vec::new();
    let mut i: usize = 0;
    while i < table.rows.len()
        invariant
            i <= table.rows.len(),
            tutors@ == table.rows@.take(i as int),
        decreases table.rows.len() - i,
    {
        let row = &table.rows[i];
        tutors.push(row.clone());
        proof {
            assert(table.rows@.take(i + 1) =~= table.rows@.take(i as int).push(
                table.rows@[i as int],
            ));
        }
        i += 1;
    }
    proof {
        assert(table.rows@.take(table.rows@.len() as int) =~= table.rows@);
    }
    if tutors.len() == 0 {
        Err(EzyTutorError::NotFound(String::from_str("No tutors found")))
    } else {
        Ok(tutors)
    }
}

/// The tutor with the given id; `NotFound` on zero rows.
#[verifier::loop_isolation(false)]
pub fn get_tutor_details_db(table: &TutorTable, tutor_id: i32) -> (r: Result<
    Tutor,
    EzyTutorError,
>)
    ensures
        find_tutor(table@, tutor_id as int) matches Some(t) ==> (r matches Ok(rt) && rt == t),
        find_tutor(table@, tutor_id as int) is None ==> (r matches Err(e)
            && e matches EzyTutorError::NotFound(m) && m@ == "Tutor id not found"@),
{
    proof {
        assert(table.rows@.skip(0) =~= table.rows@);
    }
    let mut i: usize = 0;
    while i < table.rows.len()
        invariant
            i <= table.rows.len(),
            find_tutor(table.rows@, tutor_id as int) == find_tutor(
                table.rows@.skip(i as int),
                tutor_id as int,
            ),
        decreases table.rows.len() - i,
    {
        let row = &table.rows[i];
        proof {
            assert(table.rows@.skip(i as int)[0] == table.rows@[i as int]);
            assert(table.rows@.skip(i as int).skip(1) =~= table.rows@.skip(i + 1));
        }
        if row.tutor_id == tutor_id {
            return Ok(row.clone());
        }
        i += 1;
    }
    proof {
        assert(table.rows@.skip(table.rows@.len() as int) =~= Seq::<Tutor>::empty());
    }
    Err(EzyTutorError::NotFound(String::from_str("Tutor id not found")))
}

/// Inserts a tutor; a duplicate `tutor_id` violates the uniqueness constraint
/// and surfaces as `DatabaseError`, leaving the table untouched.
#[verifier::loop_isolation(false)]
pub fn post_new_tutor_db(table: &mut TutorTable, new_tutor: Tutor) -> (r: Result<
    Tutor,
    EzyTutorError,
>)
    requires
        tutor_table_wf(old(table)@),
    ensures
        tutor_table_wf(final(table)@),
        has_tutor(old(table)@, new_tutor.tutor_id as int) ==> (r matches Err(e)
            && e is DatabaseError && final(table)@ == old(table)@),
        !has_tutor(old(table)@, new_tutor.tutor_id as int) ==> (r matches Ok(t) && t == new_tutor
            && final(table)@ == old(table)@.push(new_tutor)),
{
    let mut i: usize = 0;
    while i < table.rows.len()
        invariant
            i <= table.rows.len(),
            table.rows@ == old(table)@,
            forall|j: int| 0 <= j < i ==> (#[trigger] table.rows@[j]).tutor_id != new_tutor.tutor_id,
        decreases table.rows.len() - i,
    {
        let row = &table.rows[i];
        if row.tutor_id == new_tutor.tutor_id {
            return Err(
                EzyTutorError::DatabaseError(String::from_str("tutor id already exists")),
            );
        }
        i += 1;
    }
    let result = new_tutor.clone();
    proof {
        let s = table.rows@;
        let t = new_tutor;
        assert forall|p: int, q: int| 0 <= p < q < s.push(t).len() implies (#[trigger] s.push(t)[p]).tutor_id
            != (#[trigger] s.push(t)[q]).tutor_id by {
            if q < s.len() {
                assert(s.push(t)[p] == s[p] && s.push(t)[q] == s[q]);
            } else {
                assert(s.push(t)[p] == s[p] && s.push(t)[q] == t);
            }
        }
    }
    table.rows.push(new_tutor);
    Ok(result)
}

/// Replaces the descriptive fields of the tutor with the given id and returns
/// the updated record; `NotFound` when no row matches.
#[verifier::loop_isolation(false)]
pub fn update_tutor_details_db(table: &mut TutorTable, tutor_id: i32, new_tutor: Tutor) -> (r:
    Result<Tutor, EzyTutorError>)
    requires
        tutor_table_wf(old(table)@),
    ensures
        tutor_table_wf(final(table)@),
        !has_tutor(old(table)@, tutor_id as int) ==> (r matches Err(e)
            && e matches EzyTutorError::NotFound(m) && m@ == "Tutor id not found"@ && final(table)@
            == old(table)@),
        has_tutor(old(table)@, tutor_id as int) ==> (r matches Ok(t) && {
            &&& t.tutor_id == tutor_id
            &&& t.tutor_name == new_tutor.tutor_name
            &&& t.tutor_profile == new_tutor.tutor_profile
            &&& exists|k: int|
                0 <= k < old(table)@.len() && (#[trigger] old(table)@[k]).tutor_id == tutor_id
                    && final(table)@ == old(table)@.update(k, t)
        }),
{
    let ghost s0 = table.rows@;
    let mut i: usize = 0;
    while i < table.rows.len()
        invariant
            i <= table.rows.len(),
            table.rows@ == s0,
            forall|j: int| 0 <= j < i ==> (#[trigger] table.rows@[j]).tutor_id != tutor_id,
        decreases table.rows.len() - i,
    {
        let hit = table.rows[i].tutor_id == tutor_id;
        if hit {
            let updated = Tutor {
                tutor_id,
                tutor_name: new_tutor.tutor_name,
                tutor_profile: new_tutor.tutor_profile,
            };
            let result = updated.clone();
            table.rows[i] = updated;
            proof {
                let s = table.rows@;
                let k = i as int;
                assert(s[k].tutor_id == s0[k].tutor_id);
                assert forall|p: int, q: int| 0 <= p < q < s.len() implies (#[trigger] s[p]).tutor_id
                    != (#[trigger] s[q]).tutor_id by {
                    assert(s0[p].tutor_id != s0[q].tutor_id);
                    assert(s[p].tutor_id == s0[p].tutor_id);
                    assert(s[q].tutor_id == s0[q].tutor_id);
                }
                assert(s0[k].tutor_id == tutor_id as int);
                assert(has_tutor(s0, tutor_id as int));
            }
            return Ok(result);
        }
        i += 1;
    }
    proof {
        assert(!has_tutor(table.rows@, tutor_id as int));
    }
    Err(EzyTutorError::NotFound(String::from_str("Tutor id not found")))
}

/// Deletes the tutor with the given id, reporting the deletion; `NotFound`
/// when no row matches. Afterwards no row carries that id.
#[verifier::loop_isolation(false)]
pub fn delete_tutor_db(table: &mut TutorTable, tutor_id: i32) -> (r: Result<
    String,
    EzyTutorError,
>)
    requires
        tutor_table_wf(old(table)@),
    ensures
        tutor_table_wf(final(table)@),
        !has_tutor(old(table)@, tutor_id as int) ==> (r matches Err(e)
            && e matches EzyTutorError::NotFound(m) && m@ == "Tutor id not found"@ && final(table)@
            == old(table)@),
        has_tutor(old(table)@, tutor_id as int) ==> (r matches Ok(m) && m@ == "Deleted one record"@
            && !has_tutor(final(table)@, tutor_id as int) && exists|k: int|
            0 <= k < old(table)@.len() && (#[trigger] old(table)@[k]).tutor_id == tutor_id
                && final(table)@ == old(table)@.remove(k)),
{
    let ghost s0 = table.rows@;
    let mut i: usize = 0;
    while i < table.rows.len()
        invariant
            i <= table.rows.len(),
            table.rows@ == s0,
            forall|j: int| 0 <= j < i ==> (#[trigger] table.rows@[j]).tutor_id != tutor_id,
        decreases table.rows.len() - i,
    {
        let hit = table.rows[i].tutor_id == tutor_id;
        if hit {
            table.rows.remove(i);
            proof {
                let s = table.rows@;
                let k = i as int;
                s0.remove_ensures(k);
                assert forall|p: int| 0 <= p < s.len() implies #[trigger] s[p] == (if p < k {
                    s0[p]
                } else {
                    s0[p + 1]
                }) by {}
                assert forall|p: int, q: int| 0 <= p < q < s.len() implies (#[trigger] s[p]).tutor_id
                    != (#[trigger] s[q]).tutor_id by {
                    let p0 = if p < k { p } else { p + 1 };
                    let q0 = if q < k { q } else { q + 1 };
                    assert(s0[p0].tutor_id != s0[q0].tutor_id);
                }
                assert(s0[k].tutor_id == tutor_id as int);
                assert forall|p: int| 0 <= p < s.len() implies (#[trigger] s[p]).tutor_id
                    != tutor_id as int by {
                    if p >= k {
                        assert(s0[p + 1].tutor_id != s0[k].tutor_id);
                    } else {
                        assert(s0[p].tutor_id != s0[k].tutor_id);
                    }
                }
                assert(has_tutor(s0, tutor_id as int));
            }
            return Ok(String::from_str("Deleted one record"));
        }
        i += 1;
    }
    proof {
        assert(!has_tutor(table.rows@, tutor_id as int));
    }
    Err(EzyTutorError::NotFound(String::from_str("Tutor id not found")))
}

} // verus!
