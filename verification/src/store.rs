//! A model of the relational store: one table of course rows and one of tutor
//! rows, with the key-uniqueness constraints the database schema enforces.
//! The data-access layer is specified and proved against this model; the
//! spec functions here say what each query means on a sequence of rows.

use vstd::prelude::*;
use crate::models::{Course, Tutor};

verus! {

/// Both keys of a course row match the given pair.
pub open spec fn course_has_key(c: Course, tutor_id: int, course_id: int) -> bool {
    c.tutor_id == tutor_id && c.course_id == course_id
}

/// The rows of `s` whose `tutor_id` matches, in their order in `s`:
/// what `SELECT ... WHERE tutor_id = $1` returns.
pub open spec fn courses_for(s: Seq<Course>, tutor_id: int) -> Seq<Course>
    decreases s.len(),
{
    if s.len() == 0 {
        Seq::empty()
    } else if s.last().tutor_id == tutor_id {
        courses_for(s.drop_last(), tutor_id).push(s.last())
    } else {
        courses_for(s.drop_last(), tutor_id)
    }
}

/// The first row of `s` matching both keys, if any: what
/// `SELECT ... WHERE tutor_id = $1 AND course_id = $2` fetches first.
pub open spec fn find_course(s: Seq<Course>, tutor_id: int, course_id: int) -> Option<Course>
    decreases s.len(),
{
    if s.len() == 0 {
        None
    } else if course_has_key(s[0], tutor_id, course_id) {
        Some(s[0])
    } else {
        find_course(s.skip(1), tutor_id, course_id)
    }
}

/// Some row of `s` matches both keys.
pub open spec fn has_course(s: Seq<Course>, tutor_id: int, course_id: int) -> bool {
    exists|i: int| 0 <= i < s.len() && course_has_key(s[i], tutor_id, course_id)
}

/// The schema's constraints on the course table: every persisted row carries
/// its server-assigned `posted_time`, and `course_id` is unique per tutor.
pub open spec fn course_table_wf(s: Seq<Course>) -> bool {
    &&& forall|i: int| 0 <= i < s.len() ==> (#[trigger] s[i]).posted_time is Some
    &&& forall|i: int, j: int|
        0 <= i < j < s.len() ==> !course_has_key(#[trigger] s[i], #[trigger] s[j].tutor_id as int, s[j].course_id as int)
}

/// The first row of `s` with the given `tutor_id`, if any.
pub open spec fn find_tutor(s: Seq<Tutor>, tutor_id: int) -> Option<Tutor>
    decreases s.len(),
{
    if s.len() == 0 {
        None
    } else if s[0].tutor_id == tutor_id {
        Some(s[0])
    } else {
        find_tutor(s.skip(1), tutor_id)
    }
}

/// Some row of `s` has the given `tutor_id`.
pub open spec fn has_tutor(s: Seq<Tutor>, tutor_id: int) -> bool {
    exists|i: int| 0 <= i < s.len() && (#[trigger] s[i]).tutor_id == tutor_id
}

/// The schema's constraint on the tutor table: `tutor_id` is unique.
pub open spec fn tutor_table_wf(s: Seq<Tutor>) -> bool {
    forall|i: int, j: int|
        0 <= i < j < s.len() ==> (#[trigger] s[i]).tutor_id != (#[trigger] s[j]).tutor_id
}

/// The course table. Its view is the sequence of persisted rows in the
/// store's natural return order.
pub struct CourseTable {
    pub rows: Vec<Course>,
}

impl View for CourseTable {
    type V = Seq<Course>;

    open spec fn view(&self) -> Seq<Course> {
        self.rows@
    }
}

impl CourseTable {
    /// An empty table; trivially well formed.
    pub fn new() -> (t: Self)
        ensures
            t@.len() == 0,
            course_table_wf(t@),
    {
        CourseTable { rows: Vec::new() }
    }
}

/// The tutor table. Its view is the sequence of persisted rows.
pub struct TutorTable {
    pub rows: Vec<Tutor>,
}

impl View for TutorTable {
    type V = Seq<Tutor>;

    open spec fn view(&self) -> Seq<Tutor> {
        self.rows@
    }
}

impl TutorTable {
    /// An empty table; trivially well formed.
    pub fn new() -> (t: Self)
        ensures
            t@.len() == 0,
            tutor_table_wf(t@),
    {
        TutorTable { rows: Vec::new() }
    }
}

/// A row `find_course` returns matches the keys, lies in `s`, and is the
/// first such row; absence of a result means no row matches.
pub proof fn lemma_find_course_first(s: Seq<Course>, tutor_id: int, course_id: int)
    ensures
        find_course(s, tutor_id, course_id) is Some <==> has_course(s, tutor_id, course_id),
        find_course(s, tutor_id, course_id) matches Some(c) ==> {
            &&& course_has_key(c, tutor_id, course_id)
            &&& exists|i: int|
                0 <= i < s.len() && s[i] == c
                    && forall|j: int| 0 <= j < i ==> !course_has_key(#[trigger] s[j], tutor_id, course_id)
        },
    decreases s.len(),
{
    if s.len() == 0 {
    } else if course_has_key(s[0], tutor_id, course_id) {
        assert(s[0] == s[0] && forall|j: int| 0 <= j < 0 ==> !course_has_key(#[trigger] s[j], tutor_id, course_id));
    } else {
        lemma_find_course_first(s.skip(1), tutor_id, course_id);
        if has_course(s, tutor_id, course_id) {
            let i = choose|i: int| 0 <= i < s.len() && course_has_key(s[i], tutor_id, course_id);
            assert(i != 0);
            assert(s.skip(1)[i - 1] == s[i]);
            assert(has_course(s.skip(1), tutor_id, course_id));
        }
        if has_course(s.skip(1), tutor_id, course_id) {
            assert(has_course(s, tutor_id, course_id)) by {
                let i = choose|i: int| 0 <= i < s.skip(1).len() && course_has_key(s.skip(1)[i], tutor_id, course_id);
                assert(s[i + 1] == s.skip(1)[i]);
            }
        }
        if find_course(s.skip(1), tutor_id, course_id) is Some {
            let c = find_course(s.skip(1), tutor_id, course_id)->Some_0;
            let i = choose|i: int|
                0 <= i < s.skip(1).len() && s.skip(1)[i] == c
                    && forall|j: int| 0 <= j < i ==> !course_has_key(#[trigger] s.skip(1)[j], tutor_id, course_id);
            assert(s[i + 1] == c);
            assert(forall|j: int| 0 <= j < i + 1 ==> !course_has_key(#[trigger] s[j], tutor_id, course_id)) by {
                assert(forall|j: int| 1 <= j < i + 1 ==> s[j] == s.skip(1)[j - 1]);
            }
        }
    }
}

/// Likewise for tutors: the row `find_tutor` returns is the first match.
pub proof fn lemma_find_tutor_first(s: Seq<Tutor>, tutor_id: int)
    ensures
        find_tutor(s, tutor_id) is Some <==> has_tutor(s, tutor_id),
        find_tutor(s, tutor_id) matches Some(t) ==> t.tutor_id == tutor_id && s.contains(t),
    decreases s.len(),
{
    if s.len() == 0 {
    } else if s[0].tutor_id == tutor_id {
        assert(s.contains(s[0]));
    } else {
        lemma_find_tutor_first(s.skip(1), tutor_id);
        if has_tutor(s, tutor_id) {
            let i = choose|i: int| 0 <= i < s.len() && (#[trigger] s[i]).tutor_id == tutor_id;
            assert(i != 0);
            assert(s.skip(1)[i - 1] == s[i]);
        }
        if has_tutor(s.skip(1), tutor_id) {
            let i = choose|i: int| 0 <= i < s.skip(1).len() && (#[trigger] s.skip(1)[i]).tutor_id == tutor_id;
            assert(s[i + 1] == s.skip(1)[i]);
        }
        if find_tutor(s.skip(1), tutor_id) is Some {
            let t = find_tutor(s.skip(1), tutor_id)->Some_0;
            assert(s.skip(1).contains(t));
            let i = choose|i: int| 0 <= i < s.skip(1).len() && s.skip(1)[i] == t;
            assert(s[i + 1] == t);
            assert(s.contains(s[i + 1]));
        }
    }
}

/// The listing is exact: every row it returns belongs to the tutor and comes
/// from the table, every row of the tutor in the table is returned, and the
/// listing is empty exactly when the tutor has no course on record.
pub proof fn lemma_courses_for_exact(s: Seq<Course>, tutor_id: int)
    ensures
        forall|i: int|
            0 <= i < courses_for(s, tutor_id).len() ==> (#[trigger] courses_for(s, tutor_id)[i]).tutor_id
                == tutor_id,
        forall|c: Course| #[trigger] courses_for(s, tutor_id).contains(c) ==> s.contains(c),
        forall|i: int|
            0 <= i < s.len() && (#[trigger] s[i]).tutor_id == tutor_id ==> courses_for(
                s,
                tutor_id,
            ).contains(s[i]),
        courses_for(s, tutor_id).len() == 0 <==> (forall|i: int|
            0 <= i < s.len() ==> (#[trigger] s[i]).tutor_id != tutor_id),
    decreases s.len(),
{
    let f = courses_for(s, tutor_id);
    if s.len() == 0 {
    } else {
        let d = s.drop_last();
        lemma_courses_for_exact(d, tutor_id);
        let fd = courses_for(d, tutor_id);
        assert(forall|i: int| 0 <= i < d.len() ==> #[trigger] d[i] == s[i]);
        if s.last().tutor_id == tutor_id {
            assert(f == fd.push(s.last()));
            assert forall|i: int| 0 <= i < f.len() implies (#[trigger] f[i]).tutor_id == tutor_id by {
                if i < fd.len() {
                    assert(f[i] == fd[i]);
                } else {
                    assert(f[i] == s.last());
                }
            }
            assert forall|c: Course| #[trigger] f.contains(c) implies s.contains(c) by {
                let i = choose|i: int| 0 <= i < f.len() && f[i] == c;
                if i < fd.len() {
                    assert(fd[i] == c);
                    assert(fd.contains(c));
                    let j = choose|j: int| 0 <= j < d.len() && d[j] == c;
                    assert(s[j] == c);
                } else {
                    assert(s[s.len() - 1] == c);
                }
            }
            assert forall|i: int|
                0 <= i < s.len() && (#[trigger] s[i]).tutor_id == tutor_id implies f.contains(
                s[i],
            ) by {
                if i < s.len() - 1 {
                    assert(d[i] == s[i] && d[i].tutor_id == tutor_id);
                    assert(fd.contains(d[i]));
                    let j = choose|j: int| 0 <= j < fd.len() && fd[j] == s[i];
                    assert(f[j] == s[i]);
                } else {
                    assert(f[f.len() - 1] == s.last());
                }
            }
        } else {
            assert(f == fd);
            assert forall|c: Course| #[trigger] f.contains(c) implies s.contains(c) by {
                let i = choose|i: int| 0 <= i < f.len() && f[i] == c;
                assert(fd.contains(c));
                let j = choose|j: int| 0 <= j < d.len() && d[j] == c;
                assert(s[j] == c);
            }
            assert forall|i: int|
                0 <= i < s.len() && (#[trigger] s[i]).tutor_id == tutor_id implies f.contains(
                s[i],
            ) by {
                assert(i < s.len() - 1);
                assert(d[i] == s[i] && d[i].tutor_id == tutor_id);
                assert(fd.contains(d[i]));
            }
        }
        if f.len() == 0 {
            assert forall|i: int| 0 <= i < s.len() implies (#[trigger] s[i]).tutor_id != tutor_id by {
                if s[i].tutor_id == tutor_id {
                    assert(f.contains(s[i]));
                    let j = choose|j: int| 0 <= j < f.len() && f[j] == s[i];
                }
            }
        } else {
            assert(f.contains(f[0]));
            assert(s.contains(f[0]));
            let j = choose|j: int| 0 <= j < s.len() && s[j] == f[0];
            assert(s[j].tutor_id == tutor_id);
        }
    }
}

/// Creating a course and immediately fetching it by its keys returns the very
/// record the create persisted, caller-supplied fields and server-assigned
/// `posted_time` included: on a fresh key `post_new_course_db` appends its
/// result `c`, and on the grown table the lookup yields exactly `c`.
pub proof fn lemma_create_then_get(s: Seq<Course>, c: Course)
    requires
        !has_course(s, c.tutor_id as int, c.course_id as int),
    ensures
        find_course(s.push(c), c.tutor_id as int, c.course_id as int) == Some(c),
    decreases s.len(),
{
    let tutor_id = c.tutor_id as int;
    let course_id = c.course_id as int;
    if s.len() == 0 {
        assert(s.push(c)[0] == c);
    } else {
        assert(s.push(c)[0] == s[0]);
        assert(!course_has_key(s[0], tutor_id, course_id));
        assert(s.push(c).skip(1) =~= s.skip(1).push(c));
        assert(!has_course(s.skip(1), tutor_id, course_id)) by {
            if has_course(s.skip(1), tutor_id, course_id) {
                let i = choose|i: int|
                    0 <= i < s.skip(1).len() && course_has_key(s.skip(1)[i], tutor_id, course_id);
                assert(s[i + 1] == s.skip(1)[i]);
                assert(course_has_key(s[i + 1], tutor_id, course_id));
            }
        }
        lemma_create_then_get(s.skip(1), c);
    }
}

/// A second create under keys already on record is rejected: the keys are
/// occupied, so `post_new_course_db` answers `DatabaseError` and leaves the
/// table as it was, and the record first stored under those keys — here the
/// one the lookup returns — stays retrievable, unchanged.
pub proof fn lemma_duplicate_create_keeps_record(
    s: Seq<Course>,
    c: Course,
    tutor_id: int,
    course_id: int,
)
    requires
        find_course(s, tutor_id, course_id) == Some(c),
    ensures
        has_course(s, tutor_id, course_id),
        course_has_key(c, tutor_id, course_id),
        s.contains(c),
{
    lemma_find_course_first(s, tutor_id, course_id);
    let i = choose|i: int|
        0 <= i < s.len() && s[i] == c && forall|j: int|
            0 <= j < i ==> !course_has_key(#[trigger] s[j], tutor_id, course_id);
    assert(s.contains(s[i]));
}

} // verus!
