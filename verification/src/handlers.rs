//! The handlers: each extracts typed arguments, calls exactly one data-access
//! function and renders the result — success as a 200/201-class reply, a
//! taxonomy error through the taxonomy's status and body mapping. The
//! per-request pipeline (dispatch, parse, access, render) is `handle_request`.

use vstd::prelude::*;
use vstd::string::StringExecFns;
use crate::db_access::{
    delete_tutor_db, get_all_tutors_db, get_course_details_db, get_courses_for_tutor_db,
    get_tutor_details_db, post_new_course_db, post_new_tutor_db, update_tutor_details_db,
};
use crate::errors::EzyTutorError;
use crate::models::{Course, Timestamp, Tutor};
use crate::routes::{dispatch, spec_dispatch, Method, RouteMatch};
use crate::state::AppState;
use crate::store::{courses_for, find_course, find_tutor, has_course, has_tutor};

verus! {

/// What a handler renders: one success payload, or the message of the JSON
/// error body `{ "error_message": <string> }`.
pub enum ReplyBody {
    Message(String),
    Courses(Vec<Course>),
    Course(Course),
    Tutors(Vec<Tutor>),
    Tutor(Tutor),
    ErrorMessage(String),
}

/// One rendered response: a status code and a body.
pub struct Reply {
    pub status: u16,
    pub body: ReplyBody,
}

/// A request body as the framework boundary hands it over: absent, parsed
/// into one of the record types, or rejected as malformed before the handler
/// ran.
pub enum RequestBody {
    Empty,
    Course(Course),
    Tutor(Tutor),
    Malformed,
}

/// Renders a taxonomy error: its status code and its message, for the JSON
/// error body. Handlers never build raw error responses; they all go through
/// here.
pub fn error_response(e: &EzyTutorError) -> (r: Reply)
    ensures
        r.status == e.spec_status(),
        r.body matches ReplyBody::ErrorMessage(m) && m@ == e.spec_message(),
{
    Reply { status: e.status_code(), body: ReplyBody::ErrorMessage(e.error_message()) }
}

/// The digit character for a value below ten.
pub open spec fn digit_char(d: int) -> char {
    if d == 0 {
        '0'
    } else if d == 1 {
        '1'
    } else if d == 2 {
        '2'
    } else if d == 3 {
        '3'
    } else if d == 4 {
        '4'
    } else if d == 5 {
        '5'
    } else if d == 6 {
        '6'
    } else if d == 7 {
        '7'
    } else if d == 8 {
        '8'
    } else {
        '9'
    }
}

/// The decimal rendering of `n`, most significant digit first.
pub open spec fn dec_of(n: nat) -> Seq<char>
    decreases n,
{
    if n < 10 {
        seq![digit_char(n as int)]
    } else {
        dec_of(n / 10).push(digit_char((n % 10) as int))
    }
}

/// One decimal digit as a string.
fn digit_str(d: u64) -> (s: &'static str)
    requires
        d < 10,
    ensures
        s@ == seq![digit_char(d as int)],
{
    if d == 0 {
        proof {
            reveal_strlit("0");
            assert("0"@ =~= seq![digit_char(0)]);
        }
        "0"
    } else if d == 1 {
        proof {
            reveal_strlit("1");
            assert("1"@ =~= seq![digit_char(1)]);
        }
        "1"
    } else if d == 2 {
        proof {
            reveal_strlit("2");
            assert("2"@ =~= seq![digit_char(2)]);
        }
        "2"
    } else if d == 3 {
        proof {
            reveal_strlit("3");
            assert("3"@ =~= seq![digit_char(3)]);
        }
        "3"
    } else if d == 4 {
        proof {
            reveal_strlit("4");
            assert("4"@ =~= seq![digit_char(4)]);
        }
        "4"
    } else if d == 5 {
        proof {
            reveal_strlit("5");
            assert("5"@ =~= seq![digit_char(5)]);
        }
        "5"
    } else if d == 6 {
        proof {
            reveal_strlit("6");
            assert("6"@ =~= seq![digit_char(6)]);
        }
        "6"
    } else if d == 7 {
        proof {
            reveal_strlit("7");
            assert("7"@ =~= seq![digit_char(7)]);
        }
        "7"
    } else if d == 8 {
        proof {
            reveal_strlit("8");
            assert("8"@ =~= seq![digit_char(8)]);
        }
        "8"
    } else {
        proof {
            reveal_strlit("9");
            assert("9"@ =~= seq![digit_char(9)]);
        }
        "9"
    }
}

/// Renders `n` in decimal.
pub fn u64_to_string(n: u64) -> (s: String)
    ensures
        s@ == dec_of(n as nat),
    decreases n,
{
    if n < 10 {
        String::from_str(digit_str(n))
    } else {
        let mut s = u64_to_string(n / 10);
        let d = digit_str(n % 10);
        s.append(d);
        proof {
            assert(dec_of(n as nat) =~= dec_of((n / 10) as nat) + seq![
                digit_char((n % 10) as int),
            ]);
        }
        s
    }
}

/// A decimal rendering is never empty.
proof fn lemma_dec_of_len(n: nat)
    ensures
        dec_of(n).len() >= 1,
    decreases n,
{
    if n >= 10 {
        lemma_dec_of_len(n / 10);
    }
}

/// Distinct numbers render distinctly in decimal.
pub proof fn lemma_dec_of_injective(m: nat, n: nat)
    requires
        dec_of(m) == dec_of(n),
    ensures
        m == n,
    decreases m,
{
    if m < 10 && n < 10 {
        assert(dec_of(m)[0] == digit_char(m as int));
        assert(dec_of(n)[0] == digit_char(n as int));
    } else if m < 10 {
        lemma_dec_of_len(n / 10);
        assert(dec_of(n).len() >= 2);
        assert(dec_of(m).len() == 1);
    } else if n < 10 {
        lemma_dec_of_len(m / 10);
        assert(dec_of(m).len() >= 2);
        assert(dec_of(n).len() == 1);
    } else {
        assert(dec_of(m).last() == digit_char((m % 10) as int));
        assert(dec_of(n).last() == digit_char((n % 10) as int));
        assert(dec_of(m).drop_last() =~= dec_of(m / 10));
        assert(dec_of(n).drop_last() =~= dec_of(n / 10));
        assert(m % 10 == n % 10);
        lemma_dec_of_injective(m / 10, n / 10);
    }
}

/// Sequential health checks are each visible: with the counter raised by one
/// per call, no two successive calls render the same response.
pub proof fn lemma_health_responses_distinct(msg: Seq<char>, count: u64)
    requires
        count + 2 <= u64::MAX,
    ensures
        msg + dec_of((count + 1) as nat) != msg + dec_of((count + 2) as nat),
{
    let a = dec_of((count + 1) as nat);
    let b = dec_of((count + 2) as nat);
    if msg + a == msg + b {
        assert((msg + a).skip(msg.len() as int) =~= a);
        assert((msg + b).skip(msg.len() as int) =~= b);
        lemma_dec_of_injective((count + 1) as nat, (count + 2) as nat);
    }
}

/// The health check: raises the visit counter by one and renders the greeting
/// with the new count appended. The counter is the only thing it touches.
pub fn health_check_handler(state: &mut AppState) -> (r: String)
    requires
        old(state).visit_count < u64::MAX,
    ensures
        final(state).visit_count == old(state).visit_count + 1,
        final(state).health_check_response == old(state).health_check_response,
        final(state).db == old(state).db,
        r@ == old(state).health_check_response@ + dec_of((old(state).visit_count + 1) as nat),
{
    let n = state.increment_visit_count();
    let count = u64_to_string(n);
    let mut r = state.health_check_response.clone();
    r.append(count.as_str());
    r
}

/// The health reply: 200 with the greeting and the raised count.
pub open spec fn health_reply(old_msg: Seq<char>, old_count: u64, r: Reply) -> bool {
    r.status == 200 && (r.body matches ReplyBody::Message(m) && m@ == old_msg + dec_of(
        (old_count + 1) as nat,
    ))
}

/// The listing reply: 200 with exactly the tutor's rows, or 404 when the
/// tutor has none — an empty listing is deliberately an error.
pub open spec fn courses_listing_reply(s: Seq<Course>, tutor_id: int, r: Reply) -> bool {
    if courses_for(s, tutor_id).len() > 0 {
        r.status == 200 && (r.body matches ReplyBody::Courses(cs) && cs@ == courses_for(
            s,
            tutor_id,
        ))
    } else {
        r.status == 404 && (r.body matches ReplyBody::ErrorMessage(m) && m@
            == "Courses not found for tutor"@)
    }
}

/// The detail reply: 200 with the first matching row, or 404.
pub open spec fn course_detail_reply(s: Seq<Course>, tutor_id: int, course_id: int, r: Reply) -> bool {
    if find_course(s, tutor_id, course_id) is Some {
        r.status == 200 && (r.body matches ReplyBody::Course(c) && c == find_course(
            s,
            tutor_id,
            course_id,
        )->Some_0)
    } else {
        r.status == 404 && (r.body matches ReplyBody::ErrorMessage(m) && m@
            == "Course id not found"@)
    }
}

/// The create reply: 201 with the persisted record — caller-supplied fields
/// kept, `posted_time` assigned — or 500 on the uniqueness violation, the
/// table untouched.
pub open spec fn course_create_reply(
    s0: Seq<Course>,
    s1: Seq<Course>,
    nc: Course,
    now: Timestamp,
    r: Reply,
) -> bool {
    if has_course(s0, nc.tutor_id as int, nc.course_id as int) {
        r.status == 500 && r.body is ErrorMessage && s1 == s0
    } else {
        r.status == 201 && (r.body matches ReplyBody::Course(c) && {
            &&& c.tutor_id == nc.tutor_id
            &&& c.course_id == nc.course_id
            &&& c.course_name == nc.course_name
            &&& c.posted_time == Some(now)
            &&& s1 == s0.push(c)
        })
    }
}

/// The tutor listing reply: 200 with all rows, or 404 when there are none.
pub open spec fn tutors_listing_reply(s: Seq<Tutor>, r: Reply) -> bool {
    if s.len() > 0 {
        r.status == 200 && (r.body matches ReplyBody::Tutors(ts) && ts@ == s)
    } else {
        r.status == 404 && (r.body matches ReplyBody::ErrorMessage(m) && m@ == "No tutors found"@)
    }
}

/// The tutor detail reply: 200 with the first matching row, or 404.
pub open spec fn tutor_detail_reply(s: Seq<Tutor>, tutor_id: int, r: Reply) -> bool {
    if find_tutor(s, tutor_id) is Some {
        r.status == 200 && (r.body matches ReplyBody::Tutor(t) && t == find_tutor(
            s,
            tutor_id,
        )->Some_0)
    } else {
        r.status == 404 && (r.body matches ReplyBody::ErrorMessage(m) && m@
            == "Tutor id not found"@)
    }
}

/// The tutor create reply: 201 with the record as supplied, or 500 on the
/// uniqueness violation, the table untouched.
pub open spec fn tutor_create_reply(s0: Seq<Tutor>, s1: Seq<Tutor>, nt: Tutor, r: Reply) -> bool {
    if has_tutor(s0, nt.tutor_id as int) {
        r.status == 500 && r.body is ErrorMessage && s1 == s0
    } else {
        r.status == 201 && (r.body matches ReplyBody::Tutor(t) && t == nt && s1 == s0.push(nt))
    }
}

/// The tutor update reply: 200 with the updated record in place of the old
/// row, or 404, the table untouched.
pub open spec fn tutor_update_reply(
    s0: Seq<Tutor>,
    s1: Seq<Tutor>,
    tutor_id: int,
    nt: Tutor,
    r: Reply,
) -> bool {
    if has_tutor(s0, tutor_id) {
        r.status == 200 && (r.body matches ReplyBody::Tutor(t) && {
            &&& t.tutor_id == tutor_id
            &&& t.tutor_name == nt.tutor_name
            &&& t.tutor_profile == nt.tutor_profile
            &&& exists|k: int|
                0 <= k < s0.len() && (#[trigger] s0[k]).tutor_id == tutor_id && s1 == s0.update(
                    k,
                    t,
                )
        })
    } else {
        r.status == 404 && (r.body matches ReplyBody::ErrorMessage(m) && m@
            == "Tutor id not found"@) && s1 == s0
    }
}

/// The tutor delete reply: 200 reporting the deletion, the row gone, or 404,
/// the table untouched.
pub open spec fn tutor_delete_reply(s0: Seq<Tutor>, s1: Seq<Tutor>, tutor_id: int, r: Reply) -> bool {
    if has_tutor(s0, tutor_id) {
        r.status == 200 && (r.body matches ReplyBody::Message(m) && m@ == "Deleted one record"@)
            && !has_tutor(s1, tutor_id) && exists|k: int|
            0 <= k < s0.len() && (#[trigger] s0[k]).tutor_id == tutor_id && s1 == s0.remove(k)
    } else {
        r.status == 404 && (r.body matches ReplyBody::ErrorMessage(m) && m@
            == "Tutor id not found"@) && s1 == s0
    }
}

/// The reply for a body the framework boundary rejected: 400, `InvalidInput`.
pub open spec fn invalid_input_reply(r: Reply) -> bool {
    r.status == 400 && (r.body matches ReplyBody::ErrorMessage(m) && m@
        == "Please provide valid Json input"@)
}

/// Renders the `InvalidInput` error for a rejected body.
pub fn invalid_input_response() -> (r: Reply)
    ensures
        invalid_input_reply(r),
{
    let e = EzyTutorError::InvalidInput(String::from_str("Please provide valid Json input"));
    error_response(&e)
}

/// Lists one tutor's courses.
pub fn get_courses_for_tutor(state: &AppState, tutor_id: i32) -> (r: Reply)
    ensures
        courses_listing_reply(state.db.courses@, tutor_id as int, r),
{
    match get_courses_for_tutor_db(&state.db.courses, tutor_id) {
        Ok(courses) => Reply { status: 200, body: ReplyBody::Courses(courses) },
        Err(e) => error_response(&e),
    }
}

/// Fetches one course by its pair of keys.
pub fn get_course_detail(state: &AppState, tutor_id: i32, course_id: i32) -> (r: Reply)
    ensures
        course_detail_reply(state.db.courses@, tutor_id as int, course_id as int, r),
{
    match get_course_details_db(&state.db.courses, tutor_id, course_id) {
        Ok(course) => Reply { status: 200, body: ReplyBody::Course(course) },
        Err(e) => error_response(&e),
    }
}

/// Creates a course from the posted record.
pub fn post_new_course(state: &mut AppState, new_course: Course, now: Timestamp) -> (r: Reply)
    requires
        old(state).wf(),
    ensures
        final(state).wf(),
        final(state).visit_count == old(state).visit_count,
        final(state).health_check_response == old(state).health_check_response,
        final(state).db.tutors@ == old(state).db.tutors@,
        course_create_reply(old(state).db.courses@, final(state).db.courses@, new_course, now, r),
{
    match post_new_course_db(&mut state.db.courses, new_course, now) {
        Ok(course) => Reply { status: 201, body: ReplyBody::Course(course) },
        Err(e) => error_response(&e),
    }
}

/// Lists all tutors.
pub fn get_all_tutors(state: &AppState) -> (r: Reply)
    ensures
        tutors_listing_reply(state.db.tutors@, r),
{
    match get_all_tutors_db(&state.db.tutors) {
        Ok(tutors) => Reply { status: 200, body: ReplyBody::Tutors(tutors) },
        Err(e) => error_response(&e),
    }
}

/// Fetches one tutor by id.
pub fn get_tutor_details(state: &AppState, tutor_id: i32) -> (r: Reply)
    ensures
        tutor_detail_reply(state.db.tutors@, tutor_id as int, r),
{
    match get_tutor_details_db(&state.db.tutors, tutor_id) {
        Ok(tutor) => Reply { status: 200, body: ReplyBody::Tutor(tutor) },
        Err(e) => error_response(&e),
    }
}

/// Creates a tutor from the posted record.
pub fn post_new_tutor(state: &mut AppState, new_tutor: Tutor) -> (r: Reply)
    requires
        old(state).wf(),
    ensures
        final(state).wf(),
        final(state).visit_count == old(state).visit_count,
        final(state).health_check_response == old(state).health_check_response,
        final(state).db.courses@ == old(state).db.courses@,
        tutor_create_reply(old(state).db.tutors@, final(state).db.tutors@, new_tutor, r),
{
    match post_new_tutor_db(&mut state.db.tutors, new_tutor) {
        Ok(tutor) => Reply { status: 201, body: ReplyBody::Tutor(tutor) },
        Err(e) => error_response(&e),
    }
}

/// Updates one tutor's descriptive fields.
pub fn update_tutor_details(state: &mut AppState, tutor_id: i32, new_tutor: Tutor) -> (r: Reply)
    requires
        old(state).wf(),
    ensures
        final(state).wf(),
        final(state).visit_count == old(state).visit_count,
        final(state).health_check_response == old(state).health_check_response,
        final(state).db.courses@ == old(state).db.courses@,
        tutor_update_reply(old(state).db.tutors@, final(state).db.tutors@, tutor_id as int, new_tutor, r),
{
    match update_tutor_details_db(&mut state.db.tutors, tutor_id, new_tutor) {
        Ok(tutor) => Reply { status: 200, body: ReplyBody::Tutor(tutor) },
        Err(e) => error_response(&e),
    }
}

/// Deletes one tutor.
pub fn delete_tutor(state: &mut AppState, tutor_id: i32) -> (r: Reply)
    requires
        old(state).wf(),
    ensures
        final(state).wf(),
        final(state).visit_count == old(state).visit_count,
        final(state).health_check_response == old(state).health_check_response,
        final(state).db.courses@ == old(state).db.courses@,
        tutor_delete_reply(old(state).db.tutors@, final(state).db.tutors@, tutor_id as int, r),
{
    match delete_tutor_db(&mut state.db.tutors, tutor_id) {
        Ok(message) => Reply { status: 200, body: ReplyBody::Message(message) },
        Err(e) => error_response(&e),
    }
}

/// The per-request pipeline: dispatch the method and path, extract the typed
/// arguments, run exactly one data-access operation, render the result. `None`
/// means no route matched. A create or update route with anything but the
/// record it expects — a malformed body above all — answers 400
/// `InvalidInput`, never a storage error.
pub fn handle_request(
    state: &mut AppState,
    method: Method,
    segments: &Vec<Vec<char>>,
    body: RequestBody,
    now: Timestamp,
) -> (r: Option<Reply>)
    requires
        old(state).wf(),
        old(state).visit_count < u64::MAX,
    ensures
        final(state).wf(),
        r is Some <==> spec_dispatch(method, segments@) is Some,
        spec_dispatch(method, segments@) is None ==> *final(state) == *old(state),
        spec_dispatch(method, segments@) matches Some(route) ==> (r matches Some(rep) && {
            &&& route is Health ==> {
                &&& final(state).visit_count == old(state).visit_count + 1
                &&& final(state).health_check_response == old(state).health_check_response
                &&& final(state).db == old(state).db
                &&& health_reply(old(state).health_check_response@, old(state).visit_count, rep)
            }
            &&& !(route is Health) ==> final(state).visit_count == old(state).visit_count
                && final(state).health_check_response == old(state).health_check_response
            &&& route matches RouteMatch::GetCourses(tid) ==> *final(state) == *old(state)
                && courses_listing_reply(old(state).db.courses@, tid as int, rep)
            &&& route matches RouteMatch::GetCourseDetail(tid, cid) ==> *final(state) == *old(state)
                && course_detail_reply(old(state).db.courses@, tid as int, cid as int, rep)
            &&& route is PostCourse ==> {
                &&& final(state).db.tutors@ == old(state).db.tutors@
                &&& (body matches RequestBody::Course(nc) ==> course_create_reply(
                    old(state).db.courses@,
                    final(state).db.courses@,
                    nc,
                    now,
                    rep,
                ))
                &&& (!(body is Course) ==> *final(state) == *old(state) && invalid_input_reply(rep))
            }
            &&& route is GetTutors ==> *final(state) == *old(state) && tutors_listing_reply(
                old(state).db.tutors@,
                rep,
            )
            &&& route matches RouteMatch::GetTutorDetail(tid) ==> *final(state) == *old(state)
                && tutor_detail_reply(old(state).db.tutors@, tid as int, rep)
            &&& route is PostTutor ==> {
                &&& final(state).db.courses@ == old(state).db.courses@
                &&& (body matches RequestBody::Tutor(nt) ==> tutor_create_reply(
                    old(state).db.tutors@,
                    final(state).db.tutors@,
                    nt,
                    rep,
                ))
                &&& (!(body is Tutor) ==> *final(state) == *old(state) && invalid_input_reply(rep))
            }
            &&& route matches RouteMatch::UpdateTutor(tid) ==> {
                &&& final(state).db.courses@ == old(state).db.courses@
                &&& (body matches RequestBody::Tutor(nt) ==> tutor_update_reply(
                    old(state).db.tutors@,
                    final(state).db.tutors@,
                    tid as int,
                    nt,
                    rep,
                ))
                &&& (!(body is Tutor) ==> *final(state) == *old(state) && invalid_input_reply(rep))
            }
            &&& route matches RouteMatch::DeleteTutor(tid) ==> final(state).db.courses@ == old(
                state,
            ).db.courses@ && tutor_delete_reply(
                old(state).db.tutors@,
                final(state).db.tutors@,
                tid as int,
                rep,
            )
        }),
{
    let route = dispatch(method, segments);
    match route {
        None => None,
        Some(RouteMatch::Health) => {
            let message = health_check_handler(state);
            Some(Reply { status: 200, body: ReplyBody::Message(message) })
        },
        Some(RouteMatch::GetCourses(tutor_id)) => Some(get_courses_for_tutor(state, tutor_id)),
        Some(RouteMatch::GetCourseDetail(tutor_id, course_id)) => Some(
            get_course_detail(state, tutor_id, course_id),
        ),
        Some(RouteMatch::PostCourse) => match body {
            RequestBody::Course(new_course) => Some(post_new_course(state, new_course, now)),
            _ => Some(invalid_input_response()),
        },
        Some(RouteMatch::GetTutors) => Some(get_all_tutors(state)),
        Some(RouteMatch::GetTutorDetail(tutor_id)) => Some(get_tutor_details(state, tutor_id)),
        Some(RouteMatch::PostTutor) => match body {
            RequestBody::Tutor(new_tutor) => Some(post_new_tutor(state, new_tutor)),
            _ => Some(invalid_input_response()),
        },
        Some(RouteMatch::UpdateTutor(tutor_id)) => match body {
            RequestBody::Tutor(new_tutor) => Some(update_tutor_details(state, tutor_id, new_tutor)),
            _ => Some(invalid_input_response()),
        },
        Some(RouteMatch::DeleteTutor(tutor_id)) => Some(delete_tutor(state, tutor_id)),
    }
}

} // verus!
