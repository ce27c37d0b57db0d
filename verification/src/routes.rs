//! The route table: maps an HTTP method and the segments of a request path to
//! a handler with its typed path arguments. Three groups mirror the service's
//! configuration: the health route, the course routes and the tutor routes.

use vstd::prelude::*;

verus! {

/// The HTTP methods the route table distinguishes.
#[derive(Clone, Copy, Debug, PartialEq, Eq, Structural)]
pub enum Method {
    Get,
    Post,
    Put,
    Delete,
}

/// A matched route with its typed path arguments.
#[derive(Clone, Copy, Debug, PartialEq, Eq, Structural)]
pub enum RouteMatch {
    Health,
    GetCourses(i32),
    GetCourseDetail(i32, i32),
    PostCourse,
    GetTutors,
    GetTutorDetail(i32),
    PostTutor,
    UpdateTutor(i32),
    DeleteTutor(i32),
}

/// A decimal digit.
pub open spec fn is_dec_digit(c: char) -> bool {
    48 <= c as u32 && c as u32 <= 57
}

/// Its numeric value.
pub open spec fn digit_val(c: char) -> int {
    c as u32 - 48
}

/// Every character of `s` is a decimal digit.
pub open spec fn all_dec_digits(s: Seq<char>) -> bool {
    forall|i: int| 0 <= i < s.len() ==> is_dec_digit(#[trigger] s[i])
}

/// The number the digit string `s` denotes.
pub open spec fn dec_val(s: Seq<char>) -> int
    decreases s.len(),
{
    if s.len() == 0 {
        0
    } else {
        dec_val(s.drop_last()) * 10 + digit_val(s.last())
    }
}

/// `s` is a decimal integer segment — digits with an optional leading minus —
/// whose value fits an `i32`.
pub open spec fn is_i32_seg(s: Seq<char>) -> bool {
    if s.len() > 0 && s[0] == '-' {
        s.len() > 1 && all_dec_digits(s.skip(1)) && -dec_val(s.skip(1)) >= i32::MIN
    } else {
        s.len() > 0 && all_dec_digits(s) && dec_val(s) <= i32::MAX
    }
}

/// The value such a segment denotes.
pub open spec fn i32_seg_val(s: Seq<char>) -> int {
    if s.len() > 0 && s[0] == '-' {
        -dec_val(s.skip(1))
    } else {
        dec_val(s)
    }
}

/// A digit string denotes a nonnegative number.
proof fn lemma_dec_val_nonneg(s: Seq<char>)
    requires
        all_dec_digits(s),
    ensures
        dec_val(s) >= 0,
    decreases s.len(),
{
    if s.len() > 0 {
        assert(forall|i: int| 0 <= i < s.drop_last().len() ==> #[trigger] s.drop_last()[i] == s[i]);
        lemma_dec_val_nonneg(s.drop_last());
    }
}

/// Extending a digit string never shrinks its value: a prefix denotes at most
/// what the whole denotes.
proof fn lemma_dec_val_prefix(s: Seq<char>, k: int)
    requires
        all_dec_digits(s),
        0 <= k <= s.len(),
    ensures
        dec_val(s.take(k)) <= dec_val(s),
    decreases s.len() - k,
{
    assert(forall|i: int| 0 <= i < s.take(k).len() ==> #[trigger] s.take(k)[i] == s[i]);
    if k == s.len() {
        assert(s.take(k) =~= s);
    } else {
        assert(s.take(k + 1).drop_last() =~= s.take(k));
        assert(s.take(k + 1).last() == s[k]);
        lemma_dec_val_nonneg(s.take(k));
        assert(dec_val(s.take(k + 1)) == dec_val(s.take(k)) * 10 + digit_val(s[k]));
        assert(dec_val(s.take(k)) * 10 >= dec_val(s.take(k)));
        lemma_dec_val_prefix(s, k + 1);
    }
}

/// Parses a path segment as an `i32`: `Some` exactly on the segments
/// `is_i32_seg` admits, with the denoted value.
#[verifier::loop_isolation(false)]
pub fn parse_i32(s: &Vec<char>) -> (r: Option<i32>)
    ensures
        is_i32_seg(s@) ==> (r matches Some(v) && v as int == i32_seg_val(s@)),
        !is_i32_seg(s@) ==> r is None,
{
    let neg = s.len() > 0 && s[0] == '-';
    let start: usize = if neg {
        1
    } else {
        0
    };
    if s.len() == start {
        return None;
    }
    let ghost digits = s@.skip(start as int);
    let mut acc: u64 = 0;
    let mut i: usize = start;
    while i < s.len()
        invariant
            start <= i <= s.len(),
            all_dec_digits(digits.take(i - start)),
            acc == dec_val(digits.take(i - start)),
            acc <= 2147483648,
        decreases s.len() - i,
    {
        let c = s[i];
        let cv = c as u32;
        proof {
            assert(digits[i - start] == s@[i as int]);
        }
        if cv < 48 || cv > 57 {
            proof {
                assert(!is_dec_digit(s@[i as int]));
                assert(!all_dec_digits(digits));
            }
            return None;
        }
        proof {
            assert(digits.take(i + 1 - start).drop_last() =~= digits.take(i - start));
            assert(digits.take(i + 1 - start).last() == digits[i - start]);
        }
        acc = acc * 10 + ((cv - 48) as u64);
        i += 1;
        if acc > 2147483648 {
            proof {
                if is_i32_seg(s@) {
                    if !neg {
                        assert(digits =~= s@);
                    }
                    assert(all_dec_digits(digits));
                    lemma_dec_val_prefix(digits, i - start);
                    assert(dec_val(digits) >= dec_val(digits.take(i - start)));
                    assert(dec_val(digits) > 2147483648);
                    assert(false);
                }
            }
            return None;
        }
    }
    proof {
        assert(digits.take(s@.len() - start) =~= digits);
    }
    if neg {
        let v: i64 = -(acc as i64);
        proof {
            assert(digits == s@.skip(1));
            assert(is_i32_seg(s@));
            assert(-2147483648 <= v <= 0);
        }
        Some(v as i32)
    } else {
        proof {
            assert(digits =~= s@);
        }
        if acc > 2147483647 {
            proof {
                assert(dec_val(s@) > i32::MAX);
                assert(!is_i32_seg(s@));
            }
            return None;
        }
        proof {
            assert(is_i32_seg(s@));
        }
        Some(acc as i32)
    }
}

/// The health route: `GET /health`.
pub open spec fn spec_general_routes(method: Method, segs: Seq<Vec<char>>) -> Option<RouteMatch> {
    if method is Get && segs.len() == 1 && segs[0]@ == "health"@ {
        Some(RouteMatch::Health)
    } else {
        None
    }
}

/// The course routes: list per tutor, detail per pair of keys, create.
pub open spec fn spec_course_routes(method: Method, segs: Seq<Vec<char>>) -> Option<RouteMatch> {
    if segs.len() >= 1 && segs[0]@ == "courses"@ {
        if method is Post && segs.len() == 1 {
            Some(RouteMatch::PostCourse)
        } else if method is Get && segs.len() == 2 && is_i32_seg(segs[1]@) {
            Some(RouteMatch::GetCourses(i32_seg_val(segs[1]@) as i32))
        } else if method is Get && segs.len() == 3 && is_i32_seg(segs[1]@) && is_i32_seg(segs[2]@) {
            Some(
                RouteMatch::GetCourseDetail(
                    i32_seg_val(segs[1]@) as i32,
                    i32_seg_val(segs[2]@) as i32,
                ),
            )
        } else {
            None
        }
    } else {
        None
    }
}

/// The tutor routes: list, detail, create, update, delete.
pub open spec fn spec_tutor_routes(method: Method, segs: Seq<Vec<char>>) -> Option<RouteMatch> {
    if segs.len() >= 1 && segs[0]@ == "tutors"@ {
        if method is Post && segs.len() == 1 {
            Some(RouteMatch::PostTutor)
        } else if method is Get && segs.len() == 1 {
            Some(RouteMatch::GetTutors)
        } else if segs.len() == 2 && is_i32_seg(segs[1]@) {
            if method is Get {
                Some(RouteMatch::GetTutorDetail(i32_seg_val(segs[1]@) as i32))
            } else if method is Put {
                Some(RouteMatch::UpdateTutor(i32_seg_val(segs[1]@) as i32))
            } else if method is Delete {
                Some(RouteMatch::DeleteTutor(i32_seg_val(segs[1]@) as i32))
            } else {
                None
            }
        } else {
            None
        }
    } else {
        None
    }
}

/// The whole table: the three groups in configuration order.
pub open spec fn spec_dispatch(method: Method, segs: Seq<Vec<char>>) -> Option<RouteMatch> {
    if spec_general_routes(method, segs) is Some {
        spec_general_routes(method, segs)
    } else if spec_course_routes(method, segs) is Some {
        spec_course_routes(method, segs)
    } else {
        spec_tutor_routes(method, segs)
    }
}

/// Two segments hold the same characters.
fn seg_eq(a: &Vec<char>, b: &Vec<char>) -> (r: bool)
    ensures
        r == (a@ == b@),
{
    if a.len() != b.len() {
        return false;
    }
    let mut i: usize = 0;
    while i < a.len()
        invariant
            i <= a.len(),
            a.len() == b.len(),
            forall|j: int| 0 <= j < i ==> a@[j] == b@[j],
        decreases a.len() - i,
    {
        if a[i] != b[i] {
            return false;
        }
        i += 1;
    }
    proof {
        assert(a@ =~= b@);
    }
    true
}

/// The segment `health`.
fn health_seg() -> (v: Vec<char>)
    ensures
        v@ == "health"@,
{
    let v = vec!['h', 'e', 'a', 'l', 't', 'h'];
    proof {
        reveal_strlit("health");
        assert(v@ =~= "health"@);
    }
    v
}

/// The segment `courses`.
fn courses_seg() -> (v: Vec<char>)
    ensures
        v@ == "courses"@,
{
    let v = vec!['c', 'o', 'u', 'r', 's', 'e', 's'];
    proof {
        reveal_strlit("courses");
        assert(v@ =~= "courses"@);
    }
    v
}

/// The segment `tutors`.
fn tutors_seg() -> (v: Vec<char>)
    ensures
        v@ == "tutors"@,
{
    let v = vec!['t', 'u', 't', 'o', 'r', 's'];
    proof {
        reveal_strlit("tutors");
        assert(v@ =~= "tutors"@);
    }
    v
}

/// Matches the health route.
pub fn general_routes(method: Method, segments: &Vec<Vec<char>>) -> (r: Option<RouteMatch>)
    ensures
        r == spec_general_routes(method, segments@),
{
    if matches!(method, Method::Get) && segments.len() == 1 && seg_eq(&segments[0], &health_seg()) {
        Some(RouteMatch::Health)
    } else {
        None
    }
}

/// Matches the course routes.
pub fn course_routes(method: Method, segments: &Vec<Vec<char>>) -> (r: Option<RouteMatch>)
    ensures
        r == spec_course_routes(method, segments@),
{
    if segments.len() >= 1 && seg_eq(&segments[0], &courses_seg()) {
        if matches!(method, Method::Post) && segments.len() == 1 {
            Some(RouteMatch::PostCourse)
        } else if matches!(method, Method::Get) && segments.len() == 2 {
            match parse_i32(&segments[1]) {
                Some(tutor_id) => Some(RouteMatch::GetCourses(tutor_id)),
                None => None,
            }
        } else if matches!(method, Method::Get) && segments.len() == 3 {
            match (parse_i32(&segments[1]), parse_i32(&segments[2])) {
                (Some(tutor_id), Some(course_id)) => Some(
                    RouteMatch::GetCourseDetail(tutor_id, course_id),
                ),
                _ => None,
            }
        } else {
            None
        }
    } else {
        None
    }
}

/// Matches the tutor routes.
pub fn tutor_routes(method: Method, segments: &Vec<Vec<char>>) -> (r: Option<RouteMatch>)
    ensures
        r == spec_tutor_routes(method, segments@),
{
    if segments.len() >= 1 && seg_eq(&segments[0], &tutors_seg()) {
        if matches!(method, Method::Post) && segments.len() == 1 {
            Some(RouteMatch::PostTutor)
        } else if matches!(method, Method::Get) && segments.len() == 1 {
            Some(RouteMatch::GetTutors)
        } else if segments.len() == 2 {
            match parse_i32(&segments[1]) {
                Some(tutor_id) => match method {
                    Method::Get => Some(RouteMatch::GetTutorDetail(tutor_id)),
                    Method::Put => Some(RouteMatch::UpdateTutor(tutor_id)),
                    Method::Delete => Some(RouteMatch::DeleteTutor(tutor_id)),
                    Method::Post => None,
                },
                None => None,
            }
        } else {
            None
        }
    } else {
        None
    }
}

/// Dispatches a request to its route, trying the three groups in
/// configuration order.
pub fn dispatch(method: Method, segments: &Vec<Vec<char>>) -> (r: Option<RouteMatch>)
    ensures
        r == spec_dispatch(method, segments@),
{
    let general = general_routes(method, segments);
    if general.is_some() {
        return general;
    }
    let course = course_routes(method, segments);
    if course.is_some() {
        return course;
    }
    tutor_routes(method, segments)
}

} // verus!
