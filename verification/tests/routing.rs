use ezytutors::handlers::{
    handle_request, health_check_handler, u64_to_string, Reply, ReplyBody, RequestBody,
};
use ezytutors::models::{Course, Timestamp, Tutor};
use ezytutors::routes::{dispatch, parse_i32, Method, RouteMatch};
use ezytutors::state::AppState;

fn segs(parts: &[&str]) -> Vec<Vec<char>> {
    parts.iter().map(|p| p.chars().collect()).collect()
}

fn fresh_state() -> AppState {
    AppState::new("I'm good. You've already asked me ".to_string())
}

fn course(tutor_id: i32, course_id: i32, name: &str) -> Course {
    Course {
        course_id,
        tutor_id,
        course_name: name.to_string(),
        posted_time: None,
    }
}

fn tutor(tutor_id: i32, name: &str, profile: &str) -> Tutor {
    Tutor {
        tutor_id,
        tutor_name: name.to_string(),
        tutor_profile: profile.to_string(),
    }
}

fn error_message(reply: &Reply) -> &str {
    match &reply.body {
        ReplyBody::ErrorMessage(m) => m,
        _ => panic!("expected an error body"),
    }
}

#[test]
fn decimal_rendering_exact_values() {
    assert_eq!(u64_to_string(0), "0");
    assert_eq!(u64_to_string(7), "7");
    assert_eq!(u64_to_string(10), "10");
    assert_eq!(u64_to_string(12345), "12345");
    assert_eq!(u64_to_string(u64::MAX), "18446744073709551615");
}

#[test]
fn parse_i32_accepts_exactly_the_decimal_segments() {
    let chars = |s: &str| s.chars().collect::<Vec<char>>();
    assert_eq!(parse_i32(&chars("123")), Some(123));
    assert_eq!(parse_i32(&chars("-45")), Some(-45));
    assert_eq!(parse_i32(&chars("0")), Some(0));
    assert_eq!(parse_i32(&chars("007")), Some(7));
    assert_eq!(parse_i32(&chars("2147483647")), Some(i32::MAX));
    assert_eq!(parse_i32(&chars("-2147483648")), Some(i32::MIN));
    assert_eq!(parse_i32(&chars("2147483648")), None);
    assert_eq!(parse_i32(&chars("-2147483649")), None);
    assert_eq!(parse_i32(&chars("")), None);
    assert_eq!(parse_i32(&chars("-")), None);
    assert_eq!(parse_i32(&chars("--1")), None);
    assert_eq!(parse_i32(&chars("12a")), None);
    assert_eq!(parse_i32(&chars("99999999999999999999")), None);
}

#[test]
fn dispatch_matches_the_route_table() {
    assert_eq!(dispatch(Method::Get, &segs(&["health"])), Some(RouteMatch::Health));
    assert_eq!(dispatch(Method::Post, &segs(&["health"])), None);
    assert_eq!(dispatch(Method::Get, &segs(&["courses", "5"])), Some(RouteMatch::GetCourses(5)));
    assert_eq!(
        dispatch(Method::Get, &segs(&["courses", "5", "7"])),
        Some(RouteMatch::GetCourseDetail(5, 7))
    );
    assert_eq!(dispatch(Method::Post, &segs(&["courses"])), Some(RouteMatch::PostCourse));
    assert_eq!(dispatch(Method::Get, &segs(&["courses", "five"])), None);
    assert_eq!(dispatch(Method::Get, &segs(&["tutors"])), Some(RouteMatch::GetTutors));
    assert_eq!(dispatch(Method::Post, &segs(&["tutors"])), Some(RouteMatch::PostTutor));
    assert_eq!(dispatch(Method::Get, &segs(&["tutors", "3"])), Some(RouteMatch::GetTutorDetail(3)));
    assert_eq!(dispatch(Method::Put, &segs(&["tutors", "3"])), Some(RouteMatch::UpdateTutor(3)));
    assert_eq!(dispatch(Method::Delete, &segs(&["tutors", "3"])), Some(RouteMatch::DeleteTutor(3)));
    assert_eq!(dispatch(Method::Get, &segs(&["unknown"])), None);
    assert_eq!(dispatch(Method::Get, &segs(&["courses"])), None);
    assert_eq!(dispatch(Method::Get, &segs(&["health", "x"])), None);
    assert_eq!(dispatch(Method::Get, &segs(&["tutors", "1", "2"])), None);
    assert_eq!(dispatch(Method::Delete, &segs(&["courses", "1"])), None);
}

#[test]
fn health_handler_renders_message_and_count() {
    let mut state = fresh_state();
    let first = health_check_handler(&mut state);
    assert_eq!(first, "I'm good. You've already asked me 1");
    let second = health_check_handler(&mut state);
    assert_eq!(second, "I'm good. You've already asked me 2");
    assert_eq!(state.visit_count, 2);
}

#[test]
fn pipeline_health_route() {
    let mut state = fresh_state();
    let reply = handle_request(
        &mut state,
        Method::Get,
        &segs(&["health"]),
        RequestBody::Empty,
        Timestamp { micros: 0 },
    )
    .unwrap();
    assert_eq!(reply.status, 200);
    match reply.body {
        ReplyBody::Message(m) => assert_eq!(m, "I'm good. You've already asked me 1"),
        _ => panic!("expected the health message"),
    }
    assert_eq!(state.visit_count, 1);
}

#[test]
fn pipeline_create_then_list_and_detail() {
    let mut state = fresh_state();
    let created = handle_request(
        &mut state,
        Method::Post,
        &segs(&["courses"]),
        RequestBody::Course(course(1, 1, "Pipeline course")),
        Timestamp { micros: 77 },
    )
    .unwrap();
    assert_eq!(created.status, 201);

    let listed = handle_request(
        &mut state,
        Method::Get,
        &segs(&["courses", "1"]),
        RequestBody::Empty,
        Timestamp { micros: 0 },
    )
    .unwrap();
    assert_eq!(listed.status, 200);
    match listed.body {
        ReplyBody::Courses(cs) => {
            assert_eq!(cs.len(), 1);
            assert_eq!(cs[0].course_name, "Pipeline course");
        }
        _ => panic!("expected the course listing"),
    }

    let detail = handle_request(
        &mut state,
        Method::Get,
        &segs(&["courses", "1", "1"]),
        RequestBody::Empty,
        Timestamp { micros: 0 },
    )
    .unwrap();
    assert_eq!(detail.status, 200);
    match detail.body {
        ReplyBody::Course(c) => {
            assert_eq!(c.posted_time, Some(Timestamp { micros: 77 }));
        }
        _ => panic!("expected the course detail"),
    }
}

#[test]
fn pipeline_missing_routes_give_404_replies() {
    let mut state = fresh_state();
    let listed = handle_request(
        &mut state,
        Method::Get,
        &segs(&["courses", "1"]),
        RequestBody::Empty,
        Timestamp { micros: 0 },
    )
    .unwrap();
    assert_eq!(listed.status, 404);
    assert_eq!(error_message(&listed), "Courses not found for tutor");

    let unrouted = handle_request(
        &mut state,
        Method::Get,
        &segs(&["nowhere"]),
        RequestBody::Empty,
        Timestamp { micros: 0 },
    );
    assert!(unrouted.is_none());
}

#[test]
fn malformed_body_on_create_is_invalid_input_never_database_error() {
    let mut state = fresh_state();
    let reply = handle_request(
        &mut state,
        Method::Post,
        &segs(&["courses"]),
        RequestBody::Malformed,
        Timestamp { micros: 0 },
    )
    .unwrap();
    assert_eq!(reply.status, 400);
    assert_ne!(reply.status, 500);
    assert_eq!(error_message(&reply), "Please provide valid Json input");

    let wrong_kind = handle_request(
        &mut state,
        Method::Post,
        &segs(&["courses"]),
        RequestBody::Tutor(tutor(1, "Ann", "Algebra")),
        Timestamp { micros: 0 },
    )
    .unwrap();
    assert_eq!(wrong_kind.status, 400);

    let update = handle_request(
        &mut state,
        Method::Put,
        &segs(&["tutors", "1"]),
        RequestBody::Malformed,
        Timestamp { micros: 0 },
    )
    .unwrap();
    assert_eq!(update.status, 400);
    assert_eq!(state.visit_count, 0);
}

#[test]
fn pipeline_tutor_routes_full_cycle() {
    let mut state = fresh_state();
    let now = Timestamp { micros: 0 };

    let created = handle_request(
        &mut state,
        Method::Post,
        &segs(&["tutors"]),
        RequestBody::Tutor(tutor(1, "Ann", "Algebra")),
        now,
    )
    .unwrap();
    assert_eq!(created.status, 201);

    let updated = handle_request(
        &mut state,
        Method::Put,
        &segs(&["tutors", "1"]),
        RequestBody::Tutor(tutor(0, "Ann B.", "More algebra")),
        now,
    )
    .unwrap();
    assert_eq!(updated.status, 200);
    match updated.body {
        ReplyBody::Tutor(t) => {
            assert_eq!(t.tutor_id, 1);
            assert_eq!(t.tutor_name, "Ann B.");
        }
        _ => panic!("expected the updated tutor"),
    }

    let deleted = handle_request(
        &mut state,
        Method::Delete,
        &segs(&["tutors", "1"]),
        RequestBody::Empty,
        now,
    )
    .unwrap();
    assert_eq!(deleted.status, 200);

    let detail = handle_request(
        &mut state,
        Method::Get,
        &segs(&["tutors", "1"]),
        RequestBody::Empty,
        now,
    )
    .unwrap();
    assert_eq!(detail.status, 404);
    assert_eq!(error_message(&detail), "Tutor id not found");
}
