use ezytutors::db_access::{
    delete_tutor_db, get_all_tutors_db, get_course_details_db, get_courses_for_tutor_db,
    get_tutor_details_db, post_new_course_db, post_new_tutor_db, update_tutor_details_db,
};
use ezytutors::errors::EzyTutorError;
use ezytutors::models::{Course, Timestamp, Tutor};
use ezytutors::state::AppState;
use ezytutors::store::{CourseTable, TutorTable};

fn course(tutor_id: i32, course_id: i32, name: &str) -> Course {
    Course {
        course_id,
        tutor_id,
        course_name: name.to_string(),
        posted_time: None,
    }
}

fn tutor(tutor_id: i32, name: &str, profile: &str) -> Tutor {
    Tutor {
        tutor_id,
        tutor_name: name.to_string(),
        tutor_profile: profile.to_string(),
    }
}

fn ts(micros: i64) -> Timestamp {
    Timestamp { micros }
}

#[test]
fn list_courses_returns_exactly_the_tutors_courses() {
    let mut table = CourseTable::new();
    post_new_course_db(&mut table, course(1, 1, "First course"), ts(10)).unwrap();
    post_new_course_db(&mut table, course(2, 1, "Other tutor"), ts(20)).unwrap();
    post_new_course_db(&mut table, course(1, 2, "Second course"), ts(30)).unwrap();

    let listed = get_courses_for_tutor_db(&table, 1).unwrap();
    assert_eq!(listed.len(), 2);
    assert_eq!(listed[0].tutor_id, 1);
    assert_eq!(listed[0].course_id, 1);
    assert_eq!(listed[0].course_name, "First course");
    assert_eq!(listed[1].tutor_id, 1);
    assert_eq!(listed[1].course_id, 2);
    assert_eq!(listed[1].course_name, "Second course");
    for c in &listed {
        assert_eq!(c.tutor_id, 1);
    }
}

#[test]
fn list_courses_for_tutor_without_courses_is_not_found() {
    let mut table = CourseTable::new();
    post_new_course_db(&mut table, course(2, 1, "Other tutor"), ts(10)).unwrap();

    let r = get_courses_for_tutor_db(&table, 1);
    match r {
        Ok(_) => panic!("an empty listing must be an error, not an empty success list"),
        Err(EzyTutorError::NotFound(m)) => assert_eq!(m, "Courses not found for tutor"),
        Err(_) => panic!("expected NotFound"),
    }
}

#[test]
fn course_detail_for_missing_pair_is_not_found() {
    let mut table = CourseTable::new();
    post_new_course_db(&mut table, course(1, 1, "Only course"), ts(10)).unwrap();

    match get_course_details_db(&table, 1, 2) {
        Err(EzyTutorError::NotFound(m)) => assert_eq!(m, "Course id not found"),
        _ => panic!("expected NotFound"),
    }
    match get_course_details_db(&table, 9, 1) {
        Err(EzyTutorError::NotFound(_)) => {}
        _ => panic!("expected NotFound"),
    }
}

#[test]
fn course_detail_round_trips_all_fields() {
    let mut table = CourseTable::new();
    post_new_course_db(&mut table, course(7, 3, "Round trip"), ts(4_200)).unwrap();

    let got = get_course_details_db(&table, 7, 3).unwrap();
    assert_eq!(got.tutor_id, 7);
    assert_eq!(got.course_id, 3);
    assert_eq!(got.course_name, "Round trip");
    assert_eq!(got.posted_time, Some(ts(4_200)));
}

#[test]
fn create_then_get_returns_the_created_record() {
    let mut table = CourseTable::new();
    let created = post_new_course_db(&mut table, course(5, 11, "Fresh"), ts(99)).unwrap();
    assert_eq!(created.posted_time, Some(ts(99)));

    let got = get_course_details_db(&table, 5, 11).unwrap();
    assert_eq!(got.tutor_id, 5);
    assert_eq!(got.course_id, 11);
    assert_eq!(got.course_name, "Fresh");
    assert!(got.posted_time.is_some());
    assert_eq!(got.posted_time, Some(ts(99)));
}

#[test]
fn duplicate_course_id_is_rejected_and_first_record_kept() {
    let mut table = CourseTable::new();
    post_new_course_db(&mut table, course(1, 1, "Original"), ts(1)).unwrap();

    match post_new_course_db(&mut table, course(1, 1, "Usurper"), ts(2)) {
        Err(EzyTutorError::DatabaseError(_)) => {}
        _ => panic!("a duplicate course id must surface as DatabaseError"),
    }

    let kept = get_course_details_db(&table, 1, 1).unwrap();
    assert_eq!(kept.course_name, "Original");
    assert_eq!(kept.posted_time, Some(ts(1)));
}

#[test]
fn same_course_id_under_other_tutor_is_accepted() {
    let mut table = CourseTable::new();
    post_new_course_db(&mut table, course(1, 1, "Tutor one"), ts(1)).unwrap();
    let r = post_new_course_db(&mut table, course(2, 1, "Tutor two"), ts(2));
    assert!(r.is_ok());
}

#[test]
fn visit_counter_increases_by_one_per_call() {
    let mut state = AppState::new("I'm good. You've already asked me ".to_string());
    assert_eq!(state.visit_count, 0);
    let first = state.increment_visit_count();
    assert_eq!(first, 1);
    assert_eq!(state.visit_count, 1);
    let second = state.increment_visit_count();
    assert_eq!(second, 2);
    let third = state.increment_visit_count();
    assert_eq!(third, 3);
    assert_eq!(state.visit_count, 3);
}

#[test]
fn error_status_mapping_is_total_and_fixed() {
    let db = EzyTutorError::DatabaseError("boom".to_string());
    let actix = EzyTutorError::ActixError("transport".to_string());
    let missing = EzyTutorError::NotFound("nothing".to_string());
    let invalid = EzyTutorError::InvalidInput("bad body".to_string());
    assert_eq!(db.status_code(), 500);
    assert_eq!(actix.status_code(), 500);
    assert_eq!(missing.status_code(), 404);
    assert_eq!(invalid.status_code(), 400);
    assert_eq!(db.error_message(), "boom");
    assert_eq!(actix.error_message(), "transport");
    assert_eq!(missing.error_message(), "nothing");
    assert_eq!(invalid.error_message(), "bad body");
}

#[test]
fn json_error_body_rendering() {
    let plain = EzyTutorError::NotFound("no luck".to_string());
    let body: String = plain.error_response_body().into_iter().collect();
    assert_eq!(body, "{\"error_message\":\"no luck\"}");

    let tricky = EzyTutorError::InvalidInput("he said \"hi\" \\ bye\n".to_string());
    let body: String = tricky.error_response_body().into_iter().collect();
    assert_eq!(
        body,
        "{\"error_message\":\"he said \\\"hi\\\" \\\\ bye\\u000a\"}"
    );

    let empty = EzyTutorError::DatabaseError(String::new());
    let body: String = empty.error_response_body().into_iter().collect();
    assert_eq!(body, "{\"error_message\":\"\"}");
}

#[test]
fn all_tutors_listing_and_empty_listing() {
    let mut table = TutorTable::new();
    match get_all_tutors_db(&table) {
        Err(EzyTutorError::NotFound(m)) => assert_eq!(m, "No tutors found"),
        _ => panic!("expected NotFound on an empty tutor table"),
    }

    post_new_tutor_db(&mut table, tutor(1, "Ann", "Algebra")).unwrap();
    post_new_tutor_db(&mut table, tutor(2, "Ben", "Biology")).unwrap();
    let all = get_all_tutors_db(&table).unwrap();
    assert_eq!(all.len(), 2);
    assert_eq!(all[0].tutor_name, "Ann");
    assert_eq!(all[1].tutor_name, "Ben");
}

#[test]
fn tutor_detail_create_and_duplicate() {
    let mut table = TutorTable::new();
    post_new_tutor_db(&mut table, tutor(1, "Ann", "Algebra")).unwrap();

    let got = get_tutor_details_db(&table, 1).unwrap();
    assert_eq!(got.tutor_name, "Ann");
    assert_eq!(got.tutor_profile, "Algebra");

    match get_tutor_details_db(&table, 2) {
        Err(EzyTutorError::NotFound(m)) => assert_eq!(m, "Tutor id not found"),
        _ => panic!("expected NotFound"),
    }

    match post_new_tutor_db(&mut table, tutor(1, "Another Ann", "Art")) {
        Err(EzyTutorError::DatabaseError(_)) => {}
        _ => panic!("a duplicate tutor id must surface as DatabaseError"),
    }
    let kept = get_tutor_details_db(&table, 1).unwrap();
    assert_eq!(kept.tutor_name, "Ann");
}

#[test]
fn tutor_update_replaces_descriptive_fields() {
    let mut table = TutorTable::new();
    post_new_tutor_db(&mut table, tutor(1, "Ann", "Algebra")).unwrap();

    let updated = update_tutor_details_db(&mut table, 1, tutor(0, "Ann B.", "Advanced algebra"))
        .unwrap();
    assert_eq!(updated.tutor_id, 1);
    assert_eq!(updated.tutor_name, "Ann B.");
    assert_eq!(updated.tutor_profile, "Advanced algebra");

    let got = get_tutor_details_db(&table, 1).unwrap();
    assert_eq!(got.tutor_name, "Ann B.");

    match update_tutor_details_db(&mut table, 9, tutor(0, "Ghost", "None")) {
        Err(EzyTutorError::NotFound(m)) => assert_eq!(m, "Tutor id not found"),
        _ => panic!("expected NotFound"),
    }
}

#[test]
fn tutor_delete_removes_the_row() {
    let mut table = TutorTable::new();
    post_new_tutor_db(&mut table, tutor(1, "Ann", "Algebra")).unwrap();
    post_new_tutor_db(&mut table, tutor(2, "Ben", "Biology")).unwrap();

    let message = delete_tutor_db(&mut table, 1).unwrap();
    assert_eq!(message, "Deleted one record");

    match get_tutor_details_db(&table, 1) {
        Err(EzyTutorError::NotFound(_)) => {}
        _ => panic!("the deleted tutor must be gone"),
    }
    assert!(get_tutor_details_db(&table, 2).is_ok());

    match delete_tutor_db(&mut table, 1) {
        Err(EzyTutorError::NotFound(_)) => {}
        _ => panic!("deleting a missing tutor must be NotFound"),
    }
}
