use axum_back::assessment::{AssessmentDetails, AssessmentFilter, GetAssessmentQuery, UpdateAssessmentDetails};
use axum_back::attendance::{AttendanceCondition, GetAttendanceQuery, MarkAttendanceStep};
use axum_back::course::{Course, CourseFilter, CreateCourseRequest, GetCourseQuery, UpdateCourseRequest};
use axum_back::dates::Date;
use axum_back::fee::{fee_status, FeeDetails, FeeFilter, GetFeeQuery, UpdateFeeDetails};
use axum_back::grade::{GetGradeQuery, GradeFilter, GradeRemarks};
use axum_back::notice::{NoticeText, UpdateNoticeRequest};
use axum_back::profile::{email_availability, plan_profile_update, AdminProfileRow, UpdateProfileRequest};
use axum_back::status::Status;
use axum_back::student::{
    CreateStudentRequest, GetStudentQuery, Student, StudentFilter, UpdateStudentRequest,
};
use axum_back::timetable::{GetTimetableQuery, TimeOfDay, Timetable, TimetableFilter, UpdateTimetableRequest};

fn s(x: &str) -> String {
    x.to_string()
}

fn cs101() -> Course {
    Course::from_request(CreateCourseRequest {
        course_code: s("CS101"),
        course_name: s("Introduction to Programming"),
        lecturer: s("Dr. Smith"),
        duration: Some(s("12 weeks")),
        description: Some(s("Learn basic programming")),
    })
}

fn no_course_change() -> UpdateCourseRequest {
    UpdateCourseRequest { course_name: None, lecturer: None, duration: None, description: None }
}

#[test]
fn course_update_replaces_given_fields() {
    let c = cs101().apply_update(UpdateCourseRequest {
        course_name: Some(s("Advanced Programming")),
        duration: Some(s("14 weeks")),
        ..no_course_change()
    });
    assert_eq!(c.course_code, "CS101");
    assert_eq!(c.course_name, "Advanced Programming");
    assert_eq!(c.lecturer, "Dr. Smith");
    assert_eq!(c.duration.as_deref(), Some("14 weeks"));
    assert_eq!(c.description.as_deref(), Some("Learn basic programming"));
}

#[test]
fn course_update_laws_on_values() {
    let same = cs101().apply_update(no_course_change());
    assert_eq!(
        (same.course_name, same.lecturer, same.duration, same.description),
        (s("Introduction to Programming"), s("Dr. Smith"), Some(s("12 weeks")), Some(s("Learn basic programming")))
    );
    let change = || UpdateCourseRequest { lecturer: Some(s("Dr. Jones")), ..no_course_change() };
    let once = cs101().apply_update(change());
    let twice = cs101().apply_update(change()).apply_update(change());
    assert_eq!(
        (once.course_name, once.lecturer, once.duration, once.description),
        (twice.course_name, twice.lecturer, twice.duration, twice.description)
    );
}

#[test]
fn course_search_precedence() {
    let q = |c: Option<&str>, n: Option<&str>, l: Option<&str>| GetCourseQuery {
        course_code: c.map(s),
        course_name: n.map(s),
        lecturer: l.map(s),
    };
    match q(Some("CS101"), Some("Prog"), Some("Smith")).filter() {
        CourseFilter::CodeIs(c) => assert_eq!(c, "CS101"),
        f => panic!("{:?}", f),
    }
    match q(None, Some("Programming"), Some("Smith")).filter() {
        CourseFilter::NameLike(p) => assert_eq!(p, "%Programming%"),
        f => panic!("{:?}", f),
    }
    match q(None, None, Some("Smith")).filter() {
        CourseFilter::LecturerLike(p) => assert_eq!(p, "%Smith%"),
        f => panic!("{:?}", f),
    }
    assert!(matches!(q(None, None, None).filter(), CourseFilter::All));
}

fn john() -> Student {
    Student::from_request(
        42,
        CreateStudentRequest {
            student_id: s("STU001"),
            full_name: s("John Doe"),
            email: s("john@example.com"),
            phone: Some(s("1234567890")),
            course: s("Computer Science"),
            status: s("Active"),
        },
    )
}

fn no_student_change() -> UpdateStudentRequest {
    UpdateStudentRequest { full_name: None, email: None, phone: None, course: None, status: None }
}

#[test]
fn student_update_replaces_given_fields() {
    let st = john().apply_update(UpdateStudentRequest {
        full_name: Some(s("John Updated")),
        status: Some(s("Inactive")),
        ..no_student_change()
    });
    assert_eq!(st.id, 42);
    assert_eq!(st.student_id, "STU001");
    assert_eq!(st.full_name, "John Updated");
    assert_eq!(st.email, "john@example.com");
    assert_eq!(st.phone.as_deref(), Some("1234567890"));
    assert_eq!(st.course, "Computer Science");
    assert_eq!(st.status, "Inactive");
    let unchanged = john().apply_update(no_student_change());
    assert_eq!((unchanged.full_name, unchanged.status), (s("John Doe"), s("Active")));
}

#[test]
fn student_search_precedence() {
    let q = |id: Option<u128>, n: Option<&str>, c: Option<&str>| GetStudentQuery {
        id,
        name: n.map(s),
        course: c.map(s),
    };
    assert!(matches!(q(Some(3), Some("John"), None).filter(), StudentFilter::IdIs(3)));
    match q(None, Some("John"), Some("CS")).filter() {
        StudentFilter::NameLike(p) => assert_eq!(p, "%John%"),
        f => panic!("{:?}", f),
    }
    match q(None, None, Some("Computer Science")).filter() {
        StudentFilter::CourseIs(c) => assert_eq!(c, "Computer Science"),
        f => panic!("{:?}", f),
    }
    assert!(matches!(q(None, None, None).filter(), StudentFilter::All));
}

fn t(h: u32, m: u32) -> TimeOfDay {
    TimeOfDay { seconds_from_midnight: h * 3600 + m * 60, nanosecond: 0 }
}

#[test]
fn timetable_update_and_search() {
    let entry = Timetable {
        id: 1,
        course_code: s("BN332"),
        day_of_week: s("Monday"),
        start_time: t(9, 0),
        end_time: t(11, 0),
        room: Some(s("Room 201")),
        lecturer: Some(s("Dr Smith")),
        effective_date: Some(Date { days_from_ce: 739771 }),
    };
    let changed = entry.apply_update(UpdateTimetableRequest {
        course_code: None,
        day_of_week: Some(s("Tuesday")),
        start_time: None,
        end_time: Some(t(12, 0)),
        room: None,
        lecturer: None,
        effective_date: None,
    });
    assert_eq!(changed.day_of_week, "Tuesday");
    assert_eq!(changed.start_time, t(9, 0));
    assert_eq!(changed.end_time, t(12, 0));
    assert_eq!(changed.room.as_deref(), Some("Room 201"));
    assert_eq!(changed.effective_date, Some(Date { days_from_ce: 739771 }));

    let q = |c: Option<&str>, d: Option<&str>, l: Option<&str>| GetTimetableQuery {
        course_code: c.map(s),
        day_of_week: d.map(s),
        lecturer: l.map(s),
    };
    assert!(matches!(q(Some("BN332"), Some("Monday"), None).filter(), TimetableFilter::CourseIs(_)));
    assert!(matches!(q(None, Some("Monday"), Some("x")).filter(), TimetableFilter::DayIs(_)));
    match q(None, None, Some("Smith")).filter() {
        TimetableFilter::LecturerLike(p) => assert_eq!(p, "%Smith%"),
        f => panic!("{:?}", f),
    }
    assert!(matches!(q(None, None, None).filter(), TimetableFilter::All));
}

#[test]
fn assessment_fee_and_grade_searches() {
    let a = |c: Option<&str>, k: Option<&str>| GetAssessmentQuery { course_code: c.map(s), assessment_type: k.map(s) };
    assert!(matches!(a(Some("BN332"), Some("Project")).filter(), AssessmentFilter::CourseIs(_)));
    match a(None, Some("Project")).filter() {
        AssessmentFilter::TypeIs(k) => assert_eq!(k, "Project"),
        f => panic!("{:?}", f),
    }
    assert!(matches!(a(None, None).filter(), AssessmentFilter::All));

    let f = |st: Option<u128>, status: Option<&str>, ty: Option<&str>| GetFeeQuery {
        student_id: st,
        status: status.map(s),
        fee_type: ty.map(s),
    };
    assert!(matches!(f(Some(8), Some("Paid"), None).filter(), FeeFilter::StudentIs(8)));
    assert!(matches!(f(None, Some("Paid"), Some("Tuition")).filter(), FeeFilter::StatusIs(_)));
    match f(None, None, Some("Tuition")).filter() {
        FeeFilter::TypeLike(p) => assert_eq!(p, "%Tuition%"),
        other => panic!("{:?}", other),
    }
    assert!(matches!(f(None, None, None).filter(), FeeFilter::All));

    let g = |st: Option<u128>, a: Option<u128>, c: Option<&str>| GetGradeQuery {
        student_id: st,
        assessment_id: a,
        course_code: c.map(s),
    };
    assert!(matches!(g(Some(1), Some(2), None).filter(), GradeFilter::StudentIs(1)));
    assert!(matches!(g(None, Some(2), Some("X")).filter(), GradeFilter::AssessmentIs(2)));
    assert!(matches!(g(None, None, Some("X")).filter(), GradeFilter::CourseIs(_)));
    assert!(matches!(g(None, None, None).filter(), GradeFilter::All));
}

#[test]
fn attendance_search_conditions_in_order() {
    let all = GetAttendanceQuery {
        student_id: Some(5),
        course_code: Some(s("CS101")),
        start_date: Some(Date { days_from_ce: 10 }),
        end_date: Some(Date { days_from_ce: 20 }),
    };
    assert_eq!(
        all.conditions(),
        vec![
            AttendanceCondition::StudentIs(5),
            AttendanceCondition::CourseIs(s("CS101")),
            AttendanceCondition::OnOrAfter(Date { days_from_ce: 10 }),
            AttendanceCondition::OnOrBefore(Date { days_from_ce: 20 }),
        ]
    );
    let some = GetAttendanceQuery {
        student_id: None,
        course_code: Some(s("CS101")),
        start_date: None,
        end_date: Some(Date { days_from_ce: 20 }),
    };
    assert_eq!(
        some.conditions(),
        vec![AttendanceCondition::CourseIs(s("CS101")), AttendanceCondition::OnOrBefore(Date { days_from_ce: 20 })]
    );
    let none = GetAttendanceQuery { student_id: None, course_code: None, start_date: None, end_date: None };
    assert!(none.conditions().is_empty());
}

#[test]
fn marking_attendance_is_an_upsert() {
    let first = MarkAttendanceStep::first();
    assert_eq!(first, MarkAttendanceStep::LookUpStudent);
    let e = first.next(false).unwrap_err();
    assert_eq!((e.status, e.message.as_str()), (Status::NotFound, "Student not found"));
    let course = first.next(true).unwrap();
    assert_eq!(course, MarkAttendanceStep::LookUpCourse);
    let e = course.next(false).unwrap_err();
    assert_eq!((e.status, e.message.as_str()), (Status::NotFound, "Course not found"));
    let existing = course.next(true).unwrap();
    assert_eq!(existing, MarkAttendanceStep::LookUpExisting);
    assert_eq!(existing.next(true).unwrap(), MarkAttendanceStep::UpdateExisting);
    assert_eq!(existing.next(false).unwrap(), MarkAttendanceStep::InsertNew);
}

fn admin() -> AdminProfileRow {
    AdminProfileRow { id: 1, email: s("admin@test.com"), full_name: s("System Admin") }
}

#[test]
fn profile_updates() {
    let u = plan_profile_update(
        Some(admin()),
        UpdateProfileRequest { full_name: Some(s("Updated Name")), email: Some(s("newemail@test.com")) },
    )
    .unwrap();
    assert_eq!((u.full_name.as_str(), u.email.as_str(), u.email_changed), ("Updated Name", "newemail@test.com", true));
    let u = plan_profile_update(Some(admin()), UpdateProfileRequest { full_name: None, email: None }).unwrap();
    assert_eq!((u.full_name.as_str(), u.email.as_str(), u.email_changed), ("System Admin", "admin@test.com", false));
    let u = plan_profile_update(Some(admin()), UpdateProfileRequest { full_name: None, email: Some(s("admin@test.com")) })
        .unwrap();
    assert!(!u.email_changed);
    let e = plan_profile_update(None, UpdateProfileRequest { full_name: None, email: None }).unwrap_err();
    assert_eq!((e.status, e.message.as_str()), (Status::NotFound, "Admin not found"));
    assert!(email_availability(false).is_ok());
    let e = email_availability(true).unwrap_err();
    assert_eq!((e.status, e.message.as_str()), (Status::Conflict, "Email already in use"));
}

#[test]
fn notice_updates() {
    let current = || NoticeText { title: s("Welcome to New Semester"), content: s("Starts January 15th") };
    let t = UpdateNoticeRequest { title: Some(s("Updated Title")), content: None }.apply(current());
    assert_eq!((t.title.as_str(), t.content.as_str()), ("Updated Title", "Starts January 15th"));
    let t = UpdateNoticeRequest { title: None, content: None }.apply(current());
    assert_eq!((t.title.as_str(), t.content.as_str()), ("Welcome to New Semester", "Starts January 15th"));
}

#[test]
fn fee_statuses() {
    assert_eq!(fee_status(None, true, true), "Paid");
    assert_eq!(fee_status(None, true, false), "Paid");
    assert_eq!(fee_status(None, false, true), "Partial");
    assert_eq!(fee_status(None, false, false), "Unpaid");
    assert_eq!(fee_status(Some(s("Waived")), false, false), "Waived");
}

#[test]
fn assessment_details_update() {
    let a = AssessmentDetails {
        course_code: s("BN332"),
        title: s("Project"),
        assessment_type: s("Assignment"),
        due_date: Some(Date { days_from_ce: 739800 }),
        description: None,
    };
    let change = UpdateAssessmentDetails {
        course_code: None,
        title: Some(s("Final project")),
        assessment_type: None,
        due_date: None,
        description: Some(s("Group work")),
    };
    let b = a.clone().apply_update(change.clone());
    assert_eq!(b.course_code, "BN332");
    assert_eq!(b.title, "Final project");
    assert_eq!(b.assessment_type, "Assignment");
    assert_eq!(b.due_date, Some(Date { days_from_ce: 739800 }));
    assert_eq!(b.description.as_deref(), Some("Group work"));
    let twice = b.clone().apply_update(change);
    assert_eq!(twice.title, b.title);
    assert_eq!(twice.description, b.description);
    let none = a.clone().apply_update(UpdateAssessmentDetails {
        course_code: None,
        title: None,
        assessment_type: None,
        due_date: None,
        description: None,
    });
    assert_eq!(none.title, a.title);
    assert_eq!(none.due_date, a.due_date);
}

#[test]
fn fee_details_update() {
    let f = FeeDetails {
        fee_type: s("Tuition"),
        due_date: Some(Date { days_from_ce: 739800 }),
        payment_date: None,
        notes: Some(s("first term")),
    };
    let g = f.clone().apply_update(UpdateFeeDetails {
        fee_type: None,
        due_date: None,
        payment_date: Some(Date { days_from_ce: 739790 }),
        notes: None,
    });
    assert_eq!(g.fee_type, "Tuition");
    assert_eq!(g.due_date, Some(Date { days_from_ce: 739800 }));
    assert_eq!(g.payment_date, Some(Date { days_from_ce: 739790 }));
    assert_eq!(g.notes.as_deref(), Some("first term"));
}

#[test]
fn grade_remarks_update() {
    let r = GradeRemarks { grade_letter: Some(s("CR")), feedback: None };
    let u = r.clone().apply_update(GradeRemarks { grade_letter: None, feedback: Some(s("Good work")) });
    assert_eq!(u.grade_letter.as_deref(), Some("CR"));
    assert_eq!(u.feedback.as_deref(), Some("Good work"));
    let v = u.clone().apply_update(GradeRemarks { grade_letter: Some(s("D")), feedback: None });
    assert_eq!(v.grade_letter.as_deref(), Some("D"));
    assert_eq!(v.feedback.as_deref(), Some("Good work"));
}
