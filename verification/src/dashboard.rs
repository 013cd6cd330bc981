use vstd::prelude::*;

use crate::dates::{max_day, Date};
use crate::text::{
    append_i64, append_u64, int_decimal, join_strings, joined, nat_decimal, string_views,
};

verus! {

/// The value of a `COUNT(*)` column: `NULL` reads as zero.
pub open spec fn count_value(c: Option<i64>) -> int {
    match c {
        Some(n) => n as int,
        None => 0,
    }
}

// ---------------------------------------------------------------------------
// Smart alerts
// ---------------------------------------------------------------------------

/// A notice shown on the dashboard.
#[derive(Debug, Clone)]
pub struct SmartAlert {
    pub alert_type: String,
    pub title: String,
    pub message: String,
    pub priority: u8,
}

impl View for SmartAlert {
    type V = (Seq<char>, Seq<char>, Seq<char>, u8);

    open spec fn view(&self) -> (Seq<char>, Seq<char>, Seq<char>, u8) {
        (self.alert_type@, self.title@, self.message@, self.priority)
    }
}

/// The most students that the low-attendance alert names.
pub open spec fn named_students_max() -> nat {
    3
}

/// The alert for students whose attendance is below 75%, naming the first
/// three of them.
pub open spec fn low_attendance_alert(names: Seq<Seq<char>>) -> (
    Seq<char>,
    Seq<char>,
    Seq<char>,
    u8,
) {
    (
        "warning"@,
        "Low Attendance Alert"@,
        nat_decimal(names.len()) + " student(s) have attendance below 75%: "@ + joined(
            names.take(
                if names.len() < named_students_max() {
                    names.len() as int
                } else {
                    named_students_max() as int
                },
            ),
            ", "@,
        ),
        4u8,
    )
}

pub open spec fn inactive_students_alert(inactive: int) -> (Seq<char>, Seq<char>, Seq<char>, u8) {
    (
        "info"@,
        "Inactive Students"@,
        int_decimal(inactive) + " students are currently inactive. Consider reaching out to them."@,
        2u8,
    )
}

pub open spec fn enrollment_alert(total: int) -> (Seq<char>, Seq<char>, Seq<char>, u8) {
    (
        "success"@,
        "Total Enrollment"@,
        "Currently managing "@ + int_decimal(total) + " student(s) in the system"@,
        1u8,
    )
}

pub open spec fn empty_courses_alert(empty: int) -> (Seq<char>, Seq<char>, Seq<char>, u8) {
    (
        "info"@,
        "Courses with No Students"@,
        int_decimal(empty) + " courses have no enrolled students"@,
        2u8,
    )
}

/// The alerts of the dashboard, in the order shown: low attendance (when any
/// student is below 75%), many inactive students (more than ten), the
/// enrollment total (always), courses with no students (when any).
pub open spec fn spec_smart_alerts(
    low_attendance: Seq<Seq<char>>,
    inactive: int,
    total: int,
    empty_courses: int,
) -> Seq<(Seq<char>, Seq<char>, Seq<char>, u8)> {
    let s1 = if low_attendance.len() > 0 {
        seq![low_attendance_alert(low_attendance)]
    } else {
        Seq::empty()
    };
    let s2 = if inactive > 10 {
        s1.push(inactive_students_alert(inactive))
    } else {
        s1
    };
    let s3 = s2.push(enrollment_alert(total));
    if empty_courses > 0 {
        s3.push(empty_courses_alert(empty_courses))
    } else {
        s3
    }
}

fn first_strings(v: &Vec<String>, n: usize) -> (r: Vec<String>)
    ensures
        string_views(r@) == string_views(v@).take(if v.len() < n { v.len() as int } else { n as int }),
{
    let k = if v.len() < n {
        v.len()
    } else {
        n
    };
    let mut r: Vec<String> = Vec::new();
    let mut i: usize = 0;
    while i < k
        invariant
            k <= v.len(),
            i <= k,
            r.len() == i,
            forall|j: int| 0 <= j < i ==> (#[trigger] r@[j])@ == v@[j]@,
        decreases k - i,
    {
        let c = v[i].clone();
        r.push(c);
        i = i + 1;
    }
    assert(string_views(r@) =~= string_views(v@).take(k as int));
    r
}

fn alert(alert_type: &str, title: &str, message: String, priority: u8) -> (a: SmartAlert)
    ensures
        a@ == (alert_type@, title@, message@, priority),
{
    SmartAlert {
        alert_type: alert_type.to_string(),
        title: title.to_string(),
        message,
        priority,
    }
}

/// The dashboard alerts, from the names of the students below 75% attendance
/// (in the order found) and the counts of inactive students, of all
/// students, and of courses with no students.
pub fn smart_alerts(
    low_attendance: &Vec<String>,
    inactive: Option<i64>,
    total_students: Option<i64>,
    empty_courses: Option<i64>,
) -> (r: Vec<SmartAlert>)
    ensures
        r@.map_values(|a: SmartAlert| a@) == spec_smart_alerts(
            string_views(low_attendance@),
            count_value(inactive),
            count_value(total_students),
            count_value(empty_courses),
        ),
{
    let ghost names = string_views(low_attendance@);
    let mut alerts: Vec<SmartAlert> = Vec::new();
    let ghost mut expected: Seq<(Seq<char>, Seq<char>, Seq<char>, u8)> = Seq::empty();
    if low_attendance.len() > 0 {
        let mut m = String::new();
        append_u64(&mut m, low_attendance.len() as u64);
        m.append(" student(s) have attendance below 75%: ");
        let first = first_strings(low_attendance, 3);
        let listed = join_strings(&first, ", ");
        m.append(listed.as_str());
        assert(m@ =~= low_attendance_alert(names).2);
        alerts.push(alert("warning", "Low Attendance Alert", m, 4));
        proof {
            expected = expected.push(low_attendance_alert(names));
        }
    }
    assert(alerts@.map_values(|a: SmartAlert| a@) =~= expected);
    let inactive_count = inactive.unwrap_or(0);
    if inactive_count > 10 {
        let mut m = String::new();
        append_i64(&mut m, inactive_count);
        m.append(" students are currently inactive. Consider reaching out to them.");
        alerts.push(alert("info", "Inactive Students", m, 2));
        proof {
            expected = expected.push(inactive_students_alert(inactive_count as int));
        }
    }
    assert(alerts@.map_values(|a: SmartAlert| a@) =~= expected);
    let student_count = total_students.unwrap_or(0);
    let mut m = String::new();
    m.append("Currently managing ");
    append_i64(&mut m, student_count);
    m.append(" student(s) in the system");
    alerts.push(alert("success", "Total Enrollment", m, 1));
    proof {
        expected = expected.push(enrollment_alert(student_count as int));
    }
    assert(alerts@.map_values(|a: SmartAlert| a@) =~= expected);
    let empty_count = empty_courses.unwrap_or(0);
    if empty_count > 0 {
        let mut m = String::new();
        append_i64(&mut m, empty_count);
        m.append(" courses have no enrolled students");
        alerts.push(alert("info", "Courses with No Students", m, 2));
        proof {
            expected = expected.push(empty_courses_alert(empty_count as int));
        }
    }
    assert(alerts@.map_values(|a: SmartAlert| a@) =~= expected);
    alerts
}

/// The dashboard always reports the enrollment total, reports low attendance
/// exactly when some student is below 75%, and shows between one and four
/// alerts.
pub proof fn lemma_smart_alerts_shape(
    low_attendance: Seq<Seq<char>>,
    inactive: int,
    total: int,
    empty_courses: int,
)
    ensures
        ({
            let s = spec_smart_alerts(low_attendance, inactive, total, empty_courses);
            &&& 1 <= s.len() <= 4
            &&& exists|i: int| 0 <= i < s.len() && #[trigger] s[i] == enrollment_alert(total)
            &&& (low_attendance.len() > 0 <==> s[0].3 == 4u8)
        }),
{
    let s = spec_smart_alerts(low_attendance, inactive, total, empty_courses);
    let s1 = if low_attendance.len() > 0 {
        seq![low_attendance_alert(low_attendance)]
    } else {
        Seq::empty()
    };
    let s2 = if inactive > 10 {
        s1.push(inactive_students_alert(inactive))
    } else {
        s1
    };
    assert(s[s2.len() as int] == enrollment_alert(total));
}

// ---------------------------------------------------------------------------
// Upcoming tasks
// ---------------------------------------------------------------------------

/// A task that the dashboard suggests.
#[derive(Debug, Clone)]
pub struct UpcomingTask {
    pub header: String,
    pub content: String,
    pub due_date: Option<Date>,
}

impl View for UpcomingTask {
    type V = (Seq<char>, Seq<char>, Option<Date>);

    open spec fn view(&self) -> (Seq<char>, Seq<char>, Option<Date>) {
        (self.header@, self.content@, self.due_date)
    }
}

pub open spec fn mark_attendance_task(marked: int, active: int, today: Date) -> (
    Seq<char>,
    Seq<char>,
    Option<Date>,
) {
    (
        "Mark Today's Attendance"@,
        int_decimal(marked) + "/"@ + int_decimal(active)
            + " students have been marked present today. Please complete attendance marking."@,
        Some(today),
    )
}

pub open spec fn review_inactive_task(inactive: int) -> (Seq<char>, Seq<char>, Option<Date>) {
    (
        "Review Inactive Students"@,
        int_decimal(inactive)
            + " students are marked as inactive. Review their status and take necessary action."@,
        None,
    )
}

pub open spec fn weekly_review_task(today: Date) -> (Seq<char>, Seq<char>, Option<Date>) {
    (
        "Weekly Attendance Review"@,
        "Review this week's attendance analytics and identify students with low attendance rates."@,
        Some(Date { days_from_ce: (today.days_from_ce + 7) as i32 }),
    )
}

/// The tasks of the dashboard, in order: finish today's attendance (while
/// fewer records are marked today than there are active students), review
/// inactive students (when there are any), and always the weekly review, due
/// a week from today.
pub open spec fn spec_upcoming_tasks(today: Date, marked: int, active: int, inactive: int) -> Seq<
    (Seq<char>, Seq<char>, Option<Date>),
> {
    let s1 = if marked < active {
        seq![mark_attendance_task(marked, active, today)]
    } else {
        Seq::empty()
    };
    let s2 = if inactive > 0 {
        s1.push(review_inactive_task(inactive))
    } else {
        s1
    };
    s2.push(weekly_review_task(today))
}

/// The dashboard's tasks, from today's date, the number of attendance
/// records marked today, and the counts of active and of inactive students.
/// A week from today must lie within the calendar.
pub fn upcoming_tasks(
    today: Date,
    marked_today: Option<i64>,
    total_active: Option<i64>,
    inactive: Option<i64>,
) -> (r: Vec<UpcomingTask>)
    requires
        today.in_range(),
        today.days_from_ce + 7 <= max_day(),
    ensures
        r@.map_values(|t: UpcomingTask| t@) == spec_upcoming_tasks(
            today,
            count_value(marked_today),
            count_value(total_active),
            count_value(inactive),
        ),
{
    let mut tasks: Vec<UpcomingTask> = Vec::new();
    let ghost mut expected: Seq<(Seq<char>, Seq<char>, Option<Date>)> = Seq::empty();
    let marked = marked_today.unwrap_or(0);
    let active = total_active.unwrap_or(0);
    if marked < active {
        let mut c = String::new();
        append_i64(&mut c, marked);
        c.append("/");
        append_i64(&mut c, active);
        c.append(" students have been marked present today. Please complete attendance marking.");
        tasks.push(
            UpcomingTask {
                header: "Mark Today's Attendance".to_string(),
                content: c,
                due_date: Some(today),
            },
        );
        proof {
            expected = expected.push(mark_attendance_task(marked as int, active as int, today));
        }
    }
    assert(tasks@.map_values(|t: UpcomingTask| t@) =~= expected);
    let inactive_count = inactive.unwrap_or(0);
    if inactive_count > 0 {
        let mut c = String::new();
        append_i64(&mut c, inactive_count);
        c.append(
            " students are marked as inactive. Review their status and take necessary action.",
        );
        tasks.push(
            UpcomingTask {
                header: "Review Inactive Students".to_string(),
                content: c,
                due_date: None,
            },
        );
        proof {
            expected = expected.push(review_inactive_task(inactive_count as int));
        }
    }
    assert(tasks@.map_values(|t: UpcomingTask| t@) =~= expected);
    tasks.push(
        UpcomingTask {
            header: "Weekly Attendance Review".to_string(),
            content: "Review this week's attendance analytics and identify students with low attendance rates.".to_string(),
            due_date: Some(today.plus_days(7)),
        },
    );
    proof {
        expected = expected.push(weekly_review_task(today));
    }
    assert(tasks@.map_values(|t: UpcomingTask| t@) =~= expected);
    tasks
}

/// The dashboard's last task is always the weekly review, due seven days
/// after today, and the attendance task is there exactly while attendance
/// is incomplete.
pub proof fn lemma_upcoming_tasks_shape(today: Date, marked: int, active: int, inactive: int)
    requires
        today.in_range(),
    ensures
        ({
            let s = spec_upcoming_tasks(today, marked, active, inactive);
            &&& 1 <= s.len() <= 3
            &&& s.last() == weekly_review_task(today)
            &&& s.last().2 == Some(Date { days_from_ce: (today.days_from_ce + 7) as i32 })
            &&& (marked < active <==> s[0].2 == Some(today))
        }),
{

}

} // verus!
