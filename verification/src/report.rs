use vstd::prelude::*;

use crate::dashboard::count_value;
use crate::status::{refused, ApiError, Status};
use crate::text::same_text;

verus! {

/// A row of a `GROUP BY` count: the group's key and its `COUNT(*)`.
#[derive(Debug, Clone)]
pub struct GroupCount {
    pub key: String,
    pub count: Option<i64>,
}

impl View for GroupCount {
    type V = (Seq<char>, int);

    open spec fn view(&self) -> (Seq<char>, int) {
        (self.key@, count_value(self.count))
    }
}

/// The views of a list of group counts.
pub open spec fn group_views(rows: Seq<GroupCount>) -> Seq<(Seq<char>, int)> {
    rows.map_values(|g: GroupCount| g@)
}

/// The sum of all the counts.
pub open spec fn counts_total(rows: Seq<(Seq<char>, int)>) -> int
    decreases rows.len(),
{
    if rows.len() == 0 {
        0
    } else {
        counts_total(rows.drop_last()) + rows.last().1
    }
}

/// The count of the last row whose key is `key`, or zero where none is.
pub open spec fn count_of(rows: Seq<(Seq<char>, int)>, key: Seq<char>) -> int
    decreases rows.len(),
{
    if rows.len() == 0 {
        0
    } else if rows.last().0 == key {
        rows.last().1
    } else {
        count_of(rows.drop_last(), key)
    }
}

/// Each running sum of the counts fits in an `i64`.
pub open spec fn running_totals_fit(rows: Seq<(Seq<char>, int)>) -> bool {
    forall|k: int| 0 <= k <= rows.len() ==> i64::MIN <= #[trigger] counts_total(rows.take(k)) <= i64::MAX
}

/// The number of students in one course.
#[derive(Debug, Clone)]
pub struct CourseStat {
    pub course_name: String,
    pub student_count: i64,
}

/// The students report: totals by status, and the count in each course.
#[derive(Debug, Clone)]
pub struct StudentReport {
    pub total_students: i64,
    pub active_students: i64,
    pub inactive_students: i64,
    pub graduated_students: i64,
    pub students_by_course: Vec<CourseStat>,
}

/// The students report, from the student count of each status and of each
/// course (courses in the order to be shown).  The total counts every status;
/// the active, inactive and graduated counts are those of the statuses
/// `Active`, `Inactive` and `Graduated`, zero where absent.
pub fn student_report(by_status: &Vec<GroupCount>, by_course: &Vec<GroupCount>) -> (r: StudentReport)
    requires
        running_totals_fit(group_views(by_status@)),
    ensures
        r.total_students == counts_total(group_views(by_status@)),
        r.active_students == count_of(group_views(by_status@), "Active"@),
        r.inactive_students == count_of(group_views(by_status@), "Inactive"@),
        r.graduated_students == count_of(group_views(by_status@), "Graduated"@),
        r.students_by_course.len() == by_course.len(),
        forall|i: int|
            0 <= i < by_course.len() ==> (#[trigger] r.students_by_course@[i]).course_name
                == by_course@[i].key && r.students_by_course@[i].student_count == count_value(
                by_course@[i].count,
            ),
{
    let ghost rows = group_views(by_status@);
    let mut total: i64 = 0;
    let mut active: i64 = 0;
    let mut inactive: i64 = 0;
    let mut graduated: i64 = 0;
    let mut i: usize = 0;
    while i < by_status.len()
        invariant
            rows == group_views(by_status@),
            running_totals_fit(rows),
            i <= by_status.len(),
            total == counts_total(rows.take(i as int)),
            active == count_of(rows.take(i as int), "Active"@),
            inactive == count_of(rows.take(i as int), "Inactive"@),
            graduated == count_of(rows.take(i as int), "Graduated"@),
        decreases by_status.len() - i,
    {
        let ghost before = rows.take(i as int);
        let ghost after = rows.take(i + 1);
        assert(after.drop_last() =~= before);
        assert(after.last() == by_status@[i as int]@);
        let c = by_status[i].count.unwrap_or(0);
        assert(counts_total(after) == total + c);
        assert(i64::MIN <= counts_total(rows.take(i + 1)) <= i64::MAX);
        total = total + c;
        let key = by_status[i].key.as_str();
        if same_text(key, "Active") {
            active = c;
        } else if same_text(key, "Inactive") {
            inactive = c;
        } else if same_text(key, "Graduated") {
            graduated = c;
        }
        proof {
            lemma_status_words_differ();
        }
        i = i + 1;
    }
    assert(rows.take(by_status.len() as int) =~= rows);
    let mut courses: Vec<CourseStat> = Vec::new();
    let mut j: usize = 0;
    while j < by_course.len()
        invariant
            j <= by_course.len(),
            courses.len() == j,
            forall|k: int|
                0 <= k < j ==> (#[trigger] courses@[k]).course_name == by_course@[k].key
                    && courses@[k].student_count == count_value(by_course@[k].count),
        decreases by_course.len() - j,
    {
        courses.push(
            CourseStat {
                course_name: by_course[j].key.clone(),
                student_count: by_course[j].count.unwrap_or(0),
            },
        );
        j = j + 1;
    }
    StudentReport {
        total_students: total,
        active_students: active,
        inactive_students: inactive,
        graduated_students: graduated,
        students_by_course: courses,
    }
}

proof fn lemma_status_words_differ()
    ensures
        "Active"@ != "Inactive"@,
        "Active"@ != "Graduated"@,
        "Inactive"@ != "Graduated"@,
{
    reveal_strlit("Active");
    reveal_strlit("Inactive");
    reveal_strlit("Graduated");
    assert("Active"@.len() == 6);
    assert("Inactive"@.len() == 8);
    assert("Graduated"@.len() == 9);
}

/// Where no count is negative, the active, inactive and graduated students
/// together are no more than the total.
pub proof fn lemma_status_counts_within_total(rows: Seq<(Seq<char>, int)>)
    requires
        forall|i: int| 0 <= i < rows.len() ==> (#[trigger] rows[i]).1 >= 0,
    ensures
        count_of(rows, "Active"@) + count_of(rows, "Inactive"@) + count_of(rows, "Graduated"@)
            <= counts_total(rows),
        0 <= count_of(rows, "Active"@),
        0 <= count_of(rows, "Inactive"@),
        0 <= count_of(rows, "Graduated"@),
    decreases rows.len(),
{
    if rows.len() > 0 {
        let init = rows.drop_last();
        assert forall|i: int| 0 <= i < init.len() implies (#[trigger] init[i]).1 >= 0 by {
            assert(init[i] == rows[i]);
        }
        lemma_status_counts_within_total(init);
        assert(rows.last() == rows[rows.len() - 1]);
        lemma_status_words_differ();
    }
}

// ---------------------------------------------------------------------------
// Attendance totals
// ---------------------------------------------------------------------------

/// Attendance records counted: all, present, and absent.
#[derive(Debug, Clone, Copy, PartialEq, Eq, Structural)]
pub struct AttendanceCounts {
    pub total_classes: i64,
    pub total_present: i64,
    pub total_absent: i64,
}

impl AttendanceCounts {
    /// The counts from a `COUNT(*)` of records and a `SUM` of those present
    /// (each `NULL` reading as zero); the absent are the rest.
    pub fn from_sums(total: Option<i64>, present: Option<i64>) -> (r: AttendanceCounts)
        requires
            i64::MIN <= count_value(total) - count_value(present) <= i64::MAX,
        ensures
            r.total_classes == count_value(total),
            r.total_present == count_value(present),
            r.total_absent == count_value(total) - count_value(present),
            r.total_present + r.total_absent == r.total_classes,
    {
        let t = total.unwrap_or(0);
        let p = present.unwrap_or(0);
        AttendanceCounts { total_classes: t, total_present: p, total_absent: t - p }
    }
}

/// The course code that a course report is asked for: `400` where the query
/// holds none.
pub fn required_course_code(param: Option<String>) -> (r: Result<String, ApiError>)
    ensures
        param matches Some(c) ==> r == Ok::<String, ApiError>(c),
        param is None ==> refused(r, Status::BadRequest, "Missing course_code parameter"@),
{
    match param {
        Some(c) => Ok(c),
        None => Err(ApiError::new(Status::BadRequest, "Missing course_code parameter")),
    }
}

} // verus!
