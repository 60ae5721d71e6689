//! Domain records of the downstream academic-records service.
//!
//! Plain data carried between the decoded upstream responses and the callers;
//! decoding the upstream's own field names into these records is the
//! embedding program's business.

use vstd::prelude::*;

verus! {

/// A student's basic information.
#[derive(Debug, PartialEq, Eq)]
pub struct BasicInfo {
    pub id: String,
    pub sid: String,
    pub name: String,
    pub email: String,
    pub year: String,
    pub department: String,
    pub major: String,
}

/// One course's final grade.
#[derive(Debug, PartialEq, Eq)]
pub struct CourseGrade {
    pub code: String,
    pub name: String,
    pub class_hour: String,
    pub credit: u64,
    pub semester: String,
    pub final_grade: String,
    pub final_level: String,
    pub department: String,
    pub course_type: String,
}

/// One slot of the week's course table.
#[derive(Debug, PartialEq, Eq)]
pub struct CourseTableItem {
    pub day: u32,
    pub time: u32,
    pub course_info: String,
}

} // verus!
