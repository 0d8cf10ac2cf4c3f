//! Looking a course up for the operations that refer to one.

use vstd::prelude::*;
use vstd::string::StringExecFns;

use crate::models::course::{course_views, position_by_id, spec_position_by_id, Course};
use crate::store::Db;

verus! {

/// What `find` says where it is asked for the course 0.
pub const ID_REQUIRED: &'static str = "Course ID is required!";

/// What `find` says where no course has the id.
pub const INVALID_COURSE: &'static str = "invalid course";

/// The first course with the id in the store. No course has the id 0.
pub fn find(id: u8, db: &Db) -> (found: Result<Course, String>)
    requires
        Course::stored(db@),
    ensures
        match found {
            Ok(course) => {
                &&& id != 0
                &&& spec_position_by_id(Course::all(db@), id) matches Some(i) && Course::all(
                    db@,
                )[i] == course@
            },
            Err(message) => if id == 0 {
                message@ == ID_REQUIRED@
            } else {
                spec_position_by_id(Course::all(db@), id) is None && message@ == INVALID_COURSE@
            },
        },
{
    if id == 0 {
        return Err(String::from_str(ID_REQUIRED));
    }
    let courses = Course::load(db);
    match position_by_id(&courses, id) {
        Some(i) => {
            assert(course_views(courses@)[i as int] == courses@[i as int]@);
            Ok(courses[i].clone())
        },
        None => Err(String::from_str(INVALID_COURSE)),
    }
}

} // verus!
