//! Creating, updating, reading and listing courses.

use vstd::prelude::*;

use crate::auth::{Action, User};
use crate::handlers::apiresponse::{
    bad_request, created, forbidden, internal_server_error, not_found, ok, unauthorized, Reply,
    Status, FORBIDDEN, NOT_AUTHORIZED,
};
use crate::handlers::{Refusal, CAPACITY};
use crate::models::course::{
    course_views, position_by_id, spec_position_by_id, Course, CourseView, COURSES,
};
use crate::models::{page, same_profiles, same_topics, ListOptions};
use crate::store::Db;

verus! {

/// What a creation is refused with where the title is taken.
pub const TITLE_TAKEN: &'static str = "Title is no longer available!";

/// What a creation is refused with where no id is left.
pub const NO_ID: &'static str = "Unable to provide course ID.";

/// What a request is refused with where no course has the id.
pub const NOT_FOUND: &'static str = "Course not found!";

/// The message that a refusal goes out with.
pub open spec fn spec_message(refusal: Refusal) -> Seq<char> {
    match refusal {
        Refusal::Unauthorized => NOT_AUTHORIZED@,
        Refusal::Forbidden => FORBIDDEN@,
        Refusal::NotFound => NOT_FOUND@,
        Refusal::Conflict => TITLE_TAKEN@,
        Refusal::InvalidReference => NOT_FOUND@,
        Refusal::CapacityExceeded => NO_ID@,
    }
}

/// Whether the answer is the refusal.
pub open spec fn refused<T>(reply: Reply<T>, refusal: Refusal) -> bool {
    reply.fails(refusal.spec_status(), spec_message(refusal))
}

/// The answer that a refusal goes out as.
pub fn refuse<T>(refusal: Refusal) -> (reply: Reply<T>)
    ensures
        refused(reply, refusal),
{
    proof {
        reveal_strlit("");
    }
    match refusal {
        Refusal::Unauthorized => unauthorized(""),
        Refusal::Forbidden => forbidden(),
        Refusal::NotFound => not_found(NOT_FOUND),
        Refusal::Conflict => bad_request(TITLE_TAKEN),
        Refusal::InvalidReference => bad_request(NOT_FOUND),
        Refusal::CapacityExceeded => internal_server_error(NO_ID),
    }
}

/// Whether a course has the title.
pub open spec fn title_taken(courses: Seq<CourseView>, title: Seq<char>) -> bool {
    exists|i: int| 0 <= i < courses.len() && courses[i].title == title
}

/// Whether a course has the title.
pub fn has_title(courses: &Vec<Course>, title: &String) -> (taken: bool)
    ensures
        taken == title_taken(course_views(courses@), title@),
{
    let mut i: usize = 0;
    while i < courses.len()
        invariant
            i <= courses@.len(),
            forall|j: int| 0 <= j < i ==> course_views(courses@)[j].title != title@,
        decreases courses@.len() - i,
    {
        if courses[i].title == *title {
            assert(course_views(courses@)[i as int].title == title@);
            return true;
        }
        i += 1;
    }
    false
}

/// Whether the principal may write courses, and why not.
pub open spec fn spec_may_write(user: User) -> Result<(), Refusal> {
    if user.id == 0 {
        Err(Refusal::Unauthorized)
    } else if !user.role.spec_is_allowed(Action::WriteCourse) {
        Err(Refusal::Forbidden)
    } else {
        Ok(())
    }
}

/// The course that a creation stores, or why it stores none. The principal
/// must be someone, and `Root` or `Admin`; the title must be new; an id must
/// be left. The course gets the next id and the principal as its creator.
pub open spec fn spec_create(courses: Seq<CourseView>, course: CourseView, user: User) -> Result<
    CourseView,
    Refusal,
> {
    if spec_may_write(user) is Err {
        Err(spec_may_write(user)->Err_0)
    } else if title_taken(courses, course.title) {
        Err(Refusal::Conflict)
    } else if courses.len() >= CAPACITY {
        Err(Refusal::CapacityExceeded)
    } else {
        Ok(CourseView { id: (courses.len() + 1) as u8, creator_id: user.id, ..course })
    }
}

/// The place of the course that an update changes and what it becomes, or
/// why nothing changes. The course keeps its id and its creator.
pub open spec fn spec_update(
    courses: Seq<CourseView>,
    id: u8,
    course: CourseView,
    user: User,
) -> Result<(int, CourseView), Refusal> {
    if spec_may_write(user) is Err {
        Err(spec_may_write(user)->Err_0)
    } else {
        match spec_position_by_id(courses, id) {
            Some(i) => Ok((i, CourseView { id, creator_id: courses[i].creator_id, ..course })),
            None => Err(Refusal::NotFound),
        }
    }
}

/// The course that a read returns, or why it returns none.
pub open spec fn spec_get(courses: Seq<CourseView>, id: u8, user: User) -> Result<
    CourseView,
    Refusal,
> {
    if user.id == 0 {
        Err(Refusal::Unauthorized)
    } else {
        match spec_position_by_id(courses, id) {
            Some(i) => Ok(courses[i]),
            None => Err(Refusal::NotFound),
        }
    }
}

/// The courses that a listing returns, or why it returns none.
pub open spec fn spec_list(courses: Seq<CourseView>, opts: ListOptions, user: User) -> Result<
    Seq<CourseView>,
    Refusal,
> {
    if user.id == 0 {
        Err(Refusal::Unauthorized)
    } else {
        Ok(page(courses, opts.spec_offset(), opts.spec_limit()))
    }
}

/// Whether the principal may write courses, and why not.
pub fn may_write(user: User) -> (allowed: Result<(), Refusal>)
    ensures
        allowed == spec_may_write(user),
{
    if user.id == 0 {
        Err(Refusal::Unauthorized)
    } else if !user.role.is_allowed(Action::WriteCourse) {
        Err(Refusal::Forbidden)
    } else {
        Ok(())
    }
}

/// Whether `reply` and the store `after` are what a creation gives on the
/// store `before`: the course that the rules allow is stored after those that
/// are there and answered with 201, or the answer is the refusal and the
/// store is as it was. The other collections are as they were.
pub open spec fn creates(
    reply: Reply<Course>,
    before: Map<Seq<char>, Seq<Seq<u8>>>,
    after: Map<Seq<char>, Seq<Seq<u8>>>,
    course: CourseView,
    user: User,
) -> bool {
    &&& Course::stored(after)
    &&& same_profiles(before, after)
    &&& same_topics(before, after)
    &&& match spec_create(Course::all(before), course, user) {
        Ok(made) => {
            &&& reply.succeeds(Status::Created)
            &&& reply.body.data->Some_0@ == made
            &&& after == before.insert(
                COURSES@,
                before[COURSES@].push(Course::spec_encode(made)),
            )
            &&& Course::all(after) == Course::all(before).push(made)
        },
        Err(refusal) => refused(reply, refusal) && after == before,
    }
}

/// Stores a new course and answers 201 with it, or refuses and leaves the
/// store as it was.
pub fn create(course: Course, db: &mut Db, user: User) -> (reply: Reply<Course>)
    requires
        Course::stored(old(db)@),
    ensures
        creates(reply, old(db)@, final(db)@, course@, user),
        spec_may_write(user) is Ok && title_taken(Course::all(old(db)@), course@.title) ==> refused(
            reply,
            Refusal::Conflict,
        ) && final(db)@ == old(db)@,
{
    if let Err(refusal) = may_write(user) {
        return refuse(refusal);
    }
    let courses = Course::load(db);
    if has_title(&courses, &course.title) {
        return refuse(Refusal::Conflict);
    }
    if courses.len() >= CAPACITY {
        return refuse(Refusal::CapacityExceeded);
    }
    let id = (courses.len() + 1) as u8;
    let made = course.with_id(id).with_creator_id(user.id);
    made.append(db);
    created(made)
}

/// Whether `reply` and the store `after` are what an update gives on the
/// store `before`: the course with the id is replaced as the rules say and
/// answered with 200, or the answer is the refusal and the store is as it
/// was. The other collections are as they were.
pub open spec fn updates(
    reply: Reply<Course>,
    before: Map<Seq<char>, Seq<Seq<u8>>>,
    after: Map<Seq<char>, Seq<Seq<u8>>>,
    id: u8,
    course: CourseView,
    user: User,
) -> bool {
    &&& Course::stored(after)
    &&& same_profiles(before, after)
    &&& same_topics(before, after)
    &&& match spec_update(Course::all(before), id, course, user) {
        Ok((i, changed)) => {
            &&& reply.succeeds(Status::Success)
            &&& reply.body.data->Some_0@ == changed
            &&& after == before.insert(
                COURSES@,
                before[COURSES@].update(i, Course::spec_encode(changed)),
            )
            &&& Course::all(after) == Course::all(before).update(i, changed)
        },
        Err(refusal) => refused(reply, refusal) && after == before,
    }
}

/// Replaces title and description of the course with the id and answers 200
/// with the course as it now is, or refuses and leaves the store as it was.
/// Whatever the request says, no course changes its id or its creator.
pub fn update(id: u8, course: Course, db: &mut Db, user: User) -> (reply: Reply<Course>)
    requires
        Course::stored(old(db)@),
    ensures
        updates(reply, old(db)@, final(db)@, id, course@, user),
        Course::all(final(db)@).len() == Course::all(old(db)@).len(),
        forall|i: int|
            0 <= i < Course::all(old(db)@).len() ==> {
                &&& (#[trigger] Course::all(final(db)@)[i]).id == Course::all(old(db)@)[i].id
                &&& Course::all(final(db)@)[i].creator_id == Course::all(old(db)@)[i].creator_id
            },
{
    if let Err(refusal) = may_write(user) {
        return refuse(refusal);
    }
    let courses = Course::load(db);
    match position_by_id(&courses, id) {
        Some(i) => {
            assert(course_views(courses@)[i as int] == courses@[i as int]@);
            let changed = course.with_id(id).with_creator_id(courses[i].creator_id);
            changed.put(db, i);
            ok(changed)
        },
        None => refuse(Refusal::NotFound),
    }
}

/// Whether `reply` is what a read of the course with the id gives on the
/// store: 200 with it, or the refusal.
pub open spec fn gets(
    reply: Reply<Course>,
    db: Map<Seq<char>, Seq<Seq<u8>>>,
    id: u8,
    user: User,
) -> bool {
    match spec_get(Course::all(db), id, user) {
        Ok(course) => reply.succeeds(Status::Success) && reply.body.data->Some_0@ == course,
        Err(refusal) => refused(reply, refusal),
    }
}

/// Answers 200 with the first course with the id, or refuses.
pub fn get(id: u8, db: &Db, user: User) -> (reply: Reply<Course>)
    requires
        Course::stored(db@),
    ensures
        gets(reply, db@, id, user),
{
    if user.id == 0 {
        return refuse(Refusal::Unauthorized);
    }
    let courses = Course::load(db);
    match position_by_id(&courses, id) {
        Some(i) => {
            assert(course_views(courses@)[i as int] == courses@[i as int]@);
            ok(courses[i].clone())
        },
        None => refuse(Refusal::NotFound),
    }
}

/// Whether `reply` is what a listing gives on the store: 200 with the
/// courses that the options ask for, or the refusal.
pub open spec fn lists(
    reply: Reply<Vec<Course>>,
    db: Map<Seq<char>, Seq<Seq<u8>>>,
    opts: ListOptions,
    user: User,
) -> bool {
    match spec_list(Course::all(db), opts, user) {
        Ok(courses) => reply.succeeds(Status::Success) && course_views(
            reply.body.data->Some_0@,
        ) == courses,
        Err(refusal) => refused(reply, refusal),
    }
}

/// Answers 200 with the courses of the page that the options ask for, in
/// the order in which they were stored, or refuses.
pub fn list(opts: ListOptions, db: &Db, user: User) -> (reply: Reply<Vec<Course>>)
    requires
        Course::stored(db@),
    ensures
        lists(reply, db@, opts, user),
{
    if user.id == 0 {
        return refuse(Refusal::Unauthorized);
    }
    let courses = Course::load(db);
    let (start, end) = opts.bounds(courses.len());
    let mut found: Vec<Course> = Vec::new();
    let mut i: usize = start;
    while i < end
        invariant
            start <= i <= end <= courses@.len(),
            found@.len() == i - start,
            course_views(found@) == course_views(courses@).subrange(start as int, i as int),
        decreases end - i,
    {
        let ghost before = found@;
        let copy = courses[i].clone();
        found.push(copy);
        proof {
            let wanted = course_views(courses@).subrange(start as int, i as int + 1);
            assert(course_views(before) == course_views(courses@).subrange(
                start as int,
                i as int,
            ));
            assert(course_views(found@).len() == wanted.len());
            assert forall|k: int| 0 <= k < wanted.len() implies course_views(found@)[k]
                == wanted[k] by {
                if k < before.len() {
                    assert(found@[k] == before[k]);
                    assert(course_views(before)[k] == course_views(courses@).subrange(
                        start as int,
                        i as int,
                    )[k]);
                } else {
                    assert(found@[k] == copy);
                }
            }
            assert(course_views(found@) =~= wanted);
        }
        i += 1;
    }
    ok(found)
}

} // verus!
