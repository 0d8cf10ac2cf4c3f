//! Courses.

use vstd::prelude::*;

use crate::models::{lemma_write_keeps_others, same_profiles, same_topics};
use crate::store::Db;

verus! {

/// Name of the collection that holds the courses.
pub const COURSES: &'static str = "courses";

/// What a course is, as a mathematical value.
pub struct CourseView {
    pub id: u8,
    pub title: Seq<char>,
    pub description: Seq<char>,
    pub creator_id: u8,
}

/// A course: a titled unit of teaching, owned by the account that created it.
#[derive(Debug, PartialEq, Eq)]
pub struct Course {
    pub id: u8,
    pub title: String,
    pub description: String,
    pub creator_id: u8,
}

impl View for Course {
    type V = CourseView;

    open spec fn view(&self) -> CourseView {
        CourseView {
            id: self.id,
            title: self.title@,
            description: self.description@,
            creator_id: self.creator_id,
        }
    }
}

impl Default for Course {
    fn default() -> (course: Self)
        ensures
            course@ == Course::spec_new(),
    {
        Course {
            id: 0,
            title: String::new(),
            description: String::new(),
            creator_id: 0,
        }
    }
}

impl Clone for Course {
    fn clone(&self) -> (copy: Self)
        ensures
            copy@ == self@,
    {
        Course {
            id: self.id,
            title: self.title.clone(),
            description: self.description.clone(),
            creator_id: self.creator_id,
        }
    }
}

impl Course {
    /// The course that `new` gives: every text empty, every id 0.
    pub open spec fn spec_new() -> CourseView {
        CourseView {
            id: 0,
            title: Seq::empty(),
            description: Seq::empty(),
            creator_id: 0,
        }
    }

    pub fn new() -> (course: Course)
        ensures
            course@ == Course::spec_new(),
    {
        Course::default()
    }

    pub fn with_id(self, value: u8) -> (course: Course)
        ensures
            course@ == (CourseView { id: value, ..self@ }),
    {
        let mut course = self;
        course.id = value;
        course
    }

    pub fn with_title(self, value: String) -> (course: Course)
        ensures
            course@ == (CourseView { title: value@, ..self@ }),
    {
        let mut course = self;
        course.title = value;
        course
    }

    pub fn with_description(self, value: String) -> (course: Course)
        ensures
            course@ == (CourseView { description: value@, ..self@ }),
    {
        let mut course = self;
        course.description = value;
        course
    }

    pub fn with_creator_id(self, value: u8) -> (course: Course)
        ensures
            course@ == (CourseView { creator_id: value, ..self@ }),
    {
        let mut course = self;
        course.creator_id = value;
        course
    }
}

/// The courses of a list, as mathematical values.
pub open spec fn course_views(courses: Seq<Course>) -> Seq<CourseView> {
    Seq::new(courses.len(), |i: int| courses[i]@)
}

impl Course {
    /// Whether the store has the course collection and every record in it holds
    /// a course.
    pub open spec fn stored(db: Map<Seq<char>, Seq<Seq<u8>>>) -> bool {
        &&& db.dom().contains(COURSES@)
        &&& forall|i: int|
            0 <= i < db[COURSES@].len() ==> (#[trigger] Course::spec_decode(
                db[COURSES@][i],
            )) is Some
    }

    /// The courses in the store, in the order in which they were stored.
    pub open spec fn all(db: Map<Seq<char>, Seq<Seq<u8>>>) -> Seq<CourseView> {
        Seq::new(db[COURSES@].len(), |i: int| Course::spec_decode(db[COURSES@][i]).unwrap())
    }

    /// The courses in the store, or `None` where the collection is missing or a
    /// record in it holds no course.
    pub fn try_load(db: &Db) -> (loaded: Option<Vec<Course>>)
        ensures
            match loaded {
                Some(courses) => Course::stored(db@) && course_views(courses@) == Course::all(db@),
                None => !Course::stored(db@),
            },
    {
        let docs = match db.get(COURSES) {
            Some(docs) => docs,
            None => {
                return None;
            },
        };
        let mut courses: Vec<Course> = Vec::new();
        let mut i: usize = 0;
        while i < docs.len()
            invariant
                i <= docs@.len(),
                db@.dom().contains(COURSES@),
                crate::store::docs_view(docs@) == db@[COURSES@],
                courses@.len() == i,
                forall|j: int|
                    0 <= j < i ==> Course::spec_decode(db@[COURSES@][j]) == Some(
                        (#[trigger] courses@[j])@,
                    ),
            decreases docs@.len() - i,
        {
            assert(db@[COURSES@][i as int] == docs@[i as int]@);
            match Course::decode(docs[i].as_slice()) {
                Some(course) => {
                    courses.push(course);
                },
                None => {
                    return None;
                },
            }
            i += 1;
        }
        proof {
            assert(db@[COURSES@].len() == docs@.len());
            assert forall|j: int| 0 <= j < db@[COURSES@].len() implies (
            #[trigger] Course::spec_decode(db@[COURSES@][j])) is Some by {
                assert(Course::spec_decode(db@[COURSES@][j]) == Some(courses@[j]@));
            }
            assert(course_views(courses@) =~= Course::all(db@));
        }
        Some(courses)
    }

    /// The courses in the store.
    pub fn load(db: &Db) -> (courses: Vec<Course>)
        requires
            Course::stored(db@),
        ensures
            course_views(courses@) == Course::all(db@),
    {
        match Course::try_load(db) {
            Some(courses) => courses,
            None => Vec::new(),
        }
    }

    /// Stores the course after those that are there.
    pub fn append(&self, db: &mut Db)
        requires
            old(db)@.dom().contains(COURSES@),
        ensures
            final(db)@ == old(db)@.insert(
                COURSES@,
                old(db)@[COURSES@].push(Course::spec_encode(self@)),
            ),
            Course::stored(old(db)@) ==> Course::stored(final(db)@) && Course::all(final(db)@)
                == Course::all(old(db)@).push(self@),
            same_profiles(old(db)@, final(db)@),
            same_topics(old(db)@, final(db)@),
    {
        let bytes = self.encode();
        db.push(COURSES, bytes);
        proof {
            lemma_write_keeps_others(
                old(db)@,
                COURSES@,
                old(db)@[COURSES@].push(Course::spec_encode(self@)),
            );
            if Course::stored(old(db)@) {
                assert(Course::all(db@) =~= Course::all(old(db)@).push(self@));
            }
        }
    }

    /// Stores the course in the place of the one at `index`.
    pub fn put(&self, db: &mut Db, index: usize)
        requires
            Course::stored(old(db)@),
            index < old(db)@[COURSES@].len(),
        ensures
            final(db)@ == old(db)@.insert(
                COURSES@,
                old(db)@[COURSES@].update(index as int, Course::spec_encode(self@)),
            ),
            Course::stored(final(db)@),
            Course::all(final(db)@) == Course::all(old(db)@).update(index as int, self@),
            same_profiles(old(db)@, final(db)@),
            same_topics(old(db)@, final(db)@),
    {
        let bytes = self.encode();
        db.replace(COURSES, index, bytes);
        proof {
            lemma_write_keeps_others(
                old(db)@,
                COURSES@,
                old(db)@[COURSES@].update(index as int, Course::spec_encode(self@)),
            );
            assert(Course::all(db@) =~= Course::all(old(db)@).update(index as int, self@));
        }
    }
}

/// Whether `i` is the place of the first course with the id.
pub open spec fn is_first_with_id(courses: Seq<CourseView>, id: u8, i: int) -> bool {
    &&& 0 <= i < courses.len()
    &&& courses[i].id == id
    &&& forall|j: int| 0 <= j < i ==> courses[j].id != id
}

/// The place of the first course with the id, if there is one.
pub open spec fn spec_position_by_id(courses: Seq<CourseView>, id: u8) -> Option<int> {
    if exists|i: int| is_first_with_id(courses, id, i) {
        Some(choose|i: int| is_first_with_id(courses, id, i))
    } else {
        None
    }
}

/// The place of the first course with the id, if there is one.
pub fn position_by_id(courses: &Vec<Course>, id: u8) -> (at: Option<usize>)
    ensures
        match at {
            Some(i) => spec_position_by_id(course_views(courses@), id) == Some(i as int),
            None => spec_position_by_id(course_views(courses@), id) is None,
        },
        at matches Some(i) ==> i < courses@.len(),
{
    let mut i: usize = 0;
    while i < courses.len()
        invariant
            i <= courses@.len(),
            forall|j: int| 0 <= j < i ==> course_views(courses@)[j].id != id,
        decreases courses@.len() - i,
    {
        if courses[i].id == id {
            assert(is_first_with_id(course_views(courses@), id, i as int));
            return Some(i);
        }
        i += 1;
    }
    None
}

} // verus!
