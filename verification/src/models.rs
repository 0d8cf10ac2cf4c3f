//! The records the service keeps and the shapes it answers with.

use vstd::prelude::*;

use crate::models::course::{Course, COURSES};
use crate::models::profile::{lemma_collection_names_differ, Profile, PROFILES};
use crate::models::topic::{Topic, TOPICS};

pub mod course;
pub mod profile;
pub mod topic;

verus! {

/// How many records a listing returns when the request names no limit.
pub const DEFAULT_LIMIT: usize = 255;

/// The paging and filtering a listing request may ask for.
#[derive(Debug, Clone, Copy, PartialEq, Eq)]
pub struct ListOptions {
    /// Records to skip; none when absent.
    pub offset: Option<usize>,
    /// Records to return at most; `DEFAULT_LIMIT` when absent.
    pub limit: Option<usize>,
    /// Keep only the topics of this course; absent or 0 keeps all.
    pub course_id: Option<u8>,
}

impl ListOptions {
    /// The number of records to skip.
    pub open spec fn spec_offset(self) -> nat {
        match self.offset {
            Some(n) => n as nat,
            None => 0,
        }
    }

    /// The number of records to return at most.
    pub open spec fn spec_limit(self) -> nat {
        match self.limit {
            Some(n) => n as nat,
            None => DEFAULT_LIMIT as nat,
        }
    }

    /// The course to filter by, 0 standing for none.
    pub open spec fn spec_course_id(self) -> u8 {
        match self.course_id {
            Some(id) => id,
            None => 0,
        }
    }
}

/// Where the page of a list of `len` items starts: after `offset` items, or
/// at the end where there are fewer.
pub open spec fn page_start(len: nat, offset: nat) -> nat {
    if offset <= len {
        offset
    } else {
        len
    }
}

/// Where the page of a list of `len` items ends: `limit` items after its
/// start, or at the end where there are fewer.
pub open spec fn page_end(len: nat, offset: nat, limit: nat) -> nat {
    if offset + limit <= len {
        offset + limit
    } else {
        len
    }
}

/// The part of a list that a listing returns: `offset` items are skipped,
/// then at most `limit` are taken.
pub open spec fn page<A>(items: Seq<A>, offset: nat, limit: nat) -> Seq<A> {
    items.subrange(
        page_start(items.len(), offset) as int,
        page_end(items.len(), offset, limit) as int,
    )
}

impl ListOptions {
    /// Where the page of a list of `len` items starts and where it ends.
    pub fn bounds(&self, len: usize) -> (range: (usize, usize))
        ensures
            range.0 == page_start(len as nat, self.spec_offset()),
            range.1 == page_end(len as nat, self.spec_offset(), self.spec_limit()),
            range.0 <= range.1 <= len,
    {
        let offset = match self.offset {
            Some(n) => n,
            None => 0,
        };
        let limit = match self.limit {
            Some(n) => n,
            None => DEFAULT_LIMIT,
        };
        let start = if offset <= len {
            offset
        } else {
            len
        };
        let end = if limit <= len - start {
            start + limit
        } else {
            len
        };
        (start, end)
    }
}

impl Default for ListOptions {
    fn default() -> (opts: Self)
        ensures
            opts.offset is None,
            opts.limit is None,
            opts.course_id is None,
    {
        ListOptions { offset: None, limit: None, course_id: None }
    }
}

/// Whether the accounts are in `after` as they are in `before`.
pub open spec fn same_profiles(
    before: Map<Seq<char>, Seq<Seq<u8>>>,
    after: Map<Seq<char>, Seq<Seq<u8>>>,
) -> bool {
    Profile::stored(after) == Profile::stored(before) && Profile::all(after) == Profile::all(
        before,
    )
}

/// Whether the courses are in `after` as they are in `before`.
pub open spec fn same_courses(
    before: Map<Seq<char>, Seq<Seq<u8>>>,
    after: Map<Seq<char>, Seq<Seq<u8>>>,
) -> bool {
    Course::stored(after) == Course::stored(before) && Course::all(after) == Course::all(before)
}

/// Whether the topics are in `after` as they are in `before`.
pub open spec fn same_topics(
    before: Map<Seq<char>, Seq<Seq<u8>>>,
    after: Map<Seq<char>, Seq<Seq<u8>>>,
) -> bool {
    Topic::stored(after) == Topic::stored(before) && Topic::all(after) == Topic::all(before)
}

/// Writing one of the three collections leaves the other two as they were.
pub proof fn lemma_write_keeps_others(
    db: Map<Seq<char>, Seq<Seq<u8>>>,
    name: Seq<char>,
    docs: Seq<Seq<u8>>,
)
    ensures
        name != PROFILES@ ==> same_profiles(db, db.insert(name, docs)),
        name != COURSES@ ==> same_courses(db, db.insert(name, docs)),
        name != TOPICS@ ==> same_topics(db, db.insert(name, docs)),
        PROFILES@ != COURSES@,
        PROFILES@ != TOPICS@,
        COURSES@ != TOPICS@,
{
    lemma_collection_names_differ();
    let after = db.insert(name, docs);
    if name != PROFILES@ {
        assert(after[PROFILES@] == db[PROFILES@]);
        assert(Profile::all(after) =~= Profile::all(db));
    }
    if name != COURSES@ {
        assert(after[COURSES@] == db[COURSES@]);
        assert(Course::all(after) =~= Course::all(db));
    }
    if name != TOPICS@ {
        assert(after[TOPICS@] == db[TOPICS@]);
        assert(Topic::all(after) =~= Topic::all(db));
    }
}

/// The envelope of every answer: the value on success, the message on
/// failure, never both.
#[derive(Debug, PartialEq, Eq)]
pub struct Response<T> {
    pub data: Option<T>,
    pub error: Option<String>,
}

impl<T> Response<T> {
    /// Whether the envelope carries `message` and no value.
    pub open spec fn is_error(&self, message: Seq<char>) -> bool {
        &&& self.data is None
        &&& self.error matches Some(text) && text@ == message
    }

    /// Whether the envelope carries a value and no message.
    pub open spec fn is_data(&self) -> bool {
        &&& self.data is Some
        &&& self.error is None
    }
}

} // verus!
