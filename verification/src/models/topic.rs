//! Topics, the parts of a course.

use vstd::prelude::*;

use crate::models::{lemma_write_keeps_others, same_courses, same_profiles};
use crate::store::Db;

verus! {

/// Name of the collection that holds the topics.
pub const TOPICS: &'static str = "topics";

/// What a topic is, as a mathematical value.
pub struct TopicView {
    pub id: u8,
    pub title: Seq<char>,
    pub description: Seq<char>,
    pub course_id: u8,
    pub creator_id: u8,
}

/// A topic: one part of a course, owned by the account that created it.
#[derive(Debug, PartialEq, Eq)]
pub struct Topic {
    pub id: u8,
    pub title: String,
    pub description: String,
    pub course_id: u8,
    pub creator_id: u8,
}

impl View for Topic {
    type V = TopicView;

    open spec fn view(&self) -> TopicView {
        TopicView {
            id: self.id,
            title: self.title@,
            description: self.description@,
            course_id: self.course_id,
            creator_id: self.creator_id,
        }
    }
}

impl Default for Topic {
    fn default() -> (topic: Self)
        ensures
            topic@ == Topic::spec_new(),
    {
        Topic {
            id: 0,
            title: String::new(),
            description: String::new(),
            course_id: 0,
            creator_id: 0,
        }
    }
}

impl Clone for Topic {
    fn clone(&self) -> (copy: Self)
        ensures
            copy@ == self@,
    {
        Topic {
            id: self.id,
            title: self.title.clone(),
            description: self.description.clone(),
            course_id: self.course_id,
            creator_id: self.creator_id,
        }
    }
}

impl Topic {
    /// The topic that `new` gives: every text empty, every id 0.
    pub open spec fn spec_new() -> TopicView {
        TopicView {
            id: 0,
            title: Seq::empty(),
            description: Seq::empty(),
            course_id: 0,
            creator_id: 0,
        }
    }

    pub fn new() -> (topic: Topic)
        ensures
            topic@ == Topic::spec_new(),
    {
        Topic::default()
    }

    pub fn with_id(self, value: u8) -> (topic: Topic)
        ensures
            topic@ == (TopicView { id: value, ..self@ }),
    {
        let mut topic = self;
        topic.id = value;
        topic
    }

    pub fn with_title(self, value: String) -> (topic: Topic)
        ensures
            topic@ == (TopicView { title: value@, ..self@ }),
    {
        let mut topic = self;
        topic.title = value;
        topic
    }

    pub fn with_description(self, value: String) -> (topic: Topic)
        ensures
            topic@ == (TopicView { description: value@, ..self@ }),
    {
        let mut topic = self;
        topic.description = value;
        topic
    }

    pub fn with_course_id(self, value: u8) -> (topic: Topic)
        ensures
            topic@ == (TopicView { course_id: value, ..self@ }),
    {
        let mut topic = self;
        topic.course_id = value;
        topic
    }

    pub fn with_creator_id(self, value: u8) -> (topic: Topic)
        ensures
            topic@ == (TopicView { creator_id: value, ..self@ }),
    {
        let mut topic = self;
        topic.creator_id = value;
        topic
    }
}

/// The topics of a list, as mathematical values.
pub open spec fn topic_views(topics: Seq<Topic>) -> Seq<TopicView> {
    Seq::new(topics.len(), |i: int| topics[i]@)
}

impl Topic {
    /// Whether the store has the topic collection and every record in it holds
    /// a topic.
    pub open spec fn stored(db: Map<Seq<char>, Seq<Seq<u8>>>) -> bool {
        &&& db.dom().contains(TOPICS@)
        &&& forall|i: int|
            0 <= i < db[TOPICS@].len() ==> (#[trigger] Topic::spec_decode(
                db[TOPICS@][i],
            )) is Some
    }

    /// The topics in the store, in the order in which they were stored.
    pub open spec fn all(db: Map<Seq<char>, Seq<Seq<u8>>>) -> Seq<TopicView> {
        Seq::new(db[TOPICS@].len(), |i: int| Topic::spec_decode(db[TOPICS@][i]).unwrap())
    }

    /// The topics in the store, or `None` where the collection is missing or a
    /// record in it holds no topic.
    pub fn try_load(db: &Db) -> (loaded: Option<Vec<Topic>>)
        ensures
            match loaded {
                Some(topics) => Topic::stored(db@) && topic_views(topics@) == Topic::all(db@),
                None => !Topic::stored(db@),
            },
    {
        let docs = match db.get(TOPICS) {
            Some(docs) => docs,
            None => {
                return None;
            },
        };
        let mut topics: Vec<Topic> = Vec::new();
        let mut i: usize = 0;
        while i < docs.len()
            invariant
                i <= docs@.len(),
                db@.dom().contains(TOPICS@),
                crate::store::docs_view(docs@) == db@[TOPICS@],
                topics@.len() == i,
                forall|j: int|
                    0 <= j < i ==> Topic::spec_decode(db@[TOPICS@][j]) == Some(
                        (#[trigger] topics@[j])@,
                    ),
            decreases docs@.len() - i,
        {
            assert(db@[TOPICS@][i as int] == docs@[i as int]@);
            match Topic::decode(docs[i].as_slice()) {
                Some(topic) => {
                    topics.push(topic);
                },
                None => {
                    return None;
                },
            }
            i += 1;
        }
        proof {
            assert(db@[TOPICS@].len() == docs@.len());
            assert forall|j: int| 0 <= j < db@[TOPICS@].len() implies (
            #[trigger] Topic::spec_decode(db@[TOPICS@][j])) is Some by {
                assert(Topic::spec_decode(db@[TOPICS@][j]) == Some(topics@[j]@));
            }
            assert(topic_views(topics@) =~= Topic::all(db@));
        }
        Some(topics)
    }

    /// The topics in the store.
    pub fn load(db: &Db) -> (topics: Vec<Topic>)
        requires
            Topic::stored(db@),
        ensures
            topic_views(topics@) == Topic::all(db@),
    {
        match Topic::try_load(db) {
            Some(topics) => topics,
            None => Vec::new(),
        }
    }

    /// Stores the topic after those that are there.
    pub fn append(&self, db: &mut Db)
        requires
            old(db)@.dom().contains(TOPICS@),
        ensures
            final(db)@ == old(db)@.insert(
                TOPICS@,
                old(db)@[TOPICS@].push(Topic::spec_encode(self@)),
            ),
            Topic::stored(old(db)@) ==> Topic::stored(final(db)@) && Topic::all(final(db)@)
                == Topic::all(old(db)@).push(self@),
            same_profiles(old(db)@, final(db)@),
            same_courses(old(db)@, final(db)@),
    {
        let bytes = self.encode();
        db.push(TOPICS, bytes);
        proof {
            lemma_write_keeps_others(
                old(db)@,
                TOPICS@,
                old(db)@[TOPICS@].push(Topic::spec_encode(self@)),
            );
            if Topic::stored(old(db)@) {
                assert(Topic::all(db@) =~= Topic::all(old(db)@).push(self@));
            }
        }
    }

    /// Stores the topic in the place of the one at `index`.
    pub fn put(&self, db: &mut Db, index: usize)
        requires
            Topic::stored(old(db)@),
            index < old(db)@[TOPICS@].len(),
        ensures
            final(db)@ == old(db)@.insert(
                TOPICS@,
                old(db)@[TOPICS@].update(index as int, Topic::spec_encode(self@)),
            ),
            Topic::stored(final(db)@),
            Topic::all(final(db)@) == Topic::all(old(db)@).update(index as int, self@),
            same_profiles(old(db)@, final(db)@),
            same_courses(old(db)@, final(db)@),
    {
        let bytes = self.encode();
        db.replace(TOPICS, index, bytes);
        proof {
            lemma_write_keeps_others(
                old(db)@,
                TOPICS@,
                old(db)@[TOPICS@].update(index as int, Topic::spec_encode(self@)),
            );
            assert(Topic::all(db@) =~= Topic::all(old(db)@).update(index as int, self@));
        }
    }
}

/// Whether `i` is the place of the first topic with the id.
pub open spec fn is_first_with_id(topics: Seq<TopicView>, id: u8, i: int) -> bool {
    &&& 0 <= i < topics.len()
    &&& topics[i].id == id
    &&& forall|j: int| 0 <= j < i ==> topics[j].id != id
}

/// The place of the first topic with the id, if there is one.
pub open spec fn spec_position_by_id(topics: Seq<TopicView>, id: u8) -> Option<int> {
    if exists|i: int| is_first_with_id(topics, id, i) {
        Some(choose|i: int| is_first_with_id(topics, id, i))
    } else {
        None
    }
}

/// The place of the first topic with the id, if there is one.
pub fn position_by_id(topics: &Vec<Topic>, id: u8) -> (at: Option<usize>)
    ensures
        match at {
            Some(i) => spec_position_by_id(topic_views(topics@), id) == Some(i as int),
            None => spec_position_by_id(topic_views(topics@), id) is None,
        },
        at matches Some(i) ==> i < topics@.len(),
{
    let mut i: usize = 0;
    while i < topics.len()
        invariant
            i <= topics@.len(),
            forall|j: int| 0 <= j < i ==> topic_views(topics@)[j].id != id,
        decreases topics@.len() - i,
    {
        if topics[i].id == id {
            assert(is_first_with_id(topic_views(topics@), id, i as int));
            return Some(i);
        }
        i += 1;
    }
    None
}

} // verus!
