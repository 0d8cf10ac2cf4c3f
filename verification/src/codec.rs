//! The record codec: records become rows of numbers and texts, and `bincode`
//! turns a row into the bytes that the store keeps, and back.

use vstd::prelude::*;

use crate::models::course::{Course, CourseView};
use crate::models::profile::{Kind, Profile, ProfileView};
use crate::models::topic::{Topic, TopicView};

verus! {

/// The bytes that `bincode::serialize` gives for the pair of a list of
/// numbers and a list of texts.
pub uninterp spec fn bincode_bytes(nums: Seq<u8>, texts: Seq<Seq<char>>) -> Seq<u8>;

/// The pair of a list of numbers and a list of texts that
/// `bincode::deserialize` reads from the bytes, where it reads one.
pub uninterp spec fn bincode_row(bytes: Seq<u8>) -> Option<(Seq<u8>, Seq<Seq<char>>)>;

/// The texts of a list of strings.
pub open spec fn texts_view(texts: Seq<String>) -> Seq<Seq<char>> {
    Seq::new(texts.len(), |i: int| texts[i]@)
}

/// What a row is, as a mathematical value.
pub struct RowView {
    pub nums: Seq<u8>,
    pub texts: Seq<Seq<char>>,
}

/// The plain form in which every record is serialised: its numbers in
/// order, then its texts in order.
#[derive(Debug, PartialEq, Eq)]
pub struct Row {
    pub nums: Vec<u8>,
    pub texts: Vec<String>,
}

impl View for Row {
    type V = RowView;

    open spec fn view(&self) -> RowView {
        RowView { nums: self.nums@, texts: texts_view(self.texts@) }
    }
}

/// The bytes of a row.
pub open spec fn spec_serialize(row: RowView) -> Seq<u8> {
    bincode_bytes(row.nums, row.texts)
}

/// The row that the bytes hold, if they hold one.
pub open spec fn spec_deserialize(bytes: Seq<u8>) -> Option<RowView> {
    match bincode_row(bytes) {
        Some((nums, texts)) => Some(RowView { nums, texts }),
        None => None,
    }
}

/// Calls `bincode::serialize` on the row's numbers and texts as a pair.
///
/// Trusted: the bytes are a function of the row alone, and reading them back
/// with `bincode::deserialize` gives the same numbers and texts. That crate
/// fails only on a size limit, a failing writer or a sequence of unknown
/// length: this call has no limit, writes to a vector and hands over
/// vectors, so it does not fail.
#[verifier::external_body]
fn serialize(row: &Row) -> (bytes: Vec<u8>)
    ensures
        bytes@ == bincode_bytes(row.nums@, texts_view(row.texts@)),
        bincode_row(bytes@) == Some((row.nums@, texts_view(row.texts@))),
{
    bincode::serialize(&(&row.nums, &row.texts)).unwrap()
}

/// Calls `bincode::deserialize` for a pair of a list of numbers and a list of
/// texts.
///
/// Trusted: the outcome is a function of the bytes alone; `None` stands for
/// every error of that crate. Bytes after the pair are not looked at.
#[verifier::external_body]
fn deserialize(bytes: &[u8]) -> (row: Option<Row>)
    ensures
        match row {
            Some(r) => bincode_row(bytes@) == Some((r.nums@, texts_view(r.texts@))),
            None => bincode_row(bytes@) is None,
        },
{
    match bincode::deserialize::<(Vec<u8>, Vec<String>)>(bytes) {
        Ok((nums, texts)) => Some(Row { nums, texts }),
        Err(_) => None,
    }
}

impl Kind {
    /// The number under which a role is stored.
    pub open spec fn spec_index(self) -> u8 {
        match self {
            Kind::Root => 0,
            Kind::Admin => 1,
            Kind::Mentor => 2,
            Kind::Trainee => 3,
        }
    }

    /// The role stored under a number, if it is one of the four.
    pub open spec fn spec_from_index(index: u8) -> Option<Kind> {
        if index == 0 {
            Some(Kind::Root)
        } else if index == 1 {
            Some(Kind::Admin)
        } else if index == 2 {
            Some(Kind::Mentor)
        } else if index == 3 {
            Some(Kind::Trainee)
        } else {
            None
        }
    }

    pub fn index(self) -> (index: u8)
        ensures
            index == self.spec_index(),
            Kind::spec_from_index(index) == Some(self),
    {
        match self {
            Kind::Root => 0,
            Kind::Admin => 1,
            Kind::Mentor => 2,
            Kind::Trainee => 3,
        }
    }

    pub fn from_index(index: u8) -> (kind: Option<Kind>)
        ensures
            kind == Kind::spec_from_index(index),
    {
        if index == 0 {
            Some(Kind::Root)
        } else if index == 1 {
            Some(Kind::Admin)
        } else if index == 2 {
            Some(Kind::Mentor)
        } else if index == 3 {
            Some(Kind::Trainee)
        } else {
            None
        }
    }
}

impl Profile {
    /// The row of an account: id and role, then the four texts.
    pub open spec fn spec_row(profile: ProfileView) -> RowView {
        RowView {
            nums: seq![profile.id, profile.kind.spec_index()],
            texts: seq![
                profile.username,
                profile.password,
                profile.first_name,
                profile.last_name,
            ],
        }
    }

    /// The account that a row holds, if it has the shape of one.
    pub open spec fn spec_from_row(row: RowView) -> Option<ProfileView> {
        if row.nums.len() == 2 && row.texts.len() == 4 {
            match Kind::spec_from_index(row.nums[1]) {
                Some(kind) => Some(
                    ProfileView {
                        id: row.nums[0],
                        username: row.texts[0],
                        password: row.texts[1],
                        first_name: row.texts[2],
                        last_name: row.texts[3],
                        kind,
                    },
                ),
                None => None,
            }
        } else {
            None
        }
    }

    /// The bytes under which an account is stored.
    pub open spec fn spec_encode(profile: ProfileView) -> Seq<u8> {
        spec_serialize(Profile::spec_row(profile))
    }

    /// The account that stored bytes hold, if they hold one.
    pub open spec fn spec_decode(bytes: Seq<u8>) -> Option<ProfileView> {
        match spec_deserialize(bytes) {
            Some(row) => Profile::spec_from_row(row),
            None => None,
        }
    }

    /// Reading the row of an account gives the account back.
    pub proof fn lemma_row_round_trip(profile: ProfileView)
        ensures
            Profile::spec_from_row(Profile::spec_row(profile)) == Some(profile),
    {
    }

    pub fn to_row(&self) -> (row: Row)
        ensures
            row@ == Profile::spec_row(self@),
    {
        let row = Row {
            nums: vec![self.id, self.kind.index()],
            texts: vec![
                self.username.clone(),
                self.password.clone(),
                self.first_name.clone(),
                self.last_name.clone(),
            ],
        };
        assert(row@.nums =~= Profile::spec_row(self@).nums);
        assert(row@.texts =~= Profile::spec_row(self@).texts);
        row
    }

    pub fn from_row(row: &Row) -> (profile: Option<Profile>)
        ensures
            match profile {
                Some(p) => Profile::spec_from_row(row@) == Some(p@),
                None => Profile::spec_from_row(row@) is None,
            },
    {
        if row.nums.len() != 2 || row.texts.len() != 4 {
            return None;
        }
        match Kind::from_index(row.nums[1]) {
            Some(kind) => Some(
                Profile {
                    id: row.nums[0],
                    username: row.texts[0].clone(),
                    password: row.texts[1].clone(),
                    first_name: row.texts[2].clone(),
                    last_name: row.texts[3].clone(),
                    kind,
                },
            ),
            None => None,
        }
    }

    /// The bytes under which the account is stored. Decoding them gives the
    /// account back.
    pub fn encode(&self) -> (bytes: Vec<u8>)
        ensures
            bytes@ == Profile::spec_encode(self@),
            Profile::spec_decode(bytes@) == Some(self@),
    {
        let row = self.to_row();
        proof {
            Profile::lemma_row_round_trip(self@);
        }
        serialize(&row)
    }

    /// The account that the bytes hold, if they hold one.
    pub fn decode(bytes: &[u8]) -> (profile: Option<Profile>)
        ensures
            match profile {
                Some(p) => Profile::spec_decode(bytes@) == Some(p@),
                None => Profile::spec_decode(bytes@) is None,
            },
    {
        match deserialize(bytes) {
            Some(row) => Profile::from_row(&row),
            None => None,
        }
    }
}

impl Course {
    /// The row of a course: id and creator, then title and description.
    pub open spec fn spec_row(course: CourseView) -> RowView {
        RowView {
            nums: seq![course.id, course.creator_id],
            texts: seq![course.title, course.description],
        }
    }

    /// The course that a row holds, if it has the shape of one.
    pub open spec fn spec_from_row(row: RowView) -> Option<CourseView> {
        if row.nums.len() == 2 && row.texts.len() == 2 {
            Some(
                CourseView {
                    id: row.nums[0],
                    title: row.texts[0],
                    description: row.texts[1],
                    creator_id: row.nums[1],
                },
            )
        } else {
            None
        }
    }

    /// The bytes under which a course is stored.
    pub open spec fn spec_encode(course: CourseView) -> Seq<u8> {
        spec_serialize(Course::spec_row(course))
    }

    /// The course that stored bytes hold, if they hold one.
    pub open spec fn spec_decode(bytes: Seq<u8>) -> Option<CourseView> {
        match spec_deserialize(bytes) {
            Some(row) => Course::spec_from_row(row),
            None => None,
        }
    }

    /// Reading the row of a course gives the course back.
    pub proof fn lemma_row_round_trip(course: CourseView)
        ensures
            Course::spec_from_row(Course::spec_row(course)) == Some(course),
    {
    }

    pub fn to_row(&self) -> (row: Row)
        ensures
            row@ == Course::spec_row(self@),
    {
        let row = Row {
            nums: vec![self.id, self.creator_id],
            texts: vec![self.title.clone(), self.description.clone()],
        };
        assert(row@.nums =~= Course::spec_row(self@).nums);
        assert(row@.texts =~= Course::spec_row(self@).texts);
        row
    }

    pub fn from_row(row: &Row) -> (course: Option<Course>)
        ensures
            match course {
                Some(c) => Course::spec_from_row(row@) == Some(c@),
                None => Course::spec_from_row(row@) is None,
            },
    {
        if row.nums.len() != 2 || row.texts.len() != 2 {
            return None;
        }
        Some(
            Course {
                id: row.nums[0],
                title: row.texts[0].clone(),
                description: row.texts[1].clone(),
                creator_id: row.nums[1],
            },
        )
    }

    /// The bytes under which the course is stored. Decoding them gives the
    /// course back.
    pub fn encode(&self) -> (bytes: Vec<u8>)
        ensures
            bytes@ == Course::spec_encode(self@),
            Course::spec_decode(bytes@) == Some(self@),
    {
        let row = self.to_row();
        proof {
            Course::lemma_row_round_trip(self@);
        }
        serialize(&row)
    }

    /// The course that the bytes hold, if they hold one.
    pub fn decode(bytes: &[u8]) -> (course: Option<Course>)
        ensures
            match course {
                Some(c) => Course::spec_decode(bytes@) == Some(c@),
                None => Course::spec_decode(bytes@) is None,
            },
    {
        match deserialize(bytes) {
            Some(row) => Course::from_row(&row),
            None => None,
        }
    }
}

impl Topic {
    /// The row of a topic: id, course and creator, then title and description.
    pub open spec fn spec_row(topic: TopicView) -> RowView {
        RowView {
            nums: seq![topic.id, topic.course_id, topic.creator_id],
            texts: seq![topic.title, topic.description],
        }
    }

    /// The topic that a row holds, if it has the shape of one.
    pub open spec fn spec_from_row(row: RowView) -> Option<TopicView> {
        if row.nums.len() == 3 && row.texts.len() == 2 {
            Some(
                TopicView {
                    id: row.nums[0],
                    title: row.texts[0],
                    description: row.texts[1],
                    course_id: row.nums[1],
                    creator_id: row.nums[2],
                },
            )
        } else {
            None
        }
    }

    /// The bytes under which a topic is stored.
    pub open spec fn spec_encode(topic: TopicView) -> Seq<u8> {
        spec_serialize(Topic::spec_row(topic))
    }

    /// The topic that stored bytes hold, if they hold one.
    pub open spec fn spec_decode(bytes: Seq<u8>) -> Option<TopicView> {
        match spec_deserialize(bytes) {
            Some(row) => Topic::spec_from_row(row),
            None => None,
        }
    }

    /// Reading the row of a topic gives the topic back.
    pub proof fn lemma_row_round_trip(topic: TopicView)
        ensures
            Topic::spec_from_row(Topic::spec_row(topic)) == Some(topic),
    {
    }

    pub fn to_row(&self) -> (row: Row)
        ensures
            row@ == Topic::spec_row(self@),
    {
        let row = Row {
            nums: vec![self.id, self.course_id, self.creator_id],
            texts: vec![self.title.clone(), self.description.clone()],
        };
        assert(row@.nums =~= Topic::spec_row(self@).nums);
        assert(row@.texts =~= Topic::spec_row(self@).texts);
        row
    }

    pub fn from_row(row: &Row) -> (topic: Option<Topic>)
        ensures
            match topic {
                Some(c) => Topic::spec_from_row(row@) == Some(c@),
                None => Topic::spec_from_row(row@) is None,
            },
    {
        if row.nums.len() != 3 || row.texts.len() != 2 {
            return None;
        }
        Some(
            Topic {
                id: row.nums[0],
                title: row.texts[0].clone(),
                description: row.texts[1].clone(),
                course_id: row.nums[1],
                creator_id: row.nums[2],
            },
        )
    }

    /// The bytes under which the topic is stored. Decoding them gives the
    /// topic back.
    pub fn encode(&self) -> (bytes: Vec<u8>)
        ensures
            bytes@ == Topic::spec_encode(self@),
            Topic::spec_decode(bytes@) == Some(self@),
    {
        let row = self.to_row();
        proof {
            Topic::lemma_row_round_trip(self@);
        }
        serialize(&row)
    }

    /// The topic that the bytes hold, if they hold one.
    pub fn decode(bytes: &[u8]) -> (topic: Option<Topic>)
        ensures
            match topic {
                Some(c) => Topic::spec_decode(bytes@) == Some(c@),
                None => Topic::spec_decode(bytes@) is None,
            },
    {
        match deserialize(bytes) {
            Some(row) => Topic::from_row(&row),
            None => None,
        }
    }
}

} // verus!
