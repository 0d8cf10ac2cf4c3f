//! Creating, updating, reading and listing topics.

use vstd::prelude::*;

use crate::auth::{Action, User};
use crate::course::find;
use crate::handlers::apiresponse::{
    bad_request, created, forbidden, internal_server_error, not_found, ok, unauthorized, Reply,
    Status, FORBIDDEN, NOT_AUTHORIZED,
};
use crate::handlers::{Refusal, CAPACITY};
use crate::models::course::{Course, CourseView};
use crate::models::topic::{
    position_by_id, spec_position_by_id, topic_views, Topic, TopicView, TOPICS,
};
use crate::models::{page, same_courses, same_profiles, ListOptions};
use crate::store::Db;

verus! {

/// What a creation is refused with where the title is taken in the course.
pub const TITLE_TAKEN: &'static str = "Title is no longer available!";

/// What a creation is refused with where no id is left.
pub const NO_ID: &'static str = "Unable to provide topics ID.";

/// What a request is refused with where no topic has the id.
pub const NOT_FOUND: &'static str = "Topic not found!";

/// What a creation is refused with where its course does not exist.
pub const NO_COURSE: &'static str = "Course not found!";

/// The message that a refusal goes out with.
pub open spec fn spec_message(refusal: Refusal) -> Seq<char> {
    match refusal {
        Refusal::Unauthorized => NOT_AUTHORIZED@,
        Refusal::Forbidden => FORBIDDEN@,
        Refusal::NotFound => NOT_FOUND@,
        Refusal::Conflict => TITLE_TAKEN@,
        Refusal::InvalidReference => NO_COURSE@,
        Refusal::CapacityExceeded => NO_ID@,
    }
}

/// Whether the answer is the refusal.
pub open spec fn refused<T>(reply: Reply<T>, refusal: Refusal) -> bool {
    reply.fails(refusal.spec_status(), spec_message(refusal))
}

/// The answer that a refusal goes out as.
pub fn refuse<T>(refusal: Refusal) -> (reply: Reply<T>)
    ensures
        refused(reply, refusal),
{
    proof {
        reveal_strlit("");
    }
    match refusal {
        Refusal::Unauthorized => unauthorized(""),
        Refusal::Forbidden => forbidden(),
        Refusal::NotFound => not_found(NOT_FOUND),
        Refusal::Conflict => bad_request(TITLE_TAKEN),
        Refusal::InvalidReference => bad_request(NO_COURSE),
        Refusal::CapacityExceeded => internal_server_error(NO_ID),
    }
}

/// Whether a topic of the course has the title.
pub open spec fn title_taken(topics: Seq<TopicView>, course_id: u8, title: Seq<char>) -> bool {
    exists|i: int|
        0 <= i < topics.len() && topics[i].course_id == course_id && topics[i].title == title
}

/// Whether a topic of the course has the title.
pub fn has_title(topics: &Vec<Topic>, course_id: u8, title: &String) -> (taken: bool)
    ensures
        taken == title_taken(topic_views(topics@), course_id, title@),
{
    let mut i: usize = 0;
    while i < topics.len()
        invariant
            i <= topics@.len(),
            forall|j: int|
                0 <= j < i ==> !(topic_views(topics@)[j].course_id == course_id && topic_views(
                    topics@,
                )[j].title == title@),
        decreases topics@.len() - i,
    {
        if topics[i].course_id == course_id && topics[i].title == *title {
            assert(topic_views(topics@)[i as int].course_id == course_id && topic_views(
                topics@,
            )[i as int].title == title@);
            return true;
        }
        i += 1;
    }
    false
}

/// Whether the principal may write topics, and why not.
pub open spec fn spec_may_write(user: User) -> Result<(), Refusal> {
    if user.id == 0 {
        Err(Refusal::Unauthorized)
    } else if !user.role.spec_is_allowed(Action::WriteTopic) {
        Err(Refusal::Forbidden)
    } else {
        Ok(())
    }
}

/// Whether the principal may write topics, and why not.
pub fn may_write(user: User) -> (allowed: Result<(), Refusal>)
    ensures
        allowed == spec_may_write(user),
{
    if user.id == 0 {
        Err(Refusal::Unauthorized)
    } else if !user.role.is_allowed(Action::WriteTopic) {
        Err(Refusal::Forbidden)
    } else {
        Ok(())
    }
}

/// Whether a course with the id exists. No course has the id 0.
pub open spec fn course_exists(courses: Seq<CourseView>, id: u8) -> bool {
    id != 0 && crate::models::course::spec_position_by_id(courses, id) is Some
}

/// The topic that a creation stores, or why it stores none. The principal
/// must be someone, and no `Trainee`; the course must exist; the title must
/// be new in that course; an id must be left. The topic gets the next id and
/// the principal as its creator.
pub open spec fn spec_create(
    courses: Seq<CourseView>,
    topics: Seq<TopicView>,
    topic: TopicView,
    user: User,
) -> Result<TopicView, Refusal> {
    if spec_may_write(user) is Err {
        Err(spec_may_write(user)->Err_0)
    } else if !course_exists(courses, topic.course_id) {
        Err(Refusal::InvalidReference)
    } else if title_taken(topics, topic.course_id, topic.title) {
        Err(Refusal::Conflict)
    } else if topics.len() >= CAPACITY {
        Err(Refusal::CapacityExceeded)
    } else {
        Ok(TopicView { id: (topics.len() + 1) as u8, creator_id: user.id, ..topic })
    }
}

/// The place of the topic that an update changes and what it becomes, or
/// why nothing changes. The topic keeps its id, its course and its creator.
pub open spec fn spec_update(
    topics: Seq<TopicView>,
    id: u8,
    topic: TopicView,
    user: User,
) -> Result<(int, TopicView), Refusal> {
    if spec_may_write(user) is Err {
        Err(spec_may_write(user)->Err_0)
    } else {
        match spec_position_by_id(topics, id) {
            Some(i) => Ok(
                (
                    i,
                    TopicView {
                        id,
                        course_id: topics[i].course_id,
                        creator_id: topics[i].creator_id,
                        ..topic
                    },
                ),
            ),
            None => Err(Refusal::NotFound),
        }
    }
}

/// The topic that a read returns, or why it returns none.
pub open spec fn spec_get(topics: Seq<TopicView>, id: u8, user: User) -> Result<
    TopicView,
    Refusal,
> {
    if user.id == 0 {
        Err(Refusal::Unauthorized)
    } else {
        match spec_position_by_id(topics, id) {
            Some(i) => Ok(topics[i]),
            None => Err(Refusal::NotFound),
        }
    }
}

/// The test that a listing filters by: every topic where the course is 0,
/// else the topics of the course.
pub open spec fn in_course(course_id: u8) -> spec_fn(TopicView) -> bool {
    |topic: TopicView| course_id == 0 || topic.course_id == course_id
}

/// The topics that a listing returns, or why it returns none: those of the
/// course that the options name, then the page of them.
pub open spec fn spec_list(topics: Seq<TopicView>, opts: ListOptions, user: User) -> Result<
    Seq<TopicView>,
    Refusal,
> {
    if user.id == 0 {
        Err(Refusal::Unauthorized)
    } else {
        Ok(
            page(
                topics.filter(in_course(opts.spec_course_id())),
                opts.spec_offset(),
                opts.spec_limit(),
            ),
        )
    }
}

/// Whether `reply` and the store `after` are what a creation gives on the
/// store `before`: the topic that the rules allow is stored after those that
/// are there and answered with 201, or the answer is the refusal and the
/// store is as it was. The other collections are as they were.
pub open spec fn creates(
    reply: Reply<Topic>,
    before: Map<Seq<char>, Seq<Seq<u8>>>,
    after: Map<Seq<char>, Seq<Seq<u8>>>,
    topic: TopicView,
    user: User,
) -> bool {
    &&& Topic::stored(after)
    &&& same_profiles(before, after)
    &&& same_courses(before, after)
    &&& match spec_create(Course::all(before), Topic::all(before), topic, user) {
        Ok(made) => {
            &&& reply.succeeds(Status::Created)
            &&& reply.body.data->Some_0@ == made
            &&& after == before.insert(
                TOPICS@,
                before[TOPICS@].push(Topic::spec_encode(made)),
            )
            &&& Topic::all(after) == Topic::all(before).push(made)
        },
        Err(refusal) => refused(reply, refusal) && after == before,
    }
}

/// Stores a new topic and answers 201 with it, or refuses and leaves the
/// store as it was.
pub fn create(topic: Topic, db: &mut Db, user: User) -> (reply: Reply<Topic>)
    requires
        Course::stored(old(db)@),
        Topic::stored(old(db)@),
    ensures
        creates(reply, old(db)@, final(db)@, topic@, user),
        spec_may_write(user) is Ok && course_exists(Course::all(old(db)@), topic@.course_id)
            && title_taken(Topic::all(old(db)@), topic@.course_id, topic@.title) ==> refused(
            reply,
            Refusal::Conflict,
        ) && final(db)@ == old(db)@,
{
    if let Err(refusal) = may_write(user) {
        return refuse(refusal);
    }
    if find(topic.course_id, db).is_err() {
        return refuse(Refusal::InvalidReference);
    }
    let topics = Topic::load(db);
    if has_title(&topics, topic.course_id, &topic.title) {
        return refuse(Refusal::Conflict);
    }
    if topics.len() >= CAPACITY {
        return refuse(Refusal::CapacityExceeded);
    }
    let id = (topics.len() + 1) as u8;
    let made = topic.with_id(id).with_creator_id(user.id);
    made.append(db);
    created(made)
}

/// Whether `reply` is what a read of the topic with the id gives on the
/// store: 200 with it, or the refusal.
pub open spec fn gets(
    reply: Reply<Topic>,
    db: Map<Seq<char>, Seq<Seq<u8>>>,
    id: u8,
    user: User,
) -> bool {
    match spec_get(Topic::all(db), id, user) {
        Ok(topic) => reply.succeeds(Status::Success) && reply.body.data->Some_0@ == topic,
        Err(refusal) => refused(reply, refusal),
    }
}

/// Answers 200 with the first topic with the id, or refuses.
pub fn get(id: u8, db: &Db, user: User) -> (reply: Reply<Topic>)
    requires
        Topic::stored(db@),
    ensures
        gets(reply, db@, id, user),
{
    if user.id == 0 {
        return refuse(Refusal::Unauthorized);
    }
    let topics = Topic::load(db);
    match position_by_id(&topics, id) {
        Some(i) => {
            assert(topic_views(topics@)[i as int] == topics@[i as int]@);
            ok(topics[i].clone())
        },
        None => refuse(Refusal::NotFound),
    }
}

/// Whether `reply` and the store `after` are what an update gives on the
/// store `before`: the topic with the id is replaced as the rules say and
/// answered with 200, or the answer is the refusal and the store is as it
/// was. The other collections are as they were.
pub open spec fn updates(
    reply: Reply<Topic>,
    before: Map<Seq<char>, Seq<Seq<u8>>>,
    after: Map<Seq<char>, Seq<Seq<u8>>>,
    id: u8,
    topic: TopicView,
    user: User,
) -> bool {
    &&& Topic::stored(after)
    &&& same_profiles(before, after)
    &&& same_courses(before, after)
    &&& match spec_update(Topic::all(before), id, topic, user) {
        Ok((i, changed)) => {
            &&& reply.succeeds(Status::Success)
            &&& reply.body.data->Some_0@ == changed
            &&& after == before.insert(
                TOPICS@,
                before[TOPICS@].update(i, Topic::spec_encode(changed)),
            )
            &&& Topic::all(after) == Topic::all(before).update(i, changed)
        },
        Err(refusal) => refused(reply, refusal) && after == before,
    }
}

/// Replaces title and description of the topic with the id and answers 200
/// with the topic as it now is, or refuses and leaves the store as it was.
/// Whatever the request says, no topic changes its id, its course or its
/// creator.
pub fn update(id: u8, topic: Topic, db: &mut Db, user: User) -> (reply: Reply<Topic>)
    requires
        Topic::stored(old(db)@),
    ensures
        updates(reply, old(db)@, final(db)@, id, topic@, user),
        Topic::all(final(db)@).len() == Topic::all(old(db)@).len(),
        forall|i: int|
            0 <= i < Topic::all(old(db)@).len() ==> {
                &&& (#[trigger] Topic::all(final(db)@)[i]).id == Topic::all(old(db)@)[i].id
                &&& Topic::all(final(db)@)[i].course_id == Topic::all(old(db)@)[i].course_id
                &&& Topic::all(final(db)@)[i].creator_id == Topic::all(old(db)@)[i].creator_id
            },
{
    if let Err(refusal) = may_write(user) {
        return refuse(refusal);
    }
    let topics = Topic::load(db);
    match position_by_id(&topics, id) {
        Some(i) => {
            assert(topic_views(topics@)[i as int] == topics@[i as int]@);
            let changed = topic.with_id(id).with_course_id(topics[i].course_id).with_creator_id(
                topics[i].creator_id,
            );
            changed.put(db, i);
            ok(changed)
        },
        None => refuse(Refusal::NotFound),
    }
}

/// The topics of the course, in order; all of them where the course is 0.
pub fn of_course(topics: &Vec<Topic>, course_id: u8) -> (kept: Vec<Topic>)
    ensures
        topic_views(kept@) == topic_views(topics@).filter(in_course(course_id)),
{
    let ghost all = topic_views(topics@);
    let ghost keep = in_course(course_id);
    let mut kept: Vec<Topic> = Vec::new();
    let mut i: usize = 0;
    proof {
        reveal(Seq::filter);
        assert(topic_views(kept@) =~= all.take(0).filter(keep));
    }
    while i < topics.len()
        invariant
            i <= topics@.len(),
            all == topic_views(topics@),
            keep == in_course(course_id),
            topic_views(kept@) == all.take(i as int).filter(keep),
        decreases topics@.len() - i,
    {
        proof {
            reveal(Seq::filter);
            assert(all.take(i as int + 1).drop_last() =~= all.take(i as int));
            assert(all.take(i as int + 1).last() == topics@[i as int]@);
        }
        if course_id == 0 || topics[i].course_id == course_id {
            let ghost before = kept@;
            let copy = topics[i].clone();
            kept.push(copy);
            assert(topic_views(kept@) =~= topic_views(before).push(topics@[i as int]@));
        }
        i += 1;
    }
    proof {
        assert(all.take(i as int) =~= all);
    }
    kept
}

/// Whether `reply` is what a listing gives on the store: 200 with the
/// topics that the options ask for, or the refusal.
pub open spec fn lists(
    reply: Reply<Vec<Topic>>,
    db: Map<Seq<char>, Seq<Seq<u8>>>,
    opts: ListOptions,
    user: User,
) -> bool {
    match spec_list(Topic::all(db), opts, user) {
        Ok(topics) => reply.succeeds(Status::Success) && topic_views(
            reply.body.data->Some_0@,
        ) == topics,
        Err(refusal) => refused(reply, refusal),
    }
}

/// Answers 200 with the topics of the course that the options name, then
/// of the page that they ask for, in the order in which they were stored,
/// or refuses.
pub fn list(opts: ListOptions, db: &Db, user: User) -> (reply: Reply<Vec<Topic>>)
    requires
        Topic::stored(db@),
    ensures
        lists(reply, db@, opts, user),
{
    if user.id == 0 {
        return refuse(Refusal::Unauthorized);
    }
    let course_id = match opts.course_id {
        Some(id) => id,
        None => 0,
    };
    let topics = of_course(&Topic::load(db), course_id);
    let (start, end) = opts.bounds(topics.len());
    let mut found: Vec<Topic> = Vec::new();
    let mut i: usize = start;
    while i < end
        invariant
            start <= i <= end <= topics@.len(),
            found@.len() == i - start,
            topic_views(found@) == topic_views(topics@).subrange(start as int, i as int),
        decreases end - i,
    {
        let ghost before = found@;
        let copy = topics[i].clone();
        found.push(copy);
        proof {
            let wanted = topic_views(topics@).subrange(start as int, i as int + 1);
            assert(topic_views(before) == topic_views(topics@).subrange(start as int, i as int));
            assert forall|k: int| 0 <= k < wanted.len() implies topic_views(found@)[k]
                == wanted[k] by {
                if k < before.len() {
                    assert(found@[k] == before[k]);
                    assert(topic_views(before)[k] == topic_views(topics@).subrange(
                        start as int,
                        i as int,
                    )[k]);
                } else {
                    assert(found@[k] == copy);
                }
            }
            assert(topic_views(found@) =~= wanted);
        }
        i += 1;
    }
    ok(found)
}

} // verus!
