//! What holds of the rules whatever the requests are.

use vstd::prelude::*;

use crate::auth::{
    spec_authenticate, spec_bearer_token, spec_decode_token, spec_role_of, User, BEARER,
};
use crate::handlers::{Refusal, CAPACITY};
use crate::models::course::CourseView;
use crate::models::profile::{Kind, ProfileView};
use crate::models::topic::TopicView;

verus! {

/// The courses in the store after the creations of a list were asked for in
/// order by one principal, each one stored or refused as `create` decides.
pub open spec fn spec_create_all(
    courses: Seq<CourseView>,
    requests: Seq<CourseView>,
    user: User,
) -> Seq<CourseView>
    decreases requests.len(),
{
    if requests.len() == 0 {
        courses
    } else {
        let before = spec_create_all(courses, requests.drop_last(), user);
        match crate::handlers::course::spec_create(before, requests.last(), user) {
            Ok(made) => before.push(made),
            Err(_) => before,
        }
    }
}

/// Whether no two courses of the list have the same title.
pub open spec fn distinct_titles(requests: Seq<CourseView>) -> bool {
    forall|i: int, j: int|
        0 <= i < j < requests.len() ==> requests[i].title != requests[j].title
}

/// The ids of the courses of a list.
pub open spec fn ids(courses: Seq<CourseView>) -> Set<int> {
    Set::new(|id: int| exists|i: int| 0 <= i < courses.len() && courses[i].id == id)
}

/// Creations with distinct titles, asked for in whatever order by a
/// principal who may write courses, on a store without courses: as long as
/// ids are left, every one is stored, the n-th under the id n, so that the
/// ids are the numbers from 1 to the number of creations, each once.
pub proof fn lemma_creations_get_the_ids_from_one(requests: Seq<CourseView>, user: User)
    requires
        crate::handlers::course::spec_may_write(user) is Ok,
        distinct_titles(requests),
        requests.len() <= CAPACITY,
    ensures
        spec_create_all(Seq::empty(), requests, user).len() == requests.len(),
        forall|i: int|
            0 <= i < requests.len() ==> {
                &&& (#[trigger] spec_create_all(Seq::empty(), requests, user)[i]).id == i + 1
                &&& spec_create_all(Seq::empty(), requests, user)[i].title == requests[i].title
                &&& spec_create_all(Seq::empty(), requests, user)[i].creator_id == user.id
            },
        forall|i: int, j: int|
            0 <= i < j < requests.len() ==> spec_create_all(Seq::empty(), requests, user)[i].id
                != spec_create_all(Seq::empty(), requests, user)[j].id,
        ids(spec_create_all(Seq::empty(), requests, user)) == Set::new(
            |id: int| 1 <= id <= requests.len(),
        ),
    decreases requests.len(),
{
    let courses = spec_create_all(Seq::empty(), requests, user);
    if requests.len() > 0 {
        let earlier = requests.drop_last();
        let before = spec_create_all(Seq::empty(), earlier, user);
        assert(distinct_titles(earlier));
        lemma_creations_get_the_ids_from_one(earlier, user);
        assert(!crate::handlers::course::title_taken(before, requests.last().title)) by {
            if crate::handlers::course::title_taken(before, requests.last().title) {
                let i = choose|i: int|
                    0 <= i < before.len() && before[i].title == requests.last().title;
                assert(before[i].title == earlier[i].title);
                assert(earlier[i] == requests[i]);
            }
        }
        assert(courses == before.push(courses.last()));
        assert forall|i: int| 0 <= i < requests.len() implies {
            &&& (#[trigger] courses[i]).id == i + 1
            &&& courses[i].title == requests[i].title
            &&& courses[i].creator_id == user.id
        } by {
            if i < before.len() {
                assert(courses[i] == before[i]);
                assert(earlier[i] == requests[i]);
            }
        }
    }
    assert(ids(courses) =~= Set::new(|id: int| 1 <= id <= requests.len())) by {
        assert forall|id: int| 1 <= id <= requests.len() implies ids(courses).contains(id) by {
            assert(courses[id - 1].id == id);
        }
    }
}

/// Whether the n-th course of the list has the id n, for every n.
pub open spec fn dense_course_ids(courses: Seq<CourseView>) -> bool {
    forall|i: int| 0 <= i < courses.len() ==> (#[trigger] courses[i]).id == i + 1
}

/// Whether the n-th topic of the list has the id n, for every n.
pub open spec fn dense_topic_ids(topics: Seq<TopicView>) -> bool {
    forall|i: int| 0 <= i < topics.len() ==> (#[trigger] topics[i]).id == i + 1
}

/// Whether the n-th account of the list has the id n, for every n.
pub open spec fn dense_profile_ids(profiles: Seq<ProfileView>) -> bool {
    forall|i: int| 0 <= i < profiles.len() ==> (#[trigger] profiles[i]).id == i + 1
}

/// Whether no two topics of the list have the same course and title.
pub open spec fn distinct_topic_titles(topics: Seq<TopicView>) -> bool {
    forall|i: int, j: int|
        0 <= i < j < topics.len() ==> !(topics[i].course_id == topics[j].course_id
            && topics[i].title == topics[j].title)
}

/// Whether no two accounts of the list have the same username.
pub open spec fn distinct_usernames(profiles: Seq<ProfileView>) -> bool {
    forall|i: int, j: int|
        0 <= i < j < profiles.len() ==> profiles[i].username != profiles[j].username
}

/// A creation keeps the ids of the courses dense and their titles distinct.
pub proof fn lemma_course_creation_keeps_order(
    courses: Seq<CourseView>,
    course: CourseView,
    user: User,
)
    ensures
        match crate::handlers::course::spec_create(courses, course, user) {
            Ok(made) => {
                &&& dense_course_ids(courses) ==> dense_course_ids(courses.push(made))
                &&& distinct_titles(courses) ==> distinct_titles(courses.push(made))
            },
            Err(_) => true,
        },
{
    if let Ok(made) = crate::handlers::course::spec_create(courses, course, user) {
        let after = courses.push(made);
        if distinct_titles(courses) {
            assert forall|i: int, j: int| 0 <= i < j < after.len() implies after[i].title
                != after[j].title by {
                if j < courses.len() {
                    assert(after[i] == courses[i] && after[j] == courses[j]);
                } else {
                    assert(after[i] == courses[i]);
                }
            }
        }
    }
}

/// A creation keeps the ids of the topics dense and their titles distinct
/// within each course, and stores the topic under the course that the
/// request names, which exists.
pub proof fn lemma_topic_creation_keeps_order(
    courses: Seq<CourseView>,
    topics: Seq<TopicView>,
    topic: TopicView,
    user: User,
)
    ensures
        match crate::handlers::topic::spec_create(courses, topics, topic, user) {
            Ok(made) => {
                &&& dense_topic_ids(topics) ==> dense_topic_ids(topics.push(made))
                &&& distinct_topic_titles(topics) ==> distinct_topic_titles(topics.push(made))
                &&& made.course_id == topic.course_id
                &&& crate::handlers::topic::course_exists(courses, made.course_id)
            },
            Err(_) => true,
        },
{
    if let Ok(made) = crate::handlers::topic::spec_create(courses, topics, topic, user) {
        let after = topics.push(made);
        if distinct_topic_titles(topics) {
            assert forall|i: int, j: int| 0 <= i < j < after.len() implies !(after[i].course_id
                == after[j].course_id && after[i].title == after[j].title) by {
                if j < topics.len() {
                    assert(after[i] == topics[i] && after[j] == topics[j]);
                } else {
                    assert(after[i] == topics[i]);
                }
            }
        }
    }
}

/// A registration keeps the ids of the accounts dense and their usernames
/// distinct.
pub proof fn lemma_registration_keeps_order(profiles: Seq<ProfileView>, profile: ProfileView)
    ensures
        match crate::handlers::profile::spec_create(profiles, profile) {
            Ok(made) => {
                &&& dense_profile_ids(profiles) ==> dense_profile_ids(profiles.push(made))
                &&& distinct_usernames(profiles) ==> distinct_usernames(profiles.push(made))
            },
            Err(_) => true,
        },
{
    if let Ok(made) = crate::handlers::profile::spec_create(profiles, profile) {
        let after = profiles.push(made);
        if distinct_usernames(profiles) {
            assert forall|i: int, j: int| 0 <= i < j < after.len() implies after[i].username
                != after[j].username by {
                if j < profiles.len() {
                    assert(after[i] == profiles[i] && after[j] == profiles[j]);
                } else {
                    assert(after[i] == profiles[i]);
                }
            }
        }
    }
}

/// A creation of a course whose title a stored course has is refused as a
/// conflict, whoever may write courses asks for it.
pub proof fn lemma_same_course_title_is_a_conflict(
    courses: Seq<CourseView>,
    course: CourseView,
    user: User,
)
    requires
        crate::handlers::course::spec_may_write(user) is Ok,
        crate::handlers::course::title_taken(courses, course.title),
    ensures
        crate::handlers::course::spec_create(courses, course, user) == Err::<
            CourseView,
            Refusal,
        >(Refusal::Conflict),
{
}

/// A creation of a topic whose title a stored topic of the same course has
/// is refused as a conflict, whoever may write topics asks for it in a
/// course that exists. The same title in another course is no conflict.
pub proof fn lemma_same_topic_title_is_a_conflict(
    courses: Seq<CourseView>,
    topics: Seq<TopicView>,
    topic: TopicView,
    user: User,
)
    requires
        crate::handlers::topic::spec_may_write(user) is Ok,
        crate::handlers::topic::course_exists(courses, topic.course_id),
    ensures
        crate::handlers::topic::title_taken(topics, topic.course_id, topic.title)
            ==> crate::handlers::topic::spec_create(courses, topics, topic, user) == Err::<
            TopicView,
            Refusal,
        >(Refusal::Conflict),
        !crate::handlers::topic::title_taken(topics, topic.course_id, topic.title)
            ==> crate::handlers::topic::spec_create(courses, topics, topic, user) != Err::<
            TopicView,
            Refusal,
        >(Refusal::Conflict),
{
}

/// A registration under a username that a stored account has is refused as
/// a conflict, whoever asks for it.
pub proof fn lemma_same_username_is_a_conflict(profiles: Seq<ProfileView>, profile: ProfileView)
    requires
        crate::handlers::profile::username_taken(profiles, profile.username),
    ensures
        crate::handlers::profile::spec_create(profiles, profile) == Err::<ProfileView, Refusal>(
            Refusal::Conflict,
        ),
{
}

/// An update of a course changes neither its id nor its creator, whatever
/// the request says of them; title and description become the request's.
pub proof fn lemma_course_update_keeps_identity(
    courses: Seq<CourseView>,
    id: u8,
    course: CourseView,
    user: User,
)
    ensures
        match crate::handlers::course::spec_update(courses, id, course, user) {
            Ok((i, changed)) => {
                &&& 0 <= i < courses.len()
                &&& changed.id == courses[i].id
                &&& changed.creator_id == courses[i].creator_id
                &&& changed.title == course.title
                &&& changed.description == course.description
            },
            Err(_) => true,
        },
{
    if let Ok((i, changed)) = crate::handlers::course::spec_update(courses, id, course, user) {
        assert(crate::models::course::is_first_with_id(courses, id, i));
    }
}

/// An update of a topic changes neither its id nor its course nor its
/// creator, whatever the request says of them; title and description become
/// the request's.
pub proof fn lemma_topic_update_keeps_identity(
    topics: Seq<TopicView>,
    id: u8,
    topic: TopicView,
    user: User,
)
    ensures
        match crate::handlers::topic::spec_update(topics, id, topic, user) {
            Ok((i, changed)) => {
                &&& 0 <= i < topics.len()
                &&& changed.id == topics[i].id
                &&& changed.course_id == topics[i].course_id
                &&& changed.creator_id == topics[i].creator_id
                &&& changed.title == topic.title
                &&& changed.description == topic.description
            },
            Err(_) => true,
        },
{
    if let Ok((i, changed)) = crate::handlers::topic::spec_update(topics, id, topic, user) {
        assert(crate::models::topic::is_first_with_id(topics, id, i));
    }
}

/// Who may see an account: everyone their own; `Root` and `Admin` every
/// one; a `Mentor` those of `Trainee`s and no other; a `Trainee` no other.
pub proof fn lemma_can_view(user: User, profile: ProfileView)
    ensures
        user.id == profile.id ==> user.spec_can_view(profile),
        user.role == Kind::Admin || user.role == Kind::Root ==> user.spec_can_view(profile),
        user.role == Kind::Mentor && profile.kind == Kind::Trainee ==> user.spec_can_view(profile),
        user.role == Kind::Mentor && profile.kind != Kind::Trainee && user.id != profile.id
            ==> !user.spec_can_view(profile),
        user.role == Kind::Trainee && user.id != profile.id ==> !user.spec_can_view(profile),
{
}

/// Taking the double quotes out of a text that has none leaves the text.
pub proof fn lemma_nothing_to_strip(text: Seq<char>)
    requires
        forall|i: int| 0 <= i < text.len() ==> text[i] != '"',
    ensures
        text.filter(|c: char| c != '"') == text,
    decreases text.len(),
{
    reveal(Seq::filter);
    if text.len() > 0 {
        lemma_nothing_to_strip(text.drop_last());
        assert(text.drop_last().push(text.last()) =~= text);
    }
}

/// A header made of `BEARER` and a token without double quotes carries that
/// token.
pub proof fn lemma_bearer_carries_the_token(token: Seq<char>)
    requires
        forall|i: int| 0 <= i < token.len() ==> token[i] != '"',
    ensures
        spec_bearer_token(BEARER@ + token) == Some(token),
{
    let header = BEARER@ + token;
    assert(header.subrange(0, BEARER@.len() as int) =~= BEARER@);
    assert(header.subrange(BEARER@.len() as int, header.len() as int) =~= token);
    lemma_nothing_to_strip(token);
}

/// A request whose header is `BEARER` and a token that proves an account
/// acts as that account, in the role of the first stored account with its
/// id, and as a `Trainee` where none is stored. With a token that proves
/// nothing it is nobody's.
pub proof fn lemma_token_decides_the_principal(
    token: Seq<char>,
    profiles: Seq<ProfileView>,
    now: i64,
    secret: Seq<u8>,
)
    requires
        forall|i: int| 0 <= i < token.len() ==> token[i] != '"',
    ensures
        spec_authenticate(Some(BEARER@ + token), profiles, now, secret) == (match spec_decode_token(
            token,
            now,
            secret,
        ) {
            Ok(id) => User { id, role: spec_role_of(profiles, id) },
            Err(_) => User::spec_anonymous(),
        }),
        spec_authenticate(None, profiles, now, secret) == User::spec_anonymous(),
{
    lemma_bearer_carries_the_token(token);
}

} // verus!
