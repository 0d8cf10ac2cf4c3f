//! One request, from its authorization header to its answer.

use vstd::prelude::*;

use crate::auth::{current_timestamp, header_view, spec_authenticate, with_auth};
use crate::config::Config;
use crate::handlers::apiresponse::Reply;
use crate::handlers::auth::{logged_in, login, Session};
use crate::handlers::profile::{ProfileInfo, Registration};
use crate::handlers::{course, profile, topic};
use crate::models::course::Course;
use crate::models::profile::{Credentials, Profile};
use crate::models::topic::Topic;
use crate::models::ListOptions;
use crate::store::Db;

verus! {

/// What a client may ask for.
#[derive(Debug, PartialEq, Eq)]
pub enum Request {
    Login(Credentials),
    CreateProfile(Profile),
    GetProfile(u8),
    CreateCourse(Course),
    UpdateCourse(u8, Course),
    GetCourse(u8),
    ListCourses(ListOptions),
    CreateTopic(Topic),
    UpdateTopic(u8, Topic),
    GetTopic(u8),
    ListTopics(ListOptions),
}

/// What a client is answered, by the kind of value that a success carries.
#[derive(Debug, PartialEq, Eq)]
pub enum Answer {
    Session(Reply<Session>),
    Registration(Reply<Registration>),
    Profile(Reply<ProfileInfo>),
    Course(Reply<Course>),
    Courses(Reply<Vec<Course>>),
    Topic(Reply<Topic>),
    Topics(Reply<Vec<Topic>>),
}

/// Whether the store has the three collections and every record in them
/// holds what its collection is for.
pub open spec fn ready(db: Map<Seq<char>, Seq<Seq<u8>>>) -> bool {
    Profile::stored(db) && Course::stored(db) && Topic::stored(db)
}

/// Whether the store has the three collections and every record in them
/// holds what its collection is for.
pub fn is_ready(db: &Db) -> (yes: bool)
    ensures
        yes == ready(db@),
{
    Profile::try_load(db).is_some() && Course::try_load(db).is_some() && Topic::try_load(
        db,
    ).is_some()
}

/// Whether `answer` and the store `after` are what the request gives at the
/// second `now` on the store `before`, asked by the principal that the
/// header proves: what the operation that the request names gives. A login
/// and a registration look at no principal; reads and listings leave the
/// store as it was.
pub open spec fn served(
    answer: Answer,
    request: Request,
    header: Option<Seq<char>>,
    before: Map<Seq<char>, Seq<Seq<u8>>>,
    after: Map<Seq<char>, Seq<Seq<u8>>>,
    now: i64,
    secret: Seq<u8>,
) -> bool {
    let user = spec_authenticate(header, Profile::all(before), now, secret);
    match request {
        Request::Login(credentials) => {
            &&& after == before
            &&& answer matches Answer::Session(reply) && logged_in(
                reply,
                Profile::all(before),
                credentials.username@,
                credentials.password@,
                now,
                secret,
            )
        },
        Request::CreateProfile(new) => {
            answer matches Answer::Registration(reply) && profile::creates(
                reply,
                before,
                after,
                new@,
            )
        },
        Request::GetProfile(id) => {
            &&& after == before
            &&& answer matches Answer::Profile(reply) && profile::gets(reply, before, id, user)
        },
        Request::CreateCourse(new) => {
            answer matches Answer::Course(reply) && course::creates(
                reply,
                before,
                after,
                new@,
                user,
            )
        },
        Request::UpdateCourse(id, new) => {
            answer matches Answer::Course(reply) && course::updates(
                reply,
                before,
                after,
                id,
                new@,
                user,
            )
        },
        Request::GetCourse(id) => {
            &&& after == before
            &&& answer matches Answer::Course(reply) && course::gets(reply, before, id, user)
        },
        Request::ListCourses(opts) => {
            &&& after == before
            &&& answer matches Answer::Courses(reply) && course::lists(reply, before, opts, user)
        },
        Request::CreateTopic(new) => {
            answer matches Answer::Topic(reply) && topic::creates(reply, before, after, new@, user)
        },
        Request::UpdateTopic(id, new) => {
            answer matches Answer::Topic(reply) && topic::updates(
                reply,
                before,
                after,
                id,
                new@,
                user,
            )
        },
        Request::GetTopic(id) => {
            &&& after == before
            &&& answer matches Answer::Topic(reply) && topic::gets(reply, before, id, user)
        },
        Request::ListTopics(opts) => {
            &&& after == before
            &&& answer matches Answer::Topics(reply) && topic::lists(reply, before, opts, user)
        },
    }
}

/// Answers the request at the second `now`: resolves the principal from the
/// header, then does what the request names. `None`, and nothing done, where
/// the store is not ready.
pub fn serve_at(
    request: Request,
    header: Option<&str>,
    db: &mut Db,
    config: &Config,
    now: i64,
) -> (answer: Option<Answer>)
    ensures
        match answer {
            Some(given) => {
                &&& ready(old(db)@)
                &&& ready(final(db)@)
                &&& served(
                    given,
                    request,
                    header_view(header),
                    old(db)@,
                    final(db)@,
                    now,
                    config.jwt_secret@,
                )
            },
            None => !ready(old(db)@) && final(db)@ == old(db)@,
        },
{
    if !is_ready(db) {
        return None;
    }
    let user = with_auth(header, db, config, now);
    let answer = match request {
        Request::Login(credentials) => Answer::Session(login(credentials, db, config, now)),
        Request::CreateProfile(new) => Answer::Registration(profile::create(new, db)),
        Request::GetProfile(id) => Answer::Profile(profile::get(id, db, user)),
        Request::CreateCourse(new) => Answer::Course(course::create(new, db, user)),
        Request::UpdateCourse(id, new) => Answer::Course(course::update(id, new, db, user)),
        Request::GetCourse(id) => Answer::Course(course::get(id, db, user)),
        Request::ListCourses(opts) => Answer::Courses(course::list(opts, db, user)),
        Request::CreateTopic(new) => Answer::Topic(topic::create(new, db, user)),
        Request::UpdateTopic(id, new) => Answer::Topic(topic::update(id, new, db, user)),
        Request::GetTopic(id) => Answer::Topic(topic::get(id, db, user)),
        Request::ListTopics(opts) => Answer::Topics(topic::list(opts, db, user)),
    };
    Some(answer)
}

/// Answers the request now, by the machine's clock. `None`, and nothing
/// done, where the store is not ready.
pub fn serve(request: Request, header: Option<&str>, db: &mut Db, config: &Config) -> (answer:
    Option<Answer>)
    ensures
        match answer {
            Some(given) => {
                &&& ready(old(db)@)
                &&& ready(final(db)@)
                &&& exists|now: i64|
                    served(
                        given,
                        request,
                        header_view(header),
                        old(db)@,
                        final(db)@,
                        now,
                        config.jwt_secret@,
                    )
            },
            None => !ready(old(db)@) && final(db)@ == old(db)@,
        },
{
    let now = current_timestamp();
    let answer = serve_at(request, header, db, config, now);
    proof {
        if answer is Some {
            assert(served(
                answer->Some_0,
                request,
                header_view(header),
                old(db)@,
                db@,
                now,
                config.jwt_secret@,
            ));
        }
    }
    answer
}

} // verus!
