use dummy_api::auth::{with_auth, User};
use dummy_api::config::Config;
use dummy_api::handlers::apiresponse::{Reply, Status};
use dummy_api::handlers::{auth, course, profile, topic};
use dummy_api::models::course::{Course, COURSES};
use dummy_api::models::profile::{initialize, Credentials, Kind, Profile, PROFILES};
use dummy_api::models::topic::{Topic, TOPICS};
use dummy_api::store::{new_db, Db};

/// The second at which the requests of a test are made.
const NOW: i64 = 1_700_000_000;

fn config() -> Config {
    Config { jwt_secret: "secret_key".as_bytes().to_vec() }
}

fn admin() -> Profile {
    Profile::new()
        .with_id(123)
        .with_username(String::from("mara"))
        .with_password(String::from("secret"))
        .with_kind(Kind::Admin)
}

fn trainee() -> Profile {
    Profile::new()
        .with_id(124)
        .with_username(String::from("dara"))
        .with_password(String::from("secret"))
        .with_kind(Kind::Trainee)
}

fn mentor() -> Profile {
    Profile::new()
        .with_id(125)
        .with_username(String::from("nara"))
        .with_password(String::from("secret"))
        .with_kind(Kind::Mentor)
}

fn credentials(username: &str, password: &str) -> Credentials {
    Credentials { username: String::from(username), password: String::from(password) }
}

fn principal(db: &Db, username: &str) -> User {
    let reply = auth::login(credentials(username, "secret"), db, &config(), NOW);
    assert_eq!(reply.status, Status::Success);
    let session = reply.body.data.unwrap();
    let authorization = format!("Bearer \"{}\"", session.token);
    with_auth(Some(&authorization), db, &config(), NOW)
}

fn nobody(db: &Db) -> User {
    with_auth(None, db, &config(), NOW)
}

fn error_of<T>(reply: &Reply<T>) -> Option<&str> {
    reply.body.error.as_deref()
}

fn rust_in_action() -> Course {
    Course::new()
        .with_title(String::from("Rust in Action"))
        .with_description(String::from("The most recommended training for Rust developers."))
}

fn rust_in_production() -> Course {
    Course::new()
        .with_title(String::from("Rust in Production"))
        .with_description(String::from("The most recommended training for Rust developers."))
}

fn topic_titled(title: &str, course_id: u8) -> Topic {
    Topic::new()
        .with_title(String::from(title))
        .with_description(String::from("The most recommended training for Rust developers."))
        .with_course_id(course_id)
}

#[test]
fn api_tests_test_login() {
    let mut db = new_db(vec![PROFILES]);
    initialize(&mut db, &[admin()]);

    let reply = auth::login(credentials("mara", "secret"), &db, &config(), NOW);
    assert_eq!(reply.status, Status::Success);
    assert_eq!(reply.status.code(), 200);
    assert_eq!(reply.body.error, None);
    let session = reply.body.data.unwrap();
    assert_eq!(session.id, 123);
    assert_eq!(session.role, Kind::Admin);
    assert_ne!(session.token, "");

    let reply = auth::login(credentials("klabnik", "secret"), &db, &config(), NOW);
    assert_eq!(reply.status, Status::Unauthorized);
    assert_eq!(reply.status.code(), 401);
    assert_eq!(reply.body.data, None);
    assert_eq!(error_of(&reply), Some("Invalid username or password!"));
}

#[test]
fn test_create_profile() {
    let mut db = new_db(vec![PROFILES]);

    let reply = profile::create(
        Profile::new()
            .with_username(String::from("deitel"))
            .with_password(String::from("secret"))
            .with_first_name(String::from("Paul"))
            .with_last_name(String::from("Deitel"))
            .with_kind(Kind::Admin),
        &mut db,
    );
    assert_eq!(reply.status, Status::Created);
    assert_eq!(reply.body.error, None);
    assert_eq!(reply.body.data, Some(profile::Registration { id: 1, kind: Kind::Admin }));

    // create profile with existing username
    let reply = profile::create(
        Profile::new().with_username(String::from("deitel")).with_password(String::from("secret")),
        &mut db,
    );
    assert_eq!(reply.status, Status::BadRequest);
    assert_eq!(reply.body.data, None);
    assert_eq!(error_of(&reply), Some("Username is no longer available!"));
}

#[test]
fn api_tests_test_create_course() {
    let mut db = new_db(vec![PROFILES, COURSES]);
    initialize(&mut db, &[admin(), trainee()]);

    // create course without authorization
    let user = nobody(&db);
    let reply = course::create(rust_in_action(), &mut db, user);
    assert_eq!(reply.status, Status::Unauthorized);
    assert_eq!(reply.body.data, None);
    assert_eq!(error_of(&reply), Some("Not authorized!"));

    // admin create course
    let user = principal(&db, "mara");
    let reply = course::create(rust_in_action(), &mut db, user);
    assert_eq!(reply.status, Status::Created);
    assert_eq!(reply.status.code(), 201);
    assert_eq!(reply.body.error, None);
    assert_eq!(reply.body.data, Some(rust_in_action().with_id(1).with_creator_id(123)));

    // trainee try to create course
    let user = principal(&db, "dara");
    let reply = course::create(
        rust_in_action().with_title(String::from("Rust in Actions")),
        &mut db,
        user,
    );
    assert_eq!(reply.status, Status::Forbidden);
    assert_eq!(reply.status.code(), 403);
}

#[test]
fn api_tests_test_update_course() {
    let mut db = new_db(vec![PROFILES, COURSES]);
    initialize(&mut db, &[admin(), trainee()]);

    let user = principal(&db, "mara");
    let reply = course::create(rust_in_action(), &mut db, user);
    assert_eq!(reply.status, Status::Created);
    let id = reply.body.data.unwrap().id;

    let reply = course::update(id, rust_in_production(), &mut db, user);
    assert_eq!(reply.status, Status::Success);
    assert_eq!(reply.body.data, Some(rust_in_production().with_id(1).with_creator_id(123)));

    // trainee try to update course
    let user = principal(&db, "dara");
    let reply = course::update(user.id, rust_in_production(), &mut db, user);
    assert_eq!(reply.status, Status::Forbidden);
}

#[test]
fn api_tests_test_create_topic() {
    let mut db = new_db(vec![PROFILES, COURSES, TOPICS]);
    initialize(&mut db, &[admin(), trainee(), mentor()]);

    // create topic without authorization
    let user = nobody(&db);
    let reply = topic::create(topic_titled("Rust in Action", 1), &mut db, user);
    assert_eq!(reply.status, Status::Unauthorized);
    assert_eq!(error_of(&reply), Some("Not authorized!"));

    // admin create topic with unknown course
    let admin = principal(&db, "mara");
    let reply = topic::create(topic_titled("Rust in Action", 1), &mut db, admin);
    assert_eq!(reply.status, Status::BadRequest);
    assert_eq!(reply.status.code(), 400);
    assert_eq!(error_of(&reply), Some("Course not found!"));

    // admin create course
    let reply = course::create(rust_in_action(), &mut db, admin);
    assert_eq!(reply.status, Status::Created);
    let course_id = reply.body.data.unwrap().id;

    // admin create topic with existing course
    let reply = topic::create(topic_titled("Rust in Action", course_id), &mut db, admin);
    assert_eq!(reply.status, Status::Created);
    assert_eq!(
        reply.body.data,
        Some(topic_titled("Rust in Action", 1).with_id(1).with_creator_id(123))
    );

    // trainee try to create topic
    let user = principal(&db, "dara");
    let reply = topic::create(topic_titled("Rust in Actions", 1), &mut db, user);
    assert_eq!(reply.status, Status::Forbidden);

    // mentor create topic with existing course
    let user = principal(&db, "nara");
    let reply =
        topic::create(topic_titled("Rust in Action - 2nd Edition", course_id), &mut db, user);
    assert_eq!(reply.status, Status::Created);
    assert_eq!(
        reply.body.data,
        Some(topic_titled("Rust in Action - 2nd Edition", 1).with_id(2).with_creator_id(125))
    );
}

#[test]
fn api_tests_test_update_topic() {
    let mut db = new_db(vec![PROFILES, COURSES, TOPICS]);
    initialize(&mut db, &[admin(), trainee(), mentor()]);

    // admin create course
    let admin = principal(&db, "mara");
    let reply = course::create(rust_in_action(), &mut db, admin);
    assert_eq!(reply.status, Status::Created);
    let course_id = reply.body.data.unwrap().id;

    // admin create topic
    let reply = topic::create(topic_titled("Rust in Action", course_id), &mut db, admin);
    assert_eq!(reply.status, Status::Created);
    let topic_id = reply.body.data.unwrap().id;

    // admin update topic
    let reply =
        topic::update(topic_id, topic_titled("Rust in Production", course_id), &mut db, admin);
    assert_eq!(reply.status, Status::Success);

    // mentor update topic
    let user = principal(&db, "nara");
    let reply = topic::update(topic_id, topic_titled("Rust in Production", 0), &mut db, user);
    assert_eq!(reply.status, Status::Success);
    assert_eq!(
        reply.body.data,
        Some(topic_titled("Rust in Production", course_id).with_id(topic_id).with_creator_id(123))
    );

    // trainee update topic
    let user = principal(&db, "dara");
    let reply = topic::update(topic_id, topic_titled("Rust in Production", 0), &mut db, user);
    assert_eq!(reply.status, Status::Forbidden);
}
