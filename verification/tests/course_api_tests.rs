use dummy_api::auth::{with_auth, User};
use dummy_api::config::Config;
use dummy_api::handlers::apiresponse::{Reply, Status};
use dummy_api::handlers::{auth, course};
use dummy_api::models::course::{Course, COURSES};
use dummy_api::models::profile::{initialize, Credentials, Kind, Profile, PROFILES};
use dummy_api::models::ListOptions;
use dummy_api::store::{new_db, Db};

/// The second at which the requests of a test are made.
const NOW: i64 = 1_700_000_000;

fn config() -> Config {
    Config { jwt_secret: "secret_key".as_bytes().to_vec() }
}

fn admin() -> Profile {
    Profile::new()
        .with_id(123)
        .with_username(String::from("mara"))
        .with_password(String::from("secret"))
        .with_kind(Kind::Admin)
}

fn trainee() -> Profile {
    Profile::new()
        .with_id(124)
        .with_username(String::from("dara"))
        .with_password(String::from("secret"))
        .with_kind(Kind::Trainee)
}

fn credentials(username: &str, password: &str) -> Credentials {
    Credentials { username: String::from(username), password: String::from(password) }
}

fn principal(db: &Db, username: &str) -> User {
    let reply = auth::login(credentials(username, "secret"), db, &config(), NOW);
    assert_eq!(reply.status, Status::Success);
    let session = reply.body.data.unwrap();
    let authorization = format!("Bearer \"{}\"", session.token);
    with_auth(Some(&authorization), db, &config(), NOW)
}

fn nobody(db: &Db) -> User {
    with_auth(None, db, &config(), NOW)
}

fn error_of<T>(reply: &Reply<T>) -> Option<&str> {
    reply.body.error.as_deref()
}

fn rust_in_action() -> Course {
    Course::new()
        .with_title(String::from("Rust in Action"))
        .with_description(String::from("The most recommended training for Rust developers."))
}

fn rust_in_production() -> Course {
    Course::new()
        .with_title(String::from("Rust in Production"))
        .with_description(String::from("The most recommended training for Rust developers."))
}

#[test]
fn course_api_tests_test_create_course() {
    let mut db = new_db(vec![PROFILES, COURSES]);
    initialize(&mut db, &[admin(), trainee()]);

    // create course without authorization
    let user = nobody(&db);
    let reply = course::create(rust_in_action(), &mut db, user);
    assert_eq!(reply.status, Status::Unauthorized);
    assert_eq!(reply.body.data, None);
    assert_eq!(error_of(&reply), Some("Not authorized!"));

    // admin create course
    let user = principal(&db, "mara");
    let reply = course::create(rust_in_action(), &mut db, user);
    assert_eq!(reply.status, Status::Created);
    assert_eq!(reply.status.code(), 201);
    assert_eq!(reply.body.error, None);
    assert_eq!(reply.body.data, Some(rust_in_action().with_id(1).with_creator_id(123)));

    // trainee try to create course
    let user = principal(&db, "dara");
    let reply = course::create(
        rust_in_action().with_title(String::from("Rust in Actions")),
        &mut db,
        user,
    );
    assert_eq!(reply.status, Status::Forbidden);
    assert_eq!(reply.status.code(), 403);
}

#[test]
fn course_api_tests_test_update_course() {
    let mut db = new_db(vec![PROFILES, COURSES]);
    initialize(&mut db, &[admin(), trainee()]);

    let user = principal(&db, "mara");
    let reply = course::create(rust_in_action(), &mut db, user);
    assert_eq!(reply.status, Status::Created);
    let id = reply.body.data.unwrap().id;

    let reply = course::update(id, rust_in_production(), &mut db, user);
    assert_eq!(reply.status, Status::Success);
    assert_eq!(reply.body.data, Some(rust_in_production().with_id(1).with_creator_id(123)));

    // trainee try to update course
    let user = principal(&db, "dara");
    let reply = course::update(user.id, rust_in_production(), &mut db, user);
    assert_eq!(reply.status, Status::Forbidden);
}

#[test]
fn test_list_courses() {
    let mut db = new_db(vec![PROFILES, COURSES]);
    initialize(&mut db, &[admin(), trainee()]);

    let user = principal(&db, "mara");
    let total = 20;

    // admin create courses
    for i in 1..total + 1 {
        let reply = course::create(
            rust_in_action().with_title(format!("Rust in Action - 1{}th Edition", i)),
            &mut db,
            user,
        );
        assert_eq!(reply.status, Status::Created);
    }

    // trainee view courses
    let user = principal(&db, "dara");
    let reply = course::list(ListOptions::default(), &db, user);
    assert_eq!(reply.status, Status::Success);
    assert_eq!(reply.body.data.unwrap().len(), total);
}
