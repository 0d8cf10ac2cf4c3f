use dummy_api::models::course::Course;
use dummy_api::models::profile::{
    generate_password, get_kind, initialize, position_by_id, Credentials, Kind, Profile, CHARSET,
    PASSWORD_LENGTH, PROFILES,
};
use dummy_api::models::topic::Topic;
use dummy_api::models::{ListOptions, Response, DEFAULT_LIMIT};
use dummy_api::store::new_db;

#[test]
fn new_profile_is_empty_and_a_trainee() {
    let profile = Profile::new();
    assert_eq!(profile.id, 0);
    assert_eq!(profile.username, "");
    assert_eq!(profile.password, "");
    assert_eq!(profile.first_name, "");
    assert_eq!(profile.last_name, "");
    assert_eq!(profile.kind, Kind::Trainee);
    assert_eq!(profile, Profile::default());
    assert_eq!(Kind::default(), Kind::Trainee);
}

#[test]
fn profile_builders_set_one_field_each() {
    let profile = Profile::new()
        .with_id(123)
        .with_username(String::from("mara"))
        .with_password(String::from("secret"))
        .with_first_name(String::from("Mara"))
        .with_last_name(String::from("Bos"))
        .with_kind(Kind::Admin);
    assert_eq!(
        profile,
        Profile {
            id: 123,
            username: String::from("mara"),
            password: String::from("secret"),
            first_name: String::from("Mara"),
            last_name: String::from("Bos"),
            kind: Kind::Admin,
        }
    );
    assert_eq!(profile.clone(), profile);
    assert_eq!(profile.clone().with_id(5).id, 5);
    assert_eq!(profile.clone().with_id(5).username, "mara");
}

#[test]
fn generated_password_is_drawn_from_the_charset() {
    assert_eq!(PASSWORD_LENGTH, 8);
    assert_eq!(CHARSET.len(), 72);
    let profile = Profile::new().with_id(1).with_username(String::from("root"));
    let with = profile.clone().with_generated_password();
    assert_eq!(with.password.chars().count(), 8);
    assert!(with.password.chars().all(|c| CHARSET.contains(c)));
    assert_eq!(with.clone().with_password(String::new()), profile);

    assert_eq!(generate_password(0), "");
    let long = generate_password(200);
    assert_eq!(long.chars().count(), 200);
    assert!(long.chars().all(|c| CHARSET.contains(c)));
    assert_ne!(generate_password(64), generate_password(64));
}

#[test]
fn new_course_is_empty() {
    let course = Course::new();
    assert_eq!(
        course,
        Course { id: 0, title: String::new(), description: String::new(), creator_id: 0 }
    );
    assert_eq!(course, Course::default());
}

#[test]
fn course_builders_set_one_field_each() {
    let course = Course::new()
        .with_id(1)
        .with_title(String::from("Rust in Action"))
        .with_description(String::from("d"))
        .with_creator_id(123);
    assert_eq!(
        course,
        Course {
            id: 1,
            title: String::from("Rust in Action"),
            description: String::from("d"),
            creator_id: 123
        }
    );
    assert_eq!(course.clone(), course);
}

#[test]
fn topic_builders_set_one_field_each() {
    assert_eq!(
        Topic::new(),
        Topic {
            id: 0,
            title: String::new(),
            description: String::new(),
            course_id: 0,
            creator_id: 0
        }
    );
    let topic = Topic::new()
        .with_id(2)
        .with_title(String::from("Borrowing"))
        .with_description(String::from("d"))
        .with_course_id(1)
        .with_creator_id(125);
    assert_eq!(
        topic,
        Topic {
            id: 2,
            title: String::from("Borrowing"),
            description: String::from("d"),
            course_id: 1,
            creator_id: 125
        }
    );
    assert_eq!(topic.clone(), topic);
    assert_eq!(Topic::default(), Topic::new());
}

#[test]
fn credentials_hold_what_they_are_given() {
    let credentials =
        Credentials { username: String::from("mara"), password: String::from("secret") };
    assert_eq!(credentials.clone(), credentials);
}

#[test]
fn page_bounds() {
    let all = ListOptions::default();
    assert_eq!(all, ListOptions { offset: None, limit: None, course_id: None });
    assert_eq!(DEFAULT_LIMIT, 255);
    assert_eq!(all.bounds(0), (0, 0));
    assert_eq!(all.bounds(20), (0, 20));
    assert_eq!(all.bounds(255), (0, 255));
    assert_eq!(all.bounds(300), (0, 255));

    let opts = ListOptions { offset: Some(5), limit: Some(10), course_id: None };
    assert_eq!(opts.bounds(20), (5, 15));
    assert_eq!(opts.bounds(12), (5, 12));
    assert_eq!(opts.bounds(5), (5, 5));
    assert_eq!(opts.bounds(3), (3, 3));

    let none = ListOptions { offset: Some(0), limit: Some(0), course_id: None };
    assert_eq!(none.bounds(20), (0, 0));

    let huge = ListOptions { offset: Some(usize::MAX), limit: Some(usize::MAX), course_id: None };
    assert_eq!(huge.bounds(20), (20, 20));
    let wide = ListOptions { offset: Some(1), limit: Some(usize::MAX), course_id: None };
    assert_eq!(wide.bounds(20), (1, 20));
}

#[test]
fn envelope_holds_a_value_or_a_message() {
    let data: Response<u8> = Response { data: Some(1), error: None };
    let error: Response<u8> = Response { data: None, error: Some(String::from("no")) };
    assert_ne!(data, error);
}

fn accounts() -> Vec<Profile> {
    vec![
        Profile::new().with_id(123).with_username(String::from("mara")).with_kind(Kind::Admin),
        Profile::new().with_id(124).with_username(String::from("dara")),
        Profile::new().with_id(123).with_username(String::from("twin")).with_kind(Kind::Mentor),
    ]
}

#[test]
fn initialize_appends_in_order() {
    let mut db = new_db(vec![PROFILES]);
    initialize(&mut db, &[]);
    assert_eq!(Profile::load(&db), vec![]);
    initialize(&mut db, &accounts()[..2]);
    initialize(&mut db, &accounts()[2..]);
    assert_eq!(Profile::load(&db), accounts());
    assert_eq!(
        db.get(PROFILES),
        Some(&accounts().iter().map(|p| p.encode()).collect::<Vec<Vec<u8>>>())
    );
}

#[test]
fn get_kind_is_the_role_of_the_first_account_with_the_id() {
    let mut db = new_db(vec![PROFILES]);
    assert_eq!(get_kind(&db, 123), Err(String::from("invalid role")));
    initialize(&mut db, &accounts());
    assert_eq!(get_kind(&db, 123), Ok(Kind::Admin));
    assert_eq!(get_kind(&db, 124), Ok(Kind::Trainee));
    assert_eq!(get_kind(&db, 1), Err(String::from("invalid role")));
    assert_eq!(get_kind(&db, 0), Err(String::from("invalid role")));
}

#[test]
fn position_by_id_is_the_first_place() {
    let accounts = accounts();
    assert_eq!(position_by_id(&accounts, 123), Some(0));
    assert_eq!(position_by_id(&accounts, 124), Some(1));
    assert_eq!(position_by_id(&accounts, 125), None);
    assert_eq!(position_by_id(&vec![], 0), None);
}
