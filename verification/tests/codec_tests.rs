use dummy_api::codec::Row;
use dummy_api::models::course::Course;
use dummy_api::models::profile::{Kind, Profile};
use dummy_api::models::topic::Topic;

fn deitel() -> Profile {
    Profile::new()
        .with_id(7)
        .with_username(String::from("deitel"))
        .with_password(String::from("secret"))
        .with_first_name(String::from("Paul"))
        .with_last_name(String::from("Deitel"))
        .with_kind(Kind::Admin)
}

#[test]
fn role_numbers() {
    assert_eq!(Kind::Root.index(), 0);
    assert_eq!(Kind::Admin.index(), 1);
    assert_eq!(Kind::Mentor.index(), 2);
    assert_eq!(Kind::Trainee.index(), 3);
    assert_eq!(Kind::from_index(0), Some(Kind::Root));
    assert_eq!(Kind::from_index(1), Some(Kind::Admin));
    assert_eq!(Kind::from_index(2), Some(Kind::Mentor));
    assert_eq!(Kind::from_index(3), Some(Kind::Trainee));
    assert_eq!(Kind::from_index(4), None);
    assert_eq!(Kind::from_index(255), None);
}

#[test]
fn profile_row() {
    let row = deitel().to_row();
    assert_eq!(row.nums, vec![7, 1]);
    assert_eq!(
        row.texts,
        vec![
            String::from("deitel"),
            String::from("secret"),
            String::from("Paul"),
            String::from("Deitel")
        ]
    );
    assert_eq!(Profile::from_row(&row), Some(deitel()));
}

#[test]
fn course_row() {
    let course = Course::new()
        .with_id(3)
        .with_title(String::from("Rust in Action"))
        .with_description(String::from("d"))
        .with_creator_id(123);
    let row = course.to_row();
    assert_eq!(row.nums, vec![3, 123]);
    assert_eq!(row.texts, vec![String::from("Rust in Action"), String::from("d")]);
    assert_eq!(Course::from_row(&row), Some(course));
}

#[test]
fn topic_row() {
    let topic = Topic::new()
        .with_id(3)
        .with_title(String::from("Borrowing"))
        .with_description(String::from("d"))
        .with_course_id(9)
        .with_creator_id(123);
    let row = topic.to_row();
    assert_eq!(row.nums, vec![3, 9, 123]);
    assert_eq!(row.texts, vec![String::from("Borrowing"), String::from("d")]);
    assert_eq!(Topic::from_row(&row), Some(topic));
}

#[test]
fn rows_of_another_shape_hold_no_record() {
    let texts = vec![String::new(), String::new()];
    let short = Row { nums: vec![1], texts: texts.clone() };
    let course = Row { nums: vec![1, 2], texts: texts.clone() };
    let topic = Row { nums: vec![1, 2, 3], texts: texts.clone() };
    assert_eq!(Course::from_row(&short), None);
    assert_eq!(Course::from_row(&topic), None);
    assert_eq!(Topic::from_row(&course), None);
    assert_eq!(Profile::from_row(&course), None);
    assert_eq!(Course::from_row(&Row { nums: vec![1, 2], texts: vec![String::new()] }), None);
    assert!(Course::from_row(&course).is_some());
    assert!(Topic::from_row(&topic).is_some());

    let four = vec![String::new(), String::new(), String::new(), String::new()];
    assert!(Profile::from_row(&Row { nums: vec![1, 3], texts: four.clone() }).is_some());
    assert_eq!(Profile::from_row(&Row { nums: vec![1, 4], texts: four }), None);
}

#[test]
fn course_bytes() {
    let course = Course::new().with_id(1).with_title(String::from("A")).with_creator_id(7);
    let expected: Vec<u8> = vec![
        2, 0, 0, 0, 0, 0, 0, 0, 1, 7, // the two numbers
        2, 0, 0, 0, 0, 0, 0, 0, // two texts
        1, 0, 0, 0, 0, 0, 0, 0, 65, // "A"
        0, 0, 0, 0, 0, 0, 0, 0, // ""
    ];
    assert_eq!(course.encode(), expected);
    assert_eq!(Course::decode(&expected), Some(course));
}

#[test]
fn encoding_is_the_same_each_time() {
    assert_eq!(deitel().encode(), deitel().encode());
    assert_ne!(deitel().encode(), deitel().with_id(8).encode());
    assert_ne!(deitel().encode(), deitel().with_kind(Kind::Root).encode());
}

#[test]
fn profile_round_trip() {
    let profile = deitel();
    assert_eq!(Profile::decode(&profile.encode()), Some(profile));
    let empty = Profile::new();
    assert_eq!(Profile::decode(&empty.encode()), Some(empty));
    for kind in [Kind::Root, Kind::Admin, Kind::Mentor, Kind::Trainee] {
        let profile = deitel().with_kind(kind);
        assert_eq!(Profile::decode(&profile.encode()), Some(profile));
    }
}

#[test]
fn course_round_trip() {
    let course = Course::new()
        .with_id(255)
        .with_title(String::from("Rust in Action \u{1F980}"))
        .with_description(String::from("The most recommended training for Rust developers."))
        .with_creator_id(123);
    assert_eq!(Course::decode(&course.encode()), Some(course));
    assert_eq!(Course::decode(&Course::new().encode()), Some(Course::new()));
}

#[test]
fn topic_round_trip() {
    let topic = Topic::new()
        .with_id(20)
        .with_title(String::from("Borrowing"))
        .with_description(String::from("\"quoted\"\n"))
        .with_course_id(1)
        .with_creator_id(125);
    assert_eq!(Topic::decode(&topic.encode()), Some(topic));
    assert_eq!(Topic::decode(&Topic::new().encode()), Some(Topic::new()));
}

#[test]
fn bytes_that_hold_no_record() {
    assert_eq!(Profile::decode(&[]), None);
    assert_eq!(Course::decode(&[4]), None);
    assert_eq!(Topic::decode(&[1, 2, 3]), None);
    let course = Course::new().with_id(1).with_title(String::from("A"));
    assert_eq!(Topic::decode(&course.encode()), None);
    assert_eq!(Profile::decode(&course.encode()), None);
    let bytes = course.encode();
    assert_eq!(Course::decode(&bytes[..bytes.len() - 1]), None);
    // a text that is no UTF-8
    let broken: Vec<u8> = vec![
        2, 0, 0, 0, 0, 0, 0, 0, 1, 7, 2, 0, 0, 0, 0, 0, 0, 0, 1, 0, 0, 0, 0, 0, 0, 0, 255, 0, 0,
        0, 0, 0, 0, 0, 0,
    ];
    assert_eq!(Course::decode(&broken), None);
}

#[test]
fn a_role_out_of_range_holds_no_profile() {
    let mut bytes = Profile::new().with_id(1).encode();
    assert_eq!(bytes[9], 3);
    bytes[9] = 4;
    assert_eq!(Profile::decode(&bytes), None);
    bytes[9] = 0;
    assert_eq!(Profile::decode(&bytes), Some(Profile::new().with_id(1).with_kind(Kind::Root)));
}
