use dummy_api::models::course::{Course, COURSES};
use dummy_api::models::profile::{Profile, PROFILES};
use dummy_api::models::topic::{Topic, TOPICS};
use dummy_api::store::{new_db, Collection};

#[test]
fn store_test_new_db() {
    let name = "test";
    let collections = vec![name];

    let mut db = new_db(collections);
    assert_eq!(db.get(name), Some(&vec![]));

    db.push(name, vec![4]);
    assert_eq!(db.get(name), Some(&vec![vec![4]]));
}

#[test]
fn new_db_holds_each_named_collection_empty() {
    let db = new_db(vec![PROFILES, COURSES, TOPICS]);
    assert!(db.contains("profiles"));
    assert!(db.contains("courses"));
    assert!(db.contains("topics"));
    assert!(!db.contains("lessons"));
    assert_eq!(db.get(PROFILES), Some(&vec![]));
    assert_eq!(db.get(COURSES), Some(&vec![]));
    assert_eq!(db.get(TOPICS), Some(&vec![]));
    assert_eq!(db.get("lessons"), None);
}

#[test]
fn new_db_without_names_is_empty() {
    let db = new_db(vec![]);
    assert!(!db.contains(PROFILES));
    assert_eq!(db.get(PROFILES), None);
}

#[test]
fn new_db_takes_a_name_twice() {
    let db = new_db(vec!["a", "b", "a"]);
    assert_eq!(db.get("a"), Some(&vec![]));
    assert_eq!(db.get("b"), Some(&vec![]));
}

#[test]
fn collection_names_are_fixed() {
    assert_eq!(PROFILES, "profiles");
    assert_eq!(COURSES, "courses");
    assert_eq!(TOPICS, "topics");
}

#[test]
fn insert_replaces_what_was_there() {
    let mut db = Collection::new();
    assert!(!db.contains("a"));
    db.insert("a", vec![vec![1], vec![2]]);
    db.insert("b", vec![vec![3]]);
    assert_eq!(db.get("a"), Some(&vec![vec![1], vec![2]]));
    db.insert("a", vec![]);
    assert_eq!(db.get("a"), Some(&vec![]));
    assert_eq!(db.get("b"), Some(&vec![vec![3]]));
}

#[test]
fn push_keeps_the_order_and_the_other_collections() {
    let mut db = new_db(vec!["a", "b"]);
    db.push("a", vec![1]);
    db.push("b", vec![9]);
    db.push("a", vec![2, 2]);
    db.push("a", vec![]);
    assert_eq!(db.get("a"), Some(&vec![vec![1], vec![2, 2], vec![]]));
    assert_eq!(db.get("b"), Some(&vec![vec![9]]));
}

#[test]
fn replace_changes_one_record() {
    let mut db = new_db(vec!["a", "b"]);
    db.push("a", vec![1]);
    db.push("a", vec![2]);
    db.push("a", vec![3]);
    db.push("b", vec![9]);
    db.replace("a", 1, vec![7, 7]);
    assert_eq!(db.get("a"), Some(&vec![vec![1], vec![7, 7], vec![3]]));
    assert_eq!(db.get("b"), Some(&vec![vec![9]]));
}

#[test]
fn records_that_hold_nothing_are_found_out() {
    let mut db = new_db(vec![PROFILES, COURSES, TOPICS]);
    assert_eq!(Profile::try_load(&db), Some(vec![]));
    assert_eq!(Course::try_load(&db), Some(vec![]));
    assert_eq!(Topic::try_load(&db), Some(vec![]));

    db.push(COURSES, vec![4]);
    assert_eq!(Course::try_load(&db), None);
    assert_eq!(Profile::try_load(&db), Some(vec![]));

    let bare = new_db(vec![PROFILES]);
    assert_eq!(Course::try_load(&bare), None);
    assert_eq!(Topic::try_load(&bare), None);
}

#[test]
fn a_record_of_another_kind_is_found_out() {
    let mut db = new_db(vec![PROFILES, COURSES, TOPICS]);
    let course = Course::new().with_id(1).with_title(String::from("Rust in Action"));
    db.push(PROFILES, course.encode());
    db.push(TOPICS, course.encode());
    assert_eq!(Profile::try_load(&db), None);
    assert_eq!(Topic::try_load(&db), None);
}

#[test]
fn append_and_put_store_records_in_order() {
    let mut db = new_db(vec![PROFILES, COURSES, TOPICS]);
    let one = Course::new().with_id(1).with_title(String::from("One"));
    let two = Course::new().with_id(2).with_title(String::from("Two"));
    one.append(&mut db);
    two.append(&mut db);
    assert_eq!(Course::load(&db), vec![one.clone(), two.clone()]);
    assert_eq!(db.get(COURSES), Some(&vec![one.encode(), two.encode()]));

    let other = Course::new().with_id(1).with_title(String::from("Other")).with_creator_id(3);
    other.put(&mut db, 0);
    assert_eq!(Course::load(&db), vec![other, two]);

    let topic = Topic::new().with_id(1).with_title(String::from("T")).with_course_id(2);
    topic.append(&mut db);
    let changed = topic.clone().with_description(String::from("d"));
    changed.put(&mut db, 0);
    assert_eq!(Topic::load(&db), vec![changed]);
    assert_eq!(Profile::load(&db), vec![]);
}
