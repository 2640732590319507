use rocket_guide::name_grade::{parse_u8, NameGrade};
use rocket_guide::state::{
    forbidden, not_found, rocket, seed_users, user, users, Filters, NewUser, UserStore,
    VisitorCounter,
};
use rocket_guide::http::Status;
use rocket_guide::text::{contains_str, u64_to_decimal};

#[derive(Debug)]
#[allow(dead_code)]
struct User {
    uuid: String,
    name: String,
    age: u8,
    grade: u8,
    active: bool,
}

fn derived(u: &rocket_guide::state::User) -> User {
    User {
        uuid: u.uuid.clone(),
        name: u.name.clone(),
        age: u.age,
        grade: u.grade,
        active: u.active,
    }
}

#[test]
fn name_grade_parses_name_and_grade() {
    let ng = NameGrade::from_param("John_1").ok().unwrap();
    assert_eq!(ng.name, "John");
    assert_eq!(ng.grade, 1);
    let ng = NameGrade::from_param("_255").ok().unwrap();
    assert_eq!(ng.name, "");
    assert_eq!(ng.grade, 255);
    let ng = NameGrade::from_param("Fa bio_+02").ok().unwrap();
    assert_eq!(ng.name, "Fa bio");
    assert_eq!(ng.grade, 2);
}

#[test]
fn name_grade_rejects_malformed_segments() {
    for bad in ["John", "John_1_2", "John_", "John_256", "John_-1", "John_+", "John_1a", "", "__"] {
        match NameGrade::from_param(bad) {
            Err(msg) => assert_eq!(msg, "Error parsing user parameter"),
            Ok(_) => panic!("accepted {:?}", bad),
        }
    }
}

#[test]
fn parse_u8_agrees_with_std() {
    for s in ["0", "7", "255", "256", "007", "+9", "+", "-0", "", " 1", "1 ", "12x", "00000000000000000000042", "９"] {
        assert_eq!(parse_u8(s), s.parse::<u8>().ok(), "input {:?}", s);
    }
}

#[test]
fn decimal_rendering() {
    assert_eq!(u64_to_decimal(0), "0");
    assert_eq!(u64_to_decimal(10), "10");
    assert_eq!(u64_to_decimal(u64::MAX), u64::MAX.to_string());
}

#[test]
fn substring_search() {
    assert!(contains_str("John Doe", "n D"));
    assert!(contains_str("John Doe", ""));
    assert!(!contains_str("John Doe", "doe"));
    assert!(!contains_str("Jo", "John"));
    assert!(contains_str("héllo wörld", "ö"));
}

#[test]
fn counter_counts_and_wraps() {
    let mut c = VisitorCounter { visitor: 0 };
    assert_eq!(c.increment_counter(), "The number of visitor is: 1");
    assert_eq!(c.increment_counter(), "The number of visitor is: 2");
    let mut c = VisitorCounter { visitor: u64::MAX };
    assert_eq!(c.increment_counter(), "The number of visitor is: 0");
    assert_eq!(c.visitor, 0);
}

#[test]
fn seed_directory_lookups() {
    let store = seed_users();
    let mut c = VisitorCounter { visitor: 0 };
    let (line, found) = user(&mut c, &store, "3e3dd4ae-3c37-40c6-aa64-7061f284ce28");
    assert_eq!(line, "The number of visitor is: 1");
    let u = found.unwrap();
    assert_eq!(u.name, "John Doe");
    let (_, found) = user(&mut c, &store, "abc123");
    assert_eq!(found.unwrap().uuid, "acb123");
    let (_, found) = user(&mut c, &store, "acb123");
    assert!(found.is_none());
    assert_eq!(c.visitor, 3);
}

#[test]
fn insert_replaces_and_get_returns_last_value() {
    let mut store = UserStore::new();
    store.insert("k", rocket_guide::state::User { uuid: "a".to_string(), name: "A".to_string(), age: 1, grade: 1, active: true });
    store.insert("j", rocket_guide::state::User { uuid: "b".to_string(), name: "B".to_string(), age: 2, grade: 2, active: false });
    store.insert("k", rocket_guide::state::User { uuid: "c".to_string(), name: "C".to_string(), age: 3, grade: 3, active: true });
    assert_eq!(store.get("k").unwrap().uuid, "c");
    assert_eq!(store.get("j").unwrap().uuid, "b");
    assert!(store.get("x").is_none());
}

#[test]
fn users_query_filters() {
    let store = seed_users();
    let mut c = VisitorCounter { visitor: 0 };
    let ng = NameGrade::from_param("John_1").ok().unwrap();
    let (_, res) = users(&mut c, &store, &ng, None);
    let found = res.ok().unwrap();
    assert_eq!(found.0.len(), 1);
    assert_eq!(found.0[0].name, "John Doe");

    let ng = NameGrade::from_param("o_2").ok().unwrap();
    let (_, res) = users(&mut c, &store, &ng, Some(Filters { age: 33, active: true }));
    assert_eq!(res.ok().unwrap().0[0].name, "Fabio");

    let (_, res) = users(&mut c, &store, &ng, Some(Filters { age: 34, active: true }));
    assert!(matches!(res, Err(Status::Forbidden)));

    let ng = NameGrade::from_param("John_2").ok().unwrap();
    let (line, res) = users(&mut c, &store, &ng, None);
    assert!(matches!(res, Err(Status::Forbidden)));
    assert_eq!(line, "The number of visitor is: 4");
    assert_eq!(Status::Forbidden.code(), 403);
}

#[test]
fn user_response_matches_derived_debug() {
    let store = seed_users();
    let u = store.get("3e3dd4ae-3c37-40c6-aa64-7061f284ce28").unwrap();
    let r = u.respond_to();
    assert_eq!(r.body, format!("Found user: {:?}", derived(u)));
    assert_eq!(
        r.body,
        "Found user: User { uuid: \"3e3dd4ae-3c37-40c6-aa64-7061f284ce28\", name: \"John Doe\", age: 18, grade: 1, active: true }"
    );
    assert_eq!(r.user_id.as_deref(), Some("3e3dd4ae-3c37-40c6-aa64-7061f284ce28"));

    let odd = rocket_guide::state::User { uuid: "q\"\\\n".to_string(), name: "tab\there".to_string(), age: 0, grade: 200, active: false };
    assert_eq!(odd.respond_to().body, format!("Found user: {:?}", derived(&odd)));
}

#[test]
fn list_response_joins_with_commas() {
    let a = rocket_guide::state::User { uuid: "1".to_string(), name: "A".to_string(), age: 1, grade: 1, active: true };
    let b = rocket_guide::state::User { uuid: "2".to_string(), name: "B".to_string(), age: 2, grade: 1, active: false };
    let r = NewUser(vec![&a, &b]).respond_to();
    assert_eq!(r.body, format!("{:?},{:?}", derived(&a), derived(&b)));
    assert!(r.user_id.is_none());
    assert_eq!(NewUser(vec![]).respond_to().body, "");
}

#[test]
fn catchers() {
    assert_eq!(not_found("/nope"), "We cannot find this page /nope.");
    assert_eq!(forbidden("/users/x_1"), "Access forbidden /users/x_1.");
}

#[test]
fn launch_configuration() {
    let l = rocket();
    assert_eq!(l.counter.visitor, 0);
    assert_eq!(l.base, "/");
    assert_eq!(l.routes, vec!["user".to_string(), "users".to_string()]);
    assert_eq!(l.catchers, vec![404, 403]);
}
