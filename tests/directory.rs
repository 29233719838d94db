use student_directory::config::Config;
use student_directory::error::{insert_failure, update_failure, EnrollError};
use student_directory::matric::{matric_token, next_matric_token};
use student_directory::password::{hash_password, verify_password};
use student_directory::registry::StudentRegistry;
use student_directory::service::{
    assign_matric_number, assignment_outcome, check_login, create_student, get_student_by_matric,
    list_students, login, lookup_outcome,
};
use student_directory::student::Student;

const FAST: u32 = 4;

fn s(x: &str) -> String {
    x.to_string()
}

fn register(reg: &mut StudentRegistry, u: &str, p: &str, n: &str) -> Result<String, EnrollError> {
    create_student(reg, s(u), s(p), s(n), FAST).map(|r| r.username)
}

fn assign(reg: &mut StudentRegistry, u: &str) -> Result<Option<String>, EnrollError> {
    assign_matric_number(reg, &s(u)).map(|r| r.matric_number)
}

#[test]
fn alice_scenario() {
    let mut reg = StudentRegistry::new();
    assert_eq!(register(&mut reg, "alice", "pw1", "Alice A"), Ok(s("alice")));
    assert_eq!(register(&mut reg, "alice", "pw2", "Alice B"), Err(EnrollError::DuplicateUsername));
    assert_eq!(assign(&mut reg, "alice"), Ok(Some(s("MAT00001"))));
    assert_eq!(assign(&mut reg, "alice"), Err(EnrollError::AssignmentConflict));
    let p = login(&reg, &s("alice"), &s("pw1")).unwrap();
    assert_eq!(p.username, "alice");
    assert_eq!(p.name, "Alice A");
    assert_eq!(p.matric_number, Some(s("MAT00001")));
    assert_eq!(login(&reg, &s("alice"), &s("wrong")).err(), Some(EnrollError::Unauthorized));
}

#[test]
fn login_after_registration_shows_same_profile() {
    let mut reg = StudentRegistry::new();
    let created = create_student(&mut reg, s("bob"), s("secret"), s("Bob B"), FAST).unwrap();
    assert_eq!(created.matric_number, None);
    let p = login(&reg, &s("bob"), &s("secret")).unwrap();
    assert_eq!((p.username.as_str(), p.name.as_str(), p.matric_number), ("bob", "Bob B", None));
}

#[test]
fn duplicate_registration_creates_no_record() {
    let mut reg = StudentRegistry::new();
    register(&mut reg, "carol", "a", "Carol").unwrap();
    assert_eq!(register(&mut reg, "carol", "b", "Other"), Err(EnrollError::DuplicateUsername));
    let all = list_students(&reg);
    assert_eq!(all.len(), 1);
    assert_eq!(all[0].name, "Carol");
    assert!(login(&reg, &s("carol"), &s("b")).is_err());
}

#[test]
fn usernames_are_case_sensitive() {
    let mut reg = StudentRegistry::new();
    register(&mut reg, "dave", "a", "Dave").unwrap();
    assert_eq!(register(&mut reg, "Dave", "a", "Dave Two"), Ok(s("Dave")));
    assert_eq!(list_students(&reg).len(), 2);
}

#[test]
fn wrong_password_same_as_unknown_user() {
    let mut reg = StudentRegistry::new();
    register(&mut reg, "erin", "right", "Erin").unwrap();
    let wrong = login(&reg, &s("erin"), &s("nope")).err();
    let unknown = login(&reg, &s("nobody"), &s("right")).err();
    assert_eq!(wrong, Some(EnrollError::Unauthorized));
    assert_eq!(wrong, unknown);
    assert_eq!(wrong.unwrap().message(), unknown.unwrap().message());
}

#[test]
fn sequential_assignments_increase() {
    let mut reg = StudentRegistry::new();
    let names = ["u1", "u2", "u3", "u4"];
    for n in names.iter() {
        register(&mut reg, n, "pw", n).unwrap();
    }
    let mut tokens = Vec::new();
    for n in names.iter() {
        tokens.push(assign(&mut reg, n).unwrap().unwrap());
    }
    assert_eq!(tokens, vec![s("MAT00001"), s("MAT00002"), s("MAT00003"), s("MAT00004")]);
    assert_eq!(reg.matriculated_count(), 4);
}

#[test]
fn stale_count_loses_the_race() {
    let mut reg = StudentRegistry::new();
    register(&mut reg, "p", "pw", "P").unwrap();
    register(&mut reg, "q", "pw", "Q").unwrap();
    // both requests computed their token from the same count of zero
    let t = next_matric_token(reg.matriculated_count());
    assert_eq!(t, "MAT00001");
    let first = reg.assign_matric(&s("p"), t.clone()).unwrap();
    assert_eq!(first.matric_number, Some(s("MAT00001")));
    assert_eq!(reg.assign_matric(&s("q"), t.clone()).err(), Some(EnrollError::AssignmentConflict));
    assert_eq!(reg.find_by_username(&s("q")).unwrap().matric_number, None);
    // a retry with a fresh count succeeds with a distinct token
    assert_eq!(assign(&mut reg, "q"), Ok(Some(s("MAT00002"))));
}

#[test]
fn reassignment_keeps_number() {
    let mut reg = StudentRegistry::new();
    register(&mut reg, "f", "pw", "F").unwrap();
    assign(&mut reg, "f").unwrap();
    assert_eq!(reg.assign_matric(&s("f"), s("MAT00099")).err(), Some(EnrollError::AssignmentConflict));
    assert_eq!(reg.find_by_username(&s("f")).unwrap().matric_number, Some(s("MAT00001")));
}

#[test]
fn assigning_unknown_student_conflicts() {
    let mut reg = StudentRegistry::new();
    assert_eq!(assign(&mut reg, "ghost"), Err(EnrollError::AssignmentConflict));
    assert_eq!(reg.matriculated_count(), 0);
}

#[test]
fn lookup_by_matric() {
    let mut reg = StudentRegistry::new();
    register(&mut reg, "g", "pw", "Gina").unwrap();
    register(&mut reg, "h", "pw", "Hal").unwrap();
    assign(&mut reg, "h").unwrap();
    let p = get_student_by_matric(&reg, &s("MAT00001")).unwrap();
    assert_eq!(p.username, "h");
    assert_eq!(p.name, "Hal");
    assert_eq!(get_student_by_matric(&reg, &s("MAT00002")).err(), Some(EnrollError::NotFound));
}

#[test]
fn listing_strips_sensitive_fields() {
    let mut reg = StudentRegistry::new();
    assert!(list_students(&reg).is_empty());
    register(&mut reg, "i", "pw", "Ivy").unwrap();
    register(&mut reg, "j", "pw", "Jon").unwrap();
    let all = list_students(&reg);
    let names: Vec<&str> = all.iter().map(|p| p.username.as_str()).collect();
    assert_eq!(names, vec!["i", "j"]);
    let rec = reg.find_by_username(&s("j")).unwrap();
    assert_eq!(rec.id, 1);
    assert_ne!(rec.password_hash, "pw");
}

#[test]
fn token_format() {
    assert_eq!(matric_token(0), "MAT00000");
    assert_eq!(matric_token(4), "MAT00004");
    assert_eq!(matric_token(12345), "MAT12345");
    assert_eq!(matric_token(123456), "MAT123456");
    assert_eq!(next_matric_token(3), "MAT00004");
    assert_eq!(next_matric_token(0), "MAT00001");
}

#[test]
fn hashing_round_trip() {
    let d = hash_password("hunter2", FAST).unwrap();
    assert_ne!(d, "hunter2");
    assert!(d.starts_with("$2b$04$"));
    assert!(verify_password("hunter2", &d));
    assert!(!verify_password("hunter3", &d));
    assert!(!verify_password("hunter2", "not a digest"));
}

#[test]
fn hashing_rejects_bad_cost() {
    assert_eq!(hash_password("pw", 3), Err(EnrollError::HashingError));
    assert_eq!(hash_password("pw", 32), Err(EnrollError::HashingError));
    let mut reg = StudentRegistry::new();
    assert_eq!(
        create_student(&mut reg, s("k"), s("pw"), s("K"), 2).err(),
        Some(EnrollError::HashingError)
    );
    assert!(list_students(&reg).is_empty());
}

#[test]
fn outcome_functions() {
    let d = hash_password("pw", FAST).unwrap();
    let st = Student { id: 7, username: s("m"), password_hash: d, name: s("Mia"), matric_number: None };
    assert_eq!(check_login(Some(&st), "pw").unwrap().name, "Mia");
    assert_eq!(check_login(Some(&st), "px").err(), Some(EnrollError::Unauthorized));
    assert_eq!(check_login(None, "pw").err(), Some(EnrollError::Unauthorized));
    assert_eq!(lookup_outcome(None).err(), Some(EnrollError::NotFound));
    assert_eq!(lookup_outcome(Some(&st)).unwrap().username, "m");
    assert_eq!(assignment_outcome(None).err(), Some(EnrollError::AssignmentConflict));
    assert_eq!(assignment_outcome(Some(&st)).unwrap().username, "m");
    let copy = st.duplicate();
    assert_eq!(copy.id, 7);
    assert_eq!(copy.password_hash, st.password_hash);
}

#[test]
fn error_mapping() {
    assert_eq!(EnrollError::NotFound.status_code(), 404);
    assert_eq!(EnrollError::Unauthorized.status_code(), 401);
    assert_eq!(EnrollError::DuplicateUsername.status_code(), 409);
    assert_eq!(EnrollError::AssignmentConflict.status_code(), 400);
    assert_eq!(EnrollError::HashingError.status_code(), 500);
    assert_eq!(EnrollError::StorageError.status_code(), 500);
    assert_eq!(EnrollError::NotFound.message(), "Student not found");
    assert_eq!(EnrollError::Unauthorized.message(), "Invalid credentials");
    assert_eq!(EnrollError::DuplicateUsername.message(), "Username already exists");
    assert_eq!(
        EnrollError::AssignmentConflict.message(),
        "Bad request: Student not found or already has matric number"
    );
    assert_eq!(EnrollError::StorageError.message(), "Internal server error");
    assert_eq!(insert_failure(true), EnrollError::DuplicateUsername);
    assert_eq!(insert_failure(false), EnrollError::StorageError);
    assert_eq!(update_failure(true), EnrollError::AssignmentConflict);
    assert_eq!(update_failure(false), EnrollError::StorageError);
}

#[test]
fn default_cost_is_bcrypt_default() {
    assert_eq!(student_directory::service::DEFAULT_COST, 12);
}

#[test]
fn config_holds_url() {
    let c = Config::new(s("postgres://localhost/db"));
    assert_eq!(c.db_url, "postgres://localhost/db");
}
