use staff_directory::api::primary;
use staff_directory::api::users;
use staff_directory::error::{list_outcome, single_outcome, AppError};
use staff_directory::filter::{find_by_id, find_matching, select, NameMatch, Predicate, SpecialtyClause};
use staff_directory::models::{ObjectId, Specialties, Specialty, Teacher};

fn no_specialties() -> Specialties {
    Specialties { inf: false, pri: false, ing: false, fra: false, ef: false, pt: false, al: false, mus: false }
}

fn id_of(last: u8) -> ObjectId {
    ObjectId { bytes: [0x50, 0x7f, 0x1f, 0x77, 0xbc, 0xf8, 0x6c, 0xd7, 0x99, 0x43, 0x90, last] }
}

fn person(last: u8, name: &str, surname: &str, specialties: Specialties) -> Teacher {
    Teacher {
        id: Some(id_of(last)),
        initial_position: i32::from(last),
        name: name.to_string(),
        surname: surname.to_string(),
        has_services: false,
        specialties,
    }
}

fn staff() -> Vec<Teacher> {
    vec![
        person(1, "MARIA", "LOPEZ", Specialties { inf: true, ..no_specialties() }),
        person(2, "JOHN", "SMITH", Specialties { pri: true, mus: true, ..no_specialties() }),
        person(3, "Joanna", "Lopez Smith", Specialties { inf: true, pri: true, ..no_specialties() }),
        person(4, "MARIANNE", "JONES", no_specialties()),
    ]
}

fn names(found: &[Teacher]) -> Vec<String> {
    found.iter().map(|t| t.name.clone()).collect()
}

#[test]
fn no_criteria_returns_every_record_in_stored_order() {
    let repo = primary::MongoUserRepository::new(staff());
    let found = primary::UserRepository::find_teachers(&repo, None, None, None).unwrap();
    assert_eq!(found, staff());
    let users_repo = users::MongoUserRepository::new(staff());
    let found = users::UserRepository::find_users(&users_repo, None, None, None).unwrap();
    assert_eq!(found, staff());
}

#[test]
fn no_criteria_on_an_empty_collection_is_not_found() {
    let repo = primary::MongoUserRepository::new(Vec::new());
    let query = primary::TeacherQuery { name: None, surname: None, specialty: None };
    assert_eq!(primary::get_teachers(&repo, &query), Err(AppError::NotFound));
    let found = primary::UserRepository::find_teachers(&repo, None, None, None).unwrap();
    assert!(found.is_empty());
}

#[test]
fn no_criteria_on_a_filled_collection_lists_it() {
    let repo = primary::MongoUserRepository::new(staff());
    let query = primary::TeacherQuery { name: None, surname: None, specialty: None };
    assert_eq!(primary::get_teachers(&repo, &query), Ok(staff()));
}

#[test]
fn criteria_are_conjoined() {
    let records = staff();
    // Each of the first three meets one or two of the criteria; only Joanna meets all.
    let found = find_matching(&records, NameMatch::Substring, Some("jo"), Some("lopez"), Some("inf"));
    assert_eq!(names(&found), vec!["Joanna".to_string()]);
    let by_name = find_matching(&records, NameMatch::Substring, Some("jo"), None, None);
    assert_eq!(names(&by_name), vec!["JOHN".to_string(), "Joanna".to_string()]);
    let by_surname = find_matching(&records, NameMatch::Substring, None, Some("lopez"), None);
    assert_eq!(names(&by_surname), vec!["MARIA".to_string(), "Joanna".to_string()]);
    let by_specialty = find_matching(&records, NameMatch::Substring, None, None, Some("inf"));
    assert_eq!(names(&by_specialty), vec!["MARIA".to_string(), "Joanna".to_string()]);
    let two = find_matching(&records, NameMatch::Substring, None, Some("smith"), Some("pri"));
    assert_eq!(names(&two), vec!["JOHN".to_string(), "Joanna".to_string()]);
}

#[test]
fn unknown_specialty_code_is_not_found() {
    let repo = primary::MongoUserRepository::new(staff());
    let found = primary::UserRepository::find_teachers(&repo, None, None, Some("bio")).unwrap();
    assert!(found.is_empty());
    let query = primary::TeacherQuery { name: None, surname: None, specialty: Some("bio".to_string()) };
    assert_eq!(primary::get_teachers(&repo, &query), Err(AppError::NotFound));
    // The codes are matched exactly: case counts, and so does every character.
    for code in ["INF", "", "inf ", "specialties.inf", "in"] {
        let found = primary::UserRepository::find_teachers(&repo, None, None, Some(code)).unwrap();
        assert!(found.is_empty());
    }
}

#[test]
fn every_specialty_code_selects_by_its_own_flag() {
    let codes = ["inf", "pri", "ing", "fra", "ef", "pt", "al", "mus"];
    for (i, code) in codes.iter().enumerate() {
        let mut records = Vec::new();
        for j in 0..codes.len() {
            let mut s = no_specialties();
            match j {
                0 => s.inf = true,
                1 => s.pri = true,
                2 => s.ing = true,
                3 => s.fra = true,
                4 => s.ef = true,
                5 => s.pt = true,
                6 => s.al = true,
                _ => s.mus = true,
            }
            records.push(person(u8::try_from(j).unwrap(), codes[j], "X", s));
        }
        let found = find_matching(&records, NameMatch::Exact, None, None, Some(code));
        assert_eq!(names(&found), vec![codes[i].to_string()]);
    }
}

#[test]
fn specialty_lookup_by_code() {
    assert_eq!(Specialty::from_code("inf"), Some(Specialty::Inf));
    assert_eq!(Specialty::from_code("pri"), Some(Specialty::Pri));
    assert_eq!(Specialty::from_code("ing"), Some(Specialty::Ing));
    assert_eq!(Specialty::from_code("fra"), Some(Specialty::Fra));
    assert_eq!(Specialty::from_code("ef"), Some(Specialty::Ef));
    assert_eq!(Specialty::from_code("pt"), Some(Specialty::Pt));
    assert_eq!(Specialty::from_code("al"), Some(Specialty::Al));
    assert_eq!(Specialty::from_code("mus"), Some(Specialty::Mus));
    assert_eq!(Specialty::from_code("Inf"), None);
    assert_eq!(Specialty::from_code(""), None);
    let s = Specialties { fra: true, ..no_specialties() };
    assert!(s.has(Specialty::Fra));
    assert!(!s.has(Specialty::Inf));
}

#[test]
fn exact_name_mode_needs_the_whole_name() {
    let repo = users::MongoUserRepository::new(staff());
    let found = users::UserRepository::find_users(&repo, Some("john"), None, None).unwrap();
    assert_eq!(names(&found), vec!["JOHN".to_string()]);
    let found = users::UserRepository::find_users(&repo, Some("jo"), None, None).unwrap();
    assert!(found.is_empty());
    let query = users::UserQuery { name: Some("jo".to_string()), surname: None, specialty: None };
    assert_eq!(users::get_users(&repo, &query), Err(AppError::NotFound));
    let found = users::UserRepository::find_users(&repo, Some("maria"), None, None).unwrap();
    assert_eq!(names(&found), vec!["MARIA".to_string()]);
}

#[test]
fn substring_name_mode_takes_a_part_of_the_name() {
    let repo = primary::MongoUserRepository::new(staff());
    let found = primary::UserRepository::find_teachers(&repo, Some("john"), None, None).unwrap();
    assert_eq!(names(&found), vec!["JOHN".to_string()]);
    let found = primary::UserRepository::find_teachers(&repo, Some("jo"), None, None).unwrap();
    assert_eq!(names(&found), vec!["JOHN".to_string(), "Joanna".to_string()]);
    let found = primary::UserRepository::find_teachers(&repo, Some("maria"), None, None).unwrap();
    assert_eq!(names(&found), vec!["MARIA".to_string(), "MARIANNE".to_string()]);
}

#[test]
fn surname_is_a_substring_in_both_modes() {
    let records = staff();
    for mode in [NameMatch::Exact, NameMatch::Substring] {
        let found = find_matching(&records, mode, None, Some("mit"), None);
        assert_eq!(names(&found), vec!["JOHN".to_string(), "Joanna".to_string()]);
        let found = find_matching(&records, mode, None, Some(""), None);
        assert_eq!(found.len(), 4);
        let found = find_matching(&records, mode, None, Some("lopezz"), None);
        assert!(found.is_empty());
    }
}

#[test]
fn stored_text_in_mixed_case_is_compared_without_case() {
    let records = staff();
    let found = find_matching(&records, NameMatch::Exact, Some("JOANNA"), None, None);
    assert_eq!(names(&found), vec!["Joanna".to_string()]);
    let found = find_matching(&records, NameMatch::Exact, Some("joanna"), Some("LOPEZ sm"), None);
    assert_eq!(names(&found), vec!["Joanna".to_string()]);
}

#[test]
fn predicate_holds_upper_cased_clauses() {
    let p = Predicate::build(NameMatch::Substring, Some("jo"), Some("Smith"), Some("mus"));
    assert_eq!(p.mode, NameMatch::Substring);
    assert_eq!(p.name, Some(vec!['J', 'O']));
    assert_eq!(p.surname, Some(vec!['S', 'M', 'I', 'T', 'H']));
    assert!(matches!(p.specialty, Some(SpecialtyClause::Requires(Specialty::Mus))));
    let records = staff();
    assert!(p.matches(&records[1]));
    assert!(!p.matches(&records[2]));
    assert_eq!(names(&select(&records, &p)), vec!["JOHN".to_string()]);
    let q = Predicate::build(NameMatch::Exact, None, None, Some("nope"));
    assert!(q.name.is_none() && q.surname.is_none());
    assert!(matches!(q.specialty, Some(SpecialtyClause::Unsatisfiable)));
    assert!(!q.matches(&records[0]));
    let all = Predicate::build(NameMatch::Exact, None, None, None);
    assert!(all.specialty.is_none());
    assert!(all.matches(&records[3]));
}

#[test]
fn example_collection_with_one_record() {
    let records = vec![person(1, "MARIA", "LOPEZ", Specialties { inf: true, ..no_specialties() })];
    let repo = primary::MongoUserRepository::new(records.clone());
    let inf = primary::TeacherQuery { name: None, surname: None, specialty: Some("inf".to_string()) };
    assert_eq!(primary::get_teachers(&repo, &inf), Ok(records));
    let ing = primary::TeacherQuery { name: None, surname: None, specialty: Some("ing".to_string()) };
    let outcome = primary::get_teachers(&repo, &ing);
    assert_eq!(outcome, Err(AppError::NotFound));
    assert_eq!(outcome.unwrap_err().status_code(), 404);
    let absent = primary::get_teacher_by_id(&repo, "aaaaaaaaaaaaaaaaaaaaaaaa");
    assert_eq!(absent.unwrap_err().status_code(), 404);
    let malformed = primary::get_teacher_by_id(&repo, "not-a-valid-id");
    assert_eq!(malformed.unwrap_err().status_code(), 404);
}

#[test]
fn identifier_text_is_24_hex_digits() {
    let id = ObjectId::parse_str("507f1f77bcf86cd799439011").unwrap();
    assert_eq!(id.bytes, [0x50, 0x7f, 0x1f, 0x77, 0xbc, 0xf8, 0x6c, 0xd7, 0x99, 0x43, 0x90, 0x11]);
    let upper = ObjectId::parse_str("507F1F77BCF86CD799439011").unwrap();
    assert_eq!(upper.bytes, id.bytes);
    let mixed = ObjectId::parse_str("0123456789abcdefABCDEF00").unwrap();
    assert_eq!(mixed.bytes, [0x01, 0x23, 0x45, 0x67, 0x89, 0xab, 0xcd, 0xef, 0xab, 0xcd, 0xef, 0x00]);
    assert!(ObjectId::parse_str("").is_none());
    assert!(ObjectId::parse_str("not-a-valid-id").is_none());
    assert!(ObjectId::parse_str("507f1f77bcf86cd79943901").is_none());
    assert!(ObjectId::parse_str("507f1f77bcf86cd7994390111").is_none());
    assert!(ObjectId::parse_str("507f1f77bcf86cd79943901g").is_none());
    assert!(ObjectId::parse_str("507f1f77bcf86cd79943901é").is_none());
    assert!(ObjectId::parse_str("ééééééééééééééééééééééé").is_none());
    assert!(id.same_as(&upper));
    assert!(!id.same_as(&mixed));
}

#[test]
fn malformed_identifier_finds_nothing() {
    let repo = primary::MongoUserRepository::new(staff());
    for id in ["not-a-valid-id", "", "507f1f77bcf86cd79943900", "507f1f77bcf86cd79943900z"] {
        assert_eq!(primary::UserRepository::find_teacher_by_id(&repo, id), Ok(None));
        assert_eq!(primary::get_teacher_by_id(&repo, id), Err(AppError::NotFound));
    }
    let users_repo = users::MongoUserRepository::new(staff());
    assert_eq!(users::UserRepository::find_user_by_id(&users_repo, "xyz"), Ok(None));
    assert_eq!(users::get_user_by_id(&users_repo, "xyz"), Err(AppError::NotFound));
}

#[test]
fn unassigned_identifier_finds_nothing() {
    let repo = primary::MongoUserRepository::new(staff());
    assert_eq!(primary::UserRepository::find_teacher_by_id(&repo, "507f1f77bcf86cd799439099"), Ok(None));
    assert_eq!(primary::get_teacher_by_id(&repo, "507f1f77bcf86cd799439099"), Err(AppError::NotFound));
    let mut records = staff();
    records[0].id = None;
    assert_eq!(find_by_id(&records, "507f1f77bcf86cd799439001"), None);
}

#[test]
fn assigned_identifier_finds_its_record() {
    let records = staff();
    let repo = primary::MongoUserRepository::new(staff());
    let found = primary::UserRepository::find_teacher_by_id(&repo, "507f1f77bcf86cd799439002").unwrap();
    assert_eq!(found, Some(records[1].clone()));
    assert_eq!(primary::get_teacher_by_id(&repo, "507F1F77BCF86CD799439003"), Ok(records[2].clone()));
    let users_repo = users::MongoUserRepository::new(staff());
    assert_eq!(users::get_user_by_id(&users_repo, "507f1f77bcf86cd799439004"), Ok(records[3].clone()));
}

#[test]
fn repeated_lookups_agree() {
    let repo = primary::MongoUserRepository::new(staff());
    let ids = ["507f1f77bcf86cd799439001", "507f1f77bcf86cd799439002", "nope", "507f1f77bcf86cd799439001"];
    let first: Vec<_> = ids.iter().map(|id| primary::UserRepository::find_teacher_by_id(&repo, id)).collect();
    let second: Vec<_> = ids.iter().rev().map(|id| primary::UserRepository::find_teacher_by_id(&repo, id)).collect();
    let second: Vec<_> = second.into_iter().rev().collect();
    assert_eq!(first, second);
    assert_eq!(first[0], first[3]);
}

#[test]
fn a_failing_store_is_an_internal_error() {
    let failed: Result<Vec<Teacher>, String> = Err("connection reset".to_string());
    assert_eq!(list_outcome(failed), Err(AppError::InternalError));
    let failed: Result<Option<Teacher>, String> = Err("connection reset".to_string());
    assert_eq!(single_outcome(failed), Err(AppError::InternalError));
    let empty: Result<Vec<Teacher>, String> = Ok(Vec::new());
    assert_eq!(list_outcome(empty), Err(AppError::NotFound));
    let some: Result<Vec<Teacher>, String> = Ok(staff());
    assert_eq!(list_outcome(some), Ok(staff()));
    let none: Result<Option<Teacher>, String> = Ok(None);
    assert_eq!(single_outcome(none), Err(AppError::NotFound));
    let one: Result<Option<Teacher>, String> = Ok(Some(staff().remove(0)));
    assert_eq!(single_outcome(one), Ok(staff().remove(0)));
}

#[test]
fn errors_have_their_status_and_text() {
    assert_eq!(AppError::InternalError.status_code(), 500);
    assert_eq!(AppError::BadRequest("bad page".to_string()).status_code(), 400);
    assert_eq!(AppError::NotFound.status_code(), 404);
    assert_eq!(AppError::InternalError.body(), "Internal Server Error");
    assert_eq!(AppError::BadRequest("bad page".to_string()).body(), "bad page");
    assert_eq!(AppError::NotFound.body(), "Not Found");
    assert_eq!(AppError::InternalError.to_text(), "Internal Server Error");
    assert_eq!(AppError::BadRequest("bad page".to_string()).to_text(), "Bad Request: bad page");
    assert_eq!(AppError::NotFound.to_text(), "Not Found");
}

#[test]
fn a_clone_keeps_every_field() {
    let t = person(9, "Ana", "Ruiz", Specialties { al: true, ..no_specialties() });
    let c = t.clone();
    assert_eq!(c, t);
    assert_eq!(c.initial_position, 9);
    assert_eq!(c.id.unwrap().bytes, id_of(9).bytes);
}

#[test]
fn an_answering_store_never_gives_an_internal_error() {
    let one = vec![Teacher {
        id: None,
        initial_position: 1,
        name: "MARIA".to_string(),
        surname: "LOPEZ".to_string(),
        has_services: false,
        specialties: Specialties { inf: true, ..no_specialties() },
    }];
    let repo = primary::MongoUserRepository::new(one.clone());
    let inf = primary::TeacherQuery { name: None, surname: None, specialty: Some("inf".to_string()) };
    assert_eq!(primary::get_teachers(&repo, &inf), Ok(one.clone()));
    let ing = primary::TeacherQuery { name: None, surname: None, specialty: Some("ing".to_string()) };
    assert_eq!(primary::get_teachers(&repo, &ing), Err(AppError::NotFound));
    let ope = primary::TeacherQuery { name: None, surname: Some("ope".to_string()), specialty: None };
    assert_eq!(primary::get_teachers(&repo, &ope), Ok(one.clone()));

    let john = vec![Teacher {
        id: None,
        initial_position: 1,
        name: "JOHN".to_string(),
        surname: "DOE".to_string(),
        has_services: false,
        specialties: no_specialties(),
    }];
    let users_repo = users::MongoUserRepository::new(john.clone());
    let jo = users::UserQuery { name: Some("jo".to_string()), surname: None, specialty: None };
    assert_eq!(users::get_users(&users_repo, &jo), Err(AppError::NotFound));
    let whole = users::UserQuery { name: Some("john".to_string()), surname: None, specialty: None };
    assert_eq!(users::get_users(&users_repo, &whole), Ok(john.clone()));
    let x = users::UserQuery { name: None, surname: Some("x".to_string()), specialty: None };
    assert_eq!(users::get_users(&users_repo, &x), Err(AppError::NotFound));
    let none = users::UserQuery { name: None, surname: None, specialty: None };
    assert_eq!(users::get_users(&users_repo, &none), Ok(john));
    let empty = users::MongoUserRepository::new(Vec::new());
    assert_eq!(users::get_users(&empty, &none), Err(AppError::NotFound));
    assert_eq!(users::get_user_by_id(&empty, "507f1f77bcf86cd799439011"), Err(AppError::NotFound));
    let empty = primary::MongoUserRepository::new(Vec::new());
    assert_eq!(primary::get_teacher_by_id(&empty, "507f1f77bcf86cd799439011"), Err(AppError::NotFound));
}
