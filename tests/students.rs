use student_api::collection::Collection;
use student_api::error::GatewayError;
use student_api::gateway::{check_candidate, read_target, write_target};
use student_api::object_id::{IdError, StudentId};
use student_api::routes::{
    error_response, get_response, handle, Body, Request, Response, ADDED_MESSAGE,
    DELETED_MESSAGE, UPDATED_MESSAGE,
};
use student_api::student::{Student, StudentPatch};

fn ana() -> Student {
    Student::new("Ana".to_string(), 20, "Math".to_string())
}

fn text_of(r: &Response) -> &'static str {
    match r.body {
        Body::Text(t) => t,
        _ => panic!("expected a text body"),
    }
}

fn has_fields(s: &Student, name: &str, age: u8, subject: &str) -> bool {
    s.name == name && s.age == age && s.subject == subject
}

#[test]
fn parse_accepts_24_hex_digits_of_either_case() {
    let id = StudentId::parse("0123456789abcdefABCDEF01").unwrap();
    assert_eq!(
        id.bytes,
        [0x01, 0x23, 0x45, 0x67, 0x89, 0xab, 0xcd, 0xef, 0xab, 0xcd, 0xef, 0x01]
    );
}

#[test]
fn parse_refuses_malformed_text() {
    for s in ["", "abc", "0123456789abcdef0123456", "0123456789abcdef012345678", "0123456789abcdef0123456g", "ééééééééééää"] {
        assert_eq!(StudentId::parse(s).unwrap_err(), IdError::InvalidIdentifier);
    }
}

#[test]
fn to_hex_is_lower_case_text_of_the_bytes() {
    let id = StudentId::from_bytes([0xff, 0, 1, 2, 3, 4, 5, 6, 7, 8, 9, 0xab]);
    assert_eq!(id.to_hex(), "ff00010203040506070809ab");
    let back = StudentId::parse(&id.to_hex()).unwrap();
    assert!(back.same_as(&id));
}

#[test]
fn generated_ids_differ() {
    let a = StudentId::generate();
    let b = StudentId::generate();
    assert!(!a.same_as(&b));
}

#[test]
fn create_then_list_has_record_with_new_id() {
    let mut c = Collection::new();
    let id = c.create(&ana()).unwrap();
    let all = c.list();
    assert_eq!(all.len(), 1);
    assert!(all[0].id.unwrap().same_as(&id));
    assert!(has_fields(&all[0], "Ana", 20, "Math"));
    let id2 = c.create(&Student::new("Bo".to_string(), 31, "Art".to_string())).unwrap();
    assert!(!id2.same_as(&id));
    let all = c.list();
    assert_eq!(all.len(), 2);
    assert!(has_fields(&all[1], "Bo", 31, "Art"));
}

#[test]
fn get_after_create_returns_stored_record_each_time() {
    let mut c = Collection::new();
    let id = c.create(&ana()).unwrap();
    for _ in 0..2 {
        let s = c.get(&id.to_hex()).unwrap();
        assert!(s.id.unwrap().same_as(&id));
        assert!(has_fields(&s, "Ana", 20, "Math"));
    }
}

#[test]
fn get_with_malformed_id_is_not_found() {
    let mut c = Collection::new();
    c.create(&ana()).unwrap();
    assert!(c.get("not-an-id").is_none());
    let r = handle(&mut c, Request::Get("xyz".to_string()));
    assert_eq!(r.status, 404);
    assert!(matches!(r.body, Body::Empty));
}

#[test]
fn get_with_unknown_id_is_not_found() {
    let c = Collection::new();
    assert!(c.get("000000000000000000000000").is_none());
}

#[test]
fn update_and_delete_with_malformed_id_are_client_errors() {
    let mut c = Collection::new();
    c.create(&ana()).unwrap();
    assert_eq!(c.update("bad", &StudentPatch::age_only(5)), Err(GatewayError::InvalidIdentifier));
    assert_eq!(c.delete("bad"), Err(GatewayError::InvalidIdentifier));
    assert_eq!(c.len(), 1);
    assert_eq!(c.list()[0].age, 20);
    let r = handle(&mut c, Request::Update("bad".to_string(), ana()));
    assert_eq!(r.status, 400);
    let r = handle(&mut c, Request::Delete("bad".to_string()));
    assert_eq!(r.status, 400);
    assert_eq!(c.len(), 1);
}

#[test]
fn age_only_update_keeps_other_fields_and_id() {
    let mut c = Collection::new();
    let id = c.create(&ana()).unwrap();
    assert_eq!(c.update(&id.to_hex(), &StudentPatch::age_only(22)), Ok(()));
    let s = c.get(&id.to_hex()).unwrap();
    assert!(s.id.unwrap().same_as(&id));
    assert!(has_fields(&s, "Ana", 22, "Math"));
}

#[test]
fn full_update_sets_every_field() {
    let mut c = Collection::new();
    let id = c.create(&ana()).unwrap();
    let patch = StudentPatch::from_student(&Student::new("Eva".to_string(), 19, "Bio".to_string()));
    assert!(c.update_by_id(&id, &patch));
    let s = c.find_by_id(&id).unwrap();
    assert!(has_fields(&s, "Eva", 19, "Bio"));
}

#[test]
fn delete_then_get_is_not_found() {
    let mut c = Collection::new();
    let id = c.create(&ana()).unwrap();
    let other = c.create(&ana()).unwrap();
    assert_eq!(c.delete(&id.to_hex()), Ok(()));
    assert!(c.get(&id.to_hex()).is_none());
    assert!(c.get(&other.to_hex()).is_some());
    assert_eq!(c.len(), 1);
}

#[test]
fn update_and_delete_of_unknown_id_are_no_ops() {
    let mut c = Collection::new();
    c.create(&ana()).unwrap();
    let unknown = StudentId::from_bytes([0; 12]);
    assert!(!c.update_by_id(&unknown, &StudentPatch::age_only(1)));
    assert!(!c.delete_by_id(&unknown));
    assert_eq!(c.update("000000000000000000000000", &StudentPatch::age_only(1)), Ok(()));
    assert_eq!(c.delete("000000000000000000000000"), Ok(()));
    assert_eq!(c.len(), 1);
    assert_eq!(c.list()[0].age, 20);
}

#[test]
fn insert_under_taken_id_is_refused() {
    let mut c = Collection::new();
    let id = StudentId::from_bytes([7; 12]);
    assert!(c.insert_with_id(id, &ana()).unwrap().same_as(&id));
    assert_eq!(
        c.insert_with_id(id, &ana()).unwrap_err(),
        GatewayError::StorageUnavailable
    );
    assert_eq!(c.len(), 1);
}

#[test]
fn each_error_has_its_status() {
    assert_eq!(error_response(GatewayError::InvalidIdentifier).status, 400);
    assert_eq!(error_response(GatewayError::NotFound).status, 404);
    assert_eq!(error_response(GatewayError::StorageUnavailable).status, 503);
    assert_eq!(get_response(Err(GatewayError::StorageUnavailable)).status, 503);
    assert_eq!(get_response(Err(GatewayError::InvalidIdentifier)).status, 404);
    assert_eq!(get_response(Err(GatewayError::NotFound)).status, 404);
}

#[test]
fn scenario_create_list_get_update_delete() {
    let mut c = Collection::new();
    let r = handle(&mut c, Request::Create(ana()));
    assert_eq!(r.status, 200);
    assert_eq!(text_of(&r), "Student added successfully");
    assert_eq!(text_of(&r), ADDED_MESSAGE);

    let r = handle(&mut c, Request::List);
    assert_eq!(r.status, 200);
    let x = match &r.body {
        Body::Many(v) => {
            assert_eq!(v.len(), 1);
            assert!(has_fields(&v[0], "Ana", 20, "Math"));
            v[0].id.unwrap().to_hex()
        }
        _ => panic!("expected a list"),
    };

    let r = handle(&mut c, Request::Get(x.clone()));
    assert_eq!(r.status, 200);
    match &r.body {
        Body::One(s) => {
            assert_eq!(s.id.unwrap().to_hex(), x);
            assert!(has_fields(s, "Ana", 20, "Math"));
        }
        _ => panic!("expected one student"),
    }

    let r = handle(
        &mut c,
        Request::Update(x.clone(), Student::new("Ana".to_string(), 21, "Math".to_string())),
    );
    assert_eq!(r.status, 200);
    assert_eq!(text_of(&r), UPDATED_MESSAGE);

    let r = handle(&mut c, Request::Get(x.clone()));
    match &r.body {
        Body::One(s) => assert_eq!(s.age, 21),
        _ => panic!("expected one student"),
    }

    let r = handle(&mut c, Request::Delete(x.clone()));
    assert_eq!(r.status, 200);
    assert_eq!(text_of(&r), DELETED_MESSAGE);

    let r = handle(&mut c, Request::Get(x));
    assert_eq!(r.status, 404);
}

#[test]
fn create_into_empty_collection_succeeds() {
    let mut c = Collection::new();
    let r = handle(&mut c, Request::Create(Student::new("Li".to_string(), 0, String::new())));
    assert_eq!(r.status, 200);
    assert_eq!(c.len(), 1);
    assert!(has_fields(&c.list()[0], "Li", 0, ""));
}

#[test]
fn create_with_own_id_is_refused() {
    let mut c = Collection::new();
    let mut s = ana();
    s.id = Some(StudentId::from_bytes([3; 12]));
    assert_eq!(c.create(&s).unwrap_err(), GatewayError::InvalidIdentifier);
    assert_eq!(c.len(), 0);
    let r = handle(&mut c, Request::Create(s));
    assert_eq!(r.status, 400);
    assert!(matches!(r.body, Body::Empty));
    assert_eq!(c.len(), 0);
}

#[test]
fn targets_of_identifier_text() {
    let k = read_target("00000000000000000000002a").unwrap();
    assert_eq!(k.bytes, [0, 0, 0, 0, 0, 0, 0, 0, 0, 0, 0, 0x2a]);
    assert!(read_target("zz").is_none());
    assert!(write_target("00000000000000000000002A").unwrap().same_as(&k));
    assert_eq!(write_target("zz").unwrap_err(), GatewayError::InvalidIdentifier);
    assert_eq!(check_candidate(&ana()), Ok(()));
    let mut s = ana();
    s.id = Some(k);
    assert_eq!(check_candidate(&s), Err(GatewayError::InvalidIdentifier));
}
