use grants::attach::{extract, AttachAuthorities};
use poem::Request;

#[test]
fn a_fresh_request_has_no_authorities() {
    let request = Request::default();
    assert!(extract(&request).is_none());
}

#[test]
fn attached_authorities_are_read_back() {
    let mut request = Request::default();
    request.attach(vec!["ROLE_ADMIN".to_string(), "OP_READ".to_string(), "ROLE_ADMIN".to_string()]);
    let held = extract(&request).unwrap();
    assert_eq!(held.len(), 2);
    assert_eq!(held.erased(), vec!["ROLE_ADMIN", "OP_READ"]);
    assert!(held.contains(&"OP_READ".to_string()));
}

#[test]
fn a_second_attachment_takes_the_place_of_the_first() {
    let mut request = Request::default();
    request.attach(vec!["ROLE_ADMIN".to_string()]);
    request.attach(vec!["OP_READ".to_string()]);
    let held = extract(&request).unwrap();
    assert_eq!(held.erased(), vec!["OP_READ"]);
    request.attach(Vec::new());
    assert_eq!(extract(&request).unwrap().len(), 0);
}
