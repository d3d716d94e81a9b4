use tsos::config::Id;
use tsos::error::Error;
use tsos::identity::{prepare_privileges, Credentials, Lookup};

#[test]
fn uid_default_gid() {
    let r = prepare_privileges(&Some(Id::Text(String::from("bin"))), &None, Lookup::Found((1, 1)), Lookup::Missing);
    assert_eq!(r, Ok(Credentials { uid: Some(1), gid: Some(1) }));
}

#[test]
fn gid_only() {
    let r = prepare_privileges(&None, &Some(Id::Text(String::from("bin"))), Lookup::Missing, Lookup::Found(1));
    assert_eq!(r, Ok(Credentials { uid: None, gid: Some(1) }));
}

#[test]
fn uid_and_gid() {
    let r = prepare_privileges(
        &Some(Id::Text(String::from("bin"))),
        &Some(Id::Text(String::from("root"))),
        Lookup::Found((1, 1)),
        Lookup::Found(0),
    );
    assert_eq!(r, Ok(Credentials { uid: Some(1), gid: Some(0) }));
}

#[test]
fn numeric_uid_and_gid() {
    let r = prepare_privileges(&Some(Id::Nummeric(10)), &Some(Id::Nummeric(20)), Lookup::Found((10, 30)), Lookup::Missing);
    assert_eq!(r, Ok(Credentials { uid: Some(10), gid: Some(20) }));
    let r = prepare_privileges(&Some(Id::Nummeric(10)), &None, Lookup::Found((10, 30)), Lookup::Missing);
    assert_eq!(r, Ok(Credentials { uid: Some(10), gid: Some(30) }));
}

#[test]
fn nothing_configured() {
    let r = prepare_privileges(&None, &None, Lookup::Failed(5), Lookup::Failed(5));
    assert_eq!(r, Ok(Credentials { uid: None, gid: None }));
}

#[test]
fn unknown_user_and_group() {
    let r = prepare_privileges(&Some(Id::Text(String::from("u_n-k,o.w+n"))), &None, Lookup::Missing, Lookup::Missing);
    assert_eq!(r, Err(Error::UserNotFound(String::from("u_n-k,o.w+n"))));
    let r = prepare_privileges(&Some(Id::Nummeric(65432)), &None, Lookup::Missing, Lookup::Missing);
    assert_eq!(r, Err(Error::UidNotFound(65432)));
    let r = prepare_privileges(&None, &Some(Id::Text(String::from("u_n-k,o.w+n"))), Lookup::Missing, Lookup::Missing);
    assert_eq!(r, Err(Error::GroupNotFound(String::from("u_n-k,o.w+n"))));
}

#[test]
fn lookup_errors() {
    let r = prepare_privileges(
        &Some(Id::Text(String::from("bin"))),
        &Some(Id::Text(String::from("nope"))),
        Lookup::Failed(34),
        Lookup::Missing,
    );
    assert_eq!(r, Err(Error::OsError(34)));
    let r = prepare_privileges(&None, &Some(Id::Text(String::from("bin"))), Lookup::Missing, Lookup::Failed(12));
    assert_eq!(r, Err(Error::OsError(12)));
}
