//! Instants and the conversion of a stored user into a response.

use box_users::models::{User, UserResponse};
use box_users::time::Timestamp;

#[test]
fn epoch_in_rfc3339() {
    let epoch = Timestamp::from_unix(0, 0).unwrap();
    assert_eq!(epoch.to_rfc3339(), "1970-01-01T00:00:00+00:00");
    assert_eq!(epoch.unix_seconds(), 0);
    assert_eq!(epoch.subsec_nanos(), 0);
}

#[test]
fn fraction_of_a_second_in_rfc3339() {
    let instant = Timestamp::from_unix(1_431_648_000, 500_000_000).unwrap();
    assert_eq!(instant.to_rfc3339(), "2015-05-15T00:00:00.500+00:00");
    assert_eq!(instant.unix_seconds(), 1_431_648_000);
    assert_eq!(instant.subsec_nanos(), 500_000_000);
    let finer = Timestamp::from_unix(1_431_648_000, 1).unwrap();
    assert_eq!(finer.to_rfc3339(), "2015-05-15T00:00:00.000000001+00:00");
}

#[test]
fn instant_before_the_epoch() {
    let instant = Timestamp::from_unix(-1, 0).unwrap();
    assert_eq!(instant.to_rfc3339(), "1969-12-31T23:59:59+00:00");
}

#[test]
fn instants_that_chrono_refuses() {
    assert_eq!(Timestamp::from_unix(0, 2_000_000_000), None);
    assert_eq!(Timestamp::from_unix(0, 1_000_000_000), None);
    assert_eq!(Timestamp::from_unix(i64::MAX, 0), None);
    assert_eq!(Timestamp::from_unix(i64::MIN, 0), None);
}

#[test]
fn leap_second_is_accepted_in_the_last_second_of_a_minute() {
    let leap = Timestamp::from_unix(59, 1_000_000_000).unwrap();
    assert_eq!(leap.to_rfc3339(), "1970-01-01T00:00:60+00:00");
}

#[test]
fn clock_gives_a_present_day_instant() {
    let now = Timestamp::now();
    assert!(now.unix_seconds() > 1_600_000_000);
    assert!(now.subsec_nanos() < 2_000_000_000);
    assert_eq!(Timestamp::from_unix(now.unix_seconds(), now.subsec_nanos()), Some(now));
}

#[test]
fn response_of_a_user_renders_both_instants() {
    let user = User {
        id: 12,
        name: "Ann".to_string(),
        email: "a@x.com".to_string(),
        age: Some(30),
        created_at: Timestamp::from_unix(1_700_000_000, 0).unwrap(),
        updated_at: Timestamp::from_unix(1_700_000_060, 250_000_000).unwrap(),
    };
    assert_eq!(
        UserResponse::from(user),
        UserResponse {
            id: 12,
            name: "Ann".to_string(),
            email: "a@x.com".to_string(),
            age: Some(30),
            created_at: "2023-11-14T22:13:20+00:00".to_string(),
            updated_at: "2023-11-14T22:14:20.250+00:00".to_string(),
        }
    );
}

#[test]
fn response_of_a_user_without_age() {
    let at = Timestamp::from_unix(0, 0).unwrap();
    let user =
        User { id: -1, name: String::new(), email: String::new(), age: None, created_at: at, updated_at: at };
    let response: UserResponse = user.into();
    assert_eq!(response.id, -1);
    assert_eq!(response.age, None);
    assert_eq!(response.created_at, response.updated_at);
}
