use oidc_core::data::time::Expiration;
use oidc_core::data::time::IssuedAt;
use oidc_core::data::time::UnixTime;
use std::time::SystemTime;
use std::time::UNIX_EPOCH;

fn clock_seconds() -> u64 {
    SystemTime::now()
        .duration_since(UNIX_EPOCH)
        .unwrap()
        .as_secs()
}

#[test]
fn unix_time_add() {
    assert_eq!(UnixTime::from_secs(5).add(7).as_secs(), 12);
    assert_eq!(UnixTime::from_secs(0).add(0).as_secs(), 0);
    assert_eq!(
        UnixTime::from_secs(1_700_000_000).add(3600).as_secs(),
        1_700_003_600
    );
}

#[test]
fn unix_time_add_stops_at_the_last_second() {
    assert_eq!(UnixTime::from_secs(u64::MAX).add(1).as_secs(), u64::MAX);
    assert_eq!(UnixTime::from_secs(u64::MAX - 1).add(1).as_secs(), u64::MAX);
    assert_eq!(UnixTime::from_secs(10).add(u64::MAX).as_secs(), u64::MAX);
}

#[test]
fn unix_time_expiry_is_exclusive() {
    let deadline = UnixTime::from_secs(1000);
    assert!(deadline.expired_at(UnixTime::from_secs(1000)));
    assert!(deadline.expired_at(UnixTime::from_secs(1001)));
    assert!(!deadline.expired_at(UnixTime::from_secs(999)));
}

#[test]
fn unix_time_now_reads_the_clock() {
    let before = clock_seconds();
    let now = UnixTime::now().as_secs();
    let new = UnixTime::new().as_secs();
    let after = clock_seconds();
    assert!(before <= now && now <= after);
    assert!(before <= new && new <= after);
}

#[test]
fn unix_time_expired_by_the_clock() {
    assert!(UnixTime::from_secs(0).expired());
    assert!(UnixTime::from_secs(1).expired());
    assert!(!UnixTime::from_secs(u64::MAX).expired());
}

#[test]
fn expiration_after() {
    let expiry = Expiration::after(UnixTime::from_secs(100), 50);
    assert_eq!(expiry.as_secs(), 150);
    assert!(expiry.expired_at(UnixTime::from_secs(150)));
    assert!(!expiry.expired_at(UnixTime::from_secs(149)));
    assert_eq!(
        Expiration::after(UnixTime::from_secs(u64::MAX), 50).as_secs(),
        u64::MAX
    );
    assert_eq!(Expiration::at(UnixTime::from_secs(7)).as_secs(), 7);
}

#[test]
fn expiration_new_reads_the_clock() {
    let before = clock_seconds();
    let expiry = Expiration::new(3600).as_secs();
    let after = clock_seconds();
    assert!(before + 3600 <= expiry && expiry <= after + 3600);
}

#[test]
fn issued_at() {
    assert_eq!(IssuedAt::at(UnixTime::from_secs(42)).as_secs(), 42);
    let before = clock_seconds();
    let issued = IssuedAt::new().as_secs();
    let after = clock_seconds();
    assert!(before <= issued && issued <= after);
}
