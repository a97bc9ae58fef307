use pocket_web_backend::status::Stats;

#[test]
fn stats_from_known_codes() {
    assert_eq!(Stats::from(0), Stats::Ready);
    assert_eq!(Stats::from(1), Stats::Busy);
    assert_eq!(Stats::from(605), Stats::PasswdError);
    assert_eq!(Stats::from(706), Stats::NoNetwork);
    assert_eq!(Stats::from(800), Stats::LocalDeviceIdNotMatch);
    assert_eq!(Stats::from(200), Stats::Success);
}

#[test]
fn stats_from_unknown_code_is_error() {
    assert_eq!(Stats::from(2), Stats::Error);
    assert_eq!(Stats::from(999), Stats::Error);
}

#[test]
fn stats_names() {
    assert_eq!(Stats::to_string(604), "SecretNotMatch");
    assert_eq!(Stats::to_string(200), "Ok");
    assert_eq!(Stats::to_string(700), "Error");
    assert_eq!(Stats::to_string(12345), "Unhandled error");
    assert_eq!(Stats::CacheNotFound.code(), 607);
    assert!(Stats::is_known(609));
    assert!(!Stats::is_known(610));
}
