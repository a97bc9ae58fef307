use pocket_web_backend::models::DataTransport;
use pocket_web_backend::request::{login_credentials, registration_request, split_group_id_and_search, RegistrationRejection};
use pocket_web_backend::response::Status;

fn transport(data: Option<&str>) -> DataTransport {
    DataTransport {
        data: data.map(|d| d.to_string()),
        ..DataTransport::default()
    }
}

#[test]
fn test_split_group_id_and_search_valid_data() {
    let data_transport = transport(Some("123|search_term"));
    let mut other = String::new();

    let result = split_group_id_and_search(&data_transport, &mut other);

    assert!(result.is_ok());
    let (group_id, search) = result.unwrap();
    assert_eq!(group_id, 123);
    assert_eq!(search, "search_term");
    assert!(other.is_empty());
}

#[test]
fn test_split_group_id_and_search_with_additional_data() {
    let data_transport = transport(Some("456|search|extra|data"));
    let mut other = String::new();

    let result = split_group_id_and_search(&data_transport, &mut other);

    assert!(result.is_ok());
    let (group_id, search) = result.unwrap();
    assert_eq!(group_id, 456);
    assert_eq!(search, "search");
    assert_eq!(other, "extra|data|");
}

#[test]
fn test_split_group_id_and_search_no_data() {
    let data_transport = transport(None);
    let mut other = String::new();

    let result = split_group_id_and_search(&data_transport, &mut other);

    assert!(result.is_err());
    assert_eq!(result.unwrap_err(), "No data send");
}

#[test]
fn test_split_group_id_and_search_insufficient_parts() {
    let data_transport = transport(Some("123"));
    let mut other = String::new();

    let result = split_group_id_and_search(&data_transport, &mut other);

    assert!(result.is_err());
    assert_eq!(result.unwrap_err(), "group_id is mandatory");
}

#[test]
fn test_split_group_id_and_search_invalid_group_id() {
    let data_transport = transport(Some("invalid_id|search_term"));
    let mut other = String::new();

    let result = split_group_id_and_search(&data_transport, &mut other);

    assert!(result.is_err());
    assert_eq!(result.unwrap_err(), "group_id parse error");
}

#[test]
fn test_split_group_id_and_search_empty_parts() {
    let data_transport = transport(Some("789|"));
    let mut other = String::new();

    let result = split_group_id_and_search(&data_transport, &mut other);

    assert!(result.is_ok());
    let (group_id, search) = result.unwrap();
    assert_eq!(group_id, 789);
    assert_eq!(search, "");
}

#[test]
fn test_split_group_id_and_search_negative_id() {
    let data_transport = transport(Some("-1|search_term"));
    let mut other = String::new();

    let result = split_group_id_and_search(&data_transport, &mut other);

    assert!(result.is_ok());
    let (group_id, search) = result.unwrap();
    assert_eq!(group_id, -1);
    assert_eq!(search, "search_term");
}

#[test]
fn test_split_group_id_and_search_special_characters() {
    let data_transport = transport(Some("100|search with spaces|extra data with symbols!@#"));
    let mut other = String::new();

    let result = split_group_id_and_search(&data_transport, &mut other);

    assert!(result.is_ok());
    let (group_id, search) = result.unwrap();
    assert_eq!(group_id, 100);
    assert_eq!(search, "search with spaces");
    assert_eq!(other, "extra data with symbols!@#|");
}

#[test]
fn split_group_id_overflowing_id_is_refused() {
    let mut other = "kept".to_string();
    let result = split_group_id_and_search(&transport(Some("9223372036854775808|x")), &mut other);
    assert_eq!(result.unwrap_err(), "group_id parse error");
    assert_eq!(other, "kept");
    let result = split_group_id_and_search(&transport(Some("+7|x|y")), &mut other);
    assert_eq!(result.unwrap(), (7, "x".to_string()));
    assert_eq!(other, "y|");
}

#[test]
fn split_group_id_two_pieces_leaves_other() {
    let mut other = "previous".to_string();
    let result = split_group_id_and_search(&transport(Some("5|abc")), &mut other);
    assert_eq!(result.unwrap(), (5, "abc".to_string()));
    assert_eq!(other, "previous");
}

#[test]
fn login_credentials_cases() {
    assert_eq!(
        login_credentials(&Some("a@b.c|secret".to_string())),
        Ok(("a@b.c".to_string(), "secret".to_string()))
    );
    assert_eq!(login_credentials(&None), Err("No data send"));
    assert_eq!(login_credentials(&Some("only".to_string())), Err("email and passwd are mandatory"));
    assert_eq!(login_credentials(&Some("a|b|c".to_string())), Err("email and passwd are mandatory"));
    assert_eq!(login_credentials(&Some("|".to_string())), Ok((String::new(), String::new())));
}

#[test]
fn registration_request_cases() {

    let ok = registration_request(&Some("{cfg}|a@b|pw|pw".to_string())).ok().unwrap();
    assert_eq!(ok.config_json, "{cfg}");
    assert_eq!(ok.email, "a@b");
    assert_eq!(ok.passwd, "pw");

    let e = registration_request(&None).err().unwrap();
    assert_eq!(e, RegistrationRejection::NoData);
    assert_eq!(e.message(), "No data send");
    assert_eq!(e.status(), Status::Forbidden);

    let e = registration_request(&Some("a|b|c".to_string())).err().unwrap();
    assert_eq!(e, RegistrationRejection::MissingParts);
    assert_eq!(e.message(), "config_json, passwd and password_confirmation are mandatory");

    let e = registration_request(&Some("cfg|a|pw|other".to_string())).err().unwrap();
    assert_eq!(e, RegistrationRejection::PasswordMismatch);
    assert_eq!(e.status(), Status::NotAcceptable);
    assert_eq!(e.message(), "passwd and password_confirmation are different");

    let e = registration_request(&Some("|a|pw|pw".to_string())).err().unwrap();
    assert_eq!(e, RegistrationRejection::EmptyConfig);
    assert_eq!(e.message(), "config_json is empty");
}
