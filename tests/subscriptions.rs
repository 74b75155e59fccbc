use zero2prod::routes::subscriptions::{
    intake, response_status, FormData, IntakeAction, NewSubscriber, STATUS_BAD_REQUEST,
    STATUS_INTERNAL_SERVER_ERROR, STATUS_OK,
};

fn status_of(name: Option<&str>, email: Option<&str>) -> u16 {
    let action = intake(name.map(|s| s.to_string()), email.map(|s| s.to_string()));
    let rejected = matches!(action, IntakeAction::Reject);
    response_status(rejected, true)
}

#[test]
fn subscribe_returns_200_for_valid_form_data() {
    // The decoded form of `name=le%20guin&email=ursula_le_guin%40gmail.com`.
    let action = intake(
        Some("le guin".to_string()),
        Some("ursula_le_guin@gmail.com".to_string()),
    );
    match action {
        IntakeAction::Store(s) => {
            assert_eq!(s.email.as_str(), "ursula_le_guin@gmail.com");
            assert_eq!(s.name.as_str(), "le guin");
        }
        IntakeAction::Reject => panic!("a valid form was rejected"),
    }
    assert_eq!(200, status_of(Some("le guin"), Some("ursula_le_guin@gmail.com")));
}

#[test]
fn subscribe_returns_a_400_when_data_is_missing() {
    let test_cases = vec![
        (Some("le guin"), None, "missing the email"),
        (None, Some("ursula_le_guin@gmail.com"), "missing the name"),
        (None, None, "missing both name and email"),
    ];
    for (name, email, error_message) in test_cases {
        assert_eq!(
            400,
            status_of(name, email),
            "The API did not fail with 400 Bad Request when the payload was {}.",
            error_message
        );
    }
}

#[test]
fn subscribe_returns_a_400_when_data_is_present_but_empty() {
    let test_cases = vec![
        (Some("le guin"), Some(""), "name present, email blank"),
        (Some(""), Some("ursula_le_guin@gmail.com"), "name blank, email present"),
        (Some(""), Some(""), "both name and email blank"),
    ];
    for (name, email, error_message) in test_cases {
        assert_eq!(
            400,
            status_of(name, email),
            "The API did not fail with 400 Bad Request when the payload was {}.",
            error_message
        );
    }
}

#[test]
fn failed_store_is_a_server_error() {
    assert_eq!(response_status(false, false), STATUS_INTERNAL_SERVER_ERROR);
    assert_eq!(response_status(false, true), STATUS_OK);
    assert_eq!(response_status(true, false), STATUS_BAD_REQUEST);
    assert_eq!((STATUS_OK, STATUS_BAD_REQUEST, STATUS_INTERNAL_SERVER_ERROR), (200, 400, 500));
}

#[test]
fn form_with_invalid_email_reports_the_email() {
    let err = NewSubscriber::parse(FormData {
        name: "le guin".to_string(),
        email: "not-an-email".to_string(),
    })
    .err()
    .unwrap();
    assert_eq!(err, "not-an-email is not a valid email");
}

#[test]
fn form_with_invalid_name_reports_the_name() {
    let err = NewSubscriber::parse(FormData {
        name: "<script>".to_string(),
        email: "ursula_le_guin@gmail.com".to_string(),
    })
    .err()
    .unwrap();
    assert_eq!(err, "<script> is not a valid subscriber name");
}
