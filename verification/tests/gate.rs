use jwt_lib::codec::{issue_at, SHARED_SECRET, VerifyError};
use jwt_lib::gate::{authenticate, authenticate_at, bearer_token, decide, Rejection};
use jwt_lib::reply::{public_reply, rejection_reply, secret_reply, token_reply, Data, Reply};
use jwt_lib::{get_jwt, User};

const GATE_KEY: &[u8] = b"mykey";

fn header(name: &str, value: &str) -> Vec<(String, String)> {
    vec![("Host".to_string(), "localhost".to_string()), (name.to_string(), value.to_string())]
}

fn rejected(reason: &str) -> Result<User, Rejection> {
    Err(Rejection { reason: reason.to_string() })
}

fn subject(email: &str) -> User {
    User::new(email.to_string())
}

#[test]
fn missing_header_is_rejected() {
    let none: Vec<(String, String)> = Vec::new();
    assert_eq!(authenticate(&none), rejected("No token provided"));
    assert_eq!(authenticate_at(&none, 0, GATE_KEY), rejected("No token provided"));
    let other = vec![("Host".to_string(), "localhost".to_string())];
    assert_eq!(authenticate(&other), rejected("No token provided"));
}

#[test]
fn header_without_second_field_is_rejected() {
    assert_eq!(authenticate(&header("Authorization", "Bearer")), rejected("No token provided"));
    assert_eq!(authenticate(&header("Authorization", "Bearer ")), rejected("No token provided"));
    assert_eq!(authenticate(&header("Authorization", "")), rejected("No token provided"));
    assert_eq!(
        authenticate_at(&header("Authorization", "Bearer"), 5, GATE_KEY),
        rejected("No token provided")
    );
}

#[test]
fn bearer_token_is_the_second_field() {
    assert_eq!(bearer_token("Bearer abc"), Some("abc"));
    assert_eq!(bearer_token("Bearer"), None);
    assert_eq!(bearer_token("anything abc rest"), Some("abc"));
}

#[test]
fn valid_token_is_let_through() {
    let token = issue_at(subject("a@b.com"), 1000, GATE_KEY).unwrap();
    let headers = header("Authorization", &format!("Bearer {}", token));
    assert_eq!(authenticate_at(&headers, 1000, GATE_KEY), Ok(subject("a@b.com")));
    assert_eq!(authenticate_at(&headers, 1059, GATE_KEY), Ok(subject("a@b.com")));
}

#[test]
fn header_name_case_does_not_matter() {
    let token = issue_at(subject("a@b.com"), 1000, GATE_KEY).unwrap();
    for name in ["authorization", "AUTHORIZATION", "Authorization"] {
        let headers = header(name, &format!("Bearer {}", token));
        assert_eq!(authenticate_at(&headers, 1000, GATE_KEY), Ok(subject("a@b.com")));
    }
    let headers = header("Authorisation", &format!("Bearer {}", token));
    assert_eq!(authenticate_at(&headers, 1000, GATE_KEY), rejected("No token provided"));
}

#[test]
fn scheme_label_is_not_looked_at() {
    let token = issue_at(subject("a@b.com"), 1000, GATE_KEY).unwrap();
    let headers = header("Authorization", &format!("Basic {}", token));
    assert_eq!(authenticate_at(&headers, 1000, GATE_KEY), Ok(subject("a@b.com")));
    let bare = header("Authorization", &token);
    assert_eq!(authenticate_at(&bare, 1000, GATE_KEY), rejected("No token provided"));
}

#[test]
fn expired_token_is_rejected() {
    let token = issue_at(subject("a@b.com"), 1000, GATE_KEY).unwrap();
    let headers = header("Authorization", &format!("Bearer {}", token));
    assert_eq!(authenticate_at(&headers, 1060, GATE_KEY), rejected("ExpiredSignature"));
    assert_eq!(authenticate_at(&headers, 1061, GATE_KEY), rejected("ExpiredSignature"));
    assert_eq!(authenticate(&headers), rejected("ExpiredSignature"));
}

#[test]
fn malformed_token_is_rejected_with_its_reason() {
    let headers = header("Authorization", "Bearer not-a-real-token");
    assert_eq!(authenticate_at(&headers, 0, GATE_KEY), rejected("InvalidToken"));
    assert_eq!(authenticate(&headers), rejected("InvalidToken"));
}

#[test]
fn first_authorization_header_wins() {
    let token = issue_at(subject("a@b.com"), 1000, GATE_KEY).unwrap();
    let headers = vec![
        ("authorization".to_string(), "Bearer".to_string()),
        ("Authorization".to_string(), format!("Bearer {}", token)),
    ];
    assert_eq!(authenticate_at(&headers, 1000, GATE_KEY), rejected("No token provided"));
}

#[test]
fn decide_maps_each_failure_to_its_reason() {
    assert_eq!(decide(Ok(subject("a@b.com"))), Ok(subject("a@b.com")));
    assert_eq!(decide(Err(VerifyError::Malformed)), rejected("InvalidToken"));
    assert_eq!(decide(Err(VerifyError::BadSignature)), rejected("InvalidSignature"));
    assert_eq!(decide(Err(VerifyError::Expired)), rejected("ExpiredSignature"));
    assert_eq!(
        decide(Err(VerifyError::OtherDecodeError("JSON error: x".to_string()))),
        rejected("JSON error: x")
    );
}

#[test]
fn end_to_end() {
    let token = get_jwt(subject("a@b.com")).unwrap();
    assert!(!token.is_empty());
    let good = header("Authorization", &format!("Bearer {}", token));
    assert_eq!(authenticate(&good).map(|u| u.email().to_string()), Ok("a@b.com".to_string()));
    let bad = header("Authorization", &format!("Bearer {}X", token));
    match authenticate(&bad) {
        Err(rejection) => assert!(rejection.reason.contains("Signature")),
        Ok(_) => panic!("a corrupted token was let through"),
    }
    assert_eq!(SHARED_SECRET, "mykey");
}

#[test]
fn replies_carry_status_and_envelope() {
    assert_eq!(
        public_reply(),
        Reply {
            status: 200,
            success: true,
            data: Data::Message("This data is visible to all users".to_string())
        }
    );
    assert_eq!(
        token_reply(Ok("t.o.k".to_string())),
        Reply { status: 200, success: true, data: Data::Token("t.o.k".to_string()) }
    );
    assert_eq!(
        token_reply(Err(jwt_lib::codec::IssueError::Encoding("JSON error".to_string()))),
        Reply { status: 500, success: false, data: Data::Message("JSON error".to_string()) }
    );
    assert_eq!(
        token_reply(Err(jwt_lib::codec::IssueError::ClockOutOfRange)),
        Reply { status: 500, success: false, data: Data::Message("expiry out of range".to_string()) }
    );
    assert_eq!(
        rejection_reply(Rejection { reason: "No token provided".to_string() }),
        Reply { status: 401, success: false, data: Data::Message("No token provided".to_string()) }
    );
    assert_eq!(
        secret_reply(Ok(subject("a@b.com"))),
        Reply { status: 200, success: true, data: Data::Identity(subject("a@b.com")) }
    );
    assert_eq!(
        secret_reply(rejected("InvalidSignature")),
        Reply { status: 401, success: false, data: Data::Message("InvalidSignature".to_string()) }
    );
}
