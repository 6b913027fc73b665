use erika_catalogue::credential::{
    cookies_admit, decide_login, hash_password, manage_login, session_cookie, session_is_valid,
    Login, LoginMessage, SameSite, SessionCookie, LAST_EXPIRY, SESSION_SECONDS,
};
use erika_catalogue::fields::parse_fields;
use erika_catalogue::http::Method;

const HASH_OF_PASSWORD: &str = "5e884898da28047151d0e56f8dc6292773603d0d6aabbdd62a11ef721d1542d8";

#[test]
fn passwords_are_hashed_with_sha256() {
    assert_eq!(hash_password("password"), HASH_OF_PASSWORD);
    assert_eq!(
        hash_password(""),
        "e3b0c44298fc1c149afbf4c8996fb92427ae41e4649b934ca495991b7852b855"
    );
    assert_ne!(hash_password("Password"), HASH_OF_PASSWORD);
}

#[test]
fn the_session_cookie_must_carry_the_configured_hash() {
    let header = format!("password={}", HASH_OF_PASSWORD);
    assert!(session_is_valid(Some(&header), HASH_OF_PASSWORD));
    assert!(session_is_valid(Some(&format!(" password = {} ; Path=/", HASH_OF_PASSWORD)), HASH_OF_PASSWORD));
    assert!(!session_is_valid(None, HASH_OF_PASSWORD));
    assert!(!session_is_valid(Some("password=wrong"), HASH_OF_PASSWORD));
    assert!(!session_is_valid(Some(&format!("other={}", HASH_OF_PASSWORD)), HASH_OF_PASSWORD));
    assert!(!session_is_valid(Some(HASH_OF_PASSWORD), HASH_OF_PASSWORD));
    assert!(!session_is_valid(Some(""), HASH_OF_PASSWORD));
    assert!(!session_is_valid(Some("=x"), "x"));
}

#[test]
fn the_session_cookie_is_found_among_the_others() {
    let after = format!("theme=dark; password={}", HASH_OF_PASSWORD);
    assert!(session_is_valid(Some(&after), HASH_OF_PASSWORD));
    let between = format!("a=1;password={};b=2", HASH_OF_PASSWORD);
    assert!(session_is_valid(Some(&between), HASH_OF_PASSWORD));
    let with_junk = format!("junk; ;; =x; password={}", HASH_OF_PASSWORD);
    assert!(session_is_valid(Some(&with_junk), HASH_OF_PASSWORD));
    assert!(!session_is_valid(Some("theme=dark; lang=en"), HASH_OF_PASSWORD));
    let first_wrong = format!("password=forged; password={}", HASH_OF_PASSWORD);
    assert!(!session_is_valid(Some(&first_wrong), HASH_OF_PASSWORD));
    let first_right = format!("password={}; password=forged", HASH_OF_PASSWORD);
    assert!(session_is_valid(Some(&first_right), HASH_OF_PASSWORD));
    let in_a_value = format!("theme=password={}", HASH_OF_PASSWORD);
    assert!(!session_is_valid(Some(&in_a_value), HASH_OF_PASSWORD));
}

#[test]
fn cookies_admit_only_by_name_and_value() {
    let pair = |name: &str, value: &str| Some((name.to_string(), value.to_string()));
    assert!(cookies_admit(&vec![pair("password", "abc")], "abc"));
    assert!(!cookies_admit(&vec![pair("password", "abd")], "abc"));
    assert!(!cookies_admit(&vec![pair("Password", "abc")], "abc"));
    assert!(!cookies_admit(&vec![None], "abc"));
    assert!(!cookies_admit(&Vec::new(), "abc"));
    assert!(cookies_admit(&vec![None, pair("a", "abc"), pair("password", "abc")], "abc"));
    assert!(!cookies_admit(&vec![pair("password", "x"), pair("password", "abc")], "abc"));
}

#[test]
fn the_session_cookie_has_the_fixed_attributes() {
    let c = session_cookie("abc", 1_700_000_000);
    assert_eq!(c.name, "password");
    assert_eq!(c.value, "abc");
    assert_eq!(c.path, "/catalogue/add");
    assert!(c.secure);
    assert!(c.http_only);
    assert_eq!(c.same_site, SameSite::Strict);
    assert_eq!(c.expires_at, Some(1_700_000_000 + 30 * 24 * 60 * 60));
    assert_eq!(SESSION_SECONDS, 2_592_000);
}

#[test]
fn a_clock_out_of_range_gives_a_cookie_without_expiry() {
    assert_eq!(session_cookie("abc", -1).expires_at, None);
    assert_eq!(session_cookie("abc", i64::MAX).expires_at, None);
    assert_eq!(session_cookie("abc", LAST_EXPIRY - SESSION_SECONDS + 1).expires_at, None);
    assert_eq!(session_cookie("abc", LAST_EXPIRY - SESSION_SECONDS).expires_at, Some(LAST_EXPIRY));
    assert_eq!(session_cookie("abc", 0).expires_at, Some(SESSION_SECONDS));
}

#[test]
fn the_cookie_is_written_as_a_header() {
    assert_eq!(
        session_cookie("abc", 0).header_value(),
        Some(String::from(
            "password=abc; HttpOnly; SameSite=Strict; Secure; Path=/catalogue/add; Expires=Sat, 31 Jan 1970 00:00:00 GMT"
        ))
    );
    assert_eq!(
        session_cookie("abc", -5).header_value(),
        Some(String::from("password=abc; HttpOnly; SameSite=Strict; Secure; Path=/catalogue/add"))
    );
    let plain = SessionCookie {
        name: String::from("n"),
        value: String::from("v"),
        path: String::from("/"),
        secure: false,
        http_only: false,
        same_site: SameSite::Lax,
        expires_at: Some(LAST_EXPIRY),
    };
    assert_eq!(
        plain.header_value(),
        Some(String::from("n=v; SameSite=Lax; Path=/; Expires=Fri, 31 Dec 9999 23:59:59 GMT"))
    );
    let late = SessionCookie { expires_at: Some(LAST_EXPIRY + 1), ..plain };
    assert_eq!(late.header_value(), None);
}

fn message(login: Login) -> Option<LoginMessage> {
    match login {
        Login::Form(m) => m,
        Login::Granted(_) => panic!("granted"),
    }
}

#[test]
fn login_attempts() {
    let none = parse_fields("");
    assert_eq!(message(manage_login(Method::Get, &none, HASH_OF_PASSWORD, 0)), None);
    assert_eq!(
        message(manage_login(Method::Post, &none, HASH_OF_PASSWORD, 0)),
        Some(LoginMessage::InvalidForm)
    );
    assert_eq!(
        message(manage_login(Method::Post, &parse_fields("password=nope"), HASH_OF_PASSWORD, 0)),
        Some(LoginMessage::InvalidPassword)
    );
    assert_eq!(
        message(manage_login(Method::Put, &parse_fields("password=password"), HASH_OF_PASSWORD, 0)),
        Some(LoginMessage::InvalidRequest)
    );
    assert_eq!(
        message(manage_login(Method::Other, &none, HASH_OF_PASSWORD, 0)),
        Some(LoginMessage::InvalidRequest)
    );
    assert_eq!(
        message(manage_login(Method::Get, &parse_fields("password=password"), HASH_OF_PASSWORD, 0)),
        None
    );
    match manage_login(Method::Post, &parse_fields("user=x&password=password"), HASH_OF_PASSWORD, 100) {
        Login::Granted(c) => {
            assert_eq!(c.value, HASH_OF_PASSWORD);
            assert_eq!(c.expires_at, Some(100 + SESSION_SECONDS));
        }
        Login::Form(_) => panic!("the right password must be granted"),
    }
}

#[test]
fn login_is_decided_by_the_digest() {
    assert!(matches!(
        decide_login(Method::Post, Some(String::from("abc")), "abc", 0),
        Login::Granted(_)
    ));
    assert_eq!(
        message(decide_login(Method::Post, Some(String::from("abd")), "abc", 0)),
        Some(LoginMessage::InvalidPassword)
    );
    assert_eq!(message(decide_login(Method::Get, Some(String::from("abc")), "abc", 0)), None);
}

#[test]
fn login_messages_have_their_texts() {
    assert_eq!(LoginMessage::InvalidPassword.text(), "Invalid password");
    assert_eq!(LoginMessage::InvalidForm.text(), "Invalid form");
    assert_eq!(LoginMessage::InvalidRequest.text(), "Invalid request");
}
