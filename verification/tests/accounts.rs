use shopfront::auth::{
    check_role, login_email, strip_bearer, login_outcome, logout_reply, signup_reply, validate_signup, Access,
    AuthMiddleware, Claims, LoginData, SignupData, UserRecord,
};
use shopfront::reply::{BodyKind, Status};
use shopfront::text::{int_to_text, str_equal, to_lowercase, trim, validate_email};

fn signup(u: &str, e: &str, p: &str) -> SignupData {
    SignupData { username: u.to_string(), email: e.to_string(), password: p.to_string() }
}

#[test]
fn signup_accepts_trimmed_fields() {
    let f = validate_signup(&signup("  bob ", " bob@example.com ", " secret123 ")).unwrap();
    assert_eq!(f.username, "bob");
    assert_eq!(f.email, "bob@example.com");
    assert_eq!(f.password, "secret123");
}

#[test]
fn signup_refusals_in_order() {
    let msg = |d: SignupData| validate_signup(&d).unwrap_err().message;
    assert_eq!(msg(signup("   ", "x", "y")), "Username cannot be empty");
    assert_eq!(msg(signup("bob", "", "secret123")), "Invalid email address");
    assert_eq!(msg(signup("bob", "not-an-email", "secret123")), "Invalid email address");
    assert_eq!(msg(signup("bob", "bob@example.com", "short")), "Password must be between 8 and 32 characters");
    assert_eq!(msg(signup("bob", "bob@example.com", &"x".repeat(33))), "Password must be between 8 and 32 characters");
    let e = validate_signup(&signup("", "", "")).unwrap_err();
    assert_eq!((e.status, e.kind), (Status::BadRequest, BodyKind::Text));
}

#[test]
fn readme_signup_is_accepted() {
    let f = validate_signup(&signup("user_2", "user_2@gmail.com", "user_2@123")).unwrap();
    assert_eq!((f.username.as_str(), f.email.as_str(), f.password.as_str()), ("user_2", "user_2@gmail.com", "user_2@123"));
    assert!(validate_signup(&signup("a_rather_long_username", "bob@example.com", "secret123")).is_ok());
}

#[test]
fn password_limits_count_bytes() {
    // "é" is 2 bytes: 4 of them make 8 bytes, 16 make 32, 17 make 34.
    assert!(validate_signup(&signup("bob", "bob@example.com", &"é".repeat(4))).is_ok());
    assert!(validate_signup(&signup("bob", "bob@example.com", &"é".repeat(16))).is_ok());
    assert_eq!(
        validate_signup(&signup("bob", "bob@example.com", &"é".repeat(17))).unwrap_err().message,
        "Password must be between 8 and 32 characters"
    );
    assert!(validate_signup(&signup("bob", "bob@example.com", &"p".repeat(32))).is_ok());
    assert!(validate_signup(&signup("bob", "bob@example.com", &"p".repeat(8))).is_ok());
}

#[test]
fn signup_answers() {
    assert_eq!(signup_reply(true).message, "User registered successfully");
    let r = signup_reply(false);
    assert_eq!((r.status, r.message.as_str()), (Status::InternalServerError, "User registration failed please check you data provided "));
}

fn user(role: Option<&str>) -> Option<UserRecord> {
    Some(UserRecord {
        id: "id-7".to_string(),
        email: "a@b.co".to_string(),
        password: "hash".to_string(),
        role: role.map(|r| r.to_string()),
    })
}

#[test]
fn login_decisions() {
    assert_eq!(login_email(&LoginData { email: "  a@b.co\n".to_string(), password: String::new() }), "a@b.co");
    let e = login_outcome(&None, false).unwrap_err();
    assert_eq!((e.status, e.message.as_str()), (Status::Unauthorized, "User not found"));
    let e = login_outcome(&user(Some("admin")), false).unwrap_err();
    assert_eq!((e.status, e.message.as_str()), (Status::Unauthorized, "Invalid credentials"));
    let t = login_outcome(&user(Some("admin")), true).unwrap();
    assert_eq!((t.id.as_str(), t.email.as_str(), t.role.as_str()), ("id-7", "a@b.co", "admin"));
    assert_eq!(logout_reply().message, "Logged out successfully");
}

#[test]
fn role_checks() {
    let c = Claims { sub: "s".to_string(), email: "e".to_string(), role: "admin".to_string(), exp: 1 };
    assert_eq!(check_role(Some(&c), "admin"), Access::Granted);
    assert_eq!(check_role(Some(&c), "Admin"), Access::Forbidden);
    assert_eq!(check_role(None, "admin"), Access::Unauthenticated);
}

#[test]
fn middleware_steps() {
    let m = AuthMiddleware;
    let inner = m.new_transform(42u8);
    assert_eq!(inner.service, 42u8);
    let e = inner.require_token(None, None).unwrap_err();
    assert_eq!((e.status, e.message.as_str()), (Status::Unauthorized, "Authentication token missing"));
    assert_eq!(inner.require_token(Some("tok".to_string()), None).unwrap(), "tok");
    assert_eq!(inner.require_token(None, Some("Bearer abc.def".to_string())).unwrap(), "abc.def");
    assert_eq!(inner.require_token(Some("tok".to_string()), Some("Bearer abc".to_string())).unwrap(), "tok");
    assert_eq!(inner.require_token(Some("tok".to_string()), Some("Basic abc".to_string())).unwrap(), "tok");
    let e = inner.require_token(None, Some("Basic abc".to_string())).unwrap_err();
    assert_eq!(e.message, "Authentication token missing");
    assert_eq!(strip_bearer("Bearer "), Some(String::new()));
    assert_eq!(strip_bearer("Bearer"), None);
    assert_eq!(strip_bearer("bearer x"), None);
    let e = inner.accept_claims(None).unwrap_err();
    assert_eq!(e.message, "Invalid token");
    let c = Claims { sub: "s".to_string(), email: "e".to_string(), role: "user".to_string(), exp: 1 };
    assert_eq!(inner.accept_claims(Some(c.clone())).unwrap(), c);
}

#[test]
fn text_helpers() {
    assert_eq!(trim("\u{3000} a b \t\n"), "a b");
    assert_eq!(trim(" \u{85}\u{a0} "), "");
    assert_eq!(trim(""), "");
    assert_eq!(trim("\u{200b}x\u{200b}"), "\u{200b}x\u{200b}");
    for probe in ["  x y  ", "\r\nz", "q\u{2029}", "é é"] {
        assert_eq!(trim(probe), probe.trim());
    }
    assert_eq!(int_to_text(0), "0");
    assert_eq!(int_to_text(-2147483648), "-2147483648");
    assert_eq!(int_to_text(1203), "1203");
    assert!(str_equal("héllo", "héllo"));
    assert!(!str_equal("a", "ab"));
    assert_eq!(to_lowercase("ShIpPeD"), "shipped");
    assert!(validate_email("bob@example.com"));
    assert!(!validate_email("bob.example.com"));
    assert!(!validate_email(""));
}
