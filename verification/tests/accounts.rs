use portrait_booth::auth::can_check_otp;
use portrait_booth::auth::login_otp_request;
use portrait_booth::auth::login_otp_submit;
use portrait_booth::auth::LoginOtpState;
use portrait_booth::auth::OtpStep;
use portrait_booth::auth::login_otp_verify_request;
use portrait_booth::auth::login_outcome;
use portrait_booth::auth::login_request;
use portrait_booth::auth::register;
use portrait_booth::auth::signup_request;
use portrait_booth::auth::validate_password;
use portrait_booth::auth::LoginResponse;
use portrait_booth::auth::SignupForm;
use portrait_booth::auth::SignupResponse;
use portrait_booth::database::Database;
use portrait_booth::error::RequestError;
use portrait_booth::user::Role;
use portrait_booth::user::User;
use portrait_booth::user::UserStatus;

const SECRET: &str = "12345678901234567890123456789012";

fn account(db: &mut Database, email: &str, status: UserStatus, hash: Option<String>) -> User {
    let id = db
        .insert_user(User {
            id: 0,
            email: email.to_string(),
            phone: None,
            password_hash: hash,
            otp_secret: Some(SECRET.to_string()),
            role: Role::Customer,
            status,
            name: "Ann".to_string(),
        })
        .unwrap();
    db.user(id).unwrap()
}

fn form(email: &str, password: Option<&str>) -> SignupForm {
    SignupForm {
        fullname: "Ann Lee".to_string(),
        email: email.to_string(),
        phone: Some("555-0100".to_string()),
        password: password.map(|p| p.to_string()),
    }
}

#[test]
fn anonymous_is_guest_number_zero() {
    let guest = User::anonymous();
    assert_eq!(guest.id, 0);
    assert_eq!(guest.name, "Guest");
    assert_eq!(guest.email, "");
    assert_eq!(guest.phone, None);
    assert_eq!(guest.password_hash, None);
    assert_eq!(guest.otp_secret, None);
    assert_eq!(guest.role, Role::Anonymous);
    assert_eq!(guest.status, UserStatus::Disabled);
    assert!(guest.is_anonymous());
    assert!(!guest.is_authenticated());
    assert!(!guest.is_active());
}

#[test]
fn default_user_is_a_customer_not_yet_active() {
    let user = User::default();
    assert_eq!(user.id, 0);
    assert_eq!(user.role, Role::Customer);
    assert_eq!(user.status, UserStatus::NotActivatedYet);
    assert_eq!(user.name, "");
    assert_eq!(Role::default(), Role::Customer);
    assert_eq!(UserStatus::default(), UserStatus::NotActivatedYet);
    assert!(user.is_authenticated());
    assert!(user.is_active());
    assert!(!user.is_anonymous());
}

#[test]
fn session_zero_loads_the_guest() {
    let mut db = Database::new();
    let ann = account(&mut db, "ann@example.com", UserStatus::Active, None);
    assert_eq!(User::load_user(0, Some(&db)), Some(User::anonymous()));
    assert_eq!(User::load_user(0, None), Some(User::anonymous()));
    assert_eq!(User::load_user(ann.id, Some(&db)), Some(ann.clone()));
    assert_eq!(User::load_user(ann.id, None), None);
    assert_eq!(User::load_user(77, Some(&db)), None);
}

#[test]
fn roles_and_statuses_have_their_codes() {
    let roles = [
        (Role::Anonymous, 0),
        (Role::Customer, 1),
        (Role::Cashier, 2),
        (Role::Operator, 3),
        (Role::Processor, 4),
        (Role::Manager, 5),
    ];
    for (role, code) in roles {
        assert_eq!(role.code(), code);
        assert_eq!(Role::from_code(code), Some(role));
        assert_eq!(role.is_staff(), code >= 2);
    }
    assert_eq!(Role::from_code(6), None);
    assert_eq!(Role::from_code(-1), None);
    assert_eq!(UserStatus::NotActivatedYet.code(), 0);
    assert_eq!(UserStatus::Active.code(), 1);
    assert_eq!(UserStatus::Disabled.code(), 2);
    assert_eq!(UserStatus::from_code(1), Some(UserStatus::Active));
    assert_eq!(UserStatus::from_code(3), None);
}

#[test]
fn accounts_are_created_and_found() {
    let mut db = Database::new();
    let id = User::create(
        Some("ann@example.com".to_string()),
        Some("555".to_string()),
        "pw".to_string(),
        "Ann".to_string(),
        Role::Operator,
        &mut db,
    )
    .unwrap();
    assert_eq!(id, 1);
    let stored = User::get_by_id(id, &db).unwrap();
    assert_eq!(stored.email, "ann@example.com");
    assert_eq!(stored.phone, Some("555".to_string()));
    assert_eq!(stored.password_hash, Some("pw".to_string()));
    assert_eq!(stored.otp_secret, None);
    assert_eq!(stored.role, Role::Operator);
    assert_eq!(stored.status, UserStatus::NotActivatedYet);
    assert_eq!(stored.name, "Ann");
    let second =
        User::create(None, None, "pw".to_string(), "Bo".to_string(), Role::Customer, &mut db)
            .unwrap();
    assert_eq!(second, 2);
    assert_eq!(User::get_by_id(second, &db).unwrap().email, "");
    assert_eq!(User::get_by_username("ann@example.com".to_string(), &db), Some(stored));
    assert_eq!(User::get_by_username("Ann@example.com".to_string(), &db), None);
    assert_eq!(User::get_by_id(3, &db), None);
    assert!(User::change_role(second, Role::Manager, &mut db));
    assert!(!User::change_role(9, Role::Manager, &mut db));
    let staff = User::get_all_staff(&db);
    assert_eq!(staff.iter().map(|u| u.id).collect::<Vec<_>>(), vec![1, 2]);
    assert_eq!(staff[0].copy(), staff[0]);
}

#[test]
fn password_must_meet_every_rule() {
    assert_eq!(validate_password("Abcdef1!".to_string(), "Abcdef1!".to_string()), Ok(()));
    assert_eq!(validate_password("Zz9*Zz9*Zz9*".to_string(), "Zz9*Zz9*Zz9*".to_string()), Ok(()));
    assert_eq!(
        validate_password("".to_string(), "x".to_string()),
        Err(vec![
            "Passwords don't match.".to_string(),
            "Must contain at least 8 characters.".to_string(),
            "Must contain at least one lowercase letter.".to_string(),
            "Must contain at least one uppercase letter.".to_string(),
            "Must contain at least one number.".to_string(),
            "Must contain at least one symbol: !@#$%^&*".to_string(),
        ])
    );
    let one_fault = [
        ("Abcdef1!", "Abcdef1?", "Passwords don't match."),
        ("Abcde1!", "Abcde1!", "Must contain at least 8 characters."),
        ("ABCDEF1!", "ABCDEF1!", "Must contain at least one lowercase letter."),
        ("abcdef1!", "abcdef1!", "Must contain at least one uppercase letter."),
        ("Abcdefg!", "Abcdefg!", "Must contain at least one number."),
        ("Abcdefg1", "Abcdefg1", "Must contain at least one symbol: !@#$%^&*"),
        ("Abcdef1?", "Abcdef1?", "Must contain at least one symbol: !@#$%^&*"),
    ];
    for (password, confirm, fault) in one_fault {
        assert_eq!(
            validate_password(password.to_string(), confirm.to_string()),
            Err(vec![fault.to_string()]),
            "{password}"
        );
    }
    for symbol in "!@#$%^&*".chars() {
        let password = format!("Abcdef1{symbol}");
        assert_eq!(validate_password(password.clone(), password), Ok(()));
    }
}

#[test]
fn password_length_counts_bytes_and_letters_any_script() {
    // Four letters of two bytes each, a number and a symbol: 10 bytes.
    let greek = "Ωωλμ1!".to_string();
    assert_eq!(validate_password(greek.clone(), greek), Ok(()));
    // Seven characters, seven bytes: too short.
    let short = "Abcde1!".to_string();
    assert!(validate_password(short.clone(), short).is_err());
    // A number of another script counts as a number.
    let arabic = "Abcdefg٣!".to_string();
    assert_eq!(validate_password(arabic.clone(), arabic), Ok(()));
}

#[test]
fn login_outcome_goes_by_account_and_password() {
    let mut db = Database::new();
    let active = account(&mut db, "a@example.com", UserStatus::Active, None);
    let waiting = account(&mut db, "w@example.com", UserStatus::NotActivatedYet, None);
    let locked = account(&mut db, "l@example.com", UserStatus::Disabled, None);
    assert_eq!(login_outcome(None, true), LoginResponse::InvalidCredentials);
    assert_eq!(login_outcome(None, false), LoginResponse::InvalidCredentials);
    assert_eq!(login_outcome(Some(active.clone()), false), LoginResponse::InvalidCredentials);
    assert_eq!(login_outcome(Some(locked.clone()), false), LoginResponse::InvalidCredentials);
    assert_eq!(login_outcome(Some(active.clone()), true), LoginResponse::LoggedIn(active));
    assert_eq!(login_outcome(Some(waiting), true), LoginResponse::NotActivated);
    assert_eq!(login_outcome(Some(locked), true), LoginResponse::LockedOut);
}

#[test]
fn login_checks_the_password_against_the_hash() {
    let mut db = Database::new();
    let hash = bcrypt::hash("correct horse", 4).unwrap();
    let ann = account(&mut db, "ann@example.com", UserStatus::Active, Some(hash.clone()));
    let _locked = account(&mut db, "locked@example.com", UserStatus::Disabled, Some(hash));
    let _bare = account(&mut db, "bare@example.com", UserStatus::Active, None);
    let _odd = account(&mut db, "odd@example.com", UserStatus::Active, Some("nonsense".to_string()));
    let login = |email: &str, password: &str| login_request(&db, email.to_string(), password.to_string());
    assert_eq!(login("ann@example.com", "correct horse"), LoginResponse::LoggedIn(ann));
    assert_eq!(login("ann@example.com", "wrong horse"), LoginResponse::InvalidCredentials);
    assert_eq!(login("ann@example.com", ""), LoginResponse::InvalidCredentials);
    assert_eq!(login("nobody@example.com", "correct horse"), LoginResponse::InvalidCredentials);
    assert_eq!(login("locked@example.com", "correct horse"), LoginResponse::LockedOut);
    assert_eq!(login("locked@example.com", "wrong"), LoginResponse::InvalidCredentials);
    assert_eq!(login("bare@example.com", ""), LoginResponse::InvalidCredentials);
    assert_eq!(login("odd@example.com", "nonsense"), LoginResponse::InvalidCredentials);
}

#[test]
fn login_code_is_the_one_of_the_second() {
    let mut db = Database::new();
    account(&mut db, "ann@example.com", UserStatus::Active, None);
    let mail = login_otp_request(&db, "ann@example.com".to_string(), 30, 59).unwrap();
    assert_eq!(mail.to, "ann@example.com");
    assert_eq!(mail.code, "119246");
    let later = login_otp_request(&db, "ann@example.com".to_string(), 30, 1111111109).unwrap();
    assert_eq!(later.code, "084774");
    let hourly = login_otp_request(&db, "ann@example.com".to_string(), 3600, 1_800_000_000).unwrap();
    assert_eq!(hourly.code, "820904");
    // Within one step the code stays the same.
    let same = login_otp_request(&db, "ann@example.com".to_string(), 3600, 1_800_003_599).unwrap();
    assert_eq!(same.code, "820904");
}

#[test]
fn login_code_needs_account_secret_and_step() {
    let mut db = Database::new();
    account(&mut db, "ann@example.com", UserStatus::Active, None);
    let mut short = account(&mut db, "short@example.com", UserStatus::Active, None);
    short.otp_secret = Some("tooshort".to_string());
    let mut none = short.clone();
    none.otp_secret = None;
    none.email = "none@example.com".to_string();
    short.email = "brief@example.com".to_string();
    db.insert_user(short).unwrap();
    db.insert_user(none).unwrap();
    assert_eq!(login_otp_request(&db, "nobody@example.com".to_string(), 30, 59), None);
    assert_eq!(login_otp_request(&db, "ann@example.com".to_string(), 0, 59), None);
    assert_eq!(login_otp_request(&db, "brief@example.com".to_string(), 30, 59), None);
    assert_eq!(login_otp_request(&db, "none@example.com".to_string(), 30, 59), None);
    assert!(login_otp_request(&db, "ann@example.com".to_string(), 30, 0).is_some());
}

#[test]
fn login_code_is_accepted_one_step_around() {
    let mut db = Database::new();
    let ann = account(&mut db, "ann@example.com", UserStatus::Active, None);
    let now = 1_800_000_000;
    let verify = |code: &str, at: u64| {
        login_otp_verify_request(&db, "ann@example.com".to_string(), code.to_string(), 3600, at)
    };
    assert_eq!(verify("820904", now), Some(ann.id));
    assert_eq!(verify("820904", now + 3599), Some(ann.id));
    // The codes of the step before and of the step after are accepted too.
    assert_eq!(verify("616682", now), Some(ann.id));
    assert_eq!(verify("121053", now), Some(ann.id));
    // Two steps on is too late.
    assert_eq!(verify("423681", now), None);
    assert_eq!(verify("820904", now + 7200), None);
    assert_eq!(verify("000000", now), None);
    assert_eq!(verify("", now), None);
    assert_eq!(
        login_otp_verify_request(&db, "nobody@example.com".to_string(), "820904".to_string(), 3600, now),
        None
    );
}

#[test]
fn login_code_is_not_checked_at_impossible_seconds() {
    let mut db = Database::new();
    account(&mut db, "ann@example.com", UserStatus::Active, None);
    assert!(can_check_otp(30, 59));
    assert!(can_check_otp(30, 30));
    assert!(!can_check_otp(30, 29));
    assert!(!can_check_otp(0, 59));
    assert!(!can_check_otp(1, u64::MAX));
    assert!(can_check_otp(1, u64::MAX - 1));
    assert!(can_check_otp(3600, u64::MAX - 3600));
    assert!(!can_check_otp(3600, u64::MAX));
    assert!(!can_check_otp(u64::MAX, u64::MAX));
    for (step, now) in [(0, 59), (30, 29), (1, u64::MAX), (u64::MAX, u64::MAX)] {
        assert_eq!(
            login_otp_verify_request(&db, "ann@example.com".to_string(), "119246".to_string(), step, now),
            None
        );
    }
    assert!(
        login_otp_verify_request(&db, "ann@example.com".to_string(), "119246".to_string(), 30, 59)
            .is_some()
    );
}

#[test]
fn register_adds_the_account_once() {
    let mut db = Database::new();
    let first = register(
        &mut db,
        form("ann@example.com", Some("pw")),
        "SECRET".to_string(),
        "HASH".to_string(),
    );
    assert_eq!(first, Ok(SignupResponse::Success));
    let stored = db.user(1).unwrap();
    assert_eq!(stored.name, "Ann Lee");
    assert_eq!(stored.email, "ann@example.com");
    assert_eq!(stored.phone, Some("555-0100".to_string()));
    assert_eq!(stored.password_hash, Some("HASH".to_string()));
    assert_eq!(stored.otp_secret, Some("SECRET".to_string()));
    assert_eq!(stored.role, Role::Anonymous);
    assert_eq!(stored.status, UserStatus::NotActivatedYet);
    let second = register(
        &mut db,
        form("ann@example.com", None),
        "OTHER".to_string(),
        "OTHER".to_string(),
    );
    assert_eq!(second, Ok(SignupResponse::EmailAlreadyUsed));
    assert_eq!(db.users(), vec![stored]);
}

#[test]
fn signup_makes_secret_and_hash() {
    let mut db = Database::new();
    assert_eq!(
        signup_request(&mut db, form("ann@example.com", Some("Abcdef1!"))),
        Ok(SignupResponse::Success)
    );
    assert_eq!(signup_request(&mut db, form("bo@example.com", None)), Ok(SignupResponse::Success));
    assert_eq!(
        signup_request(&mut db, form("ann@example.com", Some("other"))),
        Ok(SignupResponse::EmailAlreadyUsed)
    );
    let users = db.users();
    assert_eq!(users.len(), 2);
    let ann = &users[0];
    let secret = ann.otp_secret.clone().unwrap();
    assert_eq!(secret.len(), 32);
    assert!(bcrypt::verify("Abcdef1!", ann.password_hash.as_ref().unwrap()).unwrap());
    // Without a password the secret is hashed in its place.
    let bo = &users[1];
    assert!(bcrypt::verify(bo.otp_secret.as_ref().unwrap(), bo.password_hash.as_ref().unwrap())
        .unwrap());
    assert_ne!(bo.otp_secret, ann.otp_secret);
    // The secret is long enough for login codes.
    assert!(login_otp_request(&db, "ann@example.com".to_string(), 3600, 1_800_000_000).is_some());
    assert!(db.is_well_formed());
}

#[test]
fn signup_error_is_named() {
    assert_eq!(RequestError::HashFailed.message(), "Unable to hash password");
    assert_eq!(RequestError::TooLarge.message(), "Number too large");
}

#[test]
fn login_by_code_asks_then_checks() {
    let text = |t: &str| t.to_string();
    assert_eq!(
        login_otp_submit(LoginOtpState::GetEmail, text(""), text("")),
        (LoginOtpState::GetEmail, OtpStep::AskForEmail)
    );
    assert_eq!(
        login_otp_submit(LoginOtpState::GetEmail, text("ann@example.com"), text("ignored")),
        (
            LoginOtpState::GetOtp(text("ann@example.com")),
            OtpStep::RequestCode { email: text("ann@example.com") }
        )
    );
    // The code is checked for the address that the page has kept.
    assert_eq!(
        login_otp_submit(
            LoginOtpState::GetOtp(text("ann@example.com")),
            text("other@example.com"),
            text("119246")
        ),
        (
            LoginOtpState::GetOtp(text("ann@example.com")),
            OtpStep::VerifyCode { email: text("ann@example.com"), otp: text("119246") }
        )
    );
    assert_eq!(
        login_otp_submit(LoginOtpState::GetOtp(text("ann@example.com")), text(""), text("1")),
        (LoginOtpState::GetOtp(text("ann@example.com")), OtpStep::AskForEmail)
    );
}

#[test]
fn failed_login_is_told_why() {
    assert_eq!(LoginResponse::InvalidCredentials.message(), "Invalid Credentials");
    assert_eq!(LoginResponse::LockedOut.message(), "Account is locked");
    assert_eq!(LoginResponse::NotActivated.message(), "Account not activated yet");
    assert_eq!(LoginResponse::LoggedIn(User::anonymous()).message(), "");
    assert_eq!(LoginOtpState::GetEmail.button_title(), "Request Code");
    assert_eq!(LoginOtpState::GetOtp("a".to_string()).button_title(), "Verify Code");
}
