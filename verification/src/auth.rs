//! Signing up and logging in, by password or by a code sent by mail.

use vstd::prelude::*;
use vstd::utf8::encode_utf8;
use crate::bindings::bcrypt_accepts;
use crate::bindings::bcrypt_hash;
use crate::bindings::bcrypt_verify;
use crate::bindings::capital_letter;
use crate::bindings::is_capital_letter;
use crate::bindings::is_number_char;
use crate::bindings::is_small_letter;
use crate::bindings::new_otp_secret;
use crate::bindings::number_char;
use crate::bindings::small_letter;
use crate::bindings::totp_accepts;
use crate::bindings::totp_check;
use crate::bindings::totp_code;
use crate::bindings::totp_generate;
use crate::database::Database;
use crate::database::DatabaseView;
use crate::database::user_with_email;
use crate::error::RequestError;
use crate::rows::first_of;
use crate::text::same_text;
use crate::text::texts;
use crate::user::Role;
use crate::user::text_of;
use crate::user::User;
use crate::user::user_view;
use crate::user::UserStatus;
use crate::user::UserView;

verus! {

/// How many digits a login code has.
pub const OTP_DIGITS: usize = 6;

/// How many steps before and after the present one a login code is still
/// accepted.
pub const OTP_SKEW: u8 = 1;

/// The cost at which passwords are hashed.
pub const PASSWORD_COST: u32 = 12;

/// What a person enters to log in by password.
#[derive(Debug, Clone, PartialEq, Eq)]
pub struct LoginForm {
    pub username: String,
    pub password: String,
}

/// The outcome of a login by password.
#[derive(Debug, Clone, PartialEq, Eq)]
pub enum LoginResponse {
    LoggedIn(User),
    InvalidCredentials,
    LockedOut,
    NotActivated,
}

/// The outcome of signing up.
#[derive(Debug, Clone, Copy, PartialEq, Eq, Structural)]
pub enum SignupResponse {
    Success,
    EmailAlreadyUsed,
    PhoneAlreadyUsed,
}

/// What a person enters to sign up.
#[derive(Debug, Clone, PartialEq, Eq)]
pub struct SignupForm {
    pub fullname: String,
    pub email: String,
    pub phone: Option<String>,
    pub password: Option<String>,
}

/// Where a login by code stands: the address is still to be asked for, or
/// the code for the address given.
#[derive(Debug, Clone, PartialEq, Eq)]
pub enum LoginOtpState {
    GetEmail,
    GetOtp(String),
}

/// A login code and the address to send it to.
#[derive(Debug, Clone, PartialEq, Eq)]
pub struct OtpMail {
    pub to: String,
    pub code: String,
}

/// The view of the outcome of a login by password.
pub enum LoginResponseView {
    LoggedIn(UserView),
    InvalidCredentials,
    LockedOut,
    NotActivated,
}

impl View for LoginResponse {
    type V = LoginResponseView;

    open spec fn view(&self) -> LoginResponseView {
        match *self {
            LoginResponse::LoggedIn(user) => LoginResponseView::LoggedIn(user@),
            LoginResponse::InvalidCredentials => LoginResponseView::InvalidCredentials,
            LoginResponse::LockedOut => LoginResponseView::LockedOut,
            LoginResponse::NotActivated => LoginResponseView::NotActivated,
        }
    }
}

impl LoginResponse {
    /// What a person is told whose login by password has failed; nothing
    /// where it has not.
    pub open spec fn spec_message(self) -> Seq<char> {
        match self {
            LoginResponse::LoggedIn(_) => Seq::empty(),
            LoginResponse::InvalidCredentials => "Invalid Credentials"@,
            LoginResponse::LockedOut => "Account is locked"@,
            LoginResponse::NotActivated => "Account not activated yet"@,
        }
    }

    /// What a person is told whose login by password has failed; nothing
    /// where it has not.
    pub fn message(&self) -> (text: String)
        ensures
            text@ == self.spec_message(),
    {
        match self {
            LoginResponse::LoggedIn(_) => String::new(),
            LoginResponse::InvalidCredentials => String::from_str("Invalid Credentials"),
            LoginResponse::LockedOut => String::from_str("Account is locked"),
            LoginResponse::NotActivated => String::from_str("Account not activated yet"),
        }
    }
}

impl LoginOtpState {
    /// What the button of the form says.
    pub fn button_title(&self) -> (title: &'static str)
        ensures
            title@ == match self@ {
                LoginOtpStateView::GetEmail => "Request Code"@,
                LoginOtpStateView::GetOtp(_) => "Verify Code"@,
            },
    {
        match self {
            LoginOtpState::GetEmail => "Request Code",
            LoginOtpState::GetOtp(_) => "Verify Code",
        }
    }
}

/// Whether one of the characters of `text` meets `pred`.
pub open spec fn has_char(text: Seq<char>, pred: spec_fn(char) -> bool) -> bool {
    exists|i: int| 0 <= i < text.len() && pred(#[trigger] text[i])
}

/// The symbols of which a password must contain one.
pub open spec fn symbol(c: char) -> bool {
    c == '!' || c == '@' || c == '#' || c == '$' || c == '%' || c == '^' || c == '&' || c == '*'
}

/// The condition "the character is a small letter".
pub open spec fn small_letters() -> spec_fn(char) -> bool {
    |c: char| small_letter(c)
}

/// The condition "the character is a capital letter".
pub open spec fn capital_letters() -> spec_fn(char) -> bool {
    |c: char| capital_letter(c)
}

/// The condition "the character is a number".
pub open spec fn numbers() -> spec_fn(char) -> bool {
    |c: char| number_char(c)
}

/// The condition "the character is one of the symbols".
pub open spec fn symbols() -> spec_fn(char) -> bool {
    |c: char| symbol(c)
}

/// `message` where `failed`, else nothing.
pub open spec fn complaint(failed: bool, message: Seq<char>) -> Seq<Seq<char>> {
    if failed {
        seq![message]
    } else {
        Seq::empty()
    }
}

/// What is wrong with a new password, in the order in which it is told:
/// the repetition differs; it is shorter than 8 bytes; it has no small
/// letter, no capital letter, no number, none of the symbols.
pub open spec fn password_complaints(password: Seq<char>, confirm: Seq<char>) -> Seq<Seq<char>> {
    complaint(password != confirm, "Passwords don't match."@) + complaint(
        (encode_utf8(password).len() as usize) < 8,
        "Must contain at least 8 characters."@,
    ) + complaint(
        !has_char(password, small_letters()),
        "Must contain at least one lowercase letter."@,
    ) + complaint(
        !has_char(password, capital_letters()),
        "Must contain at least one uppercase letter."@,
    ) + complaint(
        !has_char(password, numbers()),
        "Must contain at least one number."@,
    ) + complaint(
        !has_char(password, symbols()),
        "Must contain at least one symbol: !@#$%^&*"@,
    )
}

/// Appends `message` to `list` where `failed`.
fn complain(list: &mut Vec<String>, failed: bool, message: &str)
    ensures
        texts(final(list)@) == texts(old(list)@) + complaint(failed, message@),
{
    if failed {
        list.push(String::from_str(message));
        proof {
            assert(texts(list@) =~= texts(old(list)@) + seq![message@]);
        }
    } else {
        proof {
            assert(texts(list@) =~= texts(old(list)@) + Seq::<Seq<char>>::empty());
        }
    }
}

/// Checks a new password and its repetition. A password passes where it
/// equals its repetition, has at least 8 bytes, and contains a small
/// letter, a capital letter, a number and one of the symbols `!@#$%^&*`.
/// Otherwise everything that is wrong with it is told.
pub fn validate_password(password: String, confirm_password: String) -> (checked: Result<
    (),
    Vec<String>,
>)
    ensures
        match checked {
            Ok(()) => password_complaints(password@, confirm_password@).len() == 0,
            Err(errors) => texts(errors@) == password_complaints(password@, confirm_password@)
                && errors.len() > 0,
        },
{
    let text = password.as_str();
    let len = text.unicode_len();
    let mut small = false;
    let mut capital = false;
    let mut number = false;
    let mut special = false;
    let mut k: usize = 0;
    while k < len
        invariant
            k <= len,
            len == text@.len(),
            small == has_char(text@.take(k as int), small_letters()),
            capital == has_char(text@.take(k as int), capital_letters()),
            number == has_char(text@.take(k as int), numbers()),
            special == has_char(text@.take(k as int), symbols()),
        decreases len - k,
    {
        let c = text.get_char(k);
        let ghost before = text@.take(k as int);
        let ghost after = text@.take(k + 1);
        proof {
            assert(after[k as int] == c);
            assert forall|pred: spec_fn(char) -> bool| #[trigger]
                has_char(after, pred) == (has_char(before, pred) || pred(c)) by {
                if has_char(before, pred) {
                    let i = choose|i: int| 0 <= i < before.len() && pred(#[trigger] before[i]);
                    assert(after[i] == before[i]);
                }
                if has_char(after, pred) {
                    let i = choose|i: int| 0 <= i < after.len() && pred(#[trigger] after[i]);
                    if i < k {
                        assert(before[i] == after[i]);
                    }
                }
            }
        }
        if is_small_letter(c) {
            small = true;
        }
        if is_capital_letter(c) {
            capital = true;
        }
        if is_number_char(c) {
            number = true;
        }
        if c == '!' || c == '@' || c == '#' || c == '$' || c == '%' || c == '^' || c == '&' || c
            == '*' {
            special = true;
        }
        k += 1;
    }
    proof {
        assert(text@.take(k as int) =~= text@);
    }
    let mut errors: Vec<String> = Vec::new();
    proof {
        assert(texts(errors@) =~= Seq::<Seq<char>>::empty());
    }
    complain(&mut errors, !same_text(text, confirm_password.as_str()), "Passwords don't match.");
    complain(&mut errors, text.len() < 8, "Must contain at least 8 characters.");
    complain(&mut errors, !small, "Must contain at least one lowercase letter.");
    complain(&mut errors, !capital, "Must contain at least one uppercase letter.");
    complain(&mut errors, !number, "Must contain at least one number.");
    complain(&mut errors, !special, "Must contain at least one symbol: !@#$%^&*");
    proof {
        assert(texts(errors@) =~= password_complaints(password@, confirm_password@));
    }
    if errors.len() == 0 {
        Ok(())
    } else {
        Err(errors)
    }
}

/// The outcome of a login by password, from the account found under the
/// name and from whether the password belongs to its hash.
pub open spec fn login_decision(found: Option<UserView>, password_ok: bool) -> LoginResponseView {
    match found {
        None => LoginResponseView::InvalidCredentials,
        Some(user) => if !password_ok {
            LoginResponseView::InvalidCredentials
        } else {
            match user.status {
                UserStatus::Disabled => LoginResponseView::LockedOut,
                UserStatus::NotActivatedYet => LoginResponseView::NotActivated,
                UserStatus::Active => LoginResponseView::LoggedIn(user),
            }
        },
    }
}

/// The hash against which a password is held: that of the account, or the
/// empty text where the account has none.
pub open spec fn stored_hash(user: UserView) -> Seq<char> {
    match user.password_hash {
        Some(hash) => hash,
        None => Seq::empty(),
    }
}

/// The outcome of a login by password, from the account found under the
/// name and from whether the password belongs to its hash. An unknown name
/// and a wrong password give the same answer; an account that is disabled
/// is locked out, one that is not activated yet is told so, and an active
/// one is logged in.
pub fn login_outcome(found: Option<User>, password_ok: bool) -> (response: LoginResponse)
    ensures
        response@ == login_decision(user_view(found), password_ok),
{
    match found {
        None => LoginResponse::InvalidCredentials,
        Some(user) => {
            if !password_ok {
                LoginResponse::InvalidCredentials
            } else {
                match user.status {
                    UserStatus::Disabled => LoginResponse::LockedOut,
                    UserStatus::NotActivatedYet => LoginResponse::NotActivated,
                    UserStatus::Active => LoginResponse::LoggedIn(user),
                }
            }
        },
    }
}

/// Logs a person in by name and password.
pub fn login_request(db: &Database, username: String, password: String) -> (response:
    LoginResponse)
    ensures
        response@ == login_decision(
            first_of(db@.users, user_with_email(username@)),
            match first_of(db@.users, user_with_email(username@)) {
                Some(user) => bcrypt_accepts(password@, stored_hash(user)),
                None => false,
            },
        ),
{
    let found = User::get_by_username(username, db);
    let password_ok = match &found {
        None => false,
        Some(user) => match &user.password_hash {
            Some(hash) => bcrypt_verify(password.as_str(), hash.as_str()),
            None => bcrypt_verify(password.as_str(), ""),
        },
    };
    proof {
        reveal_strlit("");
        assert(""@ =~= Seq::<char>::empty());
    }
    login_outcome(found, password_ok)
}

/// The secret from which the login codes of the account with the address
/// `email` are made, if there is such an account and it has one.
pub open spec fn otp_secret_of(db: DatabaseView, email: Seq<char>) -> Option<Seq<char>> {
    match first_of(db.users, user_with_email(email)) {
        Some(user) => user.otp_secret,
        None => None,
    }
}

/// The login code to send to the address `email` at the second `now`, with
/// codes that change every `step` seconds. There is none where no account
/// has the address, where the account has no secret, where the secret is
/// too short for a code, and where `step` is 0.
pub fn login_otp_request(db: &Database, email: String, step: u64, now: u64) -> (mail: Option<
    OtpMail,
>)
    ensures
        match mail {
            Some(mail) => {
                &&& mail.to@ == email@
                &&& step > 0
                &&& otp_secret_of(db@, email@) matches Some(secret)
                &&& totp_code(OTP_DIGITS, OTP_SKEW, step, secret, now) == Some(mail.code@)
            },
            None => step == 0 || match otp_secret_of(db@, email@) {
                Some(secret) => totp_code(OTP_DIGITS, OTP_SKEW, step, secret, now) is None,
                None => true,
            },
        },
{
    if step == 0 {
        return None;
    }
    let user = match db.user_by_email(email.as_str()) {
        Some(user) => user,
        None => { return None; },
    };
    let secret = match user.otp_secret {
        Some(secret) => secret,
        None => { return None; },
    };
    match totp_generate(OTP_DIGITS, OTP_SKEW, step, secret.as_str(), now) {
        Some(code) => Some(OtpMail { to: email, code }),
        None => None,
    }
}

/// Whether a login code can be checked at the second `now` with codes that
/// change every `step` seconds: the step is not 0, and the steps around the
/// present one, as far as codes are still accepted, are seconds that the
/// machine's integers hold.
pub open spec fn otp_checkable(step: u64, now: u64) -> bool {
    step > 0 && now / step >= OTP_SKEW && (now / step + OTP_SKEW) * step <= u64::MAX
}

/// Whether a login code can be checked at the second `now` with codes that
/// change every `step` seconds.
pub fn can_check_otp(step: u64, now: u64) -> (checkable: bool)
    ensures
        checkable == otp_checkable(step, now),
{
    if step == 0 {
        return false;
    }
    let present = now / step;
    if present < 1 {
        return false;
    }
    match present.checked_add(1) {
        None => {
            assert((present + 1) * step > u64::MAX) by (nonlinear_arith)
                requires
                    present + 1 > u64::MAX,
                    step >= 1,
            ;
            false
        },
        Some(last) => last.checked_mul(step).is_some(),
    }
}

/// The secret against which a login code is held: that of the account, or
/// the empty text where the account has none.
pub open spec fn stored_secret(user: UserView) -> Seq<char> {
    match user.otp_secret {
        Some(secret) => secret,
        None => Seq::empty(),
    }
}

/// The number of the account to log in with the code `otp`, entered at the
/// second `now` for the address `email`. There is none where no account
/// has the address, where the code is not one that is accepted at that
/// second, and where no code can be checked at that second.
pub fn login_otp_verify_request(
    db: &Database,
    email: String,
    otp: String,
    step: u64,
    now: u64,
) -> (account: Option<u64>)
    ensures
        account == match first_of(db@.users, user_with_email(email@)) {
            Some(user) => if otp_checkable(step, now) && totp_accepts(
                OTP_DIGITS,
                OTP_SKEW,
                step,
                stored_secret(user),
                otp@,
                now,
            ) {
                Some(user.id)
            } else {
                None
            },
            None => None,
        },
{
    let user = match db.user_by_email(email.as_str()) {
        Some(user) => user,
        None => { return None; },
    };
    if !can_check_otp(step, now) {
        return None;
    }
    proof {
        reveal_strlit("");
        assert(""@ =~= Seq::<char>::empty());
    }
    let accepted = match &user.otp_secret {
        Some(secret) => totp_check(OTP_DIGITS, OTP_SKEW, step, secret.as_str(), otp.as_str(), now),
        None => totp_check(OTP_DIGITS, OTP_SKEW, step, "", otp.as_str(), now),
    };
    if accepted {
        Some(user.id)
    } else {
        None
    }
}

/// The account that signing up with `form` adds, with its secret for login
/// codes and the hash of its password.
pub open spec fn signed_up(id: u64, form: SignupForm, otp_secret: Seq<char>, hash: Seq<char>) -> UserView {
    UserView {
        id,
        email: form.email@,
        phone: text_of(form.phone),
        password_hash: Some(hash),
        otp_secret: Some(otp_secret),
        role: Role::Anonymous,
        status: UserStatus::NotActivatedYet,
        name: form.fullname@,
    }
}

/// Adds the account of a person who signs up with `form`, with the secret
/// for login codes and the hash of the password that were made for it.
///
/// An address that an account already has is turned down with
/// `EmailAlreadyUsed`. Fails with `TooLarge` where the numbers of the
/// accounts have run out. In both cases the tables stay as they were.
pub fn register(db: &mut Database, form: SignupForm, otp_secret: String, password_hash: String) -> (response:
    Result<SignupResponse, RequestError>)
    requires
        old(db).wf(),
    ensures
        final(db).wf(),
        if first_of(old(db)@.users, user_with_email(form.email@)) is Some {
            response == Ok::<SignupResponse, RequestError>(SignupResponse::EmailAlreadyUsed)
                && final(db)@ == old(db)@
        } else if old(db)@.next_user_id == u64::MAX {
            response == Err::<SignupResponse, RequestError>(RequestError::TooLarge) && final(db)@
                == old(db)@
        } else {
            response == Ok::<SignupResponse, RequestError>(SignupResponse::Success) && final(db)@
                == old(db)@.with_user(
                signed_up(old(db)@.next_user_id, form, otp_secret@, password_hash@),
            )
        },
{
    if db.user_by_email(form.email.as_str()).is_some() {
        return Ok(SignupResponse::EmailAlreadyUsed);
    }
    let SignupForm { fullname, email, phone, password } = form;
    let user = User {
        id: 0,
        email,
        phone,
        password_hash: Some(password_hash),
        otp_secret: Some(otp_secret),
        role: Role::Anonymous,
        status: UserStatus::NotActivatedYet,
        name: fullname,
    };
    match db.insert_user(user) {
        Some(_) => Ok(SignupResponse::Success),
        None => Err(RequestError::TooLarge),
    }
}

/// Signs a person up: makes a secret for login codes, hashes the password,
/// or the secret where the person chose no password, and adds the account.
///
/// An address that an account already has is turned down with
/// `EmailAlreadyUsed`. Fails with `SecretFailed` where no secret could be
/// made, with `HashFailed` where the password could not be hashed, and with
/// `TooLarge` where the numbers of the accounts have run out. In each of
/// these cases the tables stay as they were.
pub fn signup_request(db: &mut Database, form: SignupForm) -> (response: Result<
    SignupResponse,
    RequestError,
>)
    requires
        old(db).wf(),
    ensures
        final(db).wf(),
        match response {
            Ok(SignupResponse::Success) => first_of(
                old(db)@.users,
                user_with_email(form.email@),
            ) is None && old(db)@.next_user_id < u64::MAX && exists|
                otp_secret: Seq<char>,
                hash: Seq<char>,
            |
                final(db)@ == old(db)@.with_user(
                    signed_up(old(db)@.next_user_id, form, otp_secret, hash),
                ),
            Ok(SignupResponse::EmailAlreadyUsed) => first_of(
                old(db)@.users,
                user_with_email(form.email@),
            ) is Some && final(db)@ == old(db)@,
            Ok(SignupResponse::PhoneAlreadyUsed) => false,
            Err(error) => final(db)@ == old(db)@ && first_of(
                old(db)@.users,
                user_with_email(form.email@),
            ) is None && (error == RequestError::SecretFailed || error == RequestError::HashFailed
                || (error == RequestError::TooLarge && old(db)@.next_user_id == u64::MAX)),
        },
        first_of(old(db)@.users, user_with_email(form.email@)) is Some ==> response == Ok::<
            SignupResponse,
            RequestError,
        >(SignupResponse::EmailAlreadyUsed),
{
    if db.user_by_email(form.email.as_str()).is_some() {
        return Ok(SignupResponse::EmailAlreadyUsed);
    }
    let otp_secret = match new_otp_secret() {
        Some(secret) => secret,
        None => { return Err(RequestError::SecretFailed); },
    };
    let hashed = match &form.password {
        Some(password) => bcrypt_hash(password.as_str(), PASSWORD_COST),
        None => bcrypt_hash(otp_secret.as_str(), PASSWORD_COST),
    };
    let password_hash = match hashed {
        Some(hash) => hash,
        None => { return Err(RequestError::HashFailed); },
    };
    register(db, form, otp_secret, password_hash)
}

/// What the page for a login by code does next.
#[derive(Debug, Clone, PartialEq, Eq)]
pub enum OtpStep {
    /// Tell the person to enter an address.
    AskForEmail,
    /// Ask for a code to be sent to the address.
    RequestCode { email: String },
    /// Have the code checked that was entered for the address.
    VerifyCode { email: String, otp: String },
}

/// The view of what the page for a login by code does next.
pub enum OtpStepView {
    AskForEmail,
    RequestCode { email: Seq<char> },
    VerifyCode { email: Seq<char>, otp: Seq<char> },
}

impl View for OtpStep {
    type V = OtpStepView;

    open spec fn view(&self) -> OtpStepView {
        match *self {
            OtpStep::AskForEmail => OtpStepView::AskForEmail,
            OtpStep::RequestCode { email } => OtpStepView::RequestCode { email: email@ },
            OtpStep::VerifyCode { email, otp } => OtpStepView::VerifyCode {
                email: email@,
                otp: otp@,
            },
        }
    }
}

/// The view of where a login by code stands.
pub enum LoginOtpStateView {
    GetEmail,
    GetOtp(Seq<char>),
}

impl View for LoginOtpState {
    type V = LoginOtpStateView;

    open spec fn view(&self) -> LoginOtpStateView {
        match *self {
            LoginOtpState::GetEmail => LoginOtpStateView::GetEmail,
            LoginOtpState::GetOtp(email) => LoginOtpStateView::GetOtp(email@),
        }
    }
}

/// What the page for a login by code does when the form is sent, and
/// where the login stands then.
///
/// With no address in the form the person is asked for one and nothing
/// changes. Else, while the address is still to be asked for, a code is
/// requested for the address in the form, which the page keeps from then
/// on; and once a code was requested, the code in the form is checked for
/// the address that the page has kept.
pub fn login_otp_submit(state: LoginOtpState, email: String, otp: String) -> (next: (
    LoginOtpState,
    OtpStep,
))
    ensures
        next.0@ == if email@.len() == 0 {
            state@
        } else {
            match state@ {
                LoginOtpStateView::GetEmail => LoginOtpStateView::GetOtp(email@),
                LoginOtpStateView::GetOtp(kept) => LoginOtpStateView::GetOtp(kept),
            }
        },
        next.1@ == if email@.len() == 0 {
            OtpStepView::AskForEmail
        } else {
            match state@ {
                LoginOtpStateView::GetEmail => OtpStepView::RequestCode { email: email@ },
                LoginOtpStateView::GetOtp(kept) => OtpStepView::VerifyCode {
                    email: kept,
                    otp: otp@,
                },
            }
        },
{
    if email.as_str().is_empty() {
        return (state, OtpStep::AskForEmail);
    }
    match state {
        LoginOtpState::GetEmail => {
            let kept = email.clone();
            (LoginOtpState::GetOtp(kept), OtpStep::RequestCode { email })
        },
        LoginOtpState::GetOtp(kept) => {
            let to = kept.clone();
            (LoginOtpState::GetOtp(kept), OtpStep::VerifyCode { email: to, otp })
        },
    }
}

} // verus!
