//! People who use the booth: customers and staff.

use vstd::prelude::*;

verus! {

/// What a person is to the booth. The order of the variants serves display
/// only: no permission follows from one role standing after another.
#[derive(Debug, Clone, Copy, PartialEq, Eq, PartialOrd, Structural)]
pub enum Role {
    Anonymous,
    Customer,
    Cashier,
    Operator,
    Processor,
    Manager,
}

/// Whether an account may be used.
#[derive(Debug, Clone, Copy, PartialEq, Eq, PartialOrd, Structural)]
pub enum UserStatus {
    Active,
    NotActivatedYet,
    Disabled,
}

impl Role {
    /// The number under which a role is stored.
    pub open spec fn spec_code(self) -> i16 {
        match self {
            Role::Anonymous => 0,
            Role::Customer => 1,
            Role::Cashier => 2,
            Role::Operator => 3,
            Role::Processor => 4,
            Role::Manager => 5,
        }
    }

    /// The number under which a role is stored.
    pub fn code(self) -> (code: i16)
        ensures
            code == self.spec_code(),
    {
        match self {
            Role::Anonymous => 0,
            Role::Customer => 1,
            Role::Cashier => 2,
            Role::Operator => 3,
            Role::Processor => 4,
            Role::Manager => 5,
        }
    }

    /// The role stored under `code`, if there is one.
    pub fn from_code(code: i16) -> (role: Option<Role>)
        ensures
            match role {
                Some(r) => r.spec_code() == code,
                None => forall|r: Role| r.spec_code() != code,
            },
    {
        if code == 0 {
            Some(Role::Anonymous)
        } else if code == 1 {
            Some(Role::Customer)
        } else if code == 2 {
            Some(Role::Cashier)
        } else if code == 3 {
            Some(Role::Operator)
        } else if code == 4 {
            Some(Role::Processor)
        } else if code == 5 {
            Some(Role::Manager)
        } else {
            None
        }
    }

    /// Staff are the roles that work on other people's orders.
    pub open spec fn spec_is_staff(self) -> bool {
        self == Role::Cashier || self == Role::Operator || self == Role::Processor || self
            == Role::Manager
    }

    /// Staff are the roles that work on other people's orders.
    pub fn is_staff(self) -> (staff: bool)
        ensures
            staff == self.spec_is_staff(),
    {
        match self {
            Role::Cashier | Role::Operator | Role::Processor | Role::Manager => true,
            Role::Anonymous | Role::Customer => false,
        }
    }
}

impl UserStatus {
    /// The number under which a status is stored.
    pub open spec fn spec_code(self) -> i16 {
        match self {
            UserStatus::NotActivatedYet => 0,
            UserStatus::Active => 1,
            UserStatus::Disabled => 2,
        }
    }

    /// The number under which a status is stored.
    pub fn code(self) -> (code: i16)
        ensures
            code == self.spec_code(),
    {
        match self {
            UserStatus::NotActivatedYet => 0,
            UserStatus::Active => 1,
            UserStatus::Disabled => 2,
        }
    }

    /// The status stored under `code`, if there is one.
    pub fn from_code(code: i16) -> (status: Option<UserStatus>)
        ensures
            match status {
                Some(s) => s.spec_code() == code,
                None => forall|s: UserStatus| s.spec_code() != code,
            },
    {
        if code == 0 {
            Some(UserStatus::NotActivatedYet)
        } else if code == 1 {
            Some(UserStatus::Active)
        } else if code == 2 {
            Some(UserStatus::Disabled)
        } else {
            None
        }
    }
}

impl Default for Role {
    fn default() -> (role: Role)
        ensures
            role == Role::Customer,
    {
        Role::Customer
    }
}

impl Default for UserStatus {
    fn default() -> (status: UserStatus)
        ensures
            status == UserStatus::NotActivatedYet,
    {
        UserStatus::NotActivatedYet
    }
}

/// The view of an optional text.
pub open spec fn text_of(text: Option<String>) -> Option<Seq<char>> {
    match text {
        Some(t) => Some(t@),
        None => None,
    }
}

/// A copy of an optional text.
pub fn copy_text(text: &Option<String>) -> (copy: Option<String>)
    ensures
        copy == *text,
{
    match text {
        Some(t) => Some(t.clone()),
        None => None,
    }
}

/// An account.
#[derive(Debug, Clone, PartialEq, Eq)]
pub struct User {
    pub id: u64,
    pub email: String,
    pub phone: Option<String>,
    pub password_hash: Option<String>,
    pub otp_secret: Option<String>,
    pub role: Role,
    pub status: UserStatus,
    pub name: String,
}

/// What an account holds, as plain values.
pub struct UserView {
    pub id: u64,
    pub email: Seq<char>,
    pub phone: Option<Seq<char>>,
    pub password_hash: Option<Seq<char>>,
    pub otp_secret: Option<Seq<char>>,
    pub role: Role,
    pub status: UserStatus,
    pub name: Seq<char>,
}

impl View for User {
    type V = UserView;

    open spec fn view(&self) -> UserView {
        UserView {
            id: self.id,
            email: self.email@,
            phone: text_of(self.phone),
            password_hash: text_of(self.password_hash),
            otp_secret: text_of(self.otp_secret),
            role: self.role,
            status: self.status,
            name: self.name@,
        }
    }
}

impl UserView {
    /// The visitor who has not logged in.
    pub open spec fn anonymous() -> UserView {
        UserView {
            id: 0,
            email: Seq::empty(),
            phone: None,
            password_hash: None,
            otp_secret: None,
            role: Role::Anonymous,
            status: UserStatus::Disabled,
            name: "Guest"@,
        }
    }
}

/// The view of an account that may be missing.
pub open spec fn user_view(found: Option<User>) -> Option<UserView> {
    match found {
        Some(user) => Some(user@),
        None => None,
    }
}

impl Default for User {
    fn default() -> (user: User)
        ensures
            user@ == (UserView {
                id: 0,
                email: Seq::empty(),
                phone: None,
                password_hash: None,
                otp_secret: None,
                role: Role::Customer,
                status: UserStatus::NotActivatedYet,
                name: Seq::empty(),
            }),
    {
        User {
            id: 0,
            email: String::new(),
            phone: None,
            password_hash: None,
            otp_secret: None,
            role: Role::Customer,
            status: UserStatus::NotActivatedYet,
            name: String::new(),
        }
    }
}

impl User {
    /// The visitor who has not logged in: account 0, named "Guest".
    pub fn anonymous() -> (user: User)
        ensures
            user@ == UserView::anonymous(),
    {
        User {
            id: 0,
            email: String::new(),
            phone: None,
            password_hash: None,
            otp_secret: None,
            role: Role::Anonymous,
            status: UserStatus::Disabled,
            name: String::from_str("Guest"),
        }
    }

    /// A copy of this account.
    pub fn copy(&self) -> (copy: User)
        ensures
            copy == *self,
    {
        User {
            id: self.id,
            email: self.email.clone(),
            phone: copy_text(&self.phone),
            password_hash: copy_text(&self.password_hash),
            otp_secret: copy_text(&self.otp_secret),
            role: self.role,
            status: self.status,
            name: self.name.clone(),
        }
    }

    /// Whether this is the visitor who has not logged in.
    pub fn is_anonymous(&self) -> (anonymous: bool)
        ensures
            anonymous == (self.role == Role::Anonymous),
    {
        self.role == Role::Anonymous
    }

    /// Whether somebody has logged in.
    pub fn is_authenticated(&self) -> (authenticated: bool)
        ensures
            authenticated == (self.role != Role::Anonymous),
    {
        !self.is_anonymous()
    }

    /// Whether the account may act: every account but the anonymous one.
    pub fn is_active(&self) -> (active: bool)
        ensures
            active == (self.role != Role::Anonymous),
    {
        !self.is_anonymous()
    }
}

} // verus!
