//! What can be done with accounts and settings in the tables.

use vstd::prelude::*;
use crate::database::Database;
use crate::database::user_on_staff;
use crate::database::user_rows;
use crate::database::user_with_email;
use crate::order::Order;
use crate::rows::first_of;
use crate::setting::Setting;
use crate::setting::SettingKey;
use crate::setting::SettingView;
use crate::user::Role;
use crate::user::text_of;
use crate::user::User;
use crate::user::user_view;
use crate::user::UserStatus;
use crate::user::UserView;
use crate::user_order::user_order_rows;
use crate::user_order::UserOrder;

verus! {

/// A new account as it is stored: not yet activated, with no secret for
/// login codes.
pub open spec fn new_user(
    id: u64,
    email: Seq<char>,
    phone: Option<Seq<char>>,
    password: Seq<char>,
    name: Seq<char>,
    role: Role,
) -> UserView {
    UserView {
        id,
        email,
        phone,
        password_hash: Some(password),
        otp_secret: None,
        role,
        status: UserStatus::NotActivatedYet,
        name,
    }
}

impl User {
    /// The first account with the address `username`.
    pub fn get_by_username(username: String, db: &Database) -> (found: Option<User>)
        ensures
            user_view(found) == first_of(db@.users, user_with_email(username@)),
    {
        db.user_by_email(username.as_str())
    }

    /// The account with number `id`, if there is one.
    pub fn get_by_id(id: u64, db: &Database) -> (found: Option<User>)
        ensures
            user_view(found) == db@.user(id),
    {
        db.user(id)
    }

    /// The account that a session with number `userid` stands for: the
    /// anonymous visitor for number 0, else the stored account where tables
    /// are at hand and hold it.
    pub fn load_user(userid: u64, db: Option<&Database>) -> (loaded: Option<User>)
        ensures
            user_view(loaded) == if userid == 0 {
                Some(UserView::anonymous())
            } else {
                match db {
                    Some(db) => db@.user(userid),
                    None => None,
                }
            },
    {
        if userid == 0 {
            Some(User::anonymous())
        } else {
            match db {
                Some(db) => db.user(userid),
                None => None,
            }
        }
    }

    /// Adds an account and returns its number, the next one of the table.
    /// An account without an address is stored with an empty one. Where the
    /// numbers have run out, nothing is added.
    pub fn create(
        email: Option<String>,
        phone: Option<String>,
        password: String,
        name: String,
        role: Role,
        db: &mut Database,
    ) -> (id: Option<u64>)
        requires
            old(db).wf(),
        ensures
            final(db).wf(),
            match id {
                Some(id) => id == old(db)@.next_user_id && id < u64::MAX && final(db)@ == old(db)@.with_user(
                    new_user(
                        id,
                        match email {
                            Some(e) => e@,
                            None => Seq::empty(),
                        },
                        text_of(phone),
                        password@,
                        name@,
                        role,
                    ),
                ),
                None => old(db)@.next_user_id == u64::MAX && final(db)@ == old(db)@,
            },
    {
        let email = match email {
            Some(e) => e,
            None => String::new(),
        };
        db.insert_user(
            User {
                id: 0,
                email,
                phone,
                password_hash: Some(password),
                otp_secret: None,
                role,
                status: UserStatus::NotActivatedYet,
                name,
            },
        )
    }

    /// The orders that this person placed, each with their name and
    /// addresses, oldest first.
    pub fn orders(&self, db: &Database) -> (found: Vec<UserOrder>)
        ensures
            user_order_rows(found@) == db@.user_orders_of(self.id),
    {
        Order::get_orders_for_customer(self.id, db)
    }

    /// The accounts of the staff, oldest first.
    pub fn get_all_staff(db: &Database) -> (found: Vec<User>)
        ensures
            user_rows(found@) == db@.users.filter(user_on_staff()),
    {
        db.staff()
    }

    /// Gives the account with number `id` the role `role` and says whether
    /// there was such an account.
    pub fn change_role(id: u64, role: Role, db: &mut Database) -> (changed: bool)
        requires
            old(db).wf(),
        ensures
            final(db).wf(),
            changed == old(db)@.user(id) is Some,
            final(db)@ == match old(db)@.user(id) {
                Some(user) => old(db)@.with_user_written(id, UserView { role, ..user }),
                None => old(db)@,
            },
    {
        db.set_role(id, role)
    }
}

/// The setting that says whether customers may place orders, with `toggle`
/// as its value: the text `1` for yes, `0` for no.
pub open spec fn order_creation_setting(toggle: bool) -> SettingView {
    SettingView {
        name: SettingKey::AllowOrderCreation.spec_name(),
        value: if toggle {
            seq!['1']
        } else {
            seq!['0']
        },
    }
}

impl Setting {
    /// Stores whether customers may place orders. Returns `true`: the
    /// setting is written in every case.
    pub fn toggle_allow_order_creation(toggle: bool, db: &mut Database) -> (written: bool)
        requires
            old(db).wf(),
        ensures
            final(db).wf(),
            written,
            final(db)@ == old(db)@.with_setting(order_creation_setting(toggle)),
    {
        proof {
            reveal_strlit("1");
            reveal_strlit("0");
            assert("1"@ =~= seq!['1']);
            assert("0"@ =~= seq!['0']);
        }
        let value = if toggle {
            String::from_str("1")
        } else {
            String::from_str("0")
        };
        db.put_setting(Setting { name: SettingKey::AllowOrderCreation.name(), value });
        true
    }

    /// The setting that says whether customers may place orders. Where none
    /// is stored, they may.
    pub fn get_allow_order_creation(db: &Database) -> (setting: Setting)
        ensures
            setting@ == match db@.setting(SettingKey::AllowOrderCreation.spec_name()) {
                Some(stored) => stored,
                None => order_creation_setting(true),
            },
    {
        let name = SettingKey::AllowOrderCreation.name();
        match db.setting(name.as_str()) {
            Some(stored) => stored,
            None => {
                proof {
                    reveal_strlit("1");
                    assert("1"@ =~= seq!['1']);
                }
                Setting { name, value: String::from_str("1") }
            },
        }
    }
}

} // verus!
