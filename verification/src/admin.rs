//! The requests of a manager: settings, roles and reports; and what the
//! start page shows to whom.

use vstd::prelude::*;
use crate::database::Database;
use crate::database::user_on_staff;
use crate::database::user_rows;
use crate::database::user_with_email;
use crate::error::RequestError;
use crate::policy::Action;
use crate::rows::first_of;
use crate::setting::Setting;
use crate::setting::SettingKey;
use crate::user::Role;
use crate::user::User;
use crate::user::user_view;
use crate::user::UserView;
use crate::user_store::order_creation_setting;

verus! {

/// What the start page is to show.
#[derive(Debug, Clone, PartialEq, Eq)]
pub enum HomePageResponse {
    LoggedIn(User),
    NotLoggedIn,
}

/// The name of the booth.
#[derive(Debug, Clone, PartialEq, Eq)]
pub struct AppName(pub String);

impl AppName {
    /// The name of the booth: the one that is set, or `Portrait Booth`
    /// where none is.
    pub fn or_default(configured: Option<String>) -> (name: AppName)
        ensures
            name.0@ == match configured {
                Some(text) => text@,
                None => "Portrait Booth"@,
            },
    {
        match configured {
            Some(text) => AppName(text),
            None => AppName(String::from_str("Portrait Booth")),
        }
    }
}

/// What the start page is to show: the person who is logged in, or that
/// nobody is.
pub fn home_page_request(current: Option<User>) -> (response: HomePageResponse)
    ensures
        response == match current {
            Some(user) => HomePageResponse::LoggedIn(user),
            None => HomePageResponse::NotLoggedIn,
        },
{
    match current {
        Some(user) => HomePageResponse::LoggedIn(user),
        None => HomePageResponse::NotLoggedIn,
    }
}

/// Whether customers may place orders: they may unless the setting says
/// otherwise.
pub fn get_allow_order_creation_setting(db: &Database) -> (allowed: bool)
    ensures
        allowed == match db@.setting(SettingKey::AllowOrderCreation.spec_name()) {
            Some(stored) => stored.is_true(),
            None => true,
        },
{
    Setting::get_allow_order_creation(db).is_true()
}

/// A manager opens or closes the booth for new orders.
///
/// Fails with `NotAllowed`, and leaves the tables as they were, where the
/// person is no manager.
pub fn toggle_allow_order_creation(db: &mut Database, user: &User, toggle: bool) -> (written:
    Result<bool, RequestError>)
    requires
        old(db).wf(),
    ensures
        final(db).wf(),
        if user.role.spec_may(Action::ManageBooth) {
            written == Ok::<bool, RequestError>(true) && final(db)@ == old(db)@.with_setting(
                order_creation_setting(toggle),
            )
        } else {
            written == Err::<bool, RequestError>(RequestError::NotAllowed(Action::ManageBooth))
                && final(db)@ == old(db)@
        },
{
    if !user.role.may(Action::ManageBooth) {
        return Err(RequestError::NotAllowed(Action::ManageBooth));
    }
    Ok(Setting::toggle_allow_order_creation(toggle, db))
}

/// The accounts of the staff, for a manager.
///
/// Fails with `NotAllowed` where the person is no manager.
pub fn get_all_staff(db: &Database, user: &User) -> (staff: Result<Vec<User>, RequestError>)
    ensures
        match staff {
            Ok(found) => user.role.spec_may(Action::ManageBooth) && user_rows(found@)
                == db@.users.filter(user_on_staff()),
            Err(error) => !user.role.spec_may(Action::ManageBooth) && error
                == RequestError::NotAllowed(Action::ManageBooth),
        },
{
    if !user.role.may(Action::ManageBooth) {
        return Err(RequestError::NotAllowed(Action::ManageBooth));
    }
    Ok(User::get_all_staff(db))
}

/// The first account with the address `email`, for a manager.
///
/// Fails with `NotAllowed` where the person is no manager.
pub fn get_user_by_email(db: &Database, user: &User, email: String) -> (found: Result<
    Option<User>,
    RequestError,
>)
    ensures
        match found {
            Ok(found) => user.role.spec_may(Action::ManageBooth) && user_view(found) == first_of(
                db@.users,
                user_with_email(email@),
            ),
            Err(error) => !user.role.spec_may(Action::ManageBooth) && error
                == RequestError::NotAllowed(Action::ManageBooth),
        },
{
    if !user.role.may(Action::ManageBooth) {
        return Err(RequestError::NotAllowed(Action::ManageBooth));
    }
    Ok(User::get_by_username(email, db))
}

/// A manager gives the account with number `id` the role `role`. Says
/// whether there was such an account.
///
/// Fails with `NotAllowed`, and leaves the tables as they were, where the
/// person is no manager.
pub fn change_user_role(db: &mut Database, user: &User, id: u64, role: Role) -> (changed: Result<
    bool,
    RequestError,
>)
    requires
        old(db).wf(),
    ensures
        final(db).wf(),
        if user.role.spec_may(Action::ManageBooth) {
            changed == Ok::<bool, RequestError>(old(db)@.user(id) is Some) && final(db)@
                == match old(db)@.user(id) {
                Some(row) => old(db)@.with_user_written(id, UserView { role, ..row }),
                None => old(db)@,
            }
        } else {
            changed == Err::<bool, RequestError>(RequestError::NotAllowed(Action::ManageBooth))
                && final(db)@ == old(db)@
        },
{
    if !user.role.may(Action::ManageBooth) {
        return Err(RequestError::NotAllowed(Action::ManageBooth));
    }
    Ok(User::change_role(id, role, db))
}

/// Whether the person who asks may read the reports: a manager may.
pub fn view_reports_request(user: &User) -> (allowed: Result<(), RequestError>)
    ensures
        allowed == if user.role.spec_may(Action::ViewReports) {
            Ok::<(), RequestError>(())
        } else {
            Err::<(), RequestError>(RequestError::NotAllowed(Action::ViewReports))
        },
{
    if user.role.may(Action::ViewReports) {
        Ok(())
    } else {
        Err(RequestError::NotAllowed(Action::ViewReports))
    }
}

} // verus!
