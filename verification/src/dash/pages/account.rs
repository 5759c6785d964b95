//! Changes a user makes to their account, settings and current project.

use vstd::prelude::*;
use crate::dash::data::UserData;

verus! {

/// The account settings a user can change.
pub struct AccountSettings {
    pub email: String,
    pub dark_mode: bool,
}

/// The account form: each field, where given, replaces the setting.
pub struct AccountParams {
    pub dark_mode: Option<bool>,
    pub email: Option<String>,
}

/// Applies the account form to `account`. The page is refreshed (the result)
/// exactly where the form sets dark mode.
pub fn account_post(account: &mut AccountSettings, params: AccountParams) -> (refresh: bool)
    ensures
        final(account).email == (match params.email {
            Some(e) => e,
            None => old(account).email,
        }),
        final(account).dark_mode == (match params.dark_mode {
            Some(d) => d,
            None => old(account).dark_mode,
        }),
        refresh == params.dark_mode is Some,
{
    if let Some(email) = params.email {
        account.email = email;
    }
    if let Some(dark_mode) = params.dark_mode {
        account.dark_mode = dark_mode;
    }
    params.dark_mode.is_some()
}

/// Applies the settings form: dark mode is set as the form says.
pub fn settings_post(account: &mut AccountSettings, dark_mode: bool)
    ensures
        final(account).dark_mode == dark_mode,
        final(account).email == old(account).email,
{
    account.dark_mode = dark_mode;
}

/// Makes `project_id` the project the user views; nothing else changes.
pub fn current_post(data: &mut UserData, project_id: u128)
    ensures
        final(data).current_project == project_id,
        final(data).id == old(data).id,
        final(data).github == old(data).github,
{
    data.current_project = project_id;
}

} // verus!
