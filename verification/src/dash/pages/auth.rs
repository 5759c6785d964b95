//! Signing in, registration, first-time setup and the fallback page.

use vstd::prelude::*;
use super::Outcome;
use super::partial::Head;

verus! {

/// The query of the sign-in page: a message to show, if any.
pub struct Params {
    pub msg: Option<String>,
}

/// The sign-in page: where no user exists yet, the first-time setup at
/// `/setup`; otherwise the page titled `Sign In | ruda` with the query's
/// message.
pub fn login(params: Params, user_count: usize) -> (page: Outcome<(Head, Option<String>)>)
    ensures
        user_count == 0 ==> (page matches Outcome::Redirect(to) && to@ == "/setup"@),
        user_count != 0 ==> (page matches Outcome::Show((head, msg)) && {
            &&& head.title@ == "Sign In | ruda"@
            &&& head.og_site_name@ == "RUDA"@
            &&& msg == params.msg
        }),
{
    if user_count == 0 {
        Outcome::Redirect("/setup".to_string())
    } else {
        Outcome::Show((Head::titled("Sign In | ruda".to_string()), params.msg))
    }
}

/// Why registration was refused.
#[derive(Debug, PartialEq, Eq, Structural)]
pub enum RegisterError {
    /// The configuration closes registration.
    RegistrationClosed,
}

/// The registration page, titled `Sign In | ruda`, where the configuration
/// enables registration; refused otherwise.
pub fn register(registration_enabled: bool) -> (page: Result<Head, RegisterError>)
    ensures
        !registration_enabled ==> page == Err::<Head, RegisterError>(RegisterError::RegistrationClosed),
        registration_enabled ==> (page matches Ok(head) && head.title@ == "Sign In | ruda"@
            && head.og_site_name@ == "RUDA"@),
{
    if !registration_enabled {
        return Err(RegisterError::RegistrationClosed);
    }
    Ok(Head::titled("Sign In | ruda".to_string()))
}

/// The first step of the first-time setup.
pub struct Setup {
    pub head: Head,
}

/// The step of the first-time setup after the first account is made.
pub struct Setup1 {
    pub head: Head,
}

/// The first-time setup page, titled `Setup`: only while no user exists
/// and nobody is signed in; otherwise a redirect to `/`.
pub fn setup(user_count: usize, signed_in: bool) -> (page: Outcome<Setup>)
    ensures
        (user_count != 0 || signed_in) ==> (page matches Outcome::Redirect(to) && to@ == "/"@),
        !(user_count != 0 || signed_in) ==> (page matches Outcome::Show(s)
            && s.head.title@ == "Setup"@ && s.head.og_site_name@ == "RUDA"@),
{
    if user_count != 0 || signed_in {
        return Outcome::Redirect("/".to_string());
    }
    Outcome::Show(Setup { head: Head::titled("Setup".to_string()) })
}

impl Setup1 {
    /// The page shown once the first account is made, titled `Setup`.
    pub fn page() -> (s: Self)
        ensures
            s.head.title@ == "Setup"@,
            s.head.og_site_name@ == "RUDA"@,
    {
        Setup1 { head: Head::titled("Setup".to_string()) }
    }
}

/// The answer to a path that matches no page: for a signed-in user, the
/// page titled `404`; for anyone else, the sign-in page at `/login`.
pub fn login_or_not_found(signed_in: bool) -> (page: Outcome<Head>)
    ensures
        signed_in ==> (page matches Outcome::Show(head) && head.title@ == "404"@
            && head.og_site_name@ == "RUDA"@),
        !signed_in ==> (page matches Outcome::Redirect(to) && to@ == "/login"@),
{
    if signed_in {
        Outcome::Show(Head::titled("404".to_string()))
    } else {
        Outcome::Redirect("/login".to_string())
    }
}

} // verus!
