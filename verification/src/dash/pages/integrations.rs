//! The integrations page and its forms.

use vstd::prelude::*;
use super::partial::Head;

verus! {

/// The form that adds a Hetzner robot key.
pub struct HrobotForm {
    pub key: String,
}

/// The form that adds a Cloudflare key.
pub struct CloudflareForm {
    pub key: String,
}

/// The provider of an account linked to a user.
#[derive(Clone, Copy, Debug, PartialEq, Eq, Structural)]
pub enum LinkProvider {
    Github,
    Other,
}

/// The integrations page, titled `Integrations`: whether GitHub is
/// integrated, that is whether some linked account is a GitHub one.
pub fn integrations(links: &Vec<LinkProvider>) -> (page: (Head, bool))
    ensures
        page.0.title@ == "Integrations"@,
        page.0.og_site_name@ == "RUDA"@,
        page.1 == exists|i: int| 0 <= i < links@.len() && links@[i] == LinkProvider::Github,
{
    let mut github = false;
    let mut i: usize = 0;
    while i < links.len()
        invariant
            i <= links@.len(),
            github == exists|j: int| 0 <= j < i && links@[j] == LinkProvider::Github,
        decreases links@.len() - i,
    {
        if links[i] == LinkProvider::Github {
            github = true;
        }
        i = i + 1;
    }
    (Head::titled("Integrations".to_string()), github)
}

} // verus!
