//! The steps of the new-application dialog that pick a source: the
//! accounts of the user's GitHub installations, and the repositories of
//! one account.

use vstd::prelude::*;
use super::source::Installation;
use crate::text::{decimal, decimal_text};

verus! {

/// The accounts offered as sources: each as its avatar address and login.
pub struct NewAppModalSourceAccounts {
    pub accounts: Vec<(String, String)>,
}

/// The avatars and logins of the installations that were found, in order.
pub open spec fn found_accounts(lookups: Seq<Option<Installation>>) -> Seq<(Seq<char>, Seq<char>)>
    decreases lookups.len(),
{
    if lookups.len() == 0 {
        Seq::empty()
    } else {
        let rest = found_accounts(lookups.drop_last());
        match lookups.last() {
            Some(i) => rest.push((i.account_avatar_url@, i.account_login@)),
            None => rest,
        }
    }
}

/// Every installation found is offered, whatever its account's type: one
/// more lookup that found an installation adds exactly that installation's
/// avatar and login after the accounts offered so far; one more lookup that
/// found nothing adds nothing. So the accounts offered are as many as the
/// installations found.
pub proof fn each_found_installation_is_offered(lookups: Seq<Option<Installation>>, i: Installation)
    ensures
        found_accounts(lookups.push(Some(i))) == found_accounts(lookups).push(
            (i.account_avatar_url@, i.account_login@),
        ),
        found_accounts(lookups.push(None)) == found_accounts(lookups),
        found_accounts(lookups).len() <= lookups.len(),
    decreases lookups.len(),
{
    assert(lookups.push(Some(i)).drop_last() =~= lookups);
    assert(lookups.push(None::<Installation>).drop_last() =~= lookups);
    if lookups.len() > 0 {
        each_found_installation_is_offered(lookups.drop_last(), i);
    }
}

/// The view of a list of accounts.
pub open spec fn accounts_view(accounts: Seq<(String, String)>) -> Seq<(Seq<char>, Seq<char>)> {
    accounts.map_values(|a: (String, String)| (a.0@, a.1@))
}

impl NewAppModalSourceAccounts {
    /// The accounts step, from the lookups of the user's installations (one
    /// per installation, in order; `None` where the provider did not find
    /// it): the account of each installation found.
    pub fn from_lookups(lookups: Vec<Option<Installation>>) -> (step: Self)
        ensures
            accounts_view(step.accounts@) == found_accounts(lookups@),
    {
        let ghost whole = lookups@;
        let mut rest = lookups;
        let mut accounts: Vec<(String, String)> = Vec::new();
        let mut k: usize = 0;
        let total = rest.len();
        proof {
            assert(total == whole.len());
            assert(whole.skip(0) =~= whole);
            assert(whole.take(0) =~= Seq::<Option<Installation>>::empty());
            assert(accounts_view(accounts@) =~= Seq::<(Seq<char>, Seq<char>)>::empty());
        }
        while rest.len() > 0
            invariant
                k + rest@.len() == whole.len(),
                whole.len() <= usize::MAX,
                rest@ == whole.skip(k as int),
                accounts_view(accounts@) == found_accounts(whole.take(k as int)),
            decreases rest@.len(),
        {
            let x = rest.remove(0);
            proof {
                assert(x == whole[k as int]);
                assert(rest@ =~= whole.skip(k + 1));
                assert(whole.take(k + 1).drop_last() =~= whole.take(k as int));
                assert(whole.take(k + 1).last() == x);
            }
            match x {
                Some(installation) => {
                    let ghost before = accounts@;
                    accounts.push((installation.account_avatar_url, installation.account_login));
                    proof {
                        assert(accounts_view(accounts@) =~= accounts_view(before).push(
                            (accounts@.last().0@, accounts@.last().1@),
                        ));
                    }
                },
                None => {},
            }
            k = k + 1;
        }
        proof {
            assert(whole.take(k as int) =~= whole);
        }
        NewAppModalSourceAccounts { accounts }
    }
}

/// The repositories offered as sources.
pub struct NewAppModalSourceRepos {
    pub repos: Vec<String>,
}

/// The account whose repositories are asked for.
pub struct ReposQuery {
    pub account: String,
}

/// Whether the repositories of an installation are listed for the account
/// `account`, given its lookup (`Some` login where it was found).
pub open spec fn listed_for(login: Option<String>, account: Seq<char>) -> bool {
    match login {
        Some(l) => l@ == account,
        None => true,
    }
}

/// An installation found under a login is listed for an account exactly
/// when the login is that account, character for character; one the
/// provider did not find is always listed.
pub proof fn listed_only_for_its_own_account(l: String, account: Seq<char>)
    ensures
        listed_for(Some(l), account) <==> l@ == account,
        listed_for(None, account),
{
}

/// Whether the repositories of an installation are listed for `query`:
/// unless the installation was found (`login` is its account's login) and
/// belongs to another account. An installation the provider did not find
/// is listed.
pub fn lists_repos_of(login: &Option<String>, query: &ReposQuery) -> (listed: bool)
    ensures
        listed == listed_for(*login, query.account@),
{
    match login {
        Some(l) => *l == query.account,
        None => true,
    }
}

impl NewAppModalSourceRepos {
    /// Adds the repositories `names` of one installation after those listed
    /// so far.
    pub fn extend(&mut self, names: Vec<String>)
        ensures
            final(self).repos@ == old(self).repos@ + names@,
    {
        let mut names = names;
        self.repos.append(&mut names);
    }
}

/// How many repositories a page of an installation's repositories holds.
pub const REPOS_PER_PAGE: u64 = 100;

/// The provider's path of the page `page` of an installation's
/// repositories, `per_page` to a page.
pub open spec fn repos_page(per_page: nat, page: nat) -> Seq<char> {
    "/installation/repositories?per_page="@ + decimal(per_page) + "&page="@ + decimal(page)
}

/// The path of the page `page` of an installation's repositories,
/// `per_page` to a page; the dialog asks for the first page of
/// `REPOS_PER_PAGE`.
pub fn repos_page_path(per_page: u64, page: u64) -> (path: String)
    ensures
        path@ == repos_page(per_page as nat, page as nat),
{
    let mut path = "/installation/repositories?per_page=".to_string();
    let n = decimal_text(per_page);
    path.append(n.as_str());
    path.append("&page=");
    let m = decimal_text(page);
    path.append(m.as_str());
    proof {
        reveal_strlit("&page=");
    }
    path
}

/// The repositories listed for `account`: in order, the names on the
/// fetched page of each installation, leaving out those found under another
/// account.
pub open spec fn joined_repos(found: Seq<Option<String>>, pages: Seq<Vec<String>>, account: Seq<char>) -> Seq<String>
    decreases found.len(),
{
    if found.len() == 0 || pages.len() == 0 {
        Seq::empty()
    } else {
        let rest = joined_repos(found.drop_last(), pages.drop_last(), account);
        if listed_for(found.last(), account) {
            rest + pages.last()@
        } else {
            rest
        }
    }
}

impl NewAppModalSourceRepos {
    /// The repositories step for `query`, from the user's installations in
    /// order (see `installations`): for each, its lookup (`found`, the
    /// account's login where the provider found it) and the names on the
    /// fetched page of its repositories (`pages`). An installation found
    /// under another account is skipped; the others' names are joined in
    /// order.
    pub fn from_pages(found: Vec<Option<String>>, pages: Vec<Vec<String>>, query: &ReposQuery) -> (step: Self)
        requires
            found@.len() == pages@.len(),
        ensures
            step.repos@ == joined_repos(found@, pages@, query.account@),
    {
        let ghost whole = pages@;
        let mut rest = pages;
        let mut step = NewAppModalSourceRepos { repos: Vec::new() };
        let mut k: usize = 0;
        proof {
            assert(whole.skip(0) =~= whole);
            assert(found@.take(0) =~= Seq::<Option<String>>::empty());
            assert(whole.take(0) =~= Seq::<Vec<String>>::empty());
        }
        while k < found.len()
            invariant
                found@.len() == whole.len(),
                k <= whole.len(),
                rest@ == whole.skip(k as int),
                step.repos@ == joined_repos(found@.take(k as int), whole.take(k as int), query.account@),
            decreases whole.len() - k,
        {
            let names = rest.remove(0);
            proof {
                assert(names == whole[k as int]);
                assert(rest@ =~= whole.skip(k + 1));
                assert(found@.take(k + 1).drop_last() =~= found@.take(k as int));
                assert(whole.take(k + 1).drop_last() =~= whole.take(k as int));
                assert(found@.take(k + 1).last() == found@[k as int]);
                assert(whole.take(k + 1).last() == names);
            }
            if lists_repos_of(&found[k], query) {
                step.extend(names);
            }
            k = k + 1;
        }
        proof {
            assert(found@.take(k as int) =~= found@);
            assert(whole.take(k as int) =~= whole);
        }
        step
    }
}

} // verus!
