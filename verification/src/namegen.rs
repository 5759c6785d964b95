//! Readable random names such as `clever-program-0042`, drawn by the
//! `names` crate from a list of adjectives and a list of nouns.

use vstd::prelude::*;
use crate::text::digit_char;

verus! {

/// The four-digit, zero-padded decimal numeral of `n < 10000`.
pub open spec fn four_digits(n: nat) -> Seq<char> {
    seq![
        digit_char(n / 1000),
        digit_char((n / 100) % 10),
        digit_char((n / 10) % 10),
        digit_char(n % 10),
    ]
}

/// The text `adjective-noun-NNNN`.
pub open spec fn numbered(adjective: Seq<char>, noun: Seq<char>, n: nat) -> Seq<char> {
    adjective + seq!['-'] + noun + seq!['-'] + four_digits(n)
}

/// Whether `name` is `adjective-noun-NNNN` for some adjective and noun of
/// the lists and some number from 1 through 9999.
pub open spec fn is_numbered_name(
    name: Seq<char>,
    adjectives: Seq<Seq<char>>,
    nouns: Seq<Seq<char>>,
) -> bool {
    exists|i: int, j: int, n: nat|
        0 <= i < adjectives.len() && 0 <= j < nouns.len() && 1 <= n < 10000 && name
            == #[trigger] numbered(adjectives[i], nouns[j], n)
}

/// The texts of a list of words.
pub open spec fn words(list: Seq<&'static str>) -> Seq<Seq<char>> {
    list.map_values(|w: &'static str| w@)
}

/// Calls `names::Generator::new(adjectives, nouns, Name::Numbered)` and
/// its `next`. The source of `next` picks an adjective and a noun at random
/// and a random number in `1..10000`, and returns
/// `Some(format!("{}-{}-{:04}", ..))`; it panics on an empty list, which
/// `requires` leaves out. The choice is random, so the contract states the
/// shape of every outcome.
#[verifier::external_body]
fn numbered_name(adjectives: &[&'static str], nouns: &[&'static str]) -> (name: Option<String>)
    requires
        adjectives@.len() > 0,
        nouns@.len() > 0,
    ensures
        name is Some,
        is_numbered_name(name->0@, words(adjectives@), words(nouns@)),
{
    names::Generator::new(adjectives, nouns, names::Name::Numbered).next()
}

/// A generator of numbered names over a list of adjectives and a list of
/// nouns (`names::Generator` with the numbered naming strategy).
pub struct NameGenerator {
    pub adjectives: Vec<&'static str>,
    pub nouns: Vec<&'static str>,
}

impl NameGenerator {
    /// Whether both word lists are non-empty, so that a name can be drawn.
    pub open spec fn well_formed(&self) -> bool {
        self.adjectives@.len() > 0 && self.nouns@.len() > 0
    }

    /// Draws the next name: always one, of the form `adjective-noun-NNNN`.
    pub fn next(&mut self) -> (name: Option<String>)
        requires
            old(self).well_formed(),
        ensures
            *final(self) == *old(self),
            name is Some,
            is_numbered_name(
                name->0@,
                words(old(self).adjectives@),
                words(old(self).nouns@),
            ),
    {
        numbered_name(self.adjectives.as_slice(), self.nouns.as_slice())
    }
}

} // verus!
