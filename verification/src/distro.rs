//! Maps a free-text OS name to an accent color and a built-in logo. The rules
//! are ordered: exact-name rules are tried first, in declaration order, then
//! substring rules, then an unconditional default, and the first match wins.

use vstd::prelude::*;

use crate::strutil::{contains_seq, contains_str, eq_str};

verus! {

/// One built-in logo image.
#[derive(Debug, Clone, Copy, PartialEq, Eq, Structural)]
pub enum Logo {
    Arch,
    Android,
    Debian,
    Ubuntu,
    Fedora,
    Alpine,
    Endeavour,
    Tux,
}

/// The ordered rule table: exact names first, then substrings, then the
/// default pair `(3, Tux)`, which also answers an absent OS name.
pub open spec fn resolve_spec(os: Option<Seq<char>>) -> (u8, Logo) {
    match os {
        Option::None => (3u8, Logo::Tux),
        Option::Some(name) => {
            if name == "Arch Linux"@ {
                (4u8, Logo::Arch)
            } else if name == "EndeavourOS Linux"@ {
                (4u8, Logo::Endeavour)
            } else if contains_seq(name, "Android"@) {
                (2u8, Logo::Android)
            } else if contains_seq(name, "Debian"@) {
                (1u8, Logo::Debian)
            } else if contains_seq(name, "Ubuntu"@) {
                (3u8, Logo::Ubuntu)
            } else if contains_seq(name, "Fedora Linux"@) {
                (4u8, Logo::Fedora)
            } else if contains_seq(name, "Alpine Linux"@) {
                (4u8, Logo::Alpine)
            } else {
                (3u8, Logo::Tux)
            }
        },
    }
}

/// Resolve an OS name to its accent color and logo. Total: every input,
/// an absent name included, yields exactly one pair, and that color is a
/// valid palette index.
pub fn get_distro_image(os: Option<String>) -> (r: (u8, Logo))
    ensures
        r == resolve_spec(crate::config::option_view(os)),
        r.0 <= 7,
{
    match os {
        Option::None => (3, Logo::Tux),
        Option::Some(name) => {
            let n = name.as_str();
            if eq_str(n, "Arch Linux") {
                (4, Logo::Arch)
            } else if eq_str(n, "EndeavourOS Linux") {
                (4, Logo::Endeavour)
            } else if contains_str(n, "Android") {
                (2, Logo::Android)
            } else if contains_str(n, "Debian") {
                (1, Logo::Debian)
            } else if contains_str(n, "Ubuntu") {
                (3, Logo::Ubuntu)
            } else if contains_str(n, "Fedora Linux") {
                (4, Logo::Fedora)
            } else if contains_str(n, "Alpine Linux") {
                (4, Logo::Alpine)
            } else {
                (3, Logo::Tux)
            }
        },
    }
}

/// The resolver is total: every input, an absent name included, resolves to
/// exactly one pair, and its color is a valid palette index.
pub proof fn lemma_resolver_total(os: Option<Seq<char>>)
    ensures
        resolve_spec(os).0 <= 7,
{
}

/// An exact-name rule wins over every substring rule that would also match:
/// a name equal to an exact rule's pattern resolves to that rule's pair,
/// whatever substrings it contains.
pub proof fn lemma_exact_rule_wins(name: Seq<char>)
    ensures
        name == "Arch Linux"@ ==> resolve_spec(Option::Some(name)) == (4u8, Logo::Arch),
        name == "EndeavourOS Linux"@ ==> resolve_spec(Option::Some(name)) == (4u8,
        Logo::Endeavour),
{
    if name == "EndeavourOS Linux"@ {
        reveal_strlit("Arch Linux");
        reveal_strlit("EndeavourOS Linux");
        assert(name.len() == 17);
        assert("Arch Linux"@.len() == 10);
    }
}

/// Substring rules are tried in declaration order: a name that matches both
/// the Debian rule and the Ubuntu rule resolves to the Debian pair, because
/// that rule is declared first.
pub proof fn lemma_substring_order(name: Seq<char>)
    requires
        name != "Arch Linux"@,
        name != "EndeavourOS Linux"@,
        !contains_seq(name, "Android"@),
        contains_seq(name, "Debian"@),
        contains_seq(name, "Ubuntu"@),
    ensures
        resolve_spec(Option::Some(name)) == (1u8, Logo::Debian),
{
}

} // verus!
