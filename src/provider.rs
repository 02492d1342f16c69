//! The provider resolver: which supported webmail service a sender address
//! belongs to, and that service's SMTP profile.
use vstd::prelude::*;
use crate::text::str_eq;

verus! {

/// A supported webmail service.
#[derive(Debug, PartialEq, Eq, Structural, Clone, Copy)]
pub enum Provider {
    Gmail,
    Outlook,
}

/// The address that no supported provider serves, kept whole for diagnostics.
#[derive(Debug, PartialEq, Eq)]
pub struct ParseProviderError(pub String);

/// The port of the mail submission service that both relays listen on.
pub const SUBMISSION_PORT: u16 = 587;

/// `i` is the position of the last `@` of `s`.
pub open spec fn is_last_at(s: Seq<char>, i: int) -> bool {
    &&& 0 <= i < s.len()
    &&& s[i] == '@'
    &&& forall|j: int| i < j < s.len() ==> s[j] != '@'
}

/// What follows the last `@` of `s`, or `None` where `s` holds no `@`.
pub open spec fn domain_of(s: Seq<char>) -> Option<Seq<char>> {
    if exists|i: int| is_last_at(s, i) {
        let i = choose|i: int| is_last_at(s, i);
        Some(s.subrange(i + 1, s.len() as int))
    } else {
        None
    }
}

/// The provider that serves a domain: an exact, case-sensitive match.
pub open spec fn provider_of_domain(d: Seq<char>) -> Option<Provider> {
    if d == "gmail.com"@ {
        Some(Provider::Gmail)
    } else if d == "outlook.com"@ || d == "hotmail.com"@ {
        Some(Provider::Outlook)
    } else {
        None
    }
}

/// The provider that serves an address, read from the text after its last `@`.
pub open spec fn resolve_spec(s: Seq<char>) -> Option<Provider> {
    match domain_of(s) {
        Some(d) => provider_of_domain(d),
        None => None,
    }
}

/// The display name of a provider.
pub open spec fn name_spec(p: Provider) -> Seq<char> {
    match p {
        Provider::Gmail => "Gmail"@,
        Provider::Outlook => "Outlook"@,
    }
}

/// The SMTP relay host of a provider.
pub open spec fn host_spec(p: Provider) -> Seq<char> {
    match p {
        Provider::Gmail => "smtp.gmail.com"@,
        Provider::Outlook => "smtp-mail.outlook.com"@,
    }
}

proof fn lemma_last_at_unique(s: Seq<char>, i: int, k: int)
    requires
        is_last_at(s, i),
        is_last_at(s, k),
    ensures
        i == k,
{
    if i < k {
        assert(s[k] != '@');
    } else if k < i {
        assert(s[i] != '@');
    }
}

/// The resolver reads only the domain: for any local part and any domain
/// without `@`, the address `local@domain` resolves as the domain alone does,
/// so every `…@gmail.com` is Gmail, every `…@outlook.com` and `…@hotmail.com`
/// is Outlook, and every other domain is refused.
pub proof fn lemma_resolve_by_domain(local: Seq<char>, domain: Seq<char>)
    requires
        forall|j: int| 0 <= j < domain.len() ==> domain[j] != '@',
    ensures
        resolve_spec(local + seq!['@'] + domain) == provider_of_domain(domain),
        domain == "gmail.com"@ ==> resolve_spec(local + seq!['@'] + domain) == Some(
            Provider::Gmail,
        ),
        domain == "outlook.com"@ || domain == "hotmail.com"@ ==> resolve_spec(
            local + seq!['@'] + domain,
        ) == Some(Provider::Outlook),
        domain != "gmail.com"@ && domain != "outlook.com"@ && domain != "hotmail.com"@
            ==> resolve_spec(local + seq!['@'] + domain) is None,
{
    reveal_strlit("gmail.com");
    reveal_strlit("outlook.com");
    reveal_strlit("hotmail.com");
    let s = local + seq!['@'] + domain;
    let k = local.len() as int;
    assert(s[k] == '@');
    assert forall|j: int| k < j < s.len() implies s[j] != '@' by {
        assert(s[j] == domain[j - k - 1]);
    }
    assert(is_last_at(s, k));
    let c = choose|i: int| is_last_at(s, i);
    lemma_last_at_unique(s, c, k);
    assert(s.subrange(k + 1, s.len() as int) =~= domain);
}

/// Position just after the last `@` of `s`, or `None` where there is none.
fn find_domain_start(s: &str) -> (r: Option<usize>)
    ensures
        match r {
            Some(k) => k >= 1 && is_last_at(s@, k - 1),
            None => forall|i: int| !is_last_at(s@, i),
        },
{
    let n = s.unicode_len();
    let mut i: usize = n;
    while i > 0
        invariant
            n == s@.len(),
            i <= n,
            forall|j: int| i <= j < n ==> s@[j] != '@',
        decreases i,
    {
        if s.get_char(i - 1) == '@' {
            return Some(i);
        }
        i = i - 1;
    }
    proof {
        assert forall|k: int| !is_last_at(s@, k) by {
            if 0 <= k < n {
                assert(s@[k] != '@');
            }
        }
    }
    None
}

impl Provider {
    /// Resolves the provider of a sender address from the text after its
    /// last `@`: `gmail.com` is Gmail, `outlook.com` and `hotmail.com` are
    /// Outlook, anything else (also an address with no `@`) is refused with
    /// the whole address.
    pub fn resolve(email: &str) -> (r: Result<Provider, ParseProviderError>)
        ensures
            match r {
                Ok(p) => resolve_spec(email@) == Some(p),
                Err(e) => resolve_spec(email@) is None && e.0@ == email@,
            },
    {
        let start = find_domain_start(email);
        match start {
            Some(k) => {
                let n = email.unicode_len();
                let domain = email.substring_char(k, n);
                proof {
                    let c = choose|i: int| is_last_at(email@, i);
                    lemma_last_at_unique(email@, c, k - 1);
                    assert(domain_of(email@) == Some(domain@));
                }
                if str_eq(domain, "gmail.com") {
                    Ok(Provider::Gmail)
                } else if str_eq(domain, "outlook.com") || str_eq(domain, "hotmail.com") {
                    Ok(Provider::Outlook)
                } else {
                    Err(ParseProviderError(String::from_str(email)))
                }
            },
            None => Err(ParseProviderError(String::from_str(email))),
        }
    }

    /// The provider's display name.
    pub fn to_string(&self) -> (r: String)
        ensures
            r@ == name_spec(*self),
    {
        match self {
            Provider::Gmail => String::from_str("Gmail"),
            Provider::Outlook => String::from_str("Outlook"),
        }
    }

    /// The host of the provider's SMTP relay.
    pub fn smtp_host(&self) -> (r: &'static str)
        ensures
            r@ == host_spec(*self),
    {
        match self {
            Provider::Gmail => "smtp.gmail.com",
            Provider::Outlook => "smtp-mail.outlook.com",
        }
    }
}

impl std::str::FromStr for Provider {
    type Err = ParseProviderError;

    fn from_str(email: &str) -> (r: Result<Provider, ParseProviderError>)
        ensures
            match r {
                Ok(p) => resolve_spec(email@) == Some(p),
                Err(e) => resolve_spec(email@) is None && e.0@ == email@,
            },
    {
        Provider::resolve(email)
    }
}

} // verus!
