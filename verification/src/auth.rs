//! The request-authentication gate: a pure decision over the client's
//! address, the `Authorization` header, and the configured rules.
//!
//! The decision table, over `(check_ip, check_key)`:
//! both disabled passes everyone through unauthenticated; key-only demands a
//! `Bearer` token found in the key allow-list; address-only demands a
//! resolved client address found in the address allow-list; both enabled
//! demand both. Anything else is one uniform rejection, and a client
//! address that could not be resolved rejects rather than erring.

use vstd::prelude::*;

use crate::config::AuthenticationConfig;

verus! {

/// The outcome of a decision in the caller's favour. `authenticated`
/// stays false in the pass-through case, in which both checks are
/// disabled.
#[derive(Clone, Copy, PartialEq, Eq, Structural, Debug)]
pub struct Client {
    pub authenticated: bool,
}

/// The whitespace trimmed from around a bearer token. Header values are
/// visible ASCII, so these four characters are the whitespace that can
/// surround a token.
pub open spec fn spec_is_space(c: char) -> bool {
    c == ' ' || c == '\t' || c == '\r' || c == '\n'
}

/// `s` without its leading whitespace.
pub open spec fn spec_trim_start(s: Seq<char>) -> Seq<char>
    decreases s.len(),
{
    if s.len() > 0 && spec_is_space(s[0]) {
        spec_trim_start(s.drop_first())
    } else {
        s
    }
}

/// `s` without its trailing whitespace.
pub open spec fn spec_trim_end(s: Seq<char>) -> Seq<char>
    decreases s.len(),
{
    if s.len() > 0 && spec_is_space(s.last()) {
        spec_trim_end(s.drop_last())
    } else {
        s
    }
}

/// `s` without whitespace on either side.
pub open spec fn spec_trim(s: Seq<char>) -> Seq<char> {
    spec_trim_end(spec_trim_start(s))
}

/// The token of a well-formed `Authorization` value: the value must begin
/// with the exact prefix `Bearer` (case-sensitively), and the token is what
/// follows it, trimmed.
pub open spec fn spec_bearer_token(v: Seq<char>) -> Option<Seq<char>> {
    if v.len() >= 6 && v.subrange(0, 6) == "Bearer"@ {
        Some(spec_trim(v.skip(6)))
    } else {
        None
    }
}

/// Whether `s` is one of the strings in `allowed`.
pub open spec fn spec_in_list(s: Seq<char>, allowed: Seq<String>) -> bool {
    exists|i: int| 0 <= i < allowed.len() && #[trigger] allowed[i]@ == s
}

fn is_space_char(c: char) -> (r: bool)
    ensures
        r == spec_is_space(c),
{
    c == ' ' || c == '\t' || c == '\r' || c == '\n'
}

fn string_in_list(s: &String, allowed: &[String]) -> (r: bool)
    ensures
        r == spec_in_list(s@, allowed@),
{
    let n = allowed.len();
    let mut i: usize = 0;
    while i < n
        invariant
            n == allowed@.len(),
            i <= n,
            forall|j: int| 0 <= j < i ==> #[trigger] allowed@[j]@ != s@,
        decreases n - i,
    {
        if allowed[i].eq(s) {
            return true;
        }
        i += 1;
    }
    false
}

/// Whether the client's address is one of the allow-listed addresses.
pub fn ip_allowed(client_ip: &String, allowed_ips: &[String]) -> (r: bool)
    ensures
        r == spec_in_list(client_ip@, allowed_ips@),
{
    string_in_list(client_ip, allowed_ips)
}

/// `s` with surrounding whitespace removed.
fn trim_str<'a>(s: &'a str) -> (r: &'a str)
    ensures
        r@ == spec_trim(s@),
{
    let len = s.unicode_len();
    proof {
        assert(s@.subrange(0, len as int) =~= s@);
    }
    let mut start: usize = 0;
    while start < len && is_space_char(s.get_char(start))
        invariant
            len == s@.len(),
            start <= len,
            spec_trim_start(s@) == spec_trim_start(s@.subrange(start as int, len as int)),
        decreases len - start,
    {
        proof {
            let t = s@.subrange(start as int, len as int);
            assert(t[0] == s@[start as int]);
            assert(t.drop_first() =~= s@.subrange(start + 1, len as int));
        }
        start += 1;
    }
    proof {
        assert(spec_trim_start(s@.subrange(start as int, len as int))
            == s@.subrange(start as int, len as int));
    }
    let mut end: usize = len;
    while end > start && is_space_char(s.get_char(end - 1))
        invariant
            len == s@.len(),
            start <= end <= len,
            spec_trim_start(s@) == s@.subrange(start as int, len as int),
            spec_trim_end(s@.subrange(start as int, len as int))
                == spec_trim_end(s@.subrange(start as int, end as int)),
        decreases end,
    {
        proof {
            let t = s@.subrange(start as int, end as int);
            assert(t.last() == s@[end - 1]);
            assert(t.drop_last() =~= s@.subrange(start as int, end - 1));
        }
        end -= 1;
    }
    proof {
        assert(spec_trim_end(s@.subrange(start as int, end as int))
            == s@.subrange(start as int, end as int));
    }
    s.substring_char(start, end)
}

fn is_bearer_prefix(v: &str) -> (r: bool)
    requires
        v@.len() >= 6,
    ensures
        r == (v@.subrange(0, 6) == "Bearer"@),
{
    let r = v.get_char(0) == 'B' && v.get_char(1) == 'e' && v.get_char(2) == 'a'
        && v.get_char(3) == 'r' && v.get_char(4) == 'e' && v.get_char(5) == 'r';
    proof {
        reveal_strlit("Bearer");
        if r {
            assert(v@.subrange(0, 6) =~= "Bearer"@);
        } else {
            if v@.subrange(0, 6) == "Bearer"@ {
                assert(v@[0] == v@.subrange(0, 6)[0]);
                assert(v@[1] == v@.subrange(0, 6)[1]);
                assert(v@[2] == v@.subrange(0, 6)[2]);
                assert(v@[3] == v@.subrange(0, 6)[3]);
                assert(v@[4] == v@.subrange(0, 6)[4]);
                assert(v@[5] == v@.subrange(0, 6)[5]);
            }
        }
    }
    r
}

/// The token of a well-formed `Bearer` value, or nothing when the value
/// has no such shape.
fn bearer_token<'a>(v: &'a str) -> (r: Option<&'a str>)
    ensures
        (r is Some) == (spec_bearer_token(v@) is Some),
        r matches Some(t) ==> spec_bearer_token(v@) == Some(t@),
{
    let len = v.unicode_len();
    if len < 6 {
        return None;
    }
    if is_bearer_prefix(v) {
        let rest = v.substring_char(6, len);
        proof {
            assert(rest@ =~= v@.skip(6));
        }
        Some(trim_str(rest))
    } else {
        None
    }
}

/// Whether an `Authorization` header value carries an allow-listed bearer
/// key: the value must exist, parse as `Bearer <token>` with the token
/// trimmed, and the token must be in `allowed_keys`.
pub fn auth_value_allowed(value: Option<&str>, allowed_keys: &[String]) -> (r: Option<()>)
    ensures
        (r is Some) == (value matches Some(v)
            && (spec_bearer_token(v@) matches Some(t) && spec_in_list(t, allowed_keys@))),
{
    match value {
        Some(v) => match bearer_token(v) {
            Some(tok) => {
                let tok_string = String::from_str(tok);
                if string_in_list(&tok_string, allowed_keys) {
                    Some(())
                } else {
                    None
                }
            },
            None => None,
        },
        None => None,
    }
}

/// Whether the address check passes: an address was resolved and it is
/// allow-listed. An unresolved address fails closed.
pub open spec fn spec_ip_ok(client_ip: Option<&String>, a: AuthenticationConfig) -> bool {
    client_ip matches Some(ip) && spec_in_list(ip@, a.allowed_ip@)
}

/// Whether the key check passes: a header value was given, it has the
/// `Bearer <token>` shape, and the token is allow-listed.
pub open spec fn spec_key_ok(authorization: Option<&str>, a: AuthenticationConfig) -> bool {
    authorization matches Some(v)
        && (spec_bearer_token(v@) matches Some(t) && spec_in_list(t, a.allowed_keys@))
}

/// The decision table over `(check_ip, check_key)`: both disabled lets the
/// request through unauthenticated; an enabled check must pass; every
/// failure is the same opaque rejection.
pub open spec fn spec_check_client(
    client_ip: Option<&String>,
    authorization: Option<&str>,
    a: AuthenticationConfig,
) -> Option<Client> {
    match (a.check_ip, a.check_key) {
        (false, false) => Some(Client { authenticated: false }),
        (false, true) => if spec_key_ok(authorization, a) {
            Some(Client { authenticated: true })
        } else {
            None
        },
        (true, false) => if spec_ip_ok(client_ip, a) {
            Some(Client { authenticated: true })
        } else {
            None
        },
        (true, true) => if spec_ip_ok(client_ip, a) && spec_key_ok(authorization, a) {
            Some(Client { authenticated: true })
        } else {
            None
        },
    }
}

/// The authentication gate: decide whether a request with the given client
/// address and `Authorization` header may pass under the configured rules.
/// `None` is the single uniform rejection.
pub fn check_client(
    client_ip: Option<&String>,
    authorization: Option<&str>,
    config: &AuthenticationConfig,
) -> (r: Option<Client>)
    ensures
        r == spec_check_client(client_ip, authorization, *config),
{
    let ip_ok = match client_ip {
        Some(ip) => ip_allowed(ip, config.allowed_ip.as_slice()),
        None => false,
    };
    let key_ok = auth_value_allowed(authorization, config.allowed_keys.as_slice()).is_some();
    match (config.check_ip, config.check_key) {
        (false, false) => Some(Client { authenticated: false }),
        (false, true) => if key_ok {
            Some(Client { authenticated: true })
        } else {
            None
        },
        (true, false) => if ip_ok {
            Some(Client { authenticated: true })
        } else {
            None
        },
        (true, true) => if ip_ok && key_ok {
            Some(Client { authenticated: true })
        } else {
            None
        },
    }
}

} // verus!
