//! Routing through the TOR proxy: recognising onion addresses and building
//! the proxy URL.
use vstd::prelude::*;

use crate::arguments::Args;
use crate::text::occurs_at;

verus! {

#[verifier::external_type_specification]
#[verifier::external_body]
pub struct ExRegexError(regex::Error);

/// Whether the regular expression `pattern` finds a match anywhere in `haystack`
/// (the answer of `regex::Regex::is_match` on a regex built from `pattern`).
pub uninterp spec fn regex_found(pattern: Seq<char>, haystack: Seq<char>) -> bool;

/// The pattern by which onion addresses are recognised.
pub open spec fn onion_pattern() -> Seq<char> {
    ".*..onion"@
}

/// What `.*..onion` matches: some `onion` preceded by at least two characters,
/// the two just before it not being line feeds (`.` matches any character but `\n`,
/// and `.*` may match nothing).
pub open spec fn has_onion_shape(s: Seq<char>) -> bool {
    exists|i: int| 2 <= i && occurs_at(s, "onion"@, i) && s[i - 2] != '\n' && s[i - 1] != '\n'
}

/// Builds a regex from `pattern` with `regex::Regex::new` and asks it
/// `regex::Regex::is_match` on `haystack`. Claimed: a match result is the named
/// answer for these two strings; and for the onion pattern, which is a valid
/// pattern far below the size limit, building succeeds and the answer is the
/// documented meaning of that pattern (`.` any character but a line feed,
/// search anywhere in the haystack). Nothing is claimed of when building fails
/// for other patterns.
#[verifier::external_body]
fn regex_is_match(pattern: &str, haystack: &str) -> (r: Result<bool, regex::Error>)
    ensures
        r is Ok ==> r->Ok_0 == regex_found(pattern@, haystack@),
        pattern@ == onion_pattern() ==> r is Ok && r->Ok_0 == has_onion_shape(haystack@),
{
    match regex::Regex::new(pattern) {
        Ok(re) => Ok(re.is_match(haystack)),
        Err(e) => Err(e),
    }
}

/// Whether `url` is an onion address, which is only reachable through TOR.
pub fn if_onion_link(url: String) -> (r: bool)
    ensures
        r == has_onion_shape(url@),
        r == regex_found(onion_pattern(), url@),
{
    match regex_is_match(".*..onion", url.as_str()) {
        Ok(b) => b,
        Err(_) => false,
    }
}

/// The character of decimal digit `d`.
pub open spec fn digit_char(d: nat) -> char {
    (d + 48) as char
}

/// Decimal digits of `n`, most significant first, without leading zeros.
pub open spec fn digits(n: nat) -> Seq<char>
    decreases n,
{
    if n < 10 {
        seq![digit_char(n)]
    } else {
        digits(n / 10).push(digit_char(n % 10))
    }
}

/// `n` written in decimal, with a leading `-` when negative (`i32`'s `Display`).
pub open spec fn decimal(n: int) -> Seq<char> {
    if n < 0 {
        seq!['-'] + digits((-n) as nat)
    } else {
        digits(n as nat)
    }
}

fn push_digits(s: &mut String, m: u64)
    ensures
        final(s)@ == old(s)@ + digits(m as nat),
    decreases m,
{
    if m >= 10 {
        push_digits(s, m / 10);
    }
    let d: u8 = (m % 10) as u8;
    let c = (d + 48) as char;
    assert(c == digit_char((m % 10) as nat));
    crate::text::push_char(s, c);
    assert(digits(m as nat) =~= if m < 10 {
        seq![digit_char(m as nat)]
    } else {
        digits((m / 10) as nat).push(digit_char((m % 10) as nat))
    });
}

/// `n` written in decimal.
pub fn decimal_string(n: i32) -> (r: String)
    ensures
        r@ == decimal(n as int),
{
    let mut s = String::new();
    if n < 0 {
        crate::text::push_char(&mut s, '-');
        let m: u64 = (-(n as i64)) as u64;
        push_digits(&mut s, m);
    } else {
        push_digits(&mut s, n as u64);
    }
    s
}

/// The SOCKS5 URL of the TOR proxy at `address`:`port`.
pub open spec fn tor_proxy_spec(address: Seq<char>, port: i32) -> Seq<char> {
    "socks5h://"@ + address + ":"@ + decimal(port as int)
}

/// The URL of the TOR proxy given on the command line.
pub fn tor_proxy_url(address: &str, port: i32) -> (r: String)
    ensures
        r@ == tor_proxy_spec(address@, port),
{
    let s = String::from_str("socks5h://");
    let s = s.concat(address);
    let s = s.concat(":");
    let d = decimal_string(port);
    s.concat(d.as_str())
}

/// Requests for `repo` go through the TOR proxy when TOR was asked for, or
/// when `repo` is an onion address.
pub open spec fn uses_tor(repo: Seq<char>, tor: bool) -> bool {
    tor || has_onion_shape(repo)
}

/// The proxy through which `repo` is fetched, if any.
pub fn proxy_for(repo: &str, args: &Args) -> (r: Option<String>)
    ensures
        uses_tor(repo@, args.tor) ==> r is Some && r->0@ == tor_proxy_spec(
            args.tor_bind_address@,
            args.tor_port,
        ),
        !uses_tor(repo@, args.tor) ==> r is None,
{
    let proxy = tor_proxy_url(args.tor_bind_address.as_str(), args.tor_port);
    if args.tor {
        Some(proxy)
    } else if if_onion_link(String::from_str(repo)) {
        Some(proxy)
    } else {
        None
    }
}

} // verus!
