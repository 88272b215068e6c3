//! How mail is sent.

use vstd::prelude::*;

use crate::text::{ascii_lower, blank, copy_maybe, is_blank, maybe_text, same, to_ascii_lower, to_chars};

verus! {

/// How a connection to a mail server is secured.
#[derive(Debug, Clone, Copy, PartialEq, Eq, Structural)]
pub enum SmtpTls {
    StartTls,
    Implicit,
    NoTls,
}

/// How mail is sent.
#[derive(Debug)]
pub struct SmtpSettings {
    pub host: String,
    pub port: u16,
    pub username: Option<String>,
    pub password: Option<String>,
    pub from: String,
    pub tls: SmtpTls,
}

impl Clone for SmtpSettings {
    fn clone(&self) -> (r: SmtpSettings)
        ensures
            r == *self,
    {
        SmtpSettings {
            host: self.host.clone(),
            port: self.port,
            username: copy_maybe(&self.username),
            password: copy_maybe(&self.password),
            from: self.from.clone(),
            tls: self.tls,
        }
    }
}

/// What the environment says of how mail is sent: `ALERT_SMTP_HOST` and so on, as far as
/// they are set.
#[derive(Debug)]
pub struct SmtpVariables {
    pub host: Option<String>,
    pub port: Option<String>,
    pub username: Option<String>,
    pub password: Option<String>,
    pub from: Option<String>,
    pub tls: Option<String>,
}

/// A text in lower case, as far as its letters are ASCII.
pub open spec fn lowered(s: Seq<char>) -> Seq<char> {
    s.map_values(|c: char| ascii_lower(c))
}

/// How a connection is secured, by its name in any case.
pub open spec fn tls_named(name: Seq<char>) -> SmtpTls {
    if lowered(name) == "implicit"@ {
        SmtpTls::Implicit
    } else if lowered(name) == "none"@ {
        SmtpTls::NoTls
    } else {
        SmtpTls::StartTls
    }
}

/// The port of a mail server where nobody says.
pub open spec fn port_for(tls: SmtpTls) -> u16 {
    if tls == SmtpTls::Implicit {
        465
    } else {
        587
    }
}

/// A variable that is set to more than white space.
pub open spec fn set_to(value: Option<Seq<char>>) -> Option<Seq<char>> {
    match value {
        Some(value) if !is_blank(value) => Some(value),
        _ => None,
    }
}

/// A decimal digit.
pub open spec fn is_digit(c: char) -> bool {
    '0' <= c <= '9'
}

/// The number that a row of digits stands for.
pub open spec fn number_of(digits: Seq<char>) -> nat
    decreases digits.len(),
{
    if digits.len() == 0 {
        0
    } else {
        number_of(digits.drop_last()) * 10 + (digits.last() as nat - '0' as nat) as nat
    }
}

/// The digits of a number that may have a plus before it.
pub open spec fn unsigned_digits(s: Seq<char>) -> Seq<char> {
    if s.len() > 0 && s[0] == '+' {
        s.skip(1)
    } else {
        s
    }
}

/// The port that a text stands for: one digit or more, a plus before them or not, for a
/// number that fits.
pub open spec fn port_number(s: Seq<char>) -> Option<u16> {
    let digits = unsigned_digits(s);
    if digits.len() > 0 && (forall|i: int| 0 <= i < digits.len() ==> is_digit(#[trigger] digits[i]))
        && number_of(digits) <= u16::MAX {
        Some(number_of(digits) as u16)
    } else {
        None
    }
}

/// The port of a mail server: the one that is set, where it is a port.
pub open spec fn chosen_port(port: Option<Seq<char>>, tls: SmtpTls) -> u16 {
    match set_to(port) {
        Some(port) => match port_number(port) {
            Some(port) => port,
            None => port_for(tls),
        },
        None => port_for(tls),
    }
}

/// How a connection is secured.
pub open spec fn chosen_tls(tls: Option<Seq<char>>) -> SmtpTls {
    match tls {
        Some(name) => tls_named(name),
        None => SmtpTls::StartTls,
    }
}

/// How a connection is secured, by its name in any case.
pub fn parse_tls(s: &str) -> (r: SmtpTls)
    ensures
        r == tls_named(s@),
{
    let lower = to_ascii_lower(s);
    if same(lower.as_str(), "implicit") {
        SmtpTls::Implicit
    } else if same(lower.as_str(), "none") {
        SmtpTls::NoTls
    } else {
        SmtpTls::StartTls
    }
}

/// The port of a mail server where nobody says.
pub fn default_port(tls: SmtpTls) -> (r: u16)
    ensures
        r == port_for(tls),
{
    match tls {
        SmtpTls::Implicit => 465,
        _ => 587,
    }
}

/// A variable that is set to more than white space.
fn non_empty(value: &Option<String>) -> (r: Option<String>)
    ensures
        maybe_text(r) == set_to(maybe_text(*value)),
{
    match value {
        Some(value) => if blank(value.as_str()) {
            None
        } else {
            Some(value.clone())
        },
        None => None,
    }
}

/// More digits stand for no smaller a number.
proof fn lemma_number_grows(digits: Seq<char>, n: int)
    requires
        0 <= n <= digits.len(),
    ensures
        number_of(digits.take(n)) <= number_of(digits),
    decreases digits.len(),
{
    if n < digits.len() {
        assert(digits.drop_last().take(n) =~= digits.take(n));
        lemma_number_grows(digits.drop_last(), n);
    } else {
        assert(digits.take(n) =~= digits);
    }
}

/// The port that a text stands for.
pub fn parse_port(s: &str) -> (r: Option<u16>)
    ensures
        r == port_number(s@),
{
    let chars = to_chars(s);
    let start: usize = if chars.len() > 0 && chars[0] == '+' {
        1
    } else {
        0
    };
    let ghost digits = unsigned_digits(s@);
    assert(digits =~= s@.skip(start as int));
    if chars.len() == start {
        return None;
    }
    let mut value: u32 = 0;
    for i in start..chars.len()
        invariant
            start <= 1,
            start < chars@.len(),
            chars@ == s@,
            digits == unsigned_digits(s@),
            digits == s@.skip(start as int),
            value <= u16::MAX,
            value == number_of(digits.take(i - start)),
            forall|j: int| 0 <= j < i - start ==> is_digit(#[trigger] digits[j]),
    {
        let c = chars[i];
        let ghost at = i - start;
        assert(digits[at] == c);
        if !('0' <= c && c <= '9') {
            return None;
        }
        assert(digits.take(at + 1).drop_last() =~= digits.take(at));
        value = value * 10 + (c as u32 - '0' as u32);
        if value > u16::MAX as u32 {
            proof {
                lemma_number_grows(digits, at + 1);
            }
            return None;
        }
    }
    assert(digits.take(digits.len() as int) =~= digits);
    Some(value as u16)
}

impl SmtpSettings {
    /// How mail is sent, where a server and a sender are set.
    pub fn from_variables(variables: &SmtpVariables) -> (r: Option<SmtpSettings>)
        ensures
            r is Some == (set_to(maybe_text(variables.host)) is Some && set_to(
                maybe_text(variables.from),
            ) is Some),
            r matches Some(settings) ==> {
                &&& settings.host@ == set_to(maybe_text(variables.host))->0
                &&& settings.from@ == set_to(maybe_text(variables.from))->0
                &&& settings.tls == chosen_tls(maybe_text(variables.tls))
                &&& settings.port == chosen_port(
                    maybe_text(variables.port),
                    chosen_tls(maybe_text(variables.tls)),
                )
                &&& maybe_text(settings.username) == set_to(maybe_text(variables.username))
                &&& maybe_text(settings.password) == set_to(maybe_text(variables.password))
            },
    {
        let host = match non_empty(&variables.host) {
            Some(host) => host,
            None => {
                return None;
            },
        };
        let from = match non_empty(&variables.from) {
            Some(from) => from,
            None => {
                return None;
            },
        };
        let tls = match &variables.tls {
            Some(name) => parse_tls(name.as_str()),
            None => SmtpTls::StartTls,
        };
        let port: u16 = match non_empty(&variables.port) {
            Some(port) => match parse_port(port.as_str()) {
                Some(port) => port,
                None => default_port(tls),
            },
            None => default_port(tls),
        };
        Some(
            SmtpSettings {
                host,
                port,
                username: non_empty(&variables.username),
                password: non_empty(&variables.password),
                from,
                tls,
            },
        )
    }
}

} // verus!
