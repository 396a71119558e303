//! Runtime settings of the service.
//!
//! The values themselves are loaded outside (files, environment); here live
//! the types they are loaded into, the environment-name parser and the
//! listen-address formatter.

use vstd::prelude::*;
use crate::ids::hex_digit_char;

verus! {

/// Connection settings of the relational store.
pub struct DatabaseSettings {
    pub username: String,
    pub password: String,
    pub port: u16,
    pub host: String,
    pub database_name: String,
    pub require_ssl: bool,
}

/// Settings of the HTTP listener.
pub struct ApplicationSettings {
    pub port: u16,
    pub host: String,
    pub hmac_secret: String,
}

/// Everything the service is configured with.
pub struct Settings {
    pub database: DatabaseSettings,
    pub application: ApplicationSettings,
    pub redis_uri: String,
}

/// The possible runtimes of the application.
#[derive(Debug)]
pub enum Environment {
    Local,
    Production,
}

/// `c` lowered to its ASCII lower-case counterpart.
pub open spec fn to_ascii_lower(c: char) -> char {
    if 'A' <= c && c <= 'Z' {
        (c as u8 + 32) as char
    } else {
        c
    }
}

/// The two texts are equal up to ASCII letter case.
pub open spec fn ascii_eq_ignore_case(a: Seq<char>, b: Seq<char>) -> bool {
    a.len() == b.len() && forall|i: int|
        0 <= i < a.len() ==> to_ascii_lower(#[trigger] a[i]) == to_ascii_lower(b[i])
}

/// Compare two texts ignoring ASCII letter case.
fn str_eq_ignore_ascii_case(a: &str, b: &str) -> (r: bool)
    ensures
        r == ascii_eq_ignore_case(a@, b@),
{
    let an = a.unicode_len();
    let bn = b.unicode_len();
    if an != bn {
        return false;
    }
    let mut i: usize = 0;
    while i < an
        invariant
            an == a@.len(),
            an == b@.len(),
            0 <= i <= an,
            forall|j: int| 0 <= j < i ==> to_ascii_lower(#[trigger] a@[j]) == to_ascii_lower(b@[j]),
        decreases an - i,
    {
        let ca = a.get_char(i) as u32;
        let cb = b.get_char(i) as u32;
        let la = if 65 <= ca && ca <= 90 {
            ca + 32
        } else {
            ca
        };
        let lb = if 65 <= cb && cb <= 90 {
            cb + 32
        } else {
            cb
        };
        if la != lb {
            proof {
                assert(to_ascii_lower(a@[i as int]) != to_ascii_lower(b@[i as int]));
            }
            return false;
        }
        proof {
            assert(to_ascii_lower(a@[i as int]) == to_ascii_lower(b@[i as int]));
        }
        i = i + 1;
    }
    true
}

impl Environment {
    /// The configuration name of this runtime.
    pub fn as_str(&self) -> (r: &'static str)
        ensures
            self is Local ==> r@ == "local"@,
            self is Production ==> r@ == "production"@,
    {
        match self {
            Environment::Local => "local",
            Environment::Production => "production",
        }
    }

    /// Parse a runtime name, ignoring letter case; on failure the error
    /// text names the rejected value.
    pub fn try_from(value: String) -> (r: Result<Environment, String>)
        ensures
            ascii_eq_ignore_case(value@, "local"@) ==> (r matches Ok(e) && e is Local),
            ascii_eq_ignore_case(value@, "production"@) ==> (r matches Ok(e) && e is Production),
            !ascii_eq_ignore_case(value@, "local"@) && !ascii_eq_ignore_case(
                value@,
                "production"@,
            ) ==> (r matches Err(m) && m@ == value@
                + " is not a supported environment. Use either `local` or `production`"@),
    {
        proof {
            reveal_strlit("local");
            reveal_strlit("production");
        }
        if str_eq_ignore_ascii_case(value.as_str(), "local") {
            Ok(Environment::Local)
        } else if str_eq_ignore_ascii_case(value.as_str(), "production") {
            Ok(Environment::Production)
        } else {
            Err(
                value.concat(
                    " is not a supported environment. Use either `local` or `production`",
                ),
            )
        }
    }
}

/// Decimal text of a number, most significant digit first, no leading
/// zeros.
pub open spec fn dec_text(v: int) -> Seq<char>
    decreases v,
{
    if v < 10 {
        seq![hex_digit_char(if v < 0 {
            0
        } else {
            v
        })]
    } else {
        dec_text(v / 10).push(hex_digit_char(v % 10))
    }
}

/// Decimal text of a 16-bit number.
fn u16_dec(v: u16) -> (r: String)
    ensures
        r@ == dec_text(v as int),
    decreases v,
{
    if v < 10 {
        let s = String::from_str(crate::ids::hex_digit_str(v as u8));
        proof {
            assert(s@ =~= dec_text(v as int));
        }
        s
    } else {
        let mut s = u16_dec(v / 10);
        s.append(crate::ids::hex_digit_str((v % 10) as u8));
        proof {
            assert(s@ =~= dec_text(v as int));
        }
        s
    }
}

impl Settings {
    /// The address the HTTP listener binds: `host:port`.
    pub fn address(&self) -> (r: String)
        ensures
            r@ == self.application.host@ + ":"@ + dec_text(self.application.port as int),
    {
        proof {
            reveal_strlit(":");
        }
        let mut s = self.application.host.clone();
        s.append(":");
        let p = u16_dec(self.application.port);
        s.append(p.as_str());
        s
    }
}

} // verus!
