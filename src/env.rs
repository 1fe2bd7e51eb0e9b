//! Configuration overrides from environment variables, given as pairs of a
//! normalised name (trimmed and in lower case, as figment's `Env::raw` hands
//! them out) and a value. A variable overrides the field of the same name; of
//! several such variables the last wins. Port values are decimal numbers.

use vstd::prelude::*;

use crate::config::{opt_view, ConfigError, ConfigField, ConfigLayer, LayerModel};

verus! {

/// Whether a variable named `key` sets the field named `field`.
pub open spec fn key_matches(key: Seq<char>, field: Seq<char>) -> bool {
    key == field
}

/// The value that the last variable for `field` holds, if any.
pub open spec fn env_value(vars: Seq<(Seq<char>, Seq<char>)>, field: Seq<char>) -> Option<Seq<char>>
    decreases vars.len(),
{
    if vars.len() == 0 {
        None
    } else if key_matches(vars.last().0, field) {
        Some(vars.last().1)
    } else {
        env_value(vars.drop_last(), field)
    }
}

pub open spec fn is_digit(c: char) -> bool {
    '0' <= c && c <= '9'
}

/// The number that a string of decimal digits writes.
pub open spec fn decimal_value(s: Seq<char>) -> nat
    decreases s.len(),
{
    if s.len() == 0 {
        0
    } else {
        decimal_value(s.drop_last()) * 10 + (s.last() as u32 - '0' as u32) as nat
    }
}

/// The port that a run of digits writes: one or more decimal digits, at most 65535.
pub open spec fn digits_port(s: Seq<char>) -> Option<u16> {
    if s.len() > 0 && (forall|i: int| 0 <= i < s.len() ==> is_digit(s[i])) && decimal_value(s)
        <= 65535 {
        Some(decimal_value(s) as u16)
    } else {
        None
    }
}

pub open spec fn is_space(c: char) -> bool {
    c == ' ' || c == '\t' || c == '\n' || c == '\r'
}

/// `s` without the white space around it.
pub open spec fn trimmed(s: Seq<char>) -> Seq<char>
    decreases s.len(),
{
    if s.len() > 0 && is_space(s[0]) {
        trimmed(s.drop_first())
    } else if s.len() > 0 && is_space(s.last()) {
        trimmed(s.drop_last())
    } else {
        s
    }
}

/// `t` without one leading plus sign.
pub open spec fn unsigned_part(t: Seq<char>) -> Seq<char> {
    if t.len() > 0 && t[0] == '+' {
        t.drop_first()
    } else {
        t
    }
}

/// The port that a variable's value writes: a decimal number from 0 to
/// 65535, with white space around it and a leading plus sign allowed.
pub open spec fn port_value(s: Seq<char>) -> Option<u16> {
    digits_port(unsigned_part(trimmed(s)))
}

/// A port override for `field`: absent, valid, or an error naming the field.
pub open spec fn port_override(v: Option<Seq<char>>, field: ConfigField) -> Result<Option<u16>, ConfigError> {
    match v {
        None => Ok(None),
        Some(s) => match port_value(s) {
            Some(p) => Ok(Some(p)),
            None => Err(ConfigError::InvalidValue(field)),
        },
    }
}

/// The layer that a list of environment variables makes.
pub open spec fn env_layer_spec(vars: Seq<(Seq<char>, Seq<char>)>) -> Result<LayerModel, ConfigError> {
    let http = port_override(env_value(vars, "http_port"@), ConfigField::HttpPort);
    let quic = port_override(env_value(vars, "quic_port"@), ConfigField::QuicPort);
    if http is Err {
        Err(http->Err_0)
    } else if quic is Err {
        Err(quic->Err_0)
    } else {
        Ok(
            LayerModel {
                database_url: env_value(vars, "database_url"@),
                blobs_base_path: env_value(vars, "blobs_base_path"@),
                http_port: http->Ok_0,
                quic_port: quic->Ok_0,
            },
        )
    }
}

pub open spec fn vars_view(vars: Seq<(String, String)>) -> Seq<(Seq<char>, Seq<char>)> {
    vars.map_values(|p: (String, String)| (p.0@, p.1@))
}

/// Whether a variable named `key` sets the field named `field`.
pub fn env_key_matches(key: &str, field: &str) -> (r: bool)
    ensures
        r == key_matches(key@, field@),
{
    let n = key.unicode_len();
    if n != field.unicode_len() {
        return false;
    }
    let mut i: usize = 0;
    while i < n
        invariant
            n == key@.len(),
            n == field@.len(),
            i <= n,
            forall|j: int| 0 <= j < i ==> key@[j] == field@[j],
        decreases n - i,
    {
        let k = key.get_char(i);
        let f = field.get_char(i);
        if k != f {
            return false;
        }
        i = i + 1;
    }
    assert(key@ =~= field@);
    true
}

/// The value of the last variable in `vars` that sets `field`.
pub fn lookup_env(vars: &Vec<(String, String)>, field: &str) -> (r: Option<String>)
    ensures
        opt_view(r) == env_value(vars_view(vars@), field@),
{
    let ghost vv = vars_view(vars@);
    let mut i: usize = vars.len();
    assert(vv.subrange(0, i as int) =~= vv);
    while i > 0
        invariant
            i <= vars.len(),
            vv == vars_view(vars@),
            env_value(vv, field@) == env_value(vv.subrange(0, i as int), field@),
        decreases i,
    {
        let (k, v) = &vars[i - 1];
        let ghost sub = vv.subrange(0, i as int);
        assert(sub.drop_last() =~= vv.subrange(0, i - 1));
        assert(sub.last() == (k@, v@));
        if env_key_matches(k.as_str(), field) {
            return Some(v.clone());
        }
        i = i - 1;
    }
    assert(vv.subrange(0, 0) =~= Seq::<(Seq<char>, Seq<char>)>::empty());
    None
}

proof fn lemma_decimal_grows(s: Seq<char>, i: int)
    requires
        0 <= i <= s.len(),
    ensures
        decimal_value(s.subrange(0, i)) <= decimal_value(s),
    decreases s.len() - i,
{
    if i < s.len() {
        lemma_decimal_grows(s, i + 1);
        assert(s.subrange(0, i + 1).drop_last() =~= s.subrange(0, i));
    } else {
        assert(s.subrange(0, i) =~= s);
    }
}

/// Parses the decimal digits of `s` from `start` up to `end`.
fn parse_digits(s: &str, start: usize, end: usize) -> (r: Option<u16>)
    requires
        start <= end <= s@.len(),
    ensures
        r == digits_port(s@.subrange(start as int, end as int)),
{
    let ghost t = s@.subrange(start as int, end as int);
    if start == end {
        return None;
    }
    let mut acc: u32 = 0;
    let mut i: usize = start;
    while i < end
        invariant
            start <= i <= end <= s@.len(),
            t == s@.subrange(start as int, end as int),
            acc as nat == decimal_value(t.subrange(0, i - start)),
            acc <= 65535,
            forall|j: int| 0 <= j < i - start ==> is_digit(t[j]),
        decreases end - i,
    {
        let c = s.get_char(i);
        assert(t.subrange(0, i + 1 - start).drop_last() =~= t.subrange(0, i - start));
        assert(t[i - start] == c);
        if !('0' <= c && c <= '9') {
            return None;
        }
        let next = acc * 10 + (c as u32 - '0' as u32);
        if next > 65535 {
            proof {
                lemma_decimal_grows(t, i + 1 - start);
            }
            return None;
        }
        acc = next;
        i = i + 1;
    }
    assert(t.subrange(0, end - start) =~= t);
    Some(acc as u16)
}

fn is_space_char(c: char) -> (r: bool)
    ensures
        r == is_space(c),
{
    c == ' ' || c == '\t' || c == '\n' || c == '\r'
}

/// Parses a port number: decimal digits, with white space around them and a
/// leading plus sign allowed.
pub fn parse_port(s: &str) -> (r: Option<u16>)
    ensures
        r == port_value(s@),
{
    let n = s.unicode_len();
    let mut lo: usize = 0;
    assert(s@.subrange(0, n as int) =~= s@);
    while lo < n && is_space_char(s.get_char(lo))
        invariant
            n == s@.len(),
            lo <= n,
            trimmed(s@) == trimmed(s@.subrange(lo as int, n as int)),
        decreases n - lo,
    {
        assert(s@.subrange(lo as int, n as int).drop_first() =~= s@.subrange(lo + 1, n as int));
        lo = lo + 1;
    }
    let mut hi: usize = n;
    while hi > lo && is_space_char(s.get_char(hi - 1))
        invariant
            n == s@.len(),
            lo <= hi <= n,
            lo < n ==> !is_space(s@[lo as int]),
            trimmed(s@) == trimmed(s@.subrange(lo as int, hi as int)),
        decreases hi,
    {
        let ghost sub = s@.subrange(lo as int, hi as int);
        assert(sub[0] == s@[lo as int]);
        assert(sub.drop_last() =~= s@.subrange(lo as int, hi - 1));
        hi = hi - 1;
    }
    proof {
        let sub = s@.subrange(lo as int, hi as int);
        if sub.len() > 0 {
            assert(sub[0] == s@[lo as int]);
            assert(sub.last() == s@[hi - 1]);
        }
        assert(trimmed(sub) == sub);
    }
    let mut start: usize = lo;
    if start < hi && s.get_char(start) == '+' {
        start = start + 1;
    }
    proof {
        let sub = s@.subrange(lo as int, hi as int);
        if start > lo {
            assert(sub.drop_first() =~= s@.subrange(start as int, hi as int));
        } else {
            assert(sub =~= s@.subrange(start as int, hi as int));
        }
    }
    parse_digits(s, start, hi)
}

fn port_from_env(v: Option<String>, field: ConfigField) -> (r: Result<Option<u16>, ConfigError>)
    ensures
        r == port_override(opt_view(v), field),
{
    match v {
        None => Ok(None),
        Some(s) => match parse_port(s.as_str()) {
            Some(p) => Ok(Some(p)),
            None => Err(ConfigError::InvalidValue(field)),
        },
    }
}

/// The configuration layer that the environment variables `vars` make.
pub fn env_layer(vars: &Vec<(String, String)>) -> (r: Result<ConfigLayer, ConfigError>)
    ensures
        match r {
            Ok(l) => env_layer_spec(vars_view(vars@)) == Ok::<LayerModel, ConfigError>(l@),
            Err(e) => env_layer_spec(vars_view(vars@)) == Err::<LayerModel, ConfigError>(e),
        },
{
    let http = port_from_env(lookup_env(vars, "http_port"), ConfigField::HttpPort);
    let quic = port_from_env(lookup_env(vars, "quic_port"), ConfigField::QuicPort);
    let http_port = match http {
        Ok(p) => p,
        Err(e) => return Err(e),
    };
    let quic_port = match quic {
        Ok(p) => p,
        Err(e) => return Err(e),
    };
    let database_url = lookup_env(vars, "database_url");
    let blobs_base_path = lookup_env(vars, "blobs_base_path");
    Ok(ConfigLayer { database_url, blobs_base_path, http_port, quic_port })
}

} // verus!
