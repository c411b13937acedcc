use vstd::prelude::*;

use crate::policy::Policy;

verus! {

/// Connection settings of the relational store. The store itself is an
/// external collaborator; these values are only carried.
#[derive(Debug, Clone, PartialEq, Eq)]
pub struct DbSettings {
    pub user: Option<String>,
    pub password: Option<String>,
    pub host: Option<String>,
    pub port: u16,
    pub database: Option<String>,
    pub min_connections: u32,
    pub max_connections: u32,
    pub acquire_timeout_secs: u64,
    pub encrypt: bool,
    pub trust_server_certificate: bool,
}

/// Process configuration. The values are read from the environment
/// outside this crate; the last three fields configure the concurrent
/// fan-out fetch.
#[derive(Debug, Clone, PartialEq, Eq)]
pub struct Settings {
    pub db: DbSettings,
    pub port: u16,
    pub jwt_secret: String,
    pub concurrency_limit: usize,
    pub db_query_timeout_secs: u64,
    pub fail_fast: bool,
}

impl Settings {
    /// The batch policy these settings select: the configured concurrency
    /// bound, the per-query timeout converted to milliseconds (saturating
    /// at the largest representable duration), and the configured
    /// aggregation policy.
    pub fn policy(&self) -> (p: Policy)
        ensures
            p.max_concurrency == self.concurrency_limit,
            p.fail_fast == self.fail_fast,
            self.db_query_timeout_secs <= u64::MAX / 1000 ==> p.per_item_timeout_ms
                == self.db_query_timeout_secs * 1000,
            self.db_query_timeout_secs > u64::MAX / 1000 ==> p.per_item_timeout_ms == u64::MAX,
    {
        let ms: u64 = if self.db_query_timeout_secs <= u64::MAX / 1000 {
            self.db_query_timeout_secs * 1000
        } else {
            u64::MAX
        };
        Policy {
            max_concurrency: self.concurrency_limit,
            per_item_timeout_ms: ms,
            fail_fast: self.fail_fast,
        }
    }
}

/// Whether `c` is an ASCII decimal digit.
pub open spec fn is_dec_digit(c: char) -> bool {
    ('0' as u32) <= (c as u32) && (c as u32) <= ('9' as u32)
}

/// Numeric value of one digit.
pub open spec fn digit_val(c: char) -> int {
    (c as u32) - ('0' as u32)
}

/// Whether `s` consists of decimal digits only.
pub open spec fn all_dec_digits(s: Seq<char>) -> bool {
    forall|i: int| 0 <= i < s.len() ==> is_dec_digit(#[trigger] s[i])
}

/// The numeric value of a digit string, most significant digit first.
pub open spec fn dec_value(s: Seq<char>) -> int
    decreases s.len(),
{
    if s.len() == 0 {
        0
    } else {
        dec_value(s.drop_last()) * 10 + digit_val(s.last())
    }
}

/// A digit string has a nonnegative value.
pub proof fn lemma_dec_value_nonneg(s: Seq<char>)
    requires
        all_dec_digits(s),
    ensures
        dec_value(s) >= 0,
    decreases s.len(),
{
    if s.len() > 0 {
        assert(all_dec_digits(s.drop_last()));
        lemma_dec_value_nonneg(s.drop_last());
    }
}

/// Extending a digit string never decreases its value.
pub proof fn lemma_dec_value_prefix_le(s: Seq<char>, j: int)
    requires
        all_dec_digits(s),
        0 <= j <= s.len(),
    ensures
        dec_value(s.take(j)) <= dec_value(s),
    decreases s.len(),
{
    if j == s.len() {
        assert(s.take(j) =~= s);
    } else {
        assert(all_dec_digits(s.drop_last()));
        lemma_dec_value_nonneg(s.drop_last());
        lemma_dec_value_prefix_le(s.drop_last(), j);
        assert(s.drop_last().take(j) =~= s.take(j));
    }
}

/// Parses a nonempty all-digit decimal string whose value fits in `u64`;
/// rejects exactly the empty string, any non-digit, and overflow.
pub fn parse_u64(s: &str) -> (r: Option<u64>)
    ensures
        (r matches Some(v) ==> s@.len() >= 1 && all_dec_digits(s@) && v == dec_value(s@)),
        r is None ==> s@.len() == 0 || !all_dec_digits(s@) || dec_value(s@) > u64::MAX,
{
    let n = s.unicode_len();
    if n == 0 {
        return None;
    }
    let mut acc: u64 = 0;
    let mut i: usize = 0;
    while i < n
        invariant
            n == s@.len(),
            i <= n,
            forall|k: int| 0 <= k < i ==> is_dec_digit(#[trigger] s@[k]),
            acc == dec_value(s@.take(i as int)),
        decreases n - i,
    {
        let c = s.get_char(i);
        let cv: u32 = c as u32;
        if cv < '0' as u32 || cv > '9' as u32 {
            proof {
                assert(!is_dec_digit(s@[i as int]));
            }
            return None;
        }
        let d: u64 = (cv - '0' as u32) as u64;
        proof {
            assert(s@.take(i as int + 1).drop_last() =~= s@.take(i as int));
            assert(s@.take(i as int + 1).last() == s@[i as int]);
        }
        if acc > (u64::MAX - d) / 10 {
            proof {
                assert(dec_value(s@.take(i as int + 1)) == acc * 10 + d);
                assert(acc * 10 + d > u64::MAX);
                if all_dec_digits(s@) {
                    lemma_dec_value_prefix_le(s@, i as int + 1);
                }
            }
            return None;
        }
        acc = acc * 10 + d;
        i = i + 1;
    }
    proof {
        assert(s@.take(n as int) =~= s@);
    }
    Some(acc)
}

/// Parses a decimal string into `usize`; rejects exactly the empty
/// string, any non-digit, and values over `usize::MAX`.
pub fn parse_usize(s: &str) -> (r: Option<usize>)
    ensures
        (r matches Some(v) ==> s@.len() >= 1 && all_dec_digits(s@) && v == dec_value(s@)),
        r is None ==> s@.len() == 0 || !all_dec_digits(s@) || dec_value(s@) > usize::MAX,
{
    match parse_u64(s) {
        Some(v) => {
            if v <= usize::MAX as u64 {
                Some(v as usize)
            } else {
                None
            }
        },
        None => None,
    }
}

/// Parses a decimal string into `u16`; rejects exactly the empty string,
/// any non-digit, and values over `u16::MAX`.
pub fn parse_u16(s: &str) -> (r: Option<u16>)
    ensures
        (r matches Some(v) ==> s@.len() >= 1 && all_dec_digits(s@) && v == dec_value(s@)),
        r is None ==> s@.len() == 0 || !all_dec_digits(s@) || dec_value(s@) > u16::MAX,
{
    match parse_u64(s) {
        Some(v) => {
            if v <= u16::MAX as u64 {
                Some(v as u16)
            } else {
                None
            }
        },
        None => None,
    }
}

/// Parses a decimal string into `u32`; rejects exactly the empty string,
/// any non-digit, and values over `u32::MAX`.
pub fn parse_u32(s: &str) -> (r: Option<u32>)
    ensures
        (r matches Some(v) ==> s@.len() >= 1 && all_dec_digits(s@) && v == dec_value(s@)),
        r is None ==> s@.len() == 0 || !all_dec_digits(s@) || dec_value(s@) > u32::MAX,
{
    match parse_u64(s) {
        Some(v) => {
            if v <= u32::MAX as u64 {
                Some(v as u32)
            } else {
                None
            }
        },
        None => None,
    }
}

/// Recognizes exactly the four spellings that switch a configuration flag
/// on.
pub fn parse_bool_flag(s: &str) -> (b: bool)
    ensures
        b <==> (s@ == "1"@ || s@ == "true"@ || s@ == "True"@ || s@ == "yes"@),
{
    proof {
        reveal_strlit("1");
        reveal_strlit("true");
        reveal_strlit("True");
        reveal_strlit("yes");
    }
    let n = s.unicode_len();
    if n == 1 {
        let r = s.get_char(0) == '1';
        proof {
            if r {
                assert(s@ =~= "1"@);
            }
        }
        r
    } else if n == 4 {
        let c0 = s.get_char(0);
        let c1 = s.get_char(1);
        let c2 = s.get_char(2);
        let c3 = s.get_char(3);
        let r = (c0 == 't' || c0 == 'T') && c1 == 'r' && c2 == 'u' && c3 == 'e';
        proof {
            if r {
                if c0 == 't' {
                    assert(s@ =~= "true"@);
                } else {
                    assert(s@ =~= "True"@);
                }
            }
        }
        r
    } else if n == 3 {
        let c0 = s.get_char(0);
        let c1 = s.get_char(1);
        let c2 = s.get_char(2);
        let r = c0 == 'y' && c1 == 'e' && c2 == 's';
        proof {
            if r {
                assert(s@ =~= "yes"@);
            }
        }
        r
    } else {
        false
    }
}

} // verus!
