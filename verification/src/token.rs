use vstd::prelude::*;

verus! {

/// Whether `c` is one of the ASCII whitespace separators recognized
/// between the parts of a header value.
pub open spec fn is_space(c: char) -> bool {
    c == ' ' || c == '\t' || c == '\r' || c == '\n'
}

/// First position at or after `i` holding a non-space, or the end.
pub open spec fn first_nonspace(s: Seq<char>, i: int) -> int
    decreases s.len() - i,
{
    if i >= s.len() || i < 0 {
        s.len() as int
    } else if !is_space(s[i]) {
        i
    } else {
        first_nonspace(s, i + 1)
    }
}

/// First position at or after `i` holding a space, or the end.
pub open spec fn first_space(s: Seq<char>, i: int) -> int
    decreases s.len() - i,
{
    if i >= s.len() || i < 0 {
        s.len() as int
    } else if is_space(s[i]) {
        i
    } else {
        first_space(s, i + 1)
    }
}

/// Whether `t` spells the authorization scheme `Bearer`, ASCII case
/// ignored.
pub open spec fn is_bearer_word(t: Seq<char>) -> bool {
    &&& t.len() == 6
    &&& (t[0] == 'b' || t[0] == 'B')
    &&& (t[1] == 'e' || t[1] == 'E')
    &&& (t[2] == 'a' || t[2] == 'A')
    &&& (t[3] == 'r' || t[3] == 'R')
    &&& (t[4] == 'e' || t[4] == 'E')
    &&& (t[5] == 'r' || t[5] == 'R')
}

/// The bearer token carried by an authorization header value: the second
/// whitespace-separated part, provided the first spells `Bearer` (ASCII
/// case ignored) and a second part exists.
pub open spec fn spec_bearer_token(s: Seq<char>) -> Option<Seq<char>> {
    let a = first_nonspace(s, 0);
    let b = first_space(s, a);
    let c = first_nonspace(s, b);
    let d = first_space(s, c);
    if a == s.len() {
        None
    } else if !is_bearer_word(s.subrange(a, b)) {
        None
    } else if c == s.len() {
        None
    } else {
        Some(s.subrange(c, d))
    }
}

/// Whether `c` is a recognized whitespace separator.
fn space_char(c: char) -> (b: bool)
    ensures
        b == is_space(c),
{
    c == ' ' || c == '\t' || c == '\r' || c == '\n'
}

/// Scans forward from `from` to the first non-space, or the end.
fn scan_nonspace(s: &str, from: usize) -> (r: usize)
    requires
        from <= s@.len(),
    ensures
        from <= r <= s@.len(),
        r == first_nonspace(s@, from as int),
{
    let n = s.unicode_len();
    let mut i = from;
    while i < n && space_char(s.get_char(i))
        invariant
            from <= i <= n,
            n == s@.len(),
            first_nonspace(s@, from as int) == first_nonspace(s@, i as int),
        decreases n - i,
    {
        i = i + 1;
    }
    i
}

/// Scans forward from `from` to the first space, or the end.
fn scan_space(s: &str, from: usize) -> (r: usize)
    requires
        from <= s@.len(),
    ensures
        from <= r <= s@.len(),
        r == first_space(s@, from as int),
{
    let n = s.unicode_len();
    let mut i = from;
    while i < n && !space_char(s.get_char(i))
        invariant
            from <= i <= n,
            n == s@.len(),
            first_space(s@, from as int) == first_space(s@, i as int),
        decreases n - i,
    {
        i = i + 1;
    }
    i
}

/// Token handling around the stored-token scheme. Issuing, persisting and
/// revoking tokens go through the relational store and the encryption
/// scheme, both outside this crate; what lives here is the pure parsing
/// of the authorization header.
pub struct TokenService;

impl TokenService {
    /// Extracts the bearer token from an authorization header value: the
    /// part after the `Bearer` scheme word (ASCII case ignored), the
    /// parts being separated by ASCII whitespace. Yields nothing when the
    /// scheme word is absent or different, or no token follows it.
    pub fn extract_token_from_header(header: &str) -> (r: Option<String>)
        ensures
            (spec_bearer_token(header@) matches Some(t) ==> (r matches Some(x) && x@ == t)),
            spec_bearer_token(header@) is None ==> r is None,
    {
        let n = header.unicode_len();
        let a = scan_nonspace(header, 0);
        if a == n {
            return None;
        }
        let b = scan_space(header, a);
        if !(b - a == 6) {
            proof {
                assert(!is_bearer_word(header@.subrange(a as int, b as int)));
            }
            return None;
        }
        let c0 = header.get_char(a);
        let c1 = header.get_char(a + 1);
        let c2 = header.get_char(a + 2);
        let c3 = header.get_char(a + 3);
        let c4 = header.get_char(a + 4);
        let c5 = header.get_char(a + 5);
        let bearer = (c0 == 'b' || c0 == 'B') && (c1 == 'e' || c1 == 'E') && (c2 == 'a' || c2
            == 'A') && (c3 == 'r' || c3 == 'R') && (c4 == 'e' || c4 == 'E') && (c5 == 'r' || c5
            == 'R');
        proof {
            let t = header@.subrange(a as int, b as int);
            assert(t.len() == 6);
            assert(t[0] == header@[a as int]);
            assert(t[1] == header@[a as int + 1]);
            assert(t[2] == header@[a as int + 2]);
            assert(t[3] == header@[a as int + 3]);
            assert(t[4] == header@[a as int + 4]);
            assert(t[5] == header@[a as int + 5]);
            assert(bearer == is_bearer_word(t));
        }
        if !bearer {
            return None;
        }
        let c = scan_nonspace(header, b);
        if c == n {
            return None;
        }
        let d = scan_space(header, c);
        let token = header.substring_char(c, d);
        Some(token.to_owned())
    }
}

} // verus!
