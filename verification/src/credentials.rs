//! Caller-supplied API credentials and the bearer header derived from them.

use vstd::prelude::*;
use vstd::string::*;
use crate::strutil::concat2;

verus! {

/// ASCII whitespace, the characters the token is trimmed of.
pub open spec fn is_space(c: char) -> bool {
    c == ' ' || c == '\t' || c == '\n' || c == '\r'
}

/// `r` is `t` with leading and trailing whitespace removed.
pub open spec fn is_trim_of(t: Seq<char>, r: Seq<char>) -> bool {
    if forall|i: int| 0 <= i < t.len() ==> is_space(t[i]) {
        r == Seq::<char>::empty()
    } else {
        exists|a: int, b: int|
            0 <= a <= b < t.len() && !is_space(t[a]) && !is_space(t[b]) && (forall|i: int|
                0 <= i < a ==> is_space(t[i])) && (forall|i: int|
                b < i < t.len() ==> is_space(t[i])) && r == t.subrange(a, b + 1)
    }
}

/// Trims ASCII whitespace from both ends.
pub fn trim_str(s: &str) -> (r: String)
    ensures
        is_trim_of(s@, r@),
{
    let n = s.unicode_len();
    let mut a: usize = 0;
    let mut found = false;
    while !found && a < n
        invariant
            n == s@.len(),
            a <= n,
            found ==> a < n && !is_space(s@[a as int]),
            forall|i: int| 0 <= i < a ==> is_space(s@[i]),
        decreases n - a, (if found { 0int } else { 1int }),
    {
        let c = s.get_char(a);
        if c == ' ' || c == '\t' || c == '\n' || c == '\r' {
            a += 1;
        } else {
            found = true;
        }
    }
    if !found {
        // every character is whitespace
        return String::new();
    }
    let mut b: usize = n - 1;
    let mut found_end = false;
    while !found_end && b > a
        invariant
            n == s@.len(),
            a <= b < n,
            !is_space(s@[a as int]),
            found_end ==> !is_space(s@[b as int]),
            forall|i: int| b < i < n ==> is_space(s@[i]),
        decreases b, (if found_end { 0int } else { 1int }),
    {
        let c = s.get_char(b);
        if c == ' ' || c == '\t' || c == '\n' || c == '\r' {
            b -= 1;
        } else {
            found_end = true;
        }
    }
    let cut = s.substring_char(a, b + 1);
    let r = cut.to_owned();
    proof {
        assert(!is_space(s@[b as int]));
        assert(r@ == s@.subrange(a as int, b as int + 1));
    }
    r
}

/// The bearer token a caller attaches to each request.
pub struct CloudflareCredentials {
    pub api_token: String,
}

impl CloudflareCredentials {
    /// The token has at least one character that is not whitespace.
    pub open spec fn spec_is_valid(self) -> bool {
        exists|i: int| 0 <= i < self.api_token@.len() && !is_space(self.api_token@[i])
    }

    /// Credentials are accepted exactly when the trimmed token is non-empty.
    pub fn is_valid(&self) -> (r: bool)
        ensures
            r == self.spec_is_valid(),
    {
        let s = self.api_token.as_str();
        let n = s.unicode_len();
        let mut i: usize = 0;
        while i < n
            invariant
                s@ == self.api_token@,
                n == s@.len(),
                i <= n,
                forall|j: int| 0 <= j < i ==> is_space(s@[j]),
            decreases n - i,
        {
            let c = s.get_char(i);
            if !(c == ' ' || c == '\t' || c == '\n' || c == '\r') {
                return true;
            }
            i += 1;
        }
        false
    }
}

/// A valid token yields exactly `"Bearer "` followed by the trimmed token;
/// whatever the token, the value is that concatenation.
pub fn bearer_header_value(creds: &CloudflareCredentials) -> (r: String)
    ensures
        exists|t: Seq<char>| is_trim_of(creds.api_token@, t) && r@ == "Bearer "@ + t,
{
    let trimmed = trim_str(creds.api_token.as_str());
    concat2("Bearer ", trimmed.as_str())
}

/// The trimmed token is non-empty exactly when validation accepts the
/// credentials.
pub proof fn lemma_valid_iff_trim_nonempty(creds: CloudflareCredentials, t: Seq<char>)
    requires
        is_trim_of(creds.api_token@, t),
    ensures
        creds.spec_is_valid() <==> t.len() > 0,
{
    let tok = creds.api_token@;
    if creds.spec_is_valid() {
        assert(!(forall|i: int| 0 <= i < tok.len() ==> is_space(tok[i])));
    } else {
        assert(forall|i: int| 0 <= i < tok.len() ==> is_space(tok[i]));
    }
}

} // verus!
