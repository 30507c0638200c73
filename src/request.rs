//! The command line of a small HTTP client: `get URL` and `post URL key=value...`.

use vstd::prelude::*;

verus! {

/// A `get` request.
#[derive(Debug, PartialEq, Eq)]
pub struct Get {
    /// The URL of the request.
    pub url: String,
}

/// One `key=value` item of a request body.
#[derive(Debug, Clone, PartialEq, Eq)]
pub struct KvPair {
    pub k: String,
    pub v: String,
}

/// A `post` request.
#[derive(Debug, PartialEq, Eq)]
pub struct Post {
    /// The URL of the request.
    pub url: String,
    /// The body, as `key=value` items.
    pub body: Vec<KvPair>,
}

/// The request to make.
#[derive(Debug, PartialEq, Eq)]
pub enum SubCommand {
    Get(Get),
    Post(Post),
}

/// The parsed command line.
#[derive(Debug, PartialEq, Eq)]
pub struct Cli {
    pub command: SubCommand,
}

/// A body item that has no `=`.
#[derive(Debug, PartialEq, Eq)]
pub struct KvPairError {
    /// The text that could not be read.
    pub input: String,
}

impl KvPairError {
    /// The message that reports this error.
    pub fn message(&self) -> (r: String)
        ensures
            r@ == "Failed to parse "@ + self.input@,
    {
        let head = String::from_str("Failed to parse ");
        head.concat(self.input.as_str())
    }
}

/// The text of `s` before its first `=`, or all of `s` where it has none.
pub open spec fn before_equals(s: Seq<char>) -> Seq<char> {
    match s.index_of_first('=') {
        Some(i) => s.take(i),
        None => s,
    }
}

/// The key and the value of a `key=value` item, split at `=` signs: the key
/// is the text before the first one, the value the text between it and the
/// next one (or the end). Text without `=` has none.
pub open spec fn kv_pair_of(s: Seq<char>) -> Option<(Seq<char>, Seq<char>)> {
    match s.index_of_first('=') {
        Some(i) => Some((s.take(i), before_equals(s.skip(i + 1)))),
        None => None,
    }
}

/// The index of the first `c` in `s` at or after `from`, or the length of `s`.
fn find_char(s: &str, c: char, from: usize) -> (r: usize)
    requires
        from <= s@.len(),
    ensures
        from <= r <= s@.len(),
        r < s@.len() ==> s@[r as int] == c,
        forall|j: int| from <= j < r ==> s@[j] != c,
{
    let n = s.unicode_len();
    let mut i = from;
    while i < n
        invariant
            from <= i <= n,
            n == s@.len(),
            forall|j: int| from <= j < i ==> s@[j] != c,
        decreases n - i,
    {
        if s.get_char(i) == c {
            return i;
        }
        i = i + 1;
    }
    i
}

proof fn lemma_first_equals(s: Seq<char>, i: int)
    requires
        0 <= i <= s.len(),
        i < s.len() ==> s[i] == '=',
        forall|j: int| 0 <= j < i ==> s[j] != '=',
    ensures
        i < s.len() ==> s.index_of_first('=') == Some(i),
        i == s.len() ==> s.index_of_first('=') is None,
{
    s.index_of_first_ensures('=');
    if i < s.len() {
        assert(s.contains('='));
    } else {
        if s.contains('=') {
            let k = choose|k: int| 0 <= k < s.len() && s[k] == '=';
            assert(s[k] != '=');
        }
    }
}

/// Reads one `key=value` body item.
pub fn parse_kv_pair(s: &str) -> (r: Result<KvPair, KvPairError>)
    ensures
        match r {
            Ok(p) => kv_pair_of(s@) == Some((p.k@, p.v@)),
            Err(e) => kv_pair_of(s@) is None && e.input@ == s@,
        },
{
    let n = s.unicode_len();
    let i = find_char(s, '=', 0);
    proof {
        lemma_first_equals(s@, i as int);
    }
    if i == n {
        return Err(KvPairError { input: s.to_owned() });
    }
    let j = find_char(s, '=', i + 1);
    let k = s.substring_char(0, i);
    let v = s.substring_char(i + 1, j);
    proof {
        let rest = s@.skip(i + 1);
        assert forall|m: int| 0 <= m < j - (i + 1) implies rest[m] != '=' by {
            assert(rest[m] == s@[m + i + 1]);
        }
        lemma_first_equals(rest, j - (i + 1));
        assert(v@ =~= before_equals(rest));
        assert(k@ =~= s@.take(i as int));
    }
    Ok(KvPair { k: k.to_owned(), v: v.to_owned() })
}

} // verus!
