//! Text and byte helpers: the first line of a message, the order of names,
//! the test for binary content.

use vstd::prelude::*;
use vstd::std_specs::iter::IteratorSpec;
use vstd::string::*;

verus! {

/// The first line of `s`: the text before the first line feed, without a
/// carriage return that stands directly before that line feed. A text
/// without a line feed is its own first line.
pub open spec fn spec_first_line(s: Seq<char>) -> Seq<char> {
    match s.index_of_first('\n') {
        Some(i) => if i > 0 && s[i - 1] == '\r' {
            s.take(i - 1)
        } else {
            s.take(i)
        },
        None => s,
    }
}

/// Whether `k` is where the first line of `s` ends: at the first line feed,
/// or at the end of a text that has none.
pub open spec fn is_first_break(s: Seq<char>, k: int) -> bool {
    &&& 0 <= k <= s.len()
    &&& forall|j: int| 0 <= j < k ==> s[j] != '\n'
    &&& k < s.len() ==> s[k] == '\n'
}

proof fn lemma_first_break(s: Seq<char>, k: int)
    requires
        is_first_break(s, k),
    ensures
        k < s.len() ==> s.index_of_first('\n') == Some(k),
        k == s.len() ==> s.index_of_first('\n') is None,
{
    s.index_of_first_ensures('\n');
}

/// A first line holds no line feed.
pub proof fn lemma_first_line_single(s: Seq<char>)
    ensures
        !spec_first_line(s).contains('\n'),
{
    s.index_of_first_ensures('\n');
}

/// Computes the first line of `s`.
pub fn first_line(s: &str) -> (line: String)
    ensures
        line@ == spec_first_line(s@),
{
    let n: usize = s.unicode_len();
    let mut chars = s.chars();
    let mut k: usize = 0;
    let mut after_cr: bool = false;
    while k < n
        invariant_except_break
            chars.obeys_prophetic_iter_laws(),
            chars.remaining() == s@.skip(k as int),
        invariant
            n == s@.len(),
            k <= n,
            forall|j: int| 0 <= j < k ==> s@[j] != '\n',
            after_cr == (k > 0 && s@[k - 1] == '\r'),
        ensures
            is_first_break(s@, k as int),
        decreases n - k,
    {
        broadcast use next_postcondition;

        match chars.next() {
            Some(c) => {
                if c == '\n' {
                    break;
                }
                after_cr = c == '\r';
                k = k + 1;
            },
            None => {
                break;
            },
        }
    }
    proof {
        lemma_first_break(s@, k as int);
    }
    let end: usize = if k < n && after_cr {
        k - 1
    } else {
        k
    };
    s.substring_char(0, end).to_owned()
}

/// Whether `s` holds the character NUL.
pub fn has_nul(s: &str) -> (found: bool)
    ensures
        found == s@.contains('\0'),
{
    let n: usize = s.unicode_len();
    let mut chars = s.chars();
    let mut k: usize = 0;
    while k < n
        invariant_except_break
            chars.obeys_prophetic_iter_laws(),
            chars.remaining() == s@.skip(k as int),
        invariant
            n == s@.len(),
            k <= n,
            forall|j: int| 0 <= j < k ==> s@[j] != '\0',
        ensures
            k <= n,
            k < n ==> s@[k as int] == '\0',
            k == n ==> !s@.contains('\0'),
        decreases n - k,
    {
        broadcast use next_postcondition;

        match chars.next() {
            Some(c) => {
                if c == '\0' {
                    break;
                }
                k = k + 1;
            },
            None => {
                break;
            },
        }
    }
    k < n
}

/// The order of names: character by character, by code point, a proper
/// prefix first.
pub open spec fn name_le(a: Seq<char>, b: Seq<char>) -> bool
    decreases a.len(),
{
    if a.len() == 0 {
        true
    } else if b.len() == 0 {
        false
    } else if a[0] == b[0] {
        name_le(a.drop_first(), b.drop_first())
    } else {
        (a[0] as u32) < (b[0] as u32)
    }
}

/// Every name is in order with itself.
pub proof fn lemma_name_le_reflexive(a: Seq<char>)
    ensures
        name_le(a, a),
    decreases a.len(),
{
    if a.len() > 0 {
        lemma_name_le_reflexive(a.drop_first());
    }
}

/// Of two names one is in order before the other.
pub proof fn lemma_name_le_total(a: Seq<char>, b: Seq<char>)
    ensures
        name_le(a, b) || name_le(b, a),
    decreases a.len(),
{
    if a.len() > 0 && b.len() > 0 {
        if a[0] == b[0] {
            lemma_name_le_total(a.drop_first(), b.drop_first());
        } else {
            vstd::utf8::char_u32_cast(a[0], a[0] as u32);
            vstd::utf8::char_u32_cast(b[0], b[0] as u32);
        }
    }
}

/// The order of names is transitive.
pub proof fn lemma_name_le_transitive(a: Seq<char>, b: Seq<char>, c: Seq<char>)
    requires
        name_le(a, b),
        name_le(b, c),
    ensures
        name_le(a, c),
    decreases a.len(),
{
    if a.len() > 0 && b.len() > 0 && c.len() > 0 && a[0] == b[0] && b[0] == c[0] {
        lemma_name_le_transitive(a.drop_first(), b.drop_first(), c.drop_first());
    }
}

/// Two names that are in order both ways are one name.
pub proof fn lemma_name_le_antisymmetric(a: Seq<char>, b: Seq<char>)
    requires
        name_le(a, b),
        name_le(b, a),
    ensures
        a == b,
    decreases a.len(),
{
    if a.len() > 0 && b.len() > 0 {
        lemma_name_le_antisymmetric(a.drop_first(), b.drop_first());
        assert(b =~= seq![b[0]] + b.drop_first());
    }
}

/// Whether name `a` is in order before name `b`, or equal to it.
pub fn name_precedes(a: &str, b: &str) -> (r: bool)
    ensures
        r == name_le(a@, b@),
{
    let na: usize = a.unicode_len();
    let nb: usize = b.unicode_len();
    let mut ca = a.chars();
    let mut cb = b.chars();
    let mut k: usize = 0;
    let mut verdict: bool = true;
    assert(a@.skip(0) =~= a@ && b@.skip(0) =~= b@);
    while k < na
        invariant_except_break
            ca.obeys_prophetic_iter_laws(),
            cb.obeys_prophetic_iter_laws(),
            ca.remaining() == a@.skip(k as int),
            cb.remaining() == b@.skip(k as int),
            verdict,
        invariant
            na == a@.len(),
            nb == b@.len(),
            k <= na,
            k <= nb,
            name_le(a@, b@) == name_le(a@.skip(k as int), b@.skip(k as int)),
        ensures
            verdict == name_le(a@.skip(k as int), b@.skip(k as int)),
        decreases na - k,
    {
        broadcast use next_postcondition;

        if k >= nb {
            verdict = false;
            break;
        }
        let x = ca.next();
        let y = cb.next();
        assert(a@.skip(k as int).drop_first() =~= a@.skip(k + 1));
        assert(b@.skip(k as int).drop_first() =~= b@.skip(k + 1));
        match (x, y) {
            (Some(p), Some(q)) => {
                if p != q {
                    verdict = (p as u32) < (q as u32);
                    break;
                }
                k = k + 1;
            },
            _ => {
                break;
            },
        }
    }
    verdict
}

/// How many leading bytes decide whether content is binary.
pub const BINARY_SNIFF_LEN: usize = 8000;

/// Content counts as binary when a zero byte stands among its first
/// `BINARY_SNIFF_LEN` bytes.
pub open spec fn spec_looks_binary(bytes: Seq<u8>) -> bool {
    exists|i: int| 0 <= i < bytes.len() && i < BINARY_SNIFF_LEN && bytes[i] == 0
}

/// Tests content for being binary.
pub fn looks_binary(bytes: &[u8]) -> (r: bool)
    ensures
        r == spec_looks_binary(bytes@),
{
    let limit: usize = if bytes.len() < BINARY_SNIFF_LEN {
        bytes.len()
    } else {
        BINARY_SNIFF_LEN
    };
    let mut i: usize = 0;
    while i < limit
        invariant
            i <= limit,
            limit <= bytes@.len(),
            limit <= BINARY_SNIFF_LEN,
            limit == bytes@.len() || limit == BINARY_SNIFF_LEN,
            forall|j: int| 0 <= j < i ==> bytes@[j] != 0,
        decreases limit - i,
    {
        if bytes[i] == 0 {
            return true;
        }
        i = i + 1;
    }
    false
}

} // verus!
