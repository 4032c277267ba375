//! Character-level helpers shared by the request parser and the path resolver.

use vstd::prelude::*;
use vstd::utf8::*;

verus! {

/// Whether `c` carries the Unicode `White_Space` property.
pub open spec fn is_space(c: char) -> bool {
    let u = c as u32;
    ||| 0x09 <= u <= 0x0D
    ||| u == 0x20
    ||| u == 0x85
    ||| u == 0xA0
    ||| u == 0x1680
    ||| 0x2000 <= u <= 0x200A
    ||| u == 0x2028
    ||| u == 0x2029
    ||| u == 0x202F
    ||| u == 0x205F
    ||| u == 0x3000
}

/// Executable test for [`is_space`].
pub fn is_whitespace(c: char) -> (r: bool)
    ensures
        r == is_space(c),
{
    let u: u32 = c as u32;
    (0x09 <= u && u <= 0x0D) || u == 0x20 || u == 0x85 || u == 0xA0 || u == 0x1680 || (0x2000 <= u
        && u <= 0x200A) || u == 0x2028 || u == 0x2029 || u == 0x202F || u == 0x205F || u == 0x3000
}

/// A class of characters that separates the fields of a text.
#[derive(Clone, Copy, Debug)]
pub enum Separator {
    /// Any character for which [`is_space`] holds.
    Whitespace,
    /// The path separator `/`.
    Slash,
    /// The line feed that ends a line.
    LineFeed,
}

impl Separator {
    /// Whether `c` belongs to this class.
    pub open spec fn matches(self, c: char) -> bool {
        match self {
            Separator::Whitespace => is_space(c),
            Separator::Slash => c == '/',
            Separator::LineFeed => c == '\n',
        }
    }

    /// Executable test for [`Separator::matches`].
    pub fn test(&self, c: char) -> (r: bool)
        ensures
            r == self.matches(c),
    {
        match self {
            Separator::Whitespace => is_whitespace(c),
            Separator::Slash => c == '/',
            Separator::LineFeed => c == '\n',
        }
    }
}

/// The first position at or after `i` that does not hold a separator; the
/// length of `s` when only separators follow.
pub open spec fn field_start(s: Seq<char>, sep: Separator, i: int) -> int
    decreases s.len() - i,
{
    if 0 <= i < s.len() && sep.matches(s[i]) {
        field_start(s, sep, i + 1)
    } else {
        i
    }
}

/// The first position at or after `i` that holds a separator; the length of
/// `s` when none follows.
pub open spec fn field_end(s: Seq<char>, sep: Separator, i: int) -> int
    decreases s.len() - i,
{
    if 0 <= i < s.len() && !sep.matches(s[i]) {
        field_end(s, sep, i + 1)
    } else {
        i
    }
}

/// The fields of `s` that begin at or after `i`: the maximal runs of
/// characters that are not separators, in order.
pub open spec fn fields_from(s: Seq<char>, sep: Separator, i: int) -> Seq<Seq<char>>
    decreases s.len() - i,
{
    let a = field_start(s, sep, i);
    if 0 <= i <= a < s.len() {
        let b = field_end(s, sep, a + 1);
        if a < b <= s.len() {
            seq![s.subrange(a, b)] + fields_from(s, sep, b)
        } else {
            seq![]
        }
    } else {
        seq![]
    }
}

/// The fields of `s`: its maximal runs of characters that are not
/// separators. Empty fields do not occur.
pub open spec fn fields(s: Seq<char>, sep: Separator) -> Seq<Seq<char>> {
    fields_from(s, sep, 0)
}

/// `field_end` stays within the text, and no separator stands before it.
proof fn lemma_field_end(s: Seq<char>, sep: Separator, i: int)
    requires
        0 <= i <= s.len(),
    ensures
        i <= field_end(s, sep, i) <= s.len(),
        forall|k: int| i <= k < field_end(s, sep, i) ==> !sep.matches(#[trigger] s[k]),
    decreases s.len() - i,
{
    if i < s.len() && !sep.matches(s[i]) {
        lemma_field_end(s, sep, i + 1);
    }
}

/// `field_start` stays within the text and stops before a character that
/// is no separator.
proof fn lemma_field_start(s: Seq<char>, sep: Separator, i: int)
    requires
        0 <= i <= s.len(),
    ensures
        i <= field_start(s, sep, i) <= s.len(),
        field_start(s, sep, i) < s.len() ==> !sep.matches(s[field_start(s, sep, i)]),
    decreases s.len() - i,
{
    if i < s.len() && sep.matches(s[i]) {
        lemma_field_start(s, sep, i + 1);
    }
}

/// Every field is a run of the text: it is not empty and holds no
/// separator.
pub proof fn law_fields_hold_no_separator(s: Seq<char>, sep: Separator, i: int)
    requires
        0 <= i <= s.len(),
    ensures
        forall|k: int|
            0 <= k < fields_from(s, sep, i).len() ==> (#[trigger] fields_from(s, sep, i)[k]).len()
                > 0,
        forall|k: int, j: int|
            0 <= k < fields_from(s, sep, i).len() && 0 <= j < fields_from(s, sep, i)[k].len()
                ==> !sep.matches(#[trigger] fields_from(s, sep, i)[k][j]),
    decreases s.len() - i,
{
    let a = field_start(s, sep, i);
    lemma_field_start(s, sep, i);
    if a < s.len() {
        let b = field_end(s, sep, a + 1);
        lemma_field_end(s, sep, a + 1);
        law_fields_hold_no_separator(s, sep, b);
        let rest = fields_from(s, sep, b);
        let all = fields_from(s, sep, i);
        assert(all == seq![s.subrange(a, b)] + rest);
        assert forall|k: int| 0 <= k < all.len() implies (#[trigger] all[k]).len() > 0 && (forall|
            j: int,
        |
            0 <= j < all[k].len() ==> !sep.matches(#[trigger] all[k][j])) by {
            if k == 0 {
                assert(all[0] == s.subrange(a, b));
            } else {
                assert(all[k] == rest[k - 1]);
            }
        }
    }
}

/// The position up to which `s` reads once the whitespace that ends at `j`
/// is removed.
pub open spec fn trim_end(s: Seq<char>, j: int) -> int
    decreases j,
{
    if 0 < j <= s.len() && is_space(s[j - 1]) {
        trim_end(s, j - 1)
    } else {
        j
    }
}

/// `s` without the whitespace at its start and at its end.
pub open spec fn trimmed(s: Seq<char>) -> Seq<char> {
    let a = field_start(s, Separator::Whitespace, 0);
    let b = trim_end(s, s.len() as int);
    if a < b {
        s.subrange(a, b)
    } else {
        Seq::empty()
    }
}

/// `trim_end` never moves forward.
proof fn lemma_trim_end_lower(s: Seq<char>, j: int)
    ensures
        trim_end(s, j) <= j,
    decreases j,
{
    if 0 < j <= s.len() && is_space(s[j - 1]) {
        lemma_trim_end_lower(s, j - 1);
    }
}

/// The views of a vector of strings.
pub open spec fn texts(v: Seq<String>) -> Seq<Seq<char>> {
    Seq::new(v.len(), |i: int| v[i]@)
}

/// The characters of `s`, in order, as a vector that can be indexed in constant time.
pub fn to_chars(s: &str) -> (v: Vec<char>)
    ensures
        v@ == s@,
{
    let mut v: Vec<char> = Vec::new();
    for c in it: s.chars()
        invariant
            it.seq() == s@,
            v@ == it.seq().take(it.index() as int),
    {
        v.push(c);
    }
    v
}

/// Splits `s` at the separators of class `sep` and returns the fields in order.
pub fn split_fields(s: &str, sep: Separator) -> (out: Vec<String>)
    ensures
        texts(out@) == fields(s@, sep),
{
    let chars = to_chars(s);
    let n = chars.len();
    let mut out: Vec<String> = Vec::new();
    let mut i: usize = 0;
    while i < n
        invariant
            i <= n,
            n == chars@.len(),
            chars@ == s@,
            fields(s@, sep) == texts(out@) + fields_from(s@, sep, i as int),
        decreases n - i,
    {
        let mut a: usize = i;
        while a < n && sep.test(chars[a])
            invariant
                i <= a <= n,
                n == chars@.len(),
                chars@ == s@,
                field_start(s@, sep, a as int) == field_start(s@, sep, i as int),
            decreases n - a,
        {
            a += 1;
        }
        if a == n {
            return out;
        }
        let mut b: usize = a + 1;
        while b < n && !sep.test(chars[b])
            invariant
                a < b <= n,
                n == chars@.len(),
                chars@ == s@,
                field_end(s@, sep, b as int) == field_end(s@, sep, a + 1),
            decreases n - b,
        {
            b += 1;
        }
        let field = s.substring_char(a, b).to_owned();
        out.push(field);
        i = b;
    }
    out
}

/// Removes the whitespace at both ends of `s`.
pub fn trim(s: &str) -> (r: &str)
    ensures
        r@ == trimmed(s@),
{
    let chars = to_chars(s);
    let n = chars.len();
    let mut a: usize = 0;
    while a < n && is_whitespace(chars[a])
        invariant
            a <= n,
            n == chars@.len(),
            chars@ == s@,
            field_start(s@, Separator::Whitespace, a as int) == field_start(
                s@,
                Separator::Whitespace,
                0,
            ),
        decreases n - a,
    {
        a += 1;
    }
    let mut b: usize = n;
    while b > a && is_whitespace(chars[b - 1])
        invariant
            a <= b <= n,
            n == chars@.len(),
            chars@ == s@,
            trim_end(s@, b as int) == trim_end(s@, n as int),
        decreases b,
    {
        b -= 1;
    }
    proof {
        if a == b {
            lemma_trim_end_lower(s@, b as int);
        }
    }
    s.substring_char(a, b)
}

/// Whether two strings hold the same characters.
pub fn same_text(a: &str, b: &str) -> (r: bool)
    ensures
        r == (a@ == b@),
{
    let x = a.as_bytes();
    let y = b.as_bytes();
    proof {
        encode_utf8_decode_utf8(a@);
        encode_utf8_decode_utf8(b@);
    }
    if x.len() != y.len() {
        return false;
    }
    let mut i: usize = 0;
    while i < x.len()
        invariant
            i <= x@.len(),
            x@.len() == y@.len(),
            x@ == encode_utf8(a@),
            y@ == encode_utf8(b@),
            x@.take(i as int) == y@.take(i as int),
        decreases x@.len() - i,
    {
        if x[i] != y[i] {
            return false;
        }
        i += 1;
    }
    assert(x@ == x@.take(i as int));
    assert(y@ == y@.take(i as int));
    true
}

} // verus!
