//! Character-level helpers on string slices.

use vstd::prelude::*;

verus! {

/// Whether `c` occurs anywhere in `s`.
pub fn contains_char(s: &str, c: char) -> (found: bool)
    ensures
        found == s@.contains(c),
{
    let mut found = false;
    for x in it: s.chars()
        invariant
            it.seq() == s@,
            found == exists|i: int| 0 <= i < it.index() && s@[i] == c,
    {
        if x == c {
            found = true;
        }
    }
    found
}

/// The three ASCII character classes a password is checked for.
#[derive(Debug, Clone, Copy, PartialEq, Eq, Structural)]
pub enum AsciiClass {
    Uppercase,
    Lowercase,
    Digit,
}

impl AsciiClass {
    /// Whether `c` belongs to the class: `A` to `Z`, `a` to `z`, or `0` to `9`.
    pub open spec fn holds(self, c: char) -> bool {
        match self {
            AsciiClass::Uppercase => 'A' <= c && c <= 'Z',
            AsciiClass::Lowercase => 'a' <= c && c <= 'z',
            AsciiClass::Digit => '0' <= c && c <= '9',
        }
    }

    /// Whether `c` belongs to the class.
    pub fn contains(self, c: char) -> (b: bool)
        ensures
            b == self.holds(c),
    {
        match self {
            AsciiClass::Uppercase => 'A' <= c && c <= 'Z',
            AsciiClass::Lowercase => 'a' <= c && c <= 'z',
            AsciiClass::Digit => '0' <= c && c <= '9',
        }
    }
}

/// Whether some character of `s` belongs to `class`.
pub open spec fn has_class(s: Seq<char>, class: AsciiClass) -> bool {
    exists|i: int| 0 <= i < s.len() && class.holds(#[trigger] s[i])
}

/// Whether some character of `s` belongs to `class`.
pub fn any_in_class(s: &str, class: AsciiClass) -> (found: bool)
    ensures
        found == has_class(s@, class),
{
    let mut found = false;
    for x in it: s.chars()
        invariant
            it.seq() == s@,
            found == exists|i: int| 0 <= i < it.index() && class.holds(#[trigger] s@[i]),
    {
        if class.contains(x) {
            found = true;
        }
    }
    found
}

/// What `str::to_lowercase` returns for the characters `s`: the lowercase
/// equivalent of the whole string under the Unicode case mapping.
pub uninterp spec fn lowercase_of(s: Seq<char>) -> Seq<char>;

/// Calls `str::to_lowercase`. The Unicode case mapping is not written out
/// here; the result is a function of the input alone and goes by the name
/// [`lowercase_of`].
#[verifier::external_body]
pub(crate) fn to_lowercase(s: &str) -> (lower: String)
    ensures
        lower@ == lowercase_of(s@),
{
    s.to_lowercase()
}

/// Whether `c` has the Unicode property White_Space: the controls from tab
/// to carriage return, the space, next line, the no-break spaces, the Ogham
/// space mark, the spaces of fixed width, the line and paragraph separators,
/// the medium mathematical space and the ideographic space.
pub open spec fn is_white_space(c: char) -> bool {
    ||| '\u{9}' <= c <= '\u{d}'
    ||| c == ' '
    ||| c == '\u{85}'
    ||| c == '\u{a0}'
    ||| c == '\u{1680}'
    ||| '\u{2000}' <= c <= '\u{200a}'
    ||| c == '\u{2028}'
    ||| c == '\u{2029}'
    ||| c == '\u{202f}'
    ||| c == '\u{205f}'
    ||| c == '\u{3000}'
}

/// Calls `char::is_whitespace`, which is assumed to answer by the Unicode
/// property White_Space as [`is_white_space`] lists it.
#[verifier::external_body]
pub(crate) fn char_is_whitespace(c: char) -> (b: bool)
    ensures
        b == is_white_space(c),
{
    c.is_whitespace()
}

/// `s` without its leading white space.
pub open spec fn trim_start(s: Seq<char>) -> Seq<char>
    decreases s.len(),
{
    if s.len() > 0 && is_white_space(s.first()) {
        trim_start(s.drop_first())
    } else {
        s
    }
}

/// `s` without its trailing white space.
pub open spec fn trim_end(s: Seq<char>) -> Seq<char>
    decreases s.len(),
{
    if s.len() > 0 && is_white_space(s.last()) {
        trim_end(s.drop_last())
    } else {
        s
    }
}

/// `s` without its leading and trailing white space.
pub open spec fn trimmed(s: Seq<char>) -> Seq<char> {
    trim_end(trim_start(s))
}

/// Dropping `i` leading white-space characters, where the next character is
/// none or the string ends, is what `trim_start` does.
proof fn lemma_trim_start(s: Seq<char>, i: int)
    requires
        0 <= i <= s.len(),
        forall|k: int| 0 <= k < i ==> is_white_space(#[trigger] s[k]),
        i < s.len() ==> !is_white_space(s[i]),
    ensures
        trim_start(s) == s.subrange(i, s.len() as int),
    decreases i,
{
    if i == 0 {
        assert(s.subrange(0, s.len() as int) =~= s);
    } else {
        let rest = s.drop_first();
        assert forall|k: int| 0 <= k < i - 1 implies is_white_space(#[trigger] rest[k]) by {
            assert(rest[k] == s[k + 1]);
        }
        lemma_trim_start(rest, i - 1);
        assert(rest.subrange(i - 1, rest.len() as int) =~= s.subrange(i, s.len() as int));
    }
}

/// Keeping the first `j` characters, where all later ones are white space
/// and the one before is none or the string is cut to nothing, is what
/// `trim_end` does.
proof fn lemma_trim_end(s: Seq<char>, j: int)
    requires
        0 <= j <= s.len(),
        forall|k: int| j <= k < s.len() ==> is_white_space(#[trigger] s[k]),
        0 < j ==> !is_white_space(s[j - 1]),
    ensures
        trim_end(s) == s.subrange(0, j),
    decreases s.len() - j,
{
    if j == s.len() {
        assert(s.subrange(0, j) =~= s);
    } else {
        let rest = s.drop_last();
        lemma_trim_end(rest, j);
        assert(rest.subrange(0, j) =~= s.subrange(0, j));
    }
}

/// The slice of `s` without its leading and trailing white space.
pub fn trim(s: &str) -> (t: &str)
    ensures
        t@ == trimmed(s@),
{
    let n = s.unicode_len();
    let mut start: usize = 0;
    let mut end: usize = 0;
    let mut i: usize = 0;
    for c in it: s.chars()
        invariant
            it.seq() == s@,
            n == s@.len(),
            i == it.index(),
            start <= end <= i,
            forall|k: int| 0 <= k < start ==> is_white_space(#[trigger] s@[k]),
            forall|k: int| end <= k < i ==> is_white_space(#[trigger] s@[k]),
            start < end ==> !is_white_space(s@[start as int]) && !is_white_space(s@[end - 1]),
            start == end ==> start == 0 || start == i,
    {
        if !char_is_whitespace(c) {
            if start == end {
                start = i;
            }
            end = i + 1;
        } else if start == end {
            start = i + 1;
            end = i + 1;
        }
        i = i + 1;
    }
    proof {
        let full = s@;
        if start == end {
            assert(forall|k: int| 0 <= k < full.len() ==> is_white_space(#[trigger] full[k]));
            lemma_trim_start(full, full.len() as int);
            assert(trim_start(full) =~= Seq::<char>::empty());
            assert(full.subrange(start as int, end as int) =~= Seq::<char>::empty());
        } else {
            lemma_trim_start(full, start as int);
            let tail = full.subrange(start as int, full.len() as int);
            assert forall|k: int| end - start <= k < tail.len() implies is_white_space(
                #[trigger] tail[k],
            ) by {
                assert(tail[k] == full[k + start]);
            }
            assert(tail[end - start - 1] == full[end - 1]);
            lemma_trim_end(tail, end - start);
            assert(tail.subrange(0, end - start) =~= full.subrange(start as int, end as int));
        }
    }
    s.substring_char(start, end)
}

} // verus!
