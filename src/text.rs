//! Character-level text helpers: the std case mappings and trimming that the
//! parser and the key derivation rely on, and verified loops over characters.
use vstd::prelude::*;

verus! {

pub open spec fn is_ascii_char(c: char) -> bool {
    (c as u32) < 128
}

pub open spec fn all_ascii(s: Seq<char>) -> bool {
    forall|i: int| 0 <= i < s.len() ==> is_ascii_char(#[trigger] s[i])
}

pub open spec fn ascii_lower_char(c: char) -> char {
    if 'A' <= c && c <= 'Z' {
        ((c as u32 + 32) as u8) as char
    } else {
        c
    }
}

pub open spec fn ascii_upper_char(c: char) -> char {
    if 'a' <= c && c <= 'z' {
        ((c as u32 - 32) as u8) as char
    } else {
        c
    }
}

pub open spec fn ascii_lower(s: Seq<char>) -> Seq<char> {
    Seq::new(s.len(), |i: int| ascii_lower_char(s[i]))
}

pub open spec fn ascii_upper(s: Seq<char>) -> Seq<char> {
    Seq::new(s.len(), |i: int| ascii_upper_char(s[i]))
}

/// The Unicode lowercase mapping of a text that holds a non-ASCII character,
/// as `str::to_lowercase` computes it.
pub uninterp spec fn lower_of(s: Seq<char>) -> Seq<char>;

/// The Unicode uppercase mapping of a text that holds a non-ASCII character,
/// as `str::to_uppercase` computes it.
pub uninterp spec fn upper_of(s: Seq<char>) -> Seq<char>;

/// The lowercase form of a text: ASCII letters map one for one, other texts
/// follow the Unicode mapping.
pub open spec fn lowered(s: Seq<char>) -> Seq<char> {
    if all_ascii(s) {
        ascii_lower(s)
    } else {
        lower_of(s)
    }
}

/// The uppercase form of a text: ASCII letters map one for one, other texts
/// follow the Unicode mapping.
pub open spec fn uppered(s: Seq<char>) -> Seq<char> {
    if all_ascii(s) {
        ascii_upper(s)
    } else {
        upper_of(s)
    }
}

/// Whether `c` has the Unicode `White_Space` property.
pub open spec fn is_white_space(c: char) -> bool {
    let u = c as u32;
    (0x09 <= u && u <= 0x0D) || u == 0x20 || u == 0x85 || u == 0xA0 || u == 0x1680 || (0x2000
        <= u && u <= 0x200A) || u == 0x2028 || u == 0x2029 || u == 0x202F || u == 0x205F || u
        == 0x3000
}

/// `s` without its leading white space.
pub open spec fn trim_start_spec(s: Seq<char>) -> Seq<char>
    decreases s.len(),
{
    if s.len() > 0 && is_white_space(s[0]) {
        trim_start_spec(s.skip(1))
    } else {
        s
    }
}

/// `s` without its trailing white space.
pub open spec fn trim_end_spec(s: Seq<char>) -> Seq<char>
    decreases s.len(),
{
    if s.len() > 0 && is_white_space(s.last()) {
        trim_end_spec(s.drop_last())
    } else {
        s
    }
}

/// `s` without its leading and trailing white space.
pub open spec fn trimmed(s: Seq<char>) -> Seq<char> {
    trim_end_spec(trim_start_spec(s))
}

/// Relies on `str::to_lowercase`: the Unicode lowercase mapping, which maps
/// each ASCII character as `u8::to_ascii_lowercase` does.
#[verifier::external_body]
pub(crate) fn lowercase(s: &str) -> (r: String)
    ensures
        r@ == if all_ascii(s@) {
            ascii_lower(s@)
        } else {
            lower_of(s@)
        },
{
    s.to_lowercase()
}

/// Relies on `str::to_uppercase`: the Unicode uppercase mapping, which maps
/// each ASCII character as `u8::to_ascii_uppercase` does.
#[verifier::external_body]
pub(crate) fn uppercase(s: &str) -> (r: String)
    ensures
        r@ == if all_ascii(s@) {
            ascii_upper(s@)
        } else {
            upper_of(s@)
        },
{
    s.to_uppercase()
}

/// Relies on `str::trim`: the text without leading and trailing characters
/// that have the Unicode `White_Space` property.
#[verifier::external_body]
pub(crate) fn trim(s: &str) -> (r: &str)
    ensures
        r@ == trimmed(s@),
{
    s.trim()
}

/// `s` with each `-` replaced by `_`.
pub open spec fn dashes_to_underscores(s: Seq<char>) -> Seq<char> {
    Seq::new(s.len(), |i: int| if s[i] == '-' { '_' } else { s[i] })
}

/// Replaces each `-` of `s` by `_`.
pub fn replace_dashes(s: &str) -> (r: String)
    ensures
        r@ == dashes_to_underscores(s@),
{
    let n = s.unicode_len();
    let mut r = String::new();
    let mut i: usize = 0;
    while i < n
        invariant
            n == s@.len(),
            i <= n,
            r@ == dashes_to_underscores(s@).take(i as int),
        decreases n - i,
    {
        let c = s.get_char(i);
        let ghost before = r@;
        if c == '-' {
            r.append("_");
            proof {
                reveal_strlit("_");
            }
            assert("_"@ =~= seq!['_']);
        } else {
            let one = s.substring_char(i, i + 1);
            assert(one@ =~= seq![c]);
            r.append(one);
        }
        assert(r@ =~= before.push(dashes_to_underscores(s@)[i as int]));
        assert(r@ =~= dashes_to_underscores(s@).take(i + 1));
        i = i + 1;
    }
    assert(r@ =~= dashes_to_underscores(s@));
    r
}

/// Whether the texts `a` and `b` hold the same characters.
pub fn same_text(a: &str, b: &str) -> (r: bool)
    ensures
        r == (a@ == b@),
{
    let n = a.unicode_len();
    if n != b.unicode_len() {
        return false;
    }
    let mut i: usize = 0;
    while i < n
        invariant
            n == a@.len(),
            n == b@.len(),
            i <= n,
            a@.take(i as int) == b@.take(i as int),
        decreases n - i,
    {
        if a.get_char(i) != b.get_char(i) {
            assert(a@[i as int] != b@[i as int]);
            return false;
        }
        assert(a@.take(i + 1) =~= a@.take(i as int).push(a@[i as int]));
        assert(b@.take(i + 1) =~= b@.take(i as int).push(b@[i as int]));
        i = i + 1;
    }
    assert(a@ =~= a@.take(n as int));
    assert(b@ =~= b@.take(n as int));
    true
}

} // verus!
