//! Character-level operations on strings, stated over `Seq<char>`.
use vstd::prelude::*;
use vstd::string::*;
use vstd::utf8::*;

verus! {

broadcast use vstd::string::group_string_axioms;

/// The Unicode `White_Space` property, which is what `char::is_whitespace` tests.
pub open spec fn is_white_space(c: char) -> bool {
    let v = c as u32;
    ||| 0x9 <= v <= 0xd
    ||| v == 0x20
    ||| v == 0x85
    ||| v == 0xa0
    ||| v == 0x1680
    ||| 0x2000 <= v <= 0x200a
    ||| v == 0x2028
    ||| v == 0x2029
    ||| v == 0x202f
    ||| v == 0x205f
    ||| v == 0x3000
}

/// `s` with its trailing white space removed, as `str::trim_end` gives it.
pub open spec fn trim_end(s: Seq<char>) -> Seq<char>
    decreases s.len(),
{
    if s.len() > 0 && is_white_space(s.last()) {
        trim_end(s.drop_last())
    } else {
        s
    }
}

/// Index of the last `.` in `s`, or -1 when there is none.
pub open spec fn last_dot(s: Seq<char>) -> int
    decreases s.len(),
{
    if s.len() == 0 {
        -1
    } else if s.last() == '.' {
        s.len() - 1
    } else {
        last_dot(s.drop_last())
    }
}

/// The extension of a file name, as `std::path::Path::extension` reads it:
/// what follows the last `.`, unless the name has no `.`, its only `.` is its
/// first character, or the name is `..`.
pub open spec fn file_extension(name: Seq<char>) -> Option<Seq<char>> {
    let i = last_dot(name);
    if name == seq!['.', '.'] || i <= 0 {
        None
    } else {
        Some(name.subrange(i + 1, name.len() as int))
    }
}

/// `s` without the suffix `suffix`, or `None` when `s` does not end with it
/// (`str::strip_suffix`).
pub open spec fn strip_suffix(s: Seq<char>, suffix: Seq<char>) -> Option<Seq<char>> {
    if suffix.len() <= s.len() && s.subrange(s.len() - suffix.len(), s.len() as int) == suffix {
        Some(s.subrange(0, s.len() - suffix.len()))
    } else {
        None
    }
}

pub proof fn lemma_last_dot_bounds(s: Seq<char>)
    ensures
        -1 <= last_dot(s) < s.len(),
        last_dot(s) >= 0 ==> s[last_dot(s)] == '.',
        forall|j: int| last_dot(s) < j < s.len() ==> s[j] != '.',
    decreases s.len(),
{
    if s.len() > 0 && s.last() != '.' {
        let t = s.drop_last();
        lemma_last_dot_bounds(t);
        assert forall|j: int| last_dot(s) < j < s.len() implies s[j] != '.' by {
            if j < s.len() - 1 {
                assert(s[j] == t[j]);
            }
        }
    }
}

/// Whether `c` is white space (`char::is_whitespace`).
pub fn is_whitespace(c: char) -> (b: bool)
    ensures
        b == is_white_space(c),
{
    let v = c as u32;
    (0x9 <= v && v <= 0xd) || v == 0x20 || v == 0x85 || v == 0xa0 || v == 0x1680 || (0x2000 <= v
        && v <= 0x200a) || v == 0x2028 || v == 0x2029 || v == 0x202f || v == 0x205f || v == 0x3000
}

/// Whether two strings hold the same characters.
pub fn text_eq(a: &str, b: &str) -> (r: bool)
    ensures
        r == (a@ == b@),
{
    let x = a.as_bytes();
    let y = b.as_bytes();
    proof {
        encode_utf8_decode_utf8(a@);
        encode_utf8_decode_utf8(b@);
    }
    if x.len() != y.len() {
        return false;
    }
    let n = x.len();
    let mut i: usize = 0;
    while i < n
        invariant
            n == x@.len(),
            n == y@.len(),
            i <= n,
            x@ == a.spec_bytes(),
            y@ == b.spec_bytes(),
            forall|j: int| 0 <= j < i ==> x@[j] == y@[j],
        decreases n - i,
    {
        if x[i] != y[i] {
            return false;
        }
        i = i + 1;
    }
    assert(x@ =~= y@);
    true
}

/// `s` with its trailing white space removed (`str::trim_end`).
pub fn trim_end_of(s: &str) -> (r: String)
    ensures
        r@ == trim_end(s@),
{
    let n = s.unicode_len();
    let mut k = n;
    assert(s@.subrange(0, n as int) =~= s@);
    while k > 0 && is_whitespace(s.get_char(k - 1))
        invariant
            n == s@.len(),
            k <= n,
            trim_end(s@.subrange(0, k as int)) == trim_end(s@),
        decreases k,
    {
        assert(s@.subrange(0, k as int).drop_last() =~= s@.subrange(0, k - 1));
        k = k - 1;
    }
    s.substring_char(0, k).to_owned()
}

/// The extension of the file name `name` (`Path::extension`).
pub fn extension_of(name: &str) -> (r: Option<String>)
    ensures
        match r {
            Some(e) => file_extension(name@) == Some(e@),
            None => file_extension(name@) is None,
        },
{
    let n = name.unicode_len();
    let mut k = n;
    assert(name@.subrange(0, n as int) =~= name@);
    while k > 0 && name.get_char(k - 1) != '.'
        invariant
            n == name@.len(),
            k <= n,
            last_dot(name@.subrange(0, k as int)) == last_dot(name@),
        decreases k,
    {
        assert(name@.subrange(0, k as int).drop_last() =~= name@.subrange(0, k - 1));
        k = k - 1;
    }
    // k is one past the last dot, or 0 when there is no dot
    proof {
        if k > 0 {
            assert(last_dot(name@.subrange(0, k as int)) == k - 1);
        } else {
            assert(last_dot(name@.subrange(0, 0)) == -1);
        }
    }
    if k <= 1 {
        return None;
    }
    if n == 2 && name.get_char(0) == '.' && name.get_char(1) == '.' {
        assert(name@ =~= seq!['.', '.']);
        return None;
    }
    assert(name@ != seq!['.', '.']) by {
        if name@ == seq!['.', '.'] {
            assert(name@.len() == 2);
        }
    }
    Some(name.substring_char(k, n).to_owned())
}

/// `s` without the suffix `suffix`, or `None` when it does not end with it
/// (`str::strip_suffix`).
pub fn strip_suffix_of(s: &str, suffix: &str) -> (r: Option<String>)
    ensures
        match r {
            Some(p) => strip_suffix(s@, suffix@) == Some(p@),
            None => strip_suffix(s@, suffix@) is None,
        },
{
    let n = s.unicode_len();
    let m = suffix.unicode_len();
    if m > n {
        return None;
    }
    let tail = s.substring_char(n - m, n);
    if text_eq(tail, suffix) {
        Some(s.substring_char(0, n - m).to_owned())
    } else {
        None
    }
}

/// The characters of an optional string.
pub open spec fn opt_view(o: Option<String>) -> Option<Seq<char>> {
    match o {
        Some(s) => Some(s@),
        None => None,
    }
}

/// A copy of an optional string.
pub fn clone_opt(o: &Option<String>) -> (r: Option<String>)
    ensures
        opt_view(r) == opt_view(*o),
{
    match o {
        Some(s) => Some(s.clone()),
        None => None,
    }
}

} // verus!
