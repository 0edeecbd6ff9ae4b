//! Character-level text utilities: string equality, path manipulation,
//! attribute-name validation, and the numeric-token grammar used to
//! validate time stamps.
use vstd::prelude::*;

use crate::ascii_writer::is_digit;

verus! {

/// Compare two text slices for equality of their character sequences.
pub fn str_eq(a: &str, b: &str) -> (r: bool)
    ensures
        r == (a@ == b@),
{
    let sa: String = a.to_owned();
    let sb: String = b.to_owned();
    sa.eq(&sb)
}

/// The least index in `[from, s.len())` holding a character of the pair,
/// or `s.len()` if there is none.
pub open spec fn first_index2(s: Seq<char>, from: int, c1: char, c2: char) -> int
    decreases s.len() - from,
{
    if from < 0 || from >= s.len() {
        s.len() as int
    } else if s[from] == c1 || s[from] == c2 {
        from
    } else {
        first_index2(s, from + 1, c1, c2)
    }
}

pub proof fn lemma_first_index2_bounds(s: Seq<char>, from: int, c1: char, c2: char)
    requires
        0 <= from <= s.len(),
    ensures
        from <= first_index2(s, from, c1, c2) <= s.len(),
        first_index2(s, from, c1, c2) < s.len() ==> (s[first_index2(s, from, c1, c2)] == c1
            || s[first_index2(s, from, c1, c2)] == c2),
        forall|j: int|
            from <= j < first_index2(s, from, c1, c2) ==> #[trigger] s[j] != c1 && s[j] != c2,
    decreases s.len() - from,
{
    if from < s.len() && s[from] != c1 && s[from] != c2 {
        lemma_first_index2_bounds(s, from + 1, c1, c2);
    }
}

/// Find the least index at or after `from` holding one of the two
/// characters.
pub fn find_first2(s: &str, from: usize, c1: char, c2: char) -> (r: usize)
    requires
        from <= s@.len(),
    ensures
        r == first_index2(s@, from as int, c1, c2),
{
    let n = s.unicode_len();
    let mut i: usize = from;
    while i < n
        invariant
            from <= i <= n,
            n == s@.len(),
            first_index2(s@, from as int, c1, c2) == first_index2(s@, i as int, c1, c2),
        decreases n - i,
    {
        let c = s.get_char(i);
        if c == c1 || c == c2 {
            return i;
        }
        i += 1;
    }
    n
}

/// Whether every character in `[lo, hi)` is a decimal digit.
pub open spec fn digits_in(s: Seq<char>, lo: int, hi: int) -> bool {
    forall|i: int| lo <= i < hi && 0 <= i < s.len() ==> is_digit(#[trigger] s[i])
}

/// Check that every character in `[lo, hi)` is a decimal digit.
pub fn check_digits_in(s: &str, lo: usize, hi: usize) -> (r: bool)
    requires
        hi <= s@.len(),
    ensures
        r == digits_in(s@, lo as int, hi as int),
{
    let mut i: usize = lo;
    while i < hi
        invariant
            lo <= i,
            i <= hi || i == lo,
            hi <= s@.len(),
            forall|j: int| lo <= j < i ==> is_digit(#[trigger] s@[j]),
        decreases hi - i,
    {
        let c = s.get_char(i);
        if c < '0' || c > '9' {
            proof {
                assert(s@[i as int] == c && !is_digit(c));
            }
            return false;
        }
        i += 1;
    }
    true
}

/// The grammar of a finite numeric token, as accepted by the time-step
/// validation: an optional sign, then digits with an optional fractional
/// part (`12`, `12.`, `12.5`, `.5`), then an optional exponent part
/// (`e7`, `E-3`) with its own optional sign and at least one digit.
pub open spec fn is_float_token(s: Seq<char>) -> bool {
    let n = s.len() as int;
    let b: int = if n > 0 && (s[0] == '+' || s[0] == '-') {
        1
    } else {
        0
    };
    let e = first_index2(s, b, 'e', 'E');
    let d = first_index2(s, b, '.', '.');
    let dd: int = if d < e {
        d
    } else {
        e
    };
    let int_digits = dd - b;
    let frac_digits: int = if d < e {
        e - d - 1
    } else {
        0
    };
    &&& b <= n
    &&& digits_in(s, b, dd)
    &&& digits_in(s, dd + 1, e)
    &&& (int_digits > 0 || frac_digits > 0)
    &&& (e == n || {
        let b2: int = if e + 1 < n && (s[e + 1] == '+' || s[e + 1] == '-') {
            e + 2
        } else {
            e + 1
        };
        b2 < n && digits_in(s, b2, n)
    })
}

/// Decide whether the text is a finite numeric token.
pub fn check_float_token(s: &str) -> (r: bool)
    ensures
        r == is_float_token(s@),
{
    let n = s.unicode_len();
    let b: usize = if n > 0 {
        let c0 = s.get_char(0);
        if c0 == '+' || c0 == '-' {
            1
        } else {
            0
        }
    } else {
        0
    };
    if b > n {
        return false;
    }
    let e = find_first2(s, b, 'e', 'E');
    let d = find_first2(s, b, '.', '.');
    let dd: usize = if d < e {
        d
    } else {
        e
    };
    proof {
        lemma_first_index2_bounds(s@, b as int, 'e', 'E');
        lemma_first_index2_bounds(s@, b as int, '.', '.');
    }
    if !check_digits_in(s, b, dd) {
        return false;
    }
    let frac_lo = if dd < e {
        dd + 1
    } else {
        e
    };
    let frac_ok = check_digits_in(s, frac_lo, e);
    proof {
        if dd >= e {
            assert(digits_in(s@, dd + 1, e as int));
        }
    }
    if !frac_ok {
        return false;
    }
    let int_digits = dd - b;
    let frac_digits: usize = if d < e {
        e - d - 1
    } else {
        0
    };
    if int_digits == 0 && frac_digits == 0 {
        return false;
    }
    if e == n {
        return true;
    }
    let b2: usize = if e + 1 < n {
        let c1 = s.get_char(e + 1);
        if c1 == '+' || c1 == '-' {
            e + 2
        } else {
            e + 1
        }
    } else {
        e + 1
    };
    if b2 < n {
        check_digits_in(s, b2, n)
    } else {
        false
    }
}

/// Whether a character is allowed in an attribute name: ASCII letters,
/// digits, underscore, or hyphen.
pub open spec fn is_name_char(c: char) -> bool {
    ('a' <= c && c <= 'z') || ('A' <= c && c <= 'Z') || ('0' <= c && c <= '9') || c == '_' || c
        == '-'
}

/// Whether the text is a well-formed attribute name: non-empty, with every
/// character an ASCII letter, digit, underscore, or hyphen.
pub open spec fn is_valid_name(s: Seq<char>) -> bool {
    s.len() > 0 && forall|i: int| 0 <= i < s.len() ==> is_name_char(#[trigger] s[i])
}

/// Decide whether the text is a well-formed attribute name.
pub fn check_valid_name(s: &str) -> (r: bool)
    ensures
        r == is_valid_name(s@),
{
    let n = s.unicode_len();
    if n == 0 {
        return false;
    }
    let mut i: usize = 0;
    while i < n
        invariant
            i <= n,
            n == s@.len(),
            forall|j: int| 0 <= j < i ==> is_name_char(#[trigger] s@[j]),
        decreases n - i,
    {
        let c = s.get_char(i);
        let ok = ('a' <= c && c <= 'z') || ('A' <= c && c <= 'Z') || ('0' <= c && c <= '9') || c
            == '_' || c == '-';
        if !ok {
            proof {
                assert(s@[i as int] == c && !is_name_char(c));
            }
            return false;
        }
        i += 1;
    }
    true
}

/// Whether `c` reads as the (lower-case) character `l` when ASCII upper
/// case letters are folded to lower case.
pub open spec fn lower_char_match(c: char, l: char) -> bool {
    if 'A' <= c && c <= 'Z' {
        (c as u32) + 32 == (l as u32)
    } else {
        c == l
    }
}

/// Whether `s` equals the text `lit` up to ASCII case folding of `s`.
pub open spec fn lower_match_seq(s: Seq<char>, lit: Seq<char>) -> bool {
    s.len() == lit.len() && forall|i: int|
        0 <= i < s.len() ==> lower_char_match(#[trigger] s[i], lit[i])
}

/// Compare `s` against the lower-case text `lit`, folding ASCII upper case
/// letters of `s` to lower case.
pub fn eq_ignore_ascii_case(s: &str, lit: &str) -> (r: bool)
    ensures
        r == lower_match_seq(s@, lit@),
{
    let n = s.unicode_len();
    let m = lit.unicode_len();
    if n != m {
        return false;
    }
    let mut i: usize = 0;
    while i < n
        invariant
            i <= n,
            n == s@.len(),
            n == lit@.len(),
            forall|j: int| 0 <= j < i ==> lower_char_match(#[trigger] s@[j], lit@[j]),
        decreases n - i,
    {
        let c = s.get_char(i);
        let l = lit.get_char(i);
        let cc = c as u32;
        let lc = l as u32;
        let ok = if 'A' <= c && c <= 'Z' {
            cc + 32 == lc
        } else {
            cc == lc
        };
        if !ok {
            proof {
                assert(s@[i as int] == c && lit@[i as int] == l);
                assert(c as u32 == l as u32 ==> c == l);
                assert(!lower_char_match(c, l));
            }
            return false;
        }
        proof {
            assert(c as u32 == l as u32 ==> c == l);
        }
        i += 1;
    }
    true
}

/// The greatest index holding `c`, or `-1` if `c` does not occur.
pub open spec fn last_index_of(s: Seq<char>, c: char) -> int
    decreases s.len(),
{
    if s.len() == 0 {
        -1
    } else if s.last() == c {
        s.len() - 1
    } else {
        last_index_of(s.drop_last(), c)
    }
}

pub proof fn lemma_last_index_of(s: Seq<char>, c: char)
    ensures
        -1 <= last_index_of(s, c) < s.len(),
        last_index_of(s, c) >= 0 ==> s[last_index_of(s, c)] == c,
        forall|j: int| last_index_of(s, c) < j < s.len() ==> #[trigger] s[j] != c,
    decreases s.len(),
{
    if s.len() > 0 && s.last() != c {
        lemma_last_index_of(s.drop_last(), c);
        assert forall|j: int| last_index_of(s, c) < j < s.len() implies #[trigger] s[j] != c by {
            if j < s.len() - 1 {
                assert(s.drop_last()[j] == s[j]);
            }
        }
    }
}

/// Find the greatest index holding `c`.
pub fn find_last(s: &str, c: char) -> (r: Option<usize>)
    ensures
        match r {
            Some(i) => i == last_index_of(s@, c),
            None => last_index_of(s@, c) == -1,
        },
{
    let n = s.unicode_len();
    let mut i: usize = n;
    proof {
        lemma_last_index_of(s@, c);
    }
    while i > 0
        invariant
            i <= n,
            n == s@.len(),
            forall|j: int| i <= j < s@.len() ==> #[trigger] s@[j] != c,
        decreases i,
    {
        i -= 1;
        let ch = s.get_char(i);
        if ch == c {
            proof {
                lemma_last_index_of(s@, c);
            }
            return Some(i);
        }
    }
    proof {
        lemma_last_index_of(s@, c);
    }
    None
}

/// The file-name part of a path: the text after the last `/`.
pub open spec fn spec_file_name(p: Seq<char>) -> Seq<char> {
    p.skip(last_index_of(p, '/') + 1)
}

/// The directory part of a path: the text before the last `/`, or empty
/// when the path has no separator.
pub open spec fn spec_parent(p: Seq<char>) -> Seq<char> {
    if last_index_of(p, '/') < 0 {
        Seq::empty()
    } else {
        p.take(last_index_of(p, '/'))
    }
}

/// The path with its extension replaced: everything from the last `.` of
/// the file-name part (if it occurs after that part's first character) is
/// dropped, and `.` plus the new extension is appended.
pub open spec fn spec_with_extension(p: Seq<char>, ext: Seq<char>) -> Seq<char> {
    let slash = last_index_of(p, '/');
    let dot = last_index_of(p, '.');
    if dot > slash + 1 {
        p.take(dot) + seq!['.'] + ext
    } else {
        p + seq!['.'] + ext
    }
}

/// The file-name part of a path.
pub fn file_name_of(p: &str) -> (r: String)
    ensures
        r@ == spec_file_name(p@),
{
    let n = p.unicode_len();
    let found = find_last(p, '/');
    proof {
        lemma_last_index_of(p@, '/');
    }
    let cut: usize = match found {
        Some(i) => i + 1,
        None => 0,
    };
    let tail = p.substring_char(cut, n);
    let r = tail.to_owned();
    proof {
        assert(r@ =~= spec_file_name(p@));
    }
    r
}

/// The directory part of a path, or `None` when it has no separator.
pub fn parent_of(p: &str) -> (r: Option<String>)
    ensures
        match r {
            Some(d) => last_index_of(p@, '/') >= 0 && d@ == spec_parent(p@),
            None => last_index_of(p@, '/') < 0,
        },
{
    match find_last(p, '/') {
        Some(i) => {
            proof {
                lemma_last_index_of(p@, '/');
            }
            let head = p.substring_char(0, i);
            let r = head.to_owned();
            proof {
                assert(r@ =~= spec_parent(p@));
            }
            Some(r)
        },
        None => None,
    }
}

/// Replace the path's extension.
pub fn with_extension(p: &str, ext: &str) -> (r: String)
    ensures
        r@ == spec_with_extension(p@, ext@),
{
    let n = p.unicode_len();
    let found_slash = find_last(p, '/');
    let found_dot = find_last(p, '.');
    proof {
        lemma_last_index_of(p@, '/');
        lemma_last_index_of(p@, '.');
        reveal_strlit(".");
    }
    let slash: i128 = match found_slash {
        Some(i) => i as i128,
        None => -1,
    };
    let dot: i128 = match found_dot {
        Some(i) => i as i128,
        None => -1,
    };
    let mut r: String = if dot > slash + 1 {
        let head = p.substring_char(0, dot as usize);
        head.to_owned()
    } else {
        p.to_owned()
    };
    r.append(".");
    r.append(ext);
    proof {
        assert(r@ =~= spec_with_extension(p@, ext@));
    }
    r
}

/// Join a directory and a file name with `/`.
pub fn path_join(dir: &str, name: &str) -> (r: String)
    ensures
        r@ == dir@ + seq!['/'] + name@,
{
    let mut r: String = dir.to_owned();
    r.append("/");
    r.append(name);
    proof {
        reveal_strlit("/");
        assert(r@ =~= dir@ + seq!['/'] + name@);
    }
    r
}

} // verus!
