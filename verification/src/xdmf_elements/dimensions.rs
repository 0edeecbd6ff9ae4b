//! The ordered shape of a data array, serialized as space-joined extents.
use vstd::prelude::*;

use crate::ascii_writer::{
    array_to_string_fmt, dec_nat, is_digit, is_digit_seq, join_space, lemma_decimal_round_trip,
    parse_dec_u64, texts_of, val_of_digits,
};
use crate::text::{find_first2, first_index2, lemma_first_index2_bounds};

verus! {

/// The ordered extents of a data array.
#[derive(Clone, Debug)]
pub struct Dimensions(pub Vec<usize>);

impl PartialEq for Dimensions {
    fn eq(&self, other: &Dimensions) -> (r: bool) {
        let n = self.0.len();
        if n != other.0.len() {
            return false;
        }
        let mut i: usize = 0;
        while i < n
            invariant
                i <= n,
                n == self.0@.len(),
                n == other.0@.len(),
                forall|j: int| 0 <= j < i ==> self.0@[j] == other.0@[j],
            decreases n - i,
        {
            if self.0[i] != other.0[i] {
                return false;
            }
            i += 1;
        }
        proof {
            assert(self.0@ =~= other.0@);
        }
        true
    }
}

impl vstd::std_specs::cmp::PartialEqSpecImpl for Dimensions {
    open spec fn obeys_eq_spec() -> bool {
        true
    }

    open spec fn eq_spec(&self, other: &Dimensions) -> bool {
        self.0@ == other.0@
    }
}

/// The serialized text of an extent list: the decimal extents joined by
/// single spaces.
pub open spec fn dims_text(ds: Seq<usize>) -> Seq<char> {
    join_space(ds.map(|i: int, x: usize| dec_nat(x as nat)))
}

/// The extent list read from text: tokens separated by runs of spaces,
/// each one or more decimal digits whose value fits the platform's size
/// type; any other text reads as nothing.
pub open spec fn spec_parse_dims(s: Seq<char>) -> Option<Seq<usize>>
    decreases s.len(),
    via spec_parse_dims_decreases
{
    if s.len() == 0 {
        Some(Seq::empty())
    } else if s[0] == ' ' {
        spec_parse_dims(s.drop_first())
    } else {
        let e = first_index2(s, 0, ' ', ' ');
        let tok = s.take(e);
        if is_digit_seq(tok) && val_of_digits(tok) <= usize::MAX as nat {
            match spec_parse_dims(s.skip(e)) {
                Some(rest) => Some(seq![val_of_digits(tok) as usize] + rest),
                None => None,
            }
        } else {
            None
        }
    }
}

#[via_fn]
proof fn spec_parse_dims_decreases(s: Seq<char>) {
    if s.len() > 0 && s[0] != ' ' {
        lemma_first_index2_bounds(s, 0, ' ', ' ');
    }
}

impl Dimensions {
    /// Serialize the extents as space-joined decimal text.
    pub fn to_text(&self) -> (r: String)
        ensures
            r@ == dims_text(self.0@),
    {
        let r = array_to_string_fmt(&self.0);
        proof {
            assert(texts_of(self.0@) =~= self.0@.map(|i: int, x: usize| dec_nat(x as nat)));
        }
        r
    }

    /// Read an extent list back from space-joined decimal text.
    pub fn from_text(s: &str) -> (r: Option<Dimensions>)
        ensures
            match r {
                Some(d) => spec_parse_dims(s@) == Some(d.0@),
                None => spec_parse_dims(s@) is None,
            },
    {
        let n = s.unicode_len();
        let mut out: Vec<usize> = Vec::new();
        let mut i: usize = 0;
        proof {
            assert(s@.skip(0) =~= s@);
        }
        while i < n
            invariant
                i <= n,
                n == s@.len(),
                match spec_parse_dims(s@) {
                    Some(all) => spec_parse_dims(s@.skip(i as int)) matches Some(rest) && all
                        =~= out@ + rest,
                    None => spec_parse_dims(s@.skip(i as int)) is None,
                },
            decreases n - i,
    	{
            let c = s.get_char(i);
            if c == ' ' {
                proof {
                    let t = s@.skip(i as int);
                    assert(t[0] == ' ');
                    assert(t.drop_first() =~= s@.skip(i + 1));
                }
                i += 1;
            } else {
                let e = find_first2(s, i, ' ', ' ');
                proof {
                    let t = s@.skip(i as int);
                    assert(t[0] != ' ');
                    lemma_first_skip(s@, i as int, e as int);
                }
                let tok = s.substring_char(i, e);
                let v = parse_dec_u64(tok);
                match v {
                    Some(v) => {
                        if v <= usize::MAX as u64 {
                            out.push(v as usize);
                            proof {
                                let t = s@.skip(i as int);
                                assert(t.skip(first_index2(t, 0, ' ', ' ')) =~= s@.skip(e as int));
                                assert(t.take(e - i) =~= s@.subrange(i as int, e as int));
                            }
                            i = e;
                            if i >= n {
                                proof {
                                    assert(s@.skip(n as int) =~= Seq::<char>::empty());
                                }
                            }
                        } else {
                            proof {
                                lemma_parse_dims_none(s@, i as int, e as int);
                            }
                            return None;
                        }
                    },
                    None => {
                        proof {
                            lemma_parse_dims_none(s@, i as int, e as int);
                        }
                        return None;
                    },
                }
            }
        }
        proof {
            assert(s@.skip(n as int) =~= Seq::<char>::empty());
            assert(out@ + Seq::<usize>::empty() =~= out@);
        }
        Some(Dimensions(out))
    }
}

/// Searching for a space from `i` in the whole text equals searching from
/// the front of the text with its first `i` characters dropped.
proof fn lemma_first_skip(s: Seq<char>, i: int, e: int)
    requires
        0 <= i <= s.len(),
        e == first_index2(s, i, ' ', ' '),
    ensures
        i <= e <= s.len(),
        e < s.len() ==> s[e] == ' ',
        first_index2(s.skip(i), 0, ' ', ' ') == e - i,
        s.skip(i).take(e - i) =~= s.take(e).skip(i),
        s.take(e).skip(i) =~= s.subrange(i, e),
        s.skip(i).skip(e - i) =~= s.skip(e),
{
    lemma_first_skip_rec(s, i, i);
    lemma_first_index2_bounds(s, i, ' ', ' ');
    assert forall|j: int| 0 <= j < s.len() - e implies s.skip(i).skip(e - i)[j] == s.skip(e)[j] by {
        assert(s.skip(i).skip(e - i)[j] == s.skip(i)[j + e - i]);
        assert(s.skip(i)[j + e - i] == s[j + e]);
    }
}

proof fn lemma_first_skip_rec(s: Seq<char>, base: int, j: int)
    requires
        0 <= base <= j <= s.len(),
    ensures
        first_index2(s.skip(base), j - base, ' ', ' ') == first_index2(s, j, ' ', ' ') - base,
    decreases s.len() - j,
{
    if j < s.len() {
        assert(s.skip(base)[j - base] == s[j]);
        if s[j] != ' ' {
            lemma_first_skip_rec(s, base, j + 1);
        }
    }
}

/// A token that does not read as digits with a fitting value makes the
/// whole text read as nothing.
proof fn lemma_parse_dims_none(s: Seq<char>, i: int, e: int)
    requires
        0 <= i < s.len(),
        s[i] != ' ',
        e == first_index2(s, i, ' ', ' '),
        !(is_digit_seq(s.subrange(i, e)) && val_of_digits(s.subrange(i, e)) <= usize::MAX as nat),
    ensures
        spec_parse_dims(s.skip(i)) is None,
{
    lemma_first_skip(s, i, e);
    let t = s.skip(i);
    assert(t.take(e - i) =~= s.subrange(i, e));
}


/// Decimal digits are never spaces.
proof fn lemma_dec_nat_no_space(n: nat)
    ensures
        dec_nat(n).len() >= 1,
        forall|i: int| 0 <= i < dec_nat(n).len() ==> dec_nat(n)[i] != ' ',
    decreases n,
{
    lemma_decimal_round_trip(n);
    assert forall|i: int| 0 <= i < dec_nat(n).len() implies dec_nat(n)[i] != ' ' by {
        assert(is_digit(dec_nat(n)[i]));
    }
}

/// A space-join decomposes at the front: the first token, then for two or
/// more tokens a space and the join of the rest.
proof fn lemma_join_left(ts: Seq<Seq<char>>)
    requires
        ts.len() >= 1,
    ensures
        ts.len() == 1 ==> join_space(ts) == ts[0],
        ts.len() >= 2 ==> join_space(ts) == ts[0] + seq![' '] + join_space(ts.drop_first()),
    decreases ts.len(),
{
    if ts.len() == 1 {
    } else if ts.len() == 2 {
        let dl = ts.drop_last();
        let df = ts.drop_first();
        assert(dl.len() == 1 && df.len() == 1);
        assert(dl[0] == ts[0] && df[0] == ts[1]);
        assert(join_space(ts) == join_space(dl) + seq![' '] + ts.last());
        assert(join_space(ts) =~= ts[0] + seq![' '] + join_space(df));
    } else {
        let dl = ts.drop_last();
        let df = ts.drop_first();
        lemma_join_left(dl);
        lemma_join_left(df);
        assert(dl[0] == ts[0]);
        assert(dl.drop_first() =~= df.drop_last());
        assert(df.last() == ts.last());
        assert(join_space(ts) == join_space(dl) + seq![' '] + ts.last());
        assert(join_space(dl) == dl[0] + seq![' '] + join_space(dl.drop_first()));
        assert(join_space(df) == df[0] + seq![' '] + join_space(df.drop_first()));
        assert(join_space(df) == join_space(df.drop_last()) + seq![' '] + df.last());
        assert(join_space(ts) =~= ts[0] + seq![' '] + join_space(df));
    }
}

/// The first space of a text whose first `boundary` characters are not
/// spaces, and which either ends there or holds a space there, stands at
/// `boundary`.
proof fn lemma_first_space_at(s: Seq<char>, boundary: int)
    requires
        0 <= boundary <= s.len(),
        forall|i: int| 0 <= i < boundary ==> s[i] != ' ',
        boundary == s.len() || s[boundary] == ' ',
    ensures
        first_index2(s, 0, ' ', ' ') == boundary,
{
    lemma_first_index2_bounds(s, 0, ' ', ' ');
    let e = first_index2(s, 0, ' ', ' ');
    if e < boundary {
        assert(s[e] == ' ');
    }
    if e > boundary {
        assert(boundary < s.len());
        assert(s[boundary] != ' ');
    }
}

/// The serialized extents round-trip symmetrically: reading the
/// space-joined decimal text back yields exactly the extents written.
pub proof fn lemma_dimensions_round_trip(ds: Seq<usize>)
    ensures
        spec_parse_dims(dims_text(ds)) == Some(ds),
    decreases ds.len(),
{
    let toks = ds.map(|i: int, x: usize| dec_nat(x as nat));
    let s = dims_text(ds);
    if ds.len() == 0 {
        assert(toks.len() == 0);
        assert(s =~= Seq::<char>::empty());
        assert(spec_parse_dims(s) == Some(Seq::<usize>::empty()));
        assert(Seq::<usize>::empty() =~= ds);
    } else {
        lemma_join_left(toks);
        let t0 = dec_nat(ds[0] as nat);
        assert(toks[0] == t0);
        lemma_dec_nat_no_space(ds[0] as nat);
        lemma_decimal_round_trip(ds[0] as nat);
        if ds.len() == 1 {
            assert(s == t0);
            assert(s[0] != ' ');
            lemma_first_space_at(s, s.len() as int);
            let e = first_index2(s, 0, ' ', ' ');
            assert(e == s.len());
            assert(s.take(e) =~= t0);
            assert(val_of_digits(t0) == ds[0] as nat);
            assert(s.skip(e) =~= Seq::<char>::empty());
            assert(spec_parse_dims(s.skip(e)) == Some(Seq::<usize>::empty()));
            assert(spec_parse_dims(s) == Some(seq![(ds[0] as nat) as usize] + Seq::<usize>::empty()));
            assert(seq![(ds[0] as nat) as usize] + Seq::<usize>::empty() =~= ds);
        } else {
            let rest = join_space(toks.drop_first());
            assert(s == t0 + seq![' '] + rest);
            assert forall|i: int| 0 <= i < t0.len() implies s[i] != ' ' by {
                assert(s[i] == t0[i]);
            }
            assert(s[t0.len() as int] == ' ');
            lemma_first_space_at(s, t0.len() as int);
            let e = first_index2(s, 0, ' ', ' ');
            assert(e == t0.len());
            assert(s.take(e) =~= t0);
            assert(val_of_digits(t0) == ds[0] as nat);
            assert(s[0] != ' ');
            let tail = s.skip(e);
            assert(tail[0] == ' ');
            lemma_dimensions_round_trip(ds.drop_first());
            assert(toks.drop_first() =~= ds.drop_first().map(|i: int, x: usize| dec_nat(x as nat)));
            assert(tail.drop_first() =~= rest);
            assert(spec_parse_dims(tail.drop_first()) == Some(ds.drop_first()));
            assert(spec_parse_dims(tail) == Some(ds.drop_first()));
            assert(spec_parse_dims(s) == Some(seq![(ds[0] as nat) as usize] + ds.drop_first()));
            assert(seq![(ds[0] as nat) as usize] + ds.drop_first() =~= ds);
        }
    }
}

} // verus!
