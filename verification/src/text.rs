//! Plain text helpers shared across the library.

use vstd::prelude::*;

verus! {

/// Character-for-character string equality.
pub fn str_eq(a: &str, b: &str) -> (r: bool)
    ensures
        r == (a@ == b@),
{
    let la = a.unicode_len();
    let lb = b.unicode_len();
    if la != lb {
        return false;
    }
    let mut i: usize = 0;
    while i < la
        invariant
            i <= la,
            la == a@.len(),
            la == b@.len(),
            forall|j: int| 0 <= j < i ==> a@[j] == b@[j],
        decreases la - i,
    {
        if a.get_char(i) != b.get_char(i) {
            return false;
        }
        i = i + 1;
    }
    proof {
        assert(a@ =~= b@);
    }
    true
}

/// ASCII whitespace, as removed around the pieces of a source list.
pub open spec fn is_space(c: char) -> bool {
    c == ' ' || c == '\t' || c == '\n' || c == '\r'
}

fn is_space_char(c: char) -> (r: bool)
    ensures
        r == is_space(c),
{
    c == ' ' || c == '\t' || c == '\n' || c == '\r'
}

/// The text with leading and trailing whitespace removed.
pub open spec fn trim_spec(s: Seq<char>) -> Seq<char>
    decreases s.len(),
{
    if s.len() > 0 && is_space(s[0]) {
        trim_spec(s.drop_first())
    } else if s.len() > 0 && is_space(s.last()) {
        trim_spec(s.drop_last())
    } else {
        s
    }
}

proof fn lemma_trim_skip(s: Seq<char>, a: int)
    requires
        0 <= a <= s.len(),
        forall|j: int| 0 <= j < a ==> is_space(#[trigger] s[j]),
    ensures
        trim_spec(s) == trim_spec(s.skip(a)),
    decreases a,
{
    if a > 0 {
        assert(s.drop_first() =~= s.skip(1));
        lemma_trim_skip(s.skip(1), a - 1);
        assert(s.skip(1).skip(a - 1) =~= s.skip(a));
    } else {
        assert(s.skip(0) =~= s);
    }
}

proof fn lemma_trim_trailing(t: Seq<char>, m: int)
    requires
        0 < m <= t.len(),
        !is_space(t[0]),
        !is_space(t[m - 1]),
        forall|j: int| m <= j < t.len() ==> is_space(#[trigger] t[j]),
    ensures
        trim_spec(t) == t.take(m),
    decreases t.len(),
{
    if t.len() == m {
        assert(t.take(m) =~= t);
    } else {
        assert(is_space(t.last()));
        lemma_trim_trailing(t.drop_last(), m);
        assert(t.drop_last().take(m) =~= t.take(m));
    }
}

proof fn lemma_trim_all_spaces(s: Seq<char>)
    requires
        forall|j: int| 0 <= j < s.len() ==> is_space(#[trigger] s[j]),
    ensures
        trim_spec(s) == Seq::<char>::empty(),
    decreases s.len(),
{
    if s.len() > 0 {
        lemma_trim_all_spaces(s.drop_first());
    } else {
        assert(s =~= Seq::<char>::empty());
    }
}

/// Remove leading and trailing whitespace.
pub fn trim(s: &str) -> (r: String)
    ensures
        r@ == trim_spec(s@),
{
    let n = s.unicode_len();
    let mut a: usize = 0;
    while a < n && is_space_char(s.get_char(a))
        invariant
            a <= n == s@.len(),
            forall|j: int| 0 <= j < a ==> is_space(#[trigger] s@[j]),
        decreases n - a,
    {
        a = a + 1;
    }
    proof {
        lemma_trim_skip(s@, a as int);
    }
    if a == n {
        proof {
            lemma_trim_all_spaces(s@);
        }
        return String::new();
    }
    let mut b: usize = n;
    while b > a + 1 && is_space_char(s.get_char(b - 1))
        invariant
            a < b <= n == s@.len(),
            forall|j: int| b <= j < n ==> is_space(#[trigger] s@[j]),
        decreases b,
    {
        b = b - 1;
    }
    if is_space_char(s.get_char(b - 1)) {
        proof {
            assert(b == a + 1);
            lemma_trim_all_spaces(s@);
        }
        return String::new();
    }
    proof {
        let t = s@.skip(a as int);
        assert(t[0] == s@[a as int]);
        assert(!is_space(t[0]));
        assert forall|j: int| b - a <= j < t.len() implies is_space(#[trigger] t[j]) by {
            assert(t[j] == s@[j + a]);
        };
        assert(t[b - a - 1] == s@[b - 1]);
        lemma_trim_trailing(t, b - a);
        assert(t.take(b - a) =~= s@.subrange(a as int, b as int));
    }
    let piece = s.substring_char(a, b);
    piece.to_owned()
}

/// The pieces of a text between its commas, in order; a text without a
/// comma is one piece, and every comma separates two pieces, however
/// empty.
pub open spec fn split_commas(s: Seq<char>) -> Seq<Seq<char>>
    decreases s.len(),
{
    if s.len() == 0 {
        seq![Seq::<char>::empty()]
    } else if s[0] == ',' {
        seq![Seq::<char>::empty()] + split_commas(s.drop_first())
    } else {
        let r = split_commas(s.drop_first());
        seq![seq![s[0]] + r[0]] + r.drop_first()
    }
}

proof fn lemma_split_nonempty(s: Seq<char>)
    ensures
        split_commas(s).len() >= 1,
    decreases s.len(),
{
    if s.len() > 0 {
        lemma_split_nonempty(s.drop_first());
    }
}

proof fn lemma_split_at_comma(s: Seq<char>, i: int)
    requires
        0 <= i < s.len(),
        s[i] == ',',
        forall|j: int| 0 <= j < i ==> s[j] != ',',
    ensures
        split_commas(s) == seq![s.take(i)] + split_commas(s.skip(i + 1)),
    decreases i,
{
    if i == 0 {
        assert(s.take(0) =~= Seq::<char>::empty());
        assert(s.drop_first() =~= s.skip(1));
        assert(seq![Seq::<char>::empty()] + split_commas(s.skip(1)) =~= seq![s.take(0)]
            + split_commas(s.skip(1)));
    } else {
        let tail = s.drop_first();
        assert(forall|j: int| 0 <= j < i - 1 ==> tail[j] == s[j + 1]);
        assert(tail[i - 1] == s[i]);
        lemma_split_at_comma(tail, i - 1);
        lemma_split_nonempty(tail.skip(i));
        let r = split_commas(tail);
        assert(r[0] == tail.take(i - 1));
        assert(seq![s[0]] + tail.take(i - 1) =~= s.take(i));
        assert(r.drop_first() =~= split_commas(tail.skip(i)));
        assert(tail.skip(i) =~= s.skip(i + 1));
        assert(seq![seq![s[0]] + r[0]] + r.drop_first() =~= seq![s.take(i)] + split_commas(
            s.skip(i + 1),
        ));
    }
}

proof fn lemma_split_no_comma(s: Seq<char>)
    requires
        forall|j: int| 0 <= j < s.len() ==> s[j] != ',',
    ensures
        split_commas(s) == seq![s],
    decreases s.len(),
{
    if s.len() == 0 {
        assert(s =~= Seq::<char>::empty());
        assert(seq![Seq::<char>::empty()] =~= seq![s]);
    } else {
        let tail = s.drop_first();
        assert(forall|j: int| 0 <= j < tail.len() ==> tail[j] == s[j + 1]);
        lemma_split_no_comma(tail);
        let r = split_commas(tail);
        assert(r.drop_first() =~= Seq::<Seq<char>>::empty());
        assert(seq![s[0]] + tail =~= s);
        assert(seq![seq![s[0]] + r[0]] + r.drop_first() =~= seq![s]);
    }
}

/// Split a text at its commas and trim each piece: how a comma-
/// separated source list in a refresh request is read.
pub fn split_commas_trimmed(s: &str) -> (out: Vec<String>)
    ensures
        out@.len() == split_commas(s@).len(),
        forall|k: int|
            0 <= k < out@.len() ==> out@[k]@ == trim_spec(#[trigger] split_commas(s@)[k]),
{
    let n = s.unicode_len();
    let mut out: Vec<String> = Vec::new();
    let mut start: usize = 0;
    let ghost whole = split_commas(s@);
    proof {
        assert(s@.skip(0) =~= s@);
    }
    loop
        invariant
            start <= n == s@.len(),
            whole == split_commas(s@),
            whole.len() == out@.len() + split_commas(s@.skip(start as int)).len(),
            forall|k: int| 0 <= k < out@.len() ==> out@[k]@ == trim_spec(#[trigger] whole[k]),
            forall|k: int|
                0 <= k < split_commas(s@.skip(start as int)).len() ==> split_commas(
                    s@.skip(start as int),
                )[k] == whole[out@.len() + k],
        decreases n - start,
    {
        let ghost rest = s@.skip(start as int);
        let mut i: usize = start;
        while i < n && s.get_char(i) != ','
            invariant
                start <= i <= n == s@.len(),
                forall|j: int| start <= j < i ==> s@[j] != ',',
            decreases n - i,
        {
            i = i + 1;
        }
        proof {
            assert(forall|j: int| 0 <= j < i - start ==> rest[j] == s@[j + start]);
        }
        if i == n {
            proof {
                lemma_split_no_comma(rest);
                assert(rest =~= s@.subrange(start as int, n as int));
                assert(split_commas(rest)[0] == rest);
                assert(split_commas(rest).len() == 1);
                assert(whole[out@.len() as int] == rest);
            }
            let piece = s.substring_char(start, n);
            out.push(trim(piece));
            return out;
        }
        proof {
            assert(rest[i - start] == s@[i as int]);
            lemma_split_at_comma(rest, i - start);
            assert(rest.take(i - start) =~= s@.subrange(start as int, i as int));
            assert(rest.skip(i - start + 1) =~= s@.skip(i + 1));
            lemma_split_nonempty(s@.skip(i + 1));
            assert(split_commas(rest)[0] == rest.take(i - start));
            assert(whole[out@.len() as int] == rest.take(i - start));
        }
        let ghost old_len = out@.len() as int;
        let piece = s.substring_char(start, i);
        out.push(trim(piece));
        proof {
            let tail_split = split_commas(s@.skip(i + 1));
            assert forall|k: int| 0 <= k < tail_split.len() implies tail_split[k] == whole[out@.len()
                + k] by {
                assert(split_commas(rest)[k + 1] == whole[old_len + k + 1]);
                assert((seq![rest.take(i - start)] + tail_split)[k + 1] == tail_split[k]);
            };
        }
        start = i + 1;
    }
}

} // verus!
