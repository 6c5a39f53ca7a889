//! Character-level helpers on strings, stated over their `Seq<char>` views.

use vstd::prelude::*;

verus! {

/// The characters of a string, in order.
pub fn chars_of(s: &str) -> (v: Vec<char>)
    ensures
        v@ == s@,
{
    let n = s.unicode_len();
    let mut v: Vec<char> = Vec::new();
    let mut i: usize = 0;
    while i < n
        invariant
            n == s@.len(),
            i <= n,
            v@ == s@.subrange(0, i as int),
        decreases n - i,
    {
        let c = s.get_char(i);
        v.push(c);
        i += 1;
        assert(v@ =~= s@.subrange(0, i as int));
    }
    assert(v@ =~= s@);
    v
}

/// Whether two strings hold the same characters.
pub fn str_eq(a: &str, b: &str) -> (r: bool)
    ensures
        r == (a@ == b@),
{
    let n = a.unicode_len();
    if n != b.unicode_len() {
        return false;
    }
    let mut i: usize = 0;
    while i < n
        invariant
            n == a@.len(),
            n == b@.len(),
            i <= n,
            forall|j: int| 0 <= j < i ==> a@[j] == b@[j],
        decreases n - i,
    {
        if a.get_char(i) != b.get_char(i) {
            return false;
        }
        i += 1;
    }
    assert(a@ =~= b@);
    true
}

/// `needle` occurs in `hay` as a contiguous run of characters.
pub open spec fn occurs_in(hay: Seq<char>, needle: Seq<char>) -> bool {
    exists|i: int| 0 <= i <= hay.len() - needle.len() && #[trigger] hay.subrange(i, i + needle.len()) == needle
}

/// Whether `needle` occurs in `hay` (an empty needle occurs everywhere).
pub fn contains(hay: &str, needle: &str) -> (r: bool)
    ensures
        r == occurs_in(hay@, needle@),
{
    let h = chars_of(hay);
    let p = chars_of(needle);
    let hn = h.len();
    let pn = p.len();
    if pn > hn {
        assert(!occurs_in(hay@, needle@));
        return false;
    }
    let mut i: usize = 0;
    while i <= hn - pn
        invariant
            h@ == hay@,
            p@ == needle@,
            hn == h@.len(),
            pn == p@.len(),
            pn <= hn,
            i <= hn - pn + 1,
            forall|k: int| 0 <= k < i ==> #[trigger] h@.subrange(k, k + pn) != p@,
        decreases hn - pn + 1 - i,
    {
        let mut j: usize = 0;
        let mut same = true;
        while j < pn
            invariant
                h@ == hay@,
                p@ == needle@,
                hn == h@.len(),
                pn == p@.len(),
                i + pn <= hn,
                j <= pn,
                same == (forall|m: int| 0 <= m < j ==> h@[i + m] == p@[m]),
            decreases pn - j,
        {
            if h[i + j] != p[j] {
                same = false;
            }
            j += 1;
        }
        if same {
            assert(h@.subrange(i as int, i + pn) =~= p@);
            return true;
        }
        assert(h@.subrange(i as int, i + pn) != p@) by {
            let m = choose|m: int| 0 <= m < pn && h@[i + m] != p@[m];
            assert(h@.subrange(i as int, i + pn)[m] == h@[i + m]);
        }
        i += 1;
    }
    assert(!occurs_in(hay@, needle@));
    false
}

/// The pieces of `s` between occurrences of `sep`, in order: `n` occurrences
/// give `n + 1` pieces, empty ones included.
pub open spec fn split_on(s: Seq<char>, sep: char) -> Seq<Seq<char>>
    decreases s.len(),
{
    if s.len() == 0 {
        seq![seq![]]
    } else {
        let r = split_on(s.drop_last(), sep);
        if s.last() == sep {
            r.push(seq![])
        } else {
            r.update(r.len() - 1, r.last().push(s.last()))
        }
    }
}

/// The pieces of `s` between occurrences of `sep`, with a trailing empty piece left out.
pub open spec fn split_terminated(s: Seq<char>, sep: char) -> Seq<Seq<char>> {
    let p = split_on(s, sep);
    if p.last().len() == 0 {
        p.drop_last()
    } else {
        p
    }
}

/// The pieces written one after the other with `sep` between each two.
pub open spec fn join_with(pieces: Seq<Seq<char>>, sep: char) -> Seq<char>
    decreases pieces.len(),
{
    if pieces.len() == 0 {
        seq![]
    } else if pieces.len() == 1 {
        pieces[0]
    } else {
        join_with(pieces.drop_last(), sep) + seq![sep] + pieces.last()
    }
}

/// How many times `c` occurs in `s`.
pub open spec fn count_char(s: Seq<char>, c: char) -> nat
    decreases s.len(),
{
    if s.len() == 0 {
        0
    } else {
        count_char(s.drop_last(), c) + if s.last() == c {
            1nat
        } else {
            0nat
        }
    }
}

/// Appending a character to the last piece appends it to the joined text.
proof fn lemma_join_extend_last(pieces: Seq<Seq<char>>, sep: char, x: char)
    requires
        pieces.len() >= 1,
    ensures
        join_with(pieces.update(pieces.len() - 1, pieces.last().push(x)), sep) == join_with(pieces, sep).push(x),
{
    let r = pieces.update(pieces.len() - 1, pieces.last().push(x));
    if pieces.len() > 1 {
        assert(r.drop_last() =~= pieces.drop_last());
        assert(join_with(r, sep) =~= join_with(pieces, sep).push(x));
    }
}

/// Splitting takes the text apart at the separators and nothing else: the
/// pieces, joined again with the separator, give back the text; no piece
/// holds the separator; and there is one piece more than separators.
pub proof fn lemma_split_on_pieces(s: Seq<char>, sep: char)
    ensures
        join_with(split_on(s, sep), sep) == s,
        forall|i: int| 0 <= i < split_on(s, sep).len() ==> !(#[trigger] split_on(s, sep)[i]).contains(sep),
        split_on(s, sep).len() == count_char(s, sep) + 1,
    decreases s.len(),
{
    if s.len() == 0 {
        assert(split_on(s, sep) =~= seq![seq![]]);
        assert(s =~= Seq::<char>::empty());
    } else {
        let r = split_on(s.drop_last(), sep);
        lemma_split_on_pieces(s.drop_last(), sep);
        if s.last() == sep {
            let p = r.push(seq![]);
            assert(p.drop_last() =~= r);
            assert(join_with(p, sep) =~= s);
            assert forall|i: int| 0 <= i < p.len() implies !(#[trigger] p[i]).contains(sep) by {
                if i < r.len() {
                    assert(p[i] == r[i]);
                } else {
                    assert(p[i] =~= Seq::<char>::empty());
                }
            }
        } else {
            let x = s.last();
            let p = r.update(r.len() - 1, r.last().push(x));
            lemma_join_extend_last(r, sep, x);
            assert(s =~= s.drop_last().push(x));
            assert forall|i: int| 0 <= i < p.len() implies !(#[trigger] p[i]).contains(sep) by {
                if i < r.len() - 1 {
                    assert(p[i] == r[i]);
                } else {
                    let q = r.last().push(x);
                    assert(!r[r.len() - 1].contains(sep));
                    assert forall|j: int| 0 <= j < q.len() implies q[j] != sep by {
                        if j < r.last().len() {
                            assert(q[j] == r.last()[j]);
                        }
                    }
                }
            }
        }
    }
}

/// Splitting with a trailing empty piece left out: an empty text has no
/// pieces; otherwise the pieces joined with the separator give back the text,
/// less the separator it ends with, if any; and no piece holds the separator.
pub proof fn lemma_split_terminated_pieces(s: Seq<char>, sep: char)
    ensures
        s.len() == 0 ==> split_terminated(s, sep).len() == 0,
        s.len() > 0 ==> join_with(split_terminated(s, sep), sep) + (if s.last() == sep {
            seq![sep]
        } else {
            seq![]
        }) == s,
        forall|i: int|
            0 <= i < split_terminated(s, sep).len() ==> !(#[trigger] split_terminated(s, sep)[i]).contains(sep),
{
    lemma_split_on_pieces(s, sep);
    let q = split_on(s, sep);
    if s.len() > 0 {
        let r = split_on(s.drop_last(), sep);
        lemma_split_on_pieces(s.drop_last(), sep);
        if s.last() == sep {
            assert(q == r.push(seq![]));
            assert(q.drop_last() =~= r);
            assert(join_with(q, sep) == join_with(r, sep) + seq![sep] + q.last());
            assert(join_with(r, sep) + seq![sep] =~= s);
        } else {
            assert(q.last().len() > 0);
            assert(join_with(q, sep) + seq![] =~= s);
        }
    } else {
        assert(q =~= seq![seq![]]);
    }
    assert forall|i: int| 0 <= i < split_terminated(s, sep).len() implies !(#[trigger] split_terminated(
        s,
        sep,
    )[i]).contains(sep) by {
        assert(split_terminated(s, sep)[i] == q[i]);
    }
}

/// The characters of each string of a list.
pub open spec fn views(v: Seq<String>) -> Seq<Seq<char>> {
    v.map_values(|p: String| p@)
}

/// A copy of the characters of `s` from `from` up to `to`.
fn substring(s: &str, from: usize, to: usize) -> (r: String)
    requires
        from <= to <= s@.len(),
    ensures
        r@ == s@.subrange(from as int, to as int),
{
    String::from_str(s.substring_char(from, to))
}

/// Splits `s` at every occurrence of `sep`.
pub fn split(s: &str, sep: char) -> (r: Vec<String>)
    ensures
        views(r@) == split_on(s@, sep),
{
    let cs = chars_of(s);
    let n = cs.len();
    let mut pieces: Vec<String> = Vec::new();
    let mut start: usize = 0;
    let mut i: usize = 0;
    assert(views(pieces@) =~= Seq::<Seq<char>>::empty());
    assert(s@.subrange(0, 0) =~= Seq::<char>::empty());
    while i < n
        invariant
            cs@ == s@,
            n == s@.len(),
            start <= i <= n,
            views(pieces@) + seq![s@.subrange(start as int, i as int)] == split_on(s@.subrange(0, i as int), sep),
        decreases n - i,
    {
        let ghost prev = s@.subrange(0, i as int);
        let ghost next = s@.subrange(0, i + 1);
        let ghost before = views(pieces@);
        assert(next.drop_last() =~= prev);
        assert(next.last() == cs@[i as int]);
        if cs[i] == sep {
            let piece = substring(s, start, i);
            pieces.push(piece);
            assert(views(pieces@) =~= before.push(s@.subrange(start as int, i as int)));
            start = i + 1;
            assert(s@.subrange(start as int, i + 1) =~= Seq::<char>::empty());
            assert(views(pieces@) + seq![s@.subrange(start as int, i + 1)] =~= split_on(next, sep));
        } else {
            assert(s@.subrange(start as int, i + 1) =~= s@.subrange(start as int, i as int).push(cs@[i as int]));
            assert(views(pieces@) + seq![s@.subrange(start as int, i + 1)] =~= split_on(next, sep));
        }
        i += 1;
    }
    let last = substring(s, start, n);
    let ghost before = views(pieces@);
    pieces.push(last);
    assert(views(pieces@) =~= before.push(s@.subrange(start as int, n as int)));
    assert(s@.subrange(0, n as int) =~= s@);
    pieces
}

} // verus!
