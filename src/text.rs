use vstd::prelude::*;
use vstd::string::*;

verus! {

/// The pieces of `s` between occurrences of `sep`, as `str::split` gives them:
/// always at least one piece, empty pieces kept.
pub open spec fn split_seq(s: Seq<char>, sep: char) -> Seq<Seq<char>>
    decreases s.len(),
{
    if s.len() == 0 {
        seq![Seq::<char>::empty()]
    } else {
        let pieces = split_seq(s.drop_last(), sep);
        if s.last() == sep {
            pieces.push(Seq::<char>::empty())
        } else {
            pieces.update(pieces.len() - 1, pieces.last().push(s.last()))
        }
    }
}

/// The pieces joined with `sep` between neighbours, as `[..].join(sep)` gives them.
pub open spec fn join_seq(parts: Seq<Seq<char>>, sep: char) -> Seq<char>
    decreases parts.len(),
{
    if parts.len() == 0 {
        Seq::<char>::empty()
    } else if parts.len() == 1 {
        parts[0]
    } else {
        join_seq(parts.drop_last(), sep).push(sep) + parts.last()
    }
}

/// No piece holds the separator.
pub open spec fn all_free_of(parts: Seq<Seq<char>>, sep: char) -> bool {
    forall|i: int| 0 <= i < parts.len() ==> !(#[trigger] parts[i]).contains(sep)
}

pub proof fn lemma_split_nonempty(s: Seq<char>, sep: char)
    ensures
        split_seq(s, sep).len() >= 1,
    decreases s.len(),
{
    if s.len() > 0 {
        lemma_split_nonempty(s.drop_last(), sep);
    }
}

pub proof fn lemma_split_pieces_free(s: Seq<char>, sep: char)
    ensures
        all_free_of(split_seq(s, sep), sep),
    decreases s.len(),
{
    if s.len() > 0 {
        lemma_split_pieces_free(s.drop_last(), sep);
        lemma_split_nonempty(s.drop_last(), sep);
        let pieces = split_seq(s.drop_last(), sep);
        let r = split_seq(s, sep);
        assert forall|i: int| 0 <= i < r.len() implies !(#[trigger] r[i]).contains(sep) by {
            if s.last() != sep && i == pieces.len() - 1 {
                let p = pieces.last().push(s.last());
                assert(r[i] == p);
                if p.contains(sep) {
                    let j = choose|j: int| 0 <= j < p.len() && p[j] == sep;
                    if j < pieces.last().len() {
                        assert(pieces.last()[j] == sep);
                        assert(pieces[pieces.len() - 1].contains(sep));
                    }
                }
            } else if i < pieces.len() {
                assert(r[i] == pieces[i]);
            } else {
                assert(r[i] =~= Seq::<char>::empty());
            }
        }
    }
}

pub proof fn lemma_split_free(s: Seq<char>, sep: char)
    requires
        !s.contains(sep),
    ensures
        split_seq(s, sep) =~= seq![s],
    decreases s.len(),
{
    if s.len() > 0 {
        assert(!s.drop_last().contains(sep)) by {
            if s.drop_last().contains(sep) {
                let j = choose|j: int| 0 <= j < s.drop_last().len() && s.drop_last()[j] == sep;
                assert(s[j] == sep);
            }
        }
        lemma_split_free(s.drop_last(), sep);
        assert(s.last() != sep) by {
            assert(s[s.len() - 1] == s.last());
        }
        assert(s.drop_last().push(s.last()) =~= s);
        assert(split_seq(s, sep) =~= seq![s.drop_last()].update(0, s.drop_last().push(s.last())));
    } else {
        assert(s =~= Seq::<char>::empty());
    }
}

/// Splitting `a`, a separator and then `b` gives the pieces of `a` followed by those of `b`.
pub proof fn lemma_split_around(a: Seq<char>, b: Seq<char>, sep: char)
    ensures
        split_seq(a.push(sep) + b, sep) =~= split_seq(a, sep) + split_seq(b, sep),
    decreases b.len(),
{
    lemma_split_nonempty(a, sep);
    if b.len() == 0 {
        assert(a.push(sep) + b =~= a.push(sep));
        assert(a.push(sep).drop_last() =~= a);
    } else {
        let s = a.push(sep) + b;
        lemma_split_around(a, b.drop_last(), sep);
        lemma_split_nonempty(b.drop_last(), sep);
        assert(s.drop_last() =~= a.push(sep) + b.drop_last());
        assert(s.last() == b.last());
    }
}

pub proof fn lemma_join_split(s: Seq<char>, sep: char)
    ensures
        join_seq(split_seq(s, sep), sep) =~= s,
    decreases s.len(),
{
    if s.len() > 0 {
        let init = s.drop_last();
        lemma_join_split(init, sep);
        lemma_split_nonempty(init, sep);
        let pieces = split_seq(init, sep);
        if s.last() == sep {
            let r = pieces.push(Seq::<char>::empty());
            assert(r.drop_last() =~= pieces);
            assert(join_seq(r, sep) =~= join_seq(pieces, sep).push(sep) + Seq::<char>::empty());
            assert(init.push(sep) =~= s);
        } else {
            let last = pieces.last().push(s.last());
            let r = pieces.update(pieces.len() - 1, last);
            if pieces.len() == 1 {
                assert(pieces[0] =~= init);
                assert(join_seq(r, sep) == r[0]);
                assert(init.push(s.last()) =~= s);
            } else {
                assert(r.drop_last() =~= pieces.drop_last());
                assert(join_seq(pieces, sep) == join_seq(pieces.drop_last(), sep).push(sep)
                    + pieces.last());
                assert(join_seq(r, sep) =~= join_seq(pieces, sep).push(s.last()));
                assert(init.push(s.last()) =~= s);
            }
        }
    }
}

pub proof fn lemma_split_join(parts: Seq<Seq<char>>, sep: char)
    requires
        parts.len() >= 1,
        all_free_of(parts, sep),
    ensures
        split_seq(join_seq(parts, sep), sep) =~= parts,
    decreases parts.len(),
{
    if parts.len() == 1 {
        assert(!parts[0].contains(sep));
        lemma_split_free(parts[0], sep);
    } else {
        let init = parts.drop_last();
        assert(all_free_of(init, sep)) by {
            assert forall|i: int| 0 <= i < init.len() implies !(#[trigger] init[i]).contains(sep) by {
                assert(init[i] == parts[i]);
            }
        }
        lemma_split_join(init, sep);
        assert(!parts[parts.len() - 1].contains(sep));
        lemma_split_free(parts.last(), sep);
        lemma_split_around(join_seq(init, sep), parts.last(), sep);
        assert(init.push(parts.last()) =~= parts);
    }
}

pub proof fn lemma_concat_free(a: Seq<char>, b: Seq<char>, c: char)
    requires
        !a.contains(c),
        !b.contains(c),
    ensures
        !(a + b).contains(c),
{
    if (a + b).contains(c) {
        let j = choose|j: int| 0 <= j < (a + b).len() && (a + b)[j] == c;
        if j < a.len() {
            assert(a[j] == c);
        } else {
            assert(b[j - a.len()] == c);
        }
    }
}

pub proof fn lemma_flatten_free(parts: Seq<Seq<char>>, c: char)
    requires
        all_free_of(parts, c),
    ensures
        !parts.flatten().contains(c),
    decreases parts.len(),
{
    if parts.len() > 0 {
        let rest = parts.drop_first();
        assert(all_free_of(rest, c)) by {
            assert forall|i: int| 0 <= i < rest.len() implies !(#[trigger] rest[i]).contains(c) by {
                assert(rest[i] == parts[i + 1]);
            }
        }
        lemma_flatten_free(rest, c);
        assert(!parts[0].contains(c));
        lemma_concat_free(parts.first(), rest.flatten(), c);
    }
}

pub proof fn lemma_join_free(parts: Seq<Seq<char>>, sep: char, c: char)
    requires
        all_free_of(parts, c),
        sep != c,
    ensures
        !join_seq(parts, sep).contains(c),
    decreases parts.len(),
{
    if parts.len() == 1 {
        assert(!parts[0].contains(c));
    } else if parts.len() > 1 {
        let init = parts.drop_last();
        assert(all_free_of(init, c)) by {
            assert forall|i: int| 0 <= i < init.len() implies !(#[trigger] init[i]).contains(c) by {
                assert(init[i] == parts[i]);
            }
        }
        lemma_join_free(init, sep, c);
        let j = join_seq(init, sep);
        assert(!seq![sep].contains(c)) by {
            if seq![sep].contains(c) {
                assert(seq![sep][0] == c);
            }
        }
        lemma_concat_free(j, seq![sep], c);
        assert(j + seq![sep] =~= j.push(sep));
        assert(!parts[parts.len() - 1].contains(c));
        lemma_concat_free(j.push(sep), parts.last(), c);
    }
}

/// Splits `s` at each `sep`.
pub fn split_text(s: &str, sep: char) -> (r: Vec<String>)
    ensures
        r@.map_values(|p: String| p@) =~= split_seq(s@, sep),
{
    let n = s.unicode_len();
    let mut done: Vec<String> = Vec::new();
    let mut start: usize = 0;
    let mut i: usize = 0;
    assert(s@.subrange(0, 0) =~= Seq::<char>::empty());
    assert(done@.map_values(|p: String| p@) =~= Seq::<Seq<char>>::empty());
    assert(split_seq(Seq::<char>::empty(), sep) =~= seq![Seq::<char>::empty()]);
    while i < n
        invariant
            n == s@.len(),
            start <= i <= n,
            split_seq(s@.subrange(0, i as int), sep) =~= done@.map_values(|p: String| p@).push(
                s@.subrange(start as int, i as int),
            ),
        decreases n - i,
    {
        let c = s.get_char(i);
        let ghost prev = s@.subrange(0, i as int);
        let ghost next = s@.subrange(0, i + 1);
        assert(next.drop_last() =~= prev);
        assert(next.last() == c);
        proof {
            lemma_split_nonempty(prev, sep);
        }
        if c == sep {
            let piece = s.substring_char(start, i);
            let owned = String::from_str(piece);
            done.push(owned);
            start = i + 1;
        }
        i = i + 1;
        assert(s@.subrange(start as int, i as int) =~= if c == sep {
            Seq::<char>::empty()
        } else {
            s@.subrange(start as int, i - 1).push(c)
        });
    }
    let piece = s.substring_char(start, n);
    let owned = String::from_str(piece);
    done.push(owned);
    assert(s@.subrange(0, n as int) =~= s@);
    done
}

/// Joins `parts` with `sep` between neighbours.
pub fn join_text(parts: &Vec<String>, sep: &str) -> (r: String)
    requires
        sep@.len() == 1,
    ensures
        r@ == join_seq(parts@.map_values(|p: String| p@), sep@[0]),
{
    let ghost views = parts@.map_values(|p: String| p@);
    let mut r = String::new();
    let mut k: usize = 0;
    while k < parts.len()
        invariant
            k <= parts.len(),
            views == parts@.map_values(|p: String| p@),
            sep@.len() == 1,
            r@ == join_seq(views.subrange(0, k as int), sep@[0]),
        decreases parts.len() - k,
    {
        let ghost before = views.subrange(0, k as int);
        let ghost after = views.subrange(0, k + 1);
        assert(after.drop_last() =~= before);
        if k > 0 {
            r.append(sep);
            assert(sep@ =~= seq![sep@[0]]);
        }
        r.append(parts[k].as_str());
        assert(r@ =~= join_seq(after, sep@[0]));
        k = k + 1;
    }
    assert(views.subrange(0, parts.len() as int) =~= views);
    r
}

/// `needle` occurs in `hay` at some index.
pub open spec fn has_infix(hay: Seq<char>, needle: Seq<char>) -> bool {
    exists|i: int|
        0 <= i && i + needle.len() <= hay.len() && #[trigger] hay.subrange(i, i + needle.len())
            == needle
}

/// Whether `needle` occurs in `hay`.
pub fn contains_text(hay: &str, needle: &str) -> (r: bool)
    ensures
        r == has_infix(hay@, needle@),
{
    let n = hay.unicode_len();
    let m = needle.unicode_len();
    if m > n {
        assert forall|i: int| 0 <= i && i + m <= n implies #[trigger] hay@.subrange(i, i + m)
            != needle@ by {}
        return false;
    }
    let mut i: usize = 0;
    while i <= n - m
        invariant
            n == hay@.len(),
            m == needle@.len(),
            m <= n,
            i <= n - m + 1,
            forall|k: int| 0 <= k < i ==> #[trigger] hay@.subrange(k, k + m) != needle@,
        decreases n - i,
    {
        let mut j: usize = 0;
        let mut same = true;
        while j < m
            invariant
                n == hay@.len(),
                m == needle@.len(),
                i + m <= n,
                j <= m,
                same == (forall|l: int| 0 <= l < j ==> hay@[i + l] == needle@[l]),
            decreases m - j,
        {
            if hay.get_char(i + j) != needle.get_char(j) {
                same = false;
            }
            j = j + 1;
        }
        if same {
            assert(hay@.subrange(i as int, i + m) =~= needle@);
            return true;
        }
        assert(hay@.subrange(i as int, i + m) != needle@) by {
            let l = choose|l: int| 0 <= l < m && hay@[i + l] != needle@[l];
            assert(hay@.subrange(i as int, i + m)[l] == hay@[i + l]);
        }
        i = i + 1;
    }
    false
}

} // verus!
