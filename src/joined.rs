//! Comma-separated text: how lists of identifiers and names are joined into one
//! string, and split back.
use itertools::Itertools;
use vstd::prelude::*;

verus! {

/// The parts, in order, with one `,` between neighbours.
pub open spec fn comma_joined(parts: Seq<Seq<char>>) -> Seq<char>
    decreases parts.len(),
{
    if parts.len() == 0 {
        seq![]
    } else if parts.len() == 1 {
        parts[0]
    } else {
        comma_joined(parts.drop_last()) + seq![','] + parts.last()
    }
}

/// The views of a list of strings.
pub open spec fn views_of(parts: Seq<String>) -> Seq<Seq<char>> {
    parts.map_values(|s: String| s@)
}

/// `vs` lists the values of `m`, one for each key, in some order.
pub open spec fn one_per_key<V>(vs: Seq<V>, m: Map<Seq<char>, V>) -> bool {
    exists|ks: Seq<Seq<char>>|
        {
            &&& ks.no_duplicates()
            &&& ks.to_set() == m.dom()
            &&& vs.len() == ks.len()
            &&& forall|i: int| 0 <= i < ks.len() ==> vs[i] == m[#[trigger] ks[i]]
        }
}

/// No part holds a `,`.
pub open spec fn comma_free(parts: Seq<Seq<char>>) -> bool {
    forall|i: int, j: int| 0 <= i < parts.len() && 0 <= j < parts[i].len() ==> parts[i][j] != ','
}

/// Relies on itertools' `Itertools::join`: it writes the first item, then `sep`
/// and the next item for each further item, and gives the empty string for no
/// items; a `&String` is written as its characters.
#[verifier::external_body]
pub(crate) fn join_with_commas(parts: &Vec<String>) -> (r: String)
    ensures
        r@ == comma_joined(views_of(parts@)),
{
    parts.iter().join(",")
}

/// Joining one more part adds a `,` and the part (or just the part, to nothing).
pub proof fn lemma_join_push(parts: Seq<Seq<char>>, p: Seq<char>)
    ensures
        comma_joined(parts.push(p)) == if parts.len() == 0 {
            p
        } else {
            comma_joined(parts) + seq![','] + p
        },
{
    assert(parts.push(p).drop_last() =~= parts);
}

/// Viewing a list with one more string adds that string's view.
pub proof fn lemma_views_push(parts: Seq<String>, s: String)
    ensures
        views_of(parts.push(s)) == views_of(parts).push(s@),
{
    assert(views_of(parts.push(s)) =~= views_of(parts).push(s@));
}

/// Splits `s` at every `,`. The parts hold no `,` and, joined again, give `s`.
pub fn split_commas(s: &str) -> (r: Vec<String>)
    ensures
        r@.len() >= 1,
        comma_free(views_of(r@)),
        comma_joined(views_of(r@)) == s@,
{
    let n = s.unicode_len();
    let mut parts: Vec<String> = Vec::new();
    let mut start: usize = 0;
    let mut i: usize = 0;
    while i < n
        invariant
            n == s@.len(),
            start <= i <= n,
            comma_free(views_of(parts@)),
            forall|j: int| start <= j < i ==> s@[j] != ',',
            parts@.len() == 0 ==> start == 0,
            parts@.len() > 0 ==> comma_joined(views_of(parts@)) + seq![','] == s@.subrange(
                0,
                start as int,
            ),
        decreases n - i,
    {
        if s.get_char(i) == ',' {
            let piece = s.substring_char(start, i).to_owned();
            proof {
                lemma_join_push(views_of(parts@), piece@);
                lemma_views_push(parts@, piece);
                if parts@.len() > 0 {
                    assert(s@.subrange(0, i as int) =~= s@.subrange(0, start as int) + s@.subrange(
                        start as int,
                        i as int,
                    ));
                } else {
                    assert(s@.subrange(0, i as int) =~= s@.subrange(start as int, i as int));
                }
                assert(s@.subrange(0, i + 1) =~= s@.subrange(0, i as int) + seq![',']);
            }
            parts.push(piece);
            start = i + 1;
        }
        i = i + 1;
    }
    let piece = s.substring_char(start, n).to_owned();
    proof {
        lemma_join_push(views_of(parts@), piece@);
        lemma_views_push(parts@, piece);
        if parts@.len() > 0 {
            assert(s@ =~= s@.subrange(0, start as int) + s@.subrange(start as int, n as int));
        } else {
            assert(s@ =~= s@.subrange(start as int, n as int));
        }
    }
    parts.push(piece);
    parts
}

/// Joining is one-to-one on non-empty lists whose parts hold no `,`.
pub proof fn lemma_join_injective(a: Seq<Seq<char>>, b: Seq<Seq<char>>)
    requires
        a.len() >= 1,
        b.len() >= 1,
        comma_free(a),
        comma_free(b),
        comma_joined(a) == comma_joined(b),
    ensures
        a == b,
    decreases a.len() + b.len(),
{
    let j = comma_joined(a);
    if a.len() == 1 && b.len() == 1 {
        assert(a =~= b);
    } else if a.len() == 1 {
        let y = comma_joined(b.drop_last());
        assert(comma_joined(b)[y.len() as int] == ',');
        assert(a[0][y.len() as int] == ',');
    } else if b.len() == 1 {
        let x = comma_joined(a.drop_last());
        assert(comma_joined(a)[x.len() as int] == ',');
        assert(b[0][x.len() as int] == ',');
    } else {
        let x = comma_joined(a.drop_last());
        let y = comma_joined(b.drop_last());
        let l = a.last();
        let m = b.last();
        assert(j =~= x + seq![','] + l);
        assert(j =~= y + seq![','] + m);
        if l.len() < m.len() {
            let k = m.len() - l.len() - 1;
            assert(j[x.len() as int] == ',');
            assert(j[x.len() as int] == m[k]);
            assert(m[k] == b[b.len() - 1][k]);
        } else if m.len() < l.len() {
            let k = l.len() - m.len() - 1;
            assert(j[y.len() as int] == ',');
            assert(j[y.len() as int] == l[k]);
            assert(l[k] == a[a.len() - 1][k]);
        } else {
            assert(l =~= j.subrange(j.len() - l.len(), j.len() as int));
            assert(m =~= j.subrange(j.len() - m.len(), j.len() as int));
            assert(x =~= j.subrange(0, x.len() as int));
            assert(y =~= j.subrange(0, y.len() as int));
            assert(comma_free(a.drop_last()));
            assert(comma_free(b.drop_last()));
            lemma_join_injective(a.drop_last(), b.drop_last());
            assert(a =~= a.drop_last().push(l));
            assert(b =~= b.drop_last().push(m));
        }
    }
}

/// Where `key` stands in `ids`, if anywhere.
pub fn position_of(ids: &Vec<String>, key: &String) -> (r: Option<usize>)
    ensures
        match r {
            Some(i) => i < ids@.len() && ids@[i as int]@ == key@,
            None => !views_of(ids@).contains(key@),
        },
{
    let mut i: usize = 0;
    while i < ids.len()
        invariant
            i <= ids@.len(),
            forall|j: int| 0 <= j < i ==> ids@[j]@ != key@,
        decreases ids@.len() - i,
    {
        if ids[i] == *key {
            return Some(i);
        }
        i = i + 1;
    }
    proof {
        if views_of(ids@).contains(key@) {
            let j = choose|j: int| 0 <= j < views_of(ids@).len() && views_of(ids@)[j] == key@;
            assert(ids@[j]@ == key@);
        }
    }
    None
}

/// Whether two strings hold the same characters.
pub fn same_text(a: &str, b: &str) -> (r: bool)
    ensures
        r == (a@ == b@),
{
    let n = a.unicode_len();
    if n != b.unicode_len() {
        return false;
    }
    let mut i: usize = 0;
    while i < n
        invariant
            n == a@.len(),
            n == b@.len(),
            i <= n,
            forall|j: int| 0 <= j < i ==> a@[j] == b@[j],
        decreases n - i,
    {
        if a.get_char(i) != b.get_char(i) {
            return false;
        }
        i = i + 1;
    }
    assert(a@ =~= b@);
    true
}

} // verus!
