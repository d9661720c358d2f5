use vstd::prelude::*;

verus! {

/// `needle` occurs in `hay` starting at position `i`.
pub open spec fn occurs_at(hay: Seq<char>, needle: Seq<char>, i: int) -> bool {
    0 <= i && i + needle.len() <= hay.len() && hay.subrange(i, i + needle.len()) == needle
}

/// `needle` occurs somewhere in `hay`.
pub open spec fn contains_seq(hay: Seq<char>, needle: Seq<char>) -> bool {
    exists|i: int| occurs_at(hay, needle, i)
}

/// Lines joined with a single `'\n'` between neighbours, none at the end.
pub open spec fn joined(lines: Seq<Seq<char>>) -> Seq<char>
    decreases lines.len(),
{
    if lines.len() == 0 {
        Seq::empty()
    } else if lines.len() == 1 {
        lines[0]
    } else {
        joined(lines.drop_last()) + seq!['\n'] + lines.last()
    }
}

/// The characters of `s`, one per element.
pub fn chars_of(s: &str) -> (r: Vec<char>)
    ensures
        r@ == s@,
{
    let mut r: Vec<char> = Vec::new();
    for c in it: s.chars()
        invariant
            it.seq() == s@,
            r@ == it.seq().take(it.index() as int),
    {
        r.push(c);
    }
    r
}

/// Whether `needle` occurs in `hay`, both given as characters.
pub fn contains_chars(hay: &Vec<char>, needle: &Vec<char>) -> (r: bool)
    ensures
        r == contains_seq(hay@, needle@),
{
    let n = hay.len();
    let m = needle.len();
    if m > n {
        assert forall|i: int| !occurs_at(hay@, needle@, i) by {}
        return false;
    }
    let mut i: usize = 0;
    while i <= n - m
        invariant
            m <= n,
            n == hay@.len(),
            m == needle@.len(),
            i <= n - m + 1,
            forall|k: int| 0 <= k < i ==> !occurs_at(hay@, needle@, k),
        decreases n - m + 1 - i,
    {
        let mut j: usize = 0;
        let mut same = true;
        while j < m && same
            invariant
                i + m <= n,
                n == hay@.len(),
                m == needle@.len(),
                j <= m,
                same ==> forall|k: int| 0 <= k < j ==> hay@[i + k] == needle@[k],
                !same ==> exists|k: int| 0 <= k < m && hay@[i + k] != needle@[k],
            decreases m - j + (if same { 1int } else { 0int }),
        {
            if hay[i + j] != needle[j] {
                same = false;
            } else {
                j = j + 1;
            }
        }
        if same {
            assert(hay@.subrange(i as int, i + m) =~= needle@);
            assert(occurs_at(hay@, needle@, i as int));
            return true;
        }
        proof {
            let k = choose|k: int| 0 <= k < m && hay@[i + k] != needle@[k];
            assert(hay@.subrange(i as int, i + m)[k] != needle@[k]);
        }
        i = i + 1;
    }
    proof {
        assert forall|k: int| !occurs_at(hay@, needle@, k) by {
            if 0 <= k && k < i {
            }
        }
    }
    false
}

/// Whether `needle` occurs in `hay`.
pub fn contains_str(hay: &str, needle: &str) -> (r: bool)
    ensures
        r == contains_seq(hay@, needle@),
{
    let h = chars_of(hay);
    let n = chars_of(needle);
    contains_chars(&h, &n)
}

/// The lines joined by `'\n'`, as a text file's lines are read back.
pub fn join_lines(lines: &Vec<String>) -> (r: String)
    ensures
        r@ == joined(lines.deep_view()),
{
    let mut r = String::new();
    let ghost ls = lines.deep_view();
    let mut i: usize = 0;
    while i < lines.len()
        invariant
            ls == lines.deep_view(),
            i <= lines.len(),
            r@ == joined(ls.take(i as int)),
        decreases lines.len() - i,
    {
        proof {
            assert(ls.take(i + 1).drop_last() =~= ls.take(i as int));
        }
        if i > 0 {
            proof {
                reveal_strlit("\n");
            }
            r.append("\n");
        }
        r.append(lines[i].as_str());
        proof {
            if i == 0 {
                assert(r@ =~= joined(ls.take(1)));
            } else {
                assert(r@ =~= joined(ls.take(i + 1)));
            }
        }
        i = i + 1;
    }
    assert(ls.take(lines.len() as int) =~= ls);
    r
}

} // verus!
