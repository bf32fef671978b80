//! The search path: splitting the path-list variable into directories, and
//! joining a directory with a program name into a candidate path.

use vstd::prelude::*;

verus! {

/// The character that separates directories in the search-path variable.
pub open spec fn separator() -> char {
    ':'
}

/// The views of a sequence of strings.
pub open spec fn views_of(v: Seq<String>) -> Seq<Seq<char>> {
    v.map_values(|s: String| s@)
}

pub proof fn lemma_views_of_push(v: Seq<String>, s: String)
    ensures
        views_of(v.push(s)) == views_of(v).push(s@),
{
    assert(views_of(v.push(s)) =~= views_of(v).push(s@));
}

/// Splitting a character sequence on the separator, keeping empty pieces:
/// an empty input yields one empty piece, as splitting a string does.
pub open spec fn split_spec(s: Seq<char>) -> Seq<Seq<char>>
    decreases s.len(),
{
    if s.len() == 0 {
        seq![Seq::<char>::empty()]
    } else if s.last() == separator() {
        split_spec(s.drop_last()).push(Seq::<char>::empty())
    } else {
        let p = split_spec(s.drop_last());
        p.update(p.len() - 1, p.last().push(s.last()))
    }
}

/// Split a search-path string on the separator, as the platform splits its
/// path-list variable.
pub fn split_search_path(s: &str) -> (r: Vec<String>)
    ensures
        views_of(r@) == split_spec(s@),
{
    let n = s.unicode_len();
    let mut pieces: Vec<String> = Vec::new();
    let mut start: usize = 0;
    let mut i: usize = 0;
    proof {
        assert(s@.subrange(0, 0) =~= Seq::<char>::empty());
        assert(views_of(pieces@).push(s@.subrange(0, 0)) =~~= split_spec(s@.subrange(0, 0)));
    }
    while i < n
        invariant
            start <= i <= n,
            n == s@.len(),
            views_of(pieces@).push(s@.subrange(start as int, i as int)) == split_spec(
                s@.subrange(0, i as int),
            ),
        decreases n - i,
    {
        let ghost pieces_before = pieces@;
        let ghost start_before = start as int;
        let c = s.get_char(i);
        if c == ':' {
            let piece = String::from_str(s.substring_char(start, i));
            pieces.push(piece);
            start = i + 1;
        }
        i = i + 1;
        proof {
            let t = s@.subrange(0, i as int);
            assert(t.drop_last() =~= s@.subrange(0, i - 1));
            assert(t.last() == s@[i - 1]);
            if c == separator() {
                lemma_views_of_push(pieces_before, pieces@.last());
                assert(s@.subrange(start as int, i as int) =~= Seq::<char>::empty());
                assert(views_of(pieces@).push(s@.subrange(start as int, i as int)) =~~= split_spec(
                    t,
                ));
            } else {
                assert(s@.subrange(start_before, i as int) =~= s@.subrange(
                    start_before,
                    i - 1,
                ).push(s@[i - 1]));
                assert(views_of(pieces@).push(s@.subrange(start as int, i as int)) =~~= split_spec(
                    t,
                ));
            }
        }
    }
    let last_piece = String::from_str(s.substring_char(start, n));
    proof {
        lemma_views_of_push(pieces@, last_piece);
        assert(s@.subrange(0, n as int) =~= s@);
    }
    pieces.push(last_piece);
    pieces
}

/// The candidate path for a program name in one directory: the literal join,
/// inserting a slash only where the directory does not already end in one.
pub open spec fn join_spec(dir: Seq<char>, name: Seq<char>) -> Seq<char> {
    if dir.len() == 0 {
        name
    } else if dir.last() == '/' {
        dir + name
    } else {
        dir + seq!['/'] + name
    }
}

/// Build the candidate path for a program name in one directory.
pub fn join_candidate(dir: &str, name: &str) -> (r: String)
    ensures
        r@ == join_spec(dir@, name@),
{
    let n = dir.unicode_len();
    if n == 0 {
        String::from_str(name)
    } else {
        let mut out = String::from_str(dir);
        if dir.get_char(n - 1) != '/' {
            out.append("/");
            proof {
                reveal_strlit("/");
                assert(out@ =~= dir@ + seq!['/']);
            }
        }
        out.append(name);
        proof {
            assert(dir@.last() == dir@[n - 1]);
            assert(out@ =~= join_spec(dir@, name@));
        }
        out
    }
}

} // verus!
