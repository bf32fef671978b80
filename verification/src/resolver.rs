//! The resolver: turn a program name plus the ordered search path into the
//! first existing candidate path, or a not-found marker.

use vstd::prelude::*;
use crate::search_path::join_candidate;
use crate::search_path::join_spec;
use crate::search_path::views_of;

verus! {

/// The outcome of resolving one program name against the search path.
#[derive(Debug, PartialEq, Eq)]
pub enum Resolution {
    Found(String),
    NotFound,
}

/// The mathematical value of a `Resolution`.
pub enum ResolutionView {
    Found(Seq<char>),
    NotFound,
}

impl View for Resolution {
    type V = ResolutionView;

    open spec fn view(&self) -> ResolutionView {
        match self {
            Resolution::Found(p) => ResolutionView::Found(p@),
            Resolution::NotFound => ResolutionView::NotFound,
        }
    }
}

/// Resolution against a modelled filesystem: `fs` lists the paths that
/// exist. The first directory whose candidate exists wins; when none does,
/// the name is a miss.
pub open spec fn resolve_model(
    dirs: Seq<Seq<char>>,
    name: Seq<char>,
    fs: Seq<Seq<char>>,
) -> ResolutionView
    decreases dirs.len(),
{
    if dirs.len() == 0 {
        ResolutionView::NotFound
    } else if fs.contains(join_spec(dirs[0], name)) {
        ResolutionView::Found(join_spec(dirs[0], name))
    } else {
        resolve_model(dirs.drop_first(), name, fs)
    }
}

/// Whether the view of one of the strings in `fs` equals the view of `x`.
fn contains_string(fs: &Vec<String>, x: &String) -> (r: bool)
    ensures
        r == views_of(fs@).contains(x@),
{
    let mut i: usize = 0;
    while i < fs.len()
        invariant
            i <= fs@.len(),
            forall|j: int| 0 <= j < i ==> fs@[j]@ != x@,
        decreases fs@.len() - i,
    {
        if fs[i] == *x {
            proof {
                assert(views_of(fs@)[i as int] == x@);
            }
            return true;
        }
        i = i + 1;
    }
    proof {
        assert forall|j: int| 0 <= j < views_of(fs@).len() implies views_of(fs@)[j] != x@ by {
            assert(views_of(fs@)[j] == fs@[j]@);
        }
    }
    false
}

/// Resolve a name against the search path, with the filesystem handed in as
/// the list of paths that exist.
pub fn resolve_in(dirs: &Vec<String>, name: &str, existing: &Vec<String>) -> (r: Resolution)
    ensures
        r@ == resolve_model(views_of(dirs@), name@, views_of(existing@)),
{
    let ghost dv = views_of(dirs@);
    let ghost fsv = views_of(existing@);
    let mut i: usize = 0;
    proof {
        assert(dv.skip(0) =~= dv);
    }
    while i < dirs.len()
        invariant
            i <= dirs@.len(),
            dv == views_of(dirs@),
            fsv == views_of(existing@),
            resolve_model(dv, name@, fsv) == resolve_model(dv.skip(i as int), name@, fsv),
        decreases dirs@.len() - i,
    {
        let cand = join_candidate(dirs[i].as_str(), name);
        proof {
            assert(dv.skip(i as int)[0] == dv[i as int]);
        }
        if contains_string(existing, &cand) {
            return Resolution::Found(cand);
        }
        proof {
            assert(dv.skip(i as int).drop_first() =~= dv.skip(i + 1));
        }
        i = i + 1;
    }
    proof {
        assert(dv.skip(i as int) =~= Seq::<Seq<char>>::empty());
    }
    Resolution::NotFound
}

/// Relies on std::path::Path::exists: whether a path of that name exists on
/// the filesystem right now. No contract: the answer depends on the disk.
#[verifier::external_body]
fn probe(path: &String) -> bool {
    std::path::Path::new(path.as_str()).exists()
}

/// Resolve a name against the real filesystem: probe each directory's
/// candidate in search-path order and stop at the first that exists. The
/// disk decides which branch is taken, so the contract says only what holds
/// of every outcome: a found path is the candidate of one of the
/// directories, and an empty search path is always a miss.
pub fn resolve(dirs: &Vec<String>, name: &str) -> (r: Resolution)
    ensures
        (r matches Resolution::Found(p) ==> exists|j: int|
            0 <= j < dirs@.len() && p@ == join_spec(dirs@[j]@, name@)),
        dirs@.len() == 0 ==> r matches Resolution::NotFound,
{
    let mut i: usize = 0;
    while i < dirs.len()
        invariant
            i <= dirs@.len(),
        decreases dirs@.len() - i,
    {
        let cand = join_candidate(dirs[i].as_str(), name);
        if probe(&cand) {
            return Resolution::Found(cand);
        }
        i = i + 1;
    }
    Resolution::NotFound
}

/// First match wins: where directory `k` holds the name and every earlier
/// directory does not, resolution returns the candidate of directory `k`,
/// never a later one.
pub proof fn lemma_first_match(dirs: Seq<Seq<char>>, name: Seq<char>, fs: Seq<Seq<char>>, k: int)
    requires
        0 <= k < dirs.len(),
        fs.contains(join_spec(dirs[k], name)),
        forall|j: int| 0 <= j < k ==> !fs.contains(join_spec(dirs[j], name)),
    ensures
        resolve_model(dirs, name, fs) == ResolutionView::Found(join_spec(dirs[k], name)),
    decreases k,
{
    if k > 0 {
        lemma_first_match(dirs.drop_first(), name, fs, k - 1);
    }
}

/// A name absent from every directory of the search path is a miss.
pub proof fn lemma_absent_not_found(dirs: Seq<Seq<char>>, name: Seq<char>, fs: Seq<Seq<char>>)
    requires
        forall|j: int| 0 <= j < dirs.len() ==> !fs.contains(join_spec(dirs[j], name)),
    ensures
        resolve_model(dirs, name, fs) == ResolutionView::NotFound,
    decreases dirs.len(),
{
    if dirs.len() > 0 {
        lemma_absent_not_found(dirs.drop_first(), name, fs);
    }
}

/// An empty search path resolves every name to a miss.
pub proof fn lemma_empty_search_path(name: Seq<char>, fs: Seq<Seq<char>>)
    ensures
        forall|dirs: Seq<Seq<char>>|
            dirs.len() == 0 ==> resolve_model(dirs, name, fs) == ResolutionView::NotFound,
{
}

/// Resolution is a function of the search path, the name and the filesystem
/// alone: repeating an identical query against an unchanged filesystem and
/// search path gives an identical result.
pub proof fn lemma_resolution_idempotent(
    dirs1: Seq<Seq<char>>,
    name1: Seq<char>,
    fs1: Seq<Seq<char>>,
    dirs2: Seq<Seq<char>>,
    name2: Seq<char>,
    fs2: Seq<Seq<char>>,
)
    requires
        dirs1 == dirs2,
        name1 == name2,
        fs1 == fs2,
    ensures
        resolve_model(dirs1, name1, fs1) == resolve_model(dirs2, name2, fs2),
{
}

} // verus!
