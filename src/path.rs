//! Where an external command may live: the entries of a `PATH` value and the
//! first of the candidate files that exists.
use vstd::prelude::*;
use crate::text::{char_vec, concat3, push_char, texts};

verus! {

/// The finished entries and the entry in progress after reading `s` left to
/// right, split on `:`.
pub open spec fn split_colons(s: Seq<char>) -> (Seq<Seq<char>>, Seq<char>)
    decreases s.len(),
{
    if s.len() == 0 {
        (Seq::empty(), Seq::empty())
    } else {
        let (done, current) = split_colons(s.drop_last());
        if s.last() == ':' {
            (done.push(current), Seq::empty())
        } else {
            (done, current.push(s.last()))
        }
    }
}

/// The directories of a `PATH` value, in order: its text split on every `:`,
/// empty entries included.
pub open spec fn path_entries(s: Seq<char>) -> Seq<Seq<char>> {
    split_colons(s).0.push(split_colons(s).1)
}

/// The file that entry `dir` offers for command `name`.
pub open spec fn candidate(dir: Seq<char>, name: Seq<char>) -> Seq<char> {
    dir + seq!['/'] + name
}

/// The files to look for, in order, for command `name` under `PATH` value `path`.
pub open spec fn candidates_of(path: Seq<char>, name: Seq<char>) -> Seq<Seq<char>> {
    path_entries(path).map_values(|dir: Seq<char>| candidate(dir, name))
}

/// The files to look for, in order, for `name` under the `PATH` value `path`.
pub fn path_candidates(path: &str, name: &str) -> (r: Vec<String>)
    ensures
        texts(r@) == candidates_of(path@, name@),
{
    let chars = char_vec(path);
    let mut dirs: Vec<String> = Vec::new();
    let mut current = String::new();
    let mut i: usize = 0;
    while i < chars.len()
        invariant
            i <= chars.len(),
            chars@ == path@,
            split_colons(chars@.take(i as int)) == (texts(dirs@), current@),
        decreases chars.len() - i,
    {
        proof {
            assert(chars@.take(i + 1).drop_last() =~= chars@.take(i as int));
        }
        if chars[i] == ':' {
            proof {
                assert(texts(dirs@.push(current)) =~= texts(dirs@).push(current@));
            }
            dirs.push(current);
            current = String::new();
        } else {
            push_char(&mut current, chars[i]);
        }
        i = i + 1;
    }
    proof {
        assert(chars@.take(chars.len() as int) =~= chars@);
        assert(texts(dirs@.push(current)) =~= texts(dirs@).push(current@));
    }
    dirs.push(current);
    let mut r: Vec<String> = Vec::new();
    let mut k: usize = 0;
    while k < dirs.len()
        invariant
            k <= dirs.len(),
            texts(dirs@) == path_entries(path@),
            texts(r@) == candidates_of(path@, name@).take(k as int),
        decreases dirs.len() - k,
    {
        let full = concat3(dirs[k].as_str(), "/", name);
        proof {
            reveal_strlit("/");
            assert("/"@ =~= seq!['/']);
            assert(full@ == candidate(dirs@[k as int]@, name@));
            assert(candidates_of(path@, name@).len() == dirs.len());
            assert(candidates_of(path@, name@)[k as int] == candidate(path_entries(path@)[k as int], name@));
            assert(texts(dirs@)[k as int] == dirs@[k as int]@);
            assert(texts(r@.push(full)) =~= texts(r@).push(full@));
            assert(candidates_of(path@, name@).take(k + 1) =~= candidates_of(path@, name@).take(
                k as int,
            ).push(candidate(dirs@[k as int]@, name@)));
        }
        r.push(full);
        k = k + 1;
    }
    proof {
        assert(candidates_of(path@, name@).take(k as int) =~= candidates_of(path@, name@));
    }
    r
}

/// `i` is the first position at which `found` holds.
pub open spec fn is_first_found(found: Seq<bool>, i: int) -> bool {
    &&& 0 <= i < found.len()
    &&& found[i]
    &&& forall|j: int| 0 <= j < i ==> !found[j]
}

/// The first position at which `found` holds, if any: the candidate that a
/// search takes when `found[i]` tells whether candidate `i` exists.
pub fn first_found(found: &Vec<bool>) -> (r: Option<usize>)
    ensures
        match r {
            Some(i) => is_first_found(found@, i as int),
            None => forall|j: int| 0 <= j < found.len() ==> !found@[j],
        },
{
    let mut i: usize = 0;
    while i < found.len()
        invariant
            i <= found.len(),
            forall|j: int| 0 <= j < i ==> !found@[j],
        decreases found.len() - i,
    {
        if found[i] {
            return Some(i);
        }
        i = i + 1;
    }
    None
}

} // verus!
