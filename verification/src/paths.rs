//! Paths as text, read the POSIX way: components are separated by `/` and by
//! nothing else, and the file name of a path is the text after its last
//! separator. A backslash is a character like any other, as it is in the
//! file names of the systems whose shell runs the programs.

use crate::text::{extend, last_index, last_position, slice};
use vstd::prelude::*;

verus! {

/// The text after the last `/` of `path`; all of it where there is none.
pub open spec fn file_name_of(path: Seq<char>) -> Seq<char> {
    path.subrange(last_position(path, '/', path.len() as int) + 1, path.len() as int)
}

/// The text before the last `/` of `path`: empty where there is none, and `/`
/// itself where the only one stands first.
pub open spec fn directory_of(path: Seq<char>) -> Seq<char> {
    let sep = last_position(path, '/', path.len() as int);
    if sep < 0 {
        Seq::empty()
    } else if sep == 0 {
        path.subrange(0, 1)
    } else {
        path.subrange(0, sep)
    }
}

/// Whether `name` can name a file: it is not empty and is neither `.` nor `..`.
pub open spec fn is_file_name(name: Seq<char>) -> bool {
    &&& name.len() > 0
    &&& name != seq!['.']
    &&& name != seq!['.', '.']
}

/// The position of the dot that starts the extension of `name`, or a value
/// that is not positive: a dot that stands first starts no extension.
pub open spec fn extension_dot(name: Seq<char>) -> int {
    last_position(name, '.', name.len() as int)
}

/// The text after the last dot of `name`; empty where no dot starts an
/// extension.
pub open spec fn extension_of(name: Seq<char>) -> Seq<char> {
    if extension_dot(name) > 0 {
        name.subrange(extension_dot(name) + 1, name.len() as int)
    } else {
        Seq::empty()
    }
}

/// `name` without its extension and the dot before it.
pub open spec fn stem_of(name: Seq<char>) -> Seq<char> {
    if extension_dot(name) > 0 {
        name.subrange(0, extension_dot(name))
    } else {
        name
    }
}

/// The path of `name` inside `directory`.
pub open spec fn path_in(directory: Seq<char>, name: Seq<char>) -> Seq<char> {
    if directory.len() == 0 {
        name
    } else if directory.last() == '/' {
        directory + name
    } else {
        directory + seq!['/'] + name
    }
}

pub proof fn lemma_last_position_bounds(s: Seq<char>, c: char, end: int)
    requires
        0 <= end <= s.len(),
    ensures
        -1 <= last_position(s, c, end) < end,
        last_position(s, c, end) >= 0 ==> s[last_position(s, c, end)] == c,
        forall|i: int| last_position(s, c, end) < i < end ==> s[i] != c,
    decreases end,
{
    if end > 0 && s[end - 1] != c {
        lemma_last_position_bounds(s, c, end - 1);
    }
}

pub fn file_name(path: &Vec<char>) -> (r: Vec<char>)
    ensures
        r@ == file_name_of(path@),
{
    proof {
        lemma_last_position_bounds(path@, '/', path@.len() as int);
    }
    match last_index(path, '/') {
        Some(sep) => slice(path, sep + 1, path.len()),
        None => slice(path, 0, path.len()),
    }
}

pub fn directory(path: &Vec<char>) -> (r: Vec<char>)
    ensures
        r@ == directory_of(path@),
{
    proof {
        lemma_last_position_bounds(path@, '/', path@.len() as int);
    }
    match last_index(path, '/') {
        Some(sep) => if sep == 0 {
            slice(path, 0, 1)
        } else {
            slice(path, 0, sep)
        },
        None => Vec::new(),
    }
}

pub fn valid_file_name(name: &Vec<char>) -> (r: bool)
    ensures
        r == is_file_name(name@),
{
    if name.len() == 0 {
        false
    } else if name.len() == 1 {
        assert(name@ =~= seq![name@[0]]);
        name[0] != '.'
    } else if name.len() == 2 {
        assert(name@ =~= seq![name@[0], name@[1]]);
        !(name[0] == '.' && name[1] == '.')
    } else {
        true
    }
}

pub fn extension(name: &Vec<char>) -> (r: Vec<char>)
    ensures
        r@ == extension_of(name@),
{
    proof {
        lemma_last_position_bounds(name@, '.', name@.len() as int);
    }
    match last_index(name, '.') {
        Some(dot) => if dot > 0 {
            slice(name, dot + 1, name.len())
        } else {
            Vec::new()
        },
        None => Vec::new(),
    }
}

pub fn stem(name: &Vec<char>) -> (r: Vec<char>)
    ensures
        r@ == stem_of(name@),
{
    proof {
        lemma_last_position_bounds(name@, '.', name@.len() as int);
    }
    match last_index(name, '.') {
        Some(dot) => if dot > 0 {
            slice(name, 0, dot)
        } else {
            let r = slice(name, 0, name.len());
            assert(r@ =~= name@);
            r
        },
        None => {
            let r = slice(name, 0, name.len());
            assert(r@ =~= name@);
            r
        },
    }
}

pub fn join_path(directory: &Vec<char>, name: &Vec<char>) -> (r: Vec<char>)
    ensures
        r@ == path_in(directory@, name@),
{
    let mut r: Vec<char> = Vec::new();
    extend(&mut r, directory);
    if directory.len() > 0 && directory[directory.len() - 1] != '/' {
        r.push('/');
    }
    extend(&mut r, name);
    assert(r@ =~= path_in(directory@, name@));
    r
}

} // verus!
