//! The path analyzer: decides whether a path string names a renamable file
//! and computes the rename's destination.
//!
//! The model of a path is a sequence of characters. Its file name is the
//! platform's file-name component: trailing `/` separators and trailing `.`
//! components are set aside first, and the file name is what follows the
//! last separator of the rest (`photo.JPG/` and `photo.JPG/.` both name
//! `photo.JPG`); a path with nothing left, or whose final component is the
//! parent component `..`, names no file. Within the file name, the extension
//! is the portion after the last dot, except that a dot in leading position
//! marks a hidden file and separates no extension. The analyzer
//! short-circuits on the first failure, in order: no file name, no
//! extension, an extension that is already its own lowercased form.
//! Otherwise the destination keeps every character up to the extension,
//! replaces the extension with its lowercased form, and ends there: what
//! trailed the file name is dropped, as the platform's extension replacement
//! drops it.

use vstd::prelude::*;
use vstd::string::StrSliceExecFns;
use vstd::string::StringExecFns;

use crate::err::PathStrError;
use crate::fold::lower_of;
use crate::fold::lowercase;

verus! {

/// Index of the last occurrence of `c` in `s`, or -1 when `s` holds no `c`.
pub open spec fn last_index_of(s: Seq<char>, c: char) -> int
    decreases s.len(),
{
    if s.len() == 0 {
        -1
    } else if s[s.len() - 1] == c {
        s.len() - 1
    } else {
        last_index_of(s.drop_last(), c)
    }
}

/// `last_index_of` finds an occurrence when there is one, and nothing later.
pub proof fn lemma_last_index_of_props(s: Seq<char>, c: char)
    ensures
        -1 <= last_index_of(s, c) < s.len(),
        last_index_of(s, c) >= 0 ==> s[last_index_of(s, c)] == c,
        forall|j: int| last_index_of(s, c) < j < s.len() ==> s[j] != c,
    decreases s.len(),
{
    if s.len() > 0 && s[s.len() - 1] != c {
        lemma_last_index_of_props(s.drop_last(), c);
        assert forall|j: int| last_index_of(s, c) < j < s.len() implies s[j] != c by {
            if j < s.len() - 1 {
                assert(s.drop_last()[j] == s[j]);
            }
        }
    }
}

/// The position that holds `c` with nothing but other characters after it is
/// the last occurrence.
pub proof fn lemma_last_index_of_at(s: Seq<char>, c: char, i: int)
    requires
        0 <= i < s.len(),
        s[i] == c,
        forall|j: int| i < j < s.len() ==> s[j] != c,
    ensures
        last_index_of(s, c) == i,
{
    lemma_last_index_of_props(s, c);
}

/// A sequence without any occurrence of `c` has no last occurrence.
pub proof fn lemma_last_index_of_none(s: Seq<char>, c: char)
    requires
        forall|j: int| 0 <= j < s.len() ==> s[j] != c,
    ensures
        last_index_of(s, c) == -1,
{
    lemma_last_index_of_props(s, c);
}

/// Length of the path once trailing separators and trailing `.` components
/// are set aside: what remains ends with the path's final real component.
pub open spec fn trimmed_len(p: Seq<char>) -> int
    decreases p.len(),
{
    if p.len() == 0 {
        0
    } else if p[p.len() - 1] == '/' {
        trimmed_len(p.drop_last())
    } else if p[p.len() - 1] == '.' && (p.len() == 1 || p[p.len() - 2] == '/') {
        trimmed_len(p.drop_last())
    } else {
        p.len() as int
    }
}

/// The trimmed length never leaves the path.
pub proof fn lemma_trimmed_len_bounds(p: Seq<char>)
    ensures
        0 <= trimmed_len(p) <= p.len(),
    decreases p.len(),
{
    if p.len() > 0 {
        lemma_trimmed_len_bounds(p.drop_last());
    }
}

/// The path with its trailing separators and `.` components set aside.
pub open spec fn trimmed(p: Seq<char>) -> Seq<char> {
    p.take(trimmed_len(p))
}

/// The file-name component of a path: everything after the last separator of
/// the trimmed path, or all of it when it holds no separator.
pub open spec fn file_name_of(p: Seq<char>) -> Seq<char> {
    trimmed(p).subrange(last_index_of(trimmed(p), '/') + 1, trimmed(p).len() as int)
}

/// Whether the path names a file at all: a final component must remain once
/// trailing separators and `.` components are set aside, and it may not be
/// the parent component `..`. (A bare `.` cannot remain: trimming takes it.)
pub open spec fn has_file_name(p: Seq<char>) -> bool {
    &&& file_name_of(p).len() > 0
    &&& file_name_of(p) != seq!['.', '.']
}

/// Index in the file name of the dot that separates stem and extension: the
/// last one.
pub open spec fn extension_dot(f: Seq<char>) -> int {
    last_index_of(f, '.')
}

/// A file name carries an extension when it holds a dot away from leading
/// position; a leading dot marks a hidden file, not an extension.
pub open spec fn has_extension(f: Seq<char>) -> bool {
    extension_dot(f) >= 1
}

/// The extension of a file name: the portion after its last dot.
pub open spec fn extension_of(f: Seq<char>) -> Seq<char>
    recommends
        has_extension(f),
{
    f.subrange(extension_dot(f) + 1, f.len() as int)
}

/// Whether the extension is already its own lowercased form: the analyzer
/// then has nothing to do.
pub open spec fn extension_settled(f: Seq<char>) -> bool {
    lower_of(extension_of(f)) == extension_of(f)
}

/// The rename's destination: every character up to the extension, kept as
/// written, then the lowercased extension, and nothing after it.
pub open spec fn destination_of(p: Seq<char>) -> Seq<char> {
    p.take(trimmed_len(p) - extension_of(file_name_of(p)).len()) + lower_of(
        extension_of(file_name_of(p)),
    )
}

/// What the analyzer decides for a path, short-circuiting in this order: no
/// file name, no extension, an extension already lowercase, or the rename's
/// destination.
pub open spec fn analyze_spec(p: Seq<char>) -> Result<Seq<char>, PathStrError> {
    if !has_file_name(p) {
        Err(PathStrError::MissingFileName)
    } else if !has_extension(file_name_of(p)) {
        Err(PathStrError::MissingExtension)
    } else if extension_settled(file_name_of(p)) {
        Err(PathStrError::LowercaseExtension)
    } else {
        Ok(destination_of(p))
    }
}

/// Position of the last occurrence of `c` among the characters of `s`.
fn find_last(s: &str, c: char) -> (r: Option<usize>)
    ensures
        match r {
            Some(i) => i == last_index_of(s@, c) && i < s@.len(),
            None => last_index_of(s@, c) == -1,
        },
{
    let n = s.unicode_len();
    let mut i = n;
    while i > 0
        invariant
            i <= n,
            n == s@.len(),
            forall|j: int| i <= j < s@.len() ==> s@[j] != c,
        decreases i,
    {
        i = i - 1;
        if s.get_char(i) == c {
            proof {
                lemma_last_index_of_at(s@, c, i as int);
            }
            return Some(i);
        }
    }
    proof {
        lemma_last_index_of_none(s@, c);
    }
    None
}

/// Decides whether `path` names a renamable file: extracts the file name and
/// its extension, lowercases the extension, and either classifies why there
/// is nothing to rename or returns the destination path, which differs from
/// the source only in the extension substring.
pub fn analyze_path_string(path: &String) -> (r: Result<String, PathStrError>)
    ensures
        r is Ok <==> analyze_spec(path@) is Ok,
        r is Ok ==> r->Ok_0@ == analyze_spec(path@)->Ok_0,
        r is Err ==> r->Err_0 == analyze_spec(path@)->Err_0,
{
    let s = path.as_str();
    let n = s.unicode_len();

    // set trailing separators and `.` components aside
    let mut m = n;
    proof {
        assert(s@.take(n as int) =~= s@);
    }
    while m > 0
        invariant
            m <= n,
            n == s@.len(),
            trimmed_len(s@) == trimmed_len(s@.take(m as int)),
        ensures
            m <= n,
            n == s@.len(),
            trimmed_len(s@) == m,
        decreases m,
    {
        let c = s.get_char(m - 1);
        if c == '/' {
            proof {
                assert(s@.take(m as int).drop_last() =~= s@.take(m as int - 1));
            }
            m = m - 1;
        } else if c == '.' && (m == 1 || s.get_char(m - 2) == '/') {
            proof {
                assert(s@.take(m as int).drop_last() =~= s@.take(m as int - 1));
            }
            m = m - 1;
        } else {
            proof {
                assert(trimmed_len(s@.take(m as int)) == m);
            }
            break;
        }
    }
    let t = s.substring_char(0, m);
    assert(t@ == trimmed(path@));

    let start = match find_last(t, '/') {
        None => 0,
        Some(i) => i + 1,
    };
    let f = t.substring_char(start, m);
    let fl = m - start;
    assert(f@ == file_name_of(path@));

    if fl == 0 {
        return Err(PathStrError::MissingFileName);
    }
    if fl == 2 && f.get_char(0) == '.' && f.get_char(1) == '.' {
        proof {
            assert(file_name_of(path@) =~= seq!['.', '.']);
        }
        return Err(PathStrError::MissingFileName);
    }
    proof {
        if f@ == seq!['.', '.'] {
            assert(f@.len() == 2 && f@[0] == '.' && f@[1] == '.');
        }
        assert(has_file_name(path@));
    }

    let dot = match find_last(f, '.') {
        None => {
            return Err(PathStrError::MissingExtension);
        },
        Some(0) => {
            return Err(PathStrError::MissingExtension);
        },
        Some(i) => i,
    };
    proof {
        lemma_last_index_of_props(f@, '.');
    }
    let ext = f.substring_char(dot + 1, fl);
    assert(ext@ == extension_of(file_name_of(path@)));

    let low = lowercase(ext);
    let ext_owned = ext.to_owned();
    if low == ext_owned {
        return Err(PathStrError::LowercaseExtension);
    }

    let el = fl - dot - 1;
    let prefix = s.substring_char(0, m - el);
    let dst = String::from_str(prefix).concat(low.as_str());
    assert(dst@ == destination_of(path@));
    Ok(dst)
}

} // verus!
