// Path-name arithmetic on plain strings: where the final component of a
// path begins, where its extension starts, what the parent directory is,
// and how a base directory and a file name are joined. Paths are modelled
// as their character sequences; '/' separates components.

use vstd::prelude::*;
use vstd::string::StrSliceExecFns;
use vstd::string::StringExecFns;

verus! {

/// Index of the last occurrence of `c` in `p`, if any.
pub open spec fn last_index_of(p: Seq<char>, c: char) -> Option<int>
    decreases p.len(),
{
    if p.len() == 0 {
        None
    } else if p.last() == c {
        Some(p.len() - 1)
    } else {
        last_index_of(p.drop_last(), c)
    }
}

/// Where the final path component begins: just past the last separator,
/// or at the start when the path has no separator.
pub open spec fn file_name_start(p: Seq<char>) -> int {
    match last_index_of(p, '/') {
        Some(i) => i + 1,
        None => 0,
    }
}

/// Index of the '.' that begins the extension of the final component, if
/// that component has one: the last '.' of the path, provided it lies
/// strictly inside the final component (a component that merely starts
/// with '.' has no extension).
pub open spec fn extension_dot(p: Seq<char>) -> Option<int> {
    match last_index_of(p, '.') {
        Some(j) => if j > file_name_start(p) {
            Some(j)
        } else {
            None
        },
        None => None,
    }
}

/// The path with its extension replaced by the subtitle extension: the
/// characters from the extension dot on are replaced by ".srt"; a path
/// whose final component has no extension gains the suffix instead.
pub open spec fn with_srt_extension(p: Seq<char>) -> Seq<char> {
    match extension_dot(p) {
        Some(j) => p.subrange(0, j) + ".srt"@,
        None => p + ".srt"@,
    }
}

/// The parent directory of a path: everything before the last separator.
/// A path consisting of the root alone, or one without any separator, has
/// no parent; a file directly under the root has the root as its parent.
pub open spec fn parent_of(p: Seq<char>) -> Option<Seq<char>> {
    match last_index_of(p, '/') {
        None => None,
        Some(i) => if i == 0 && p.len() == 1 {
            None
        } else if i == 0 {
            Some(p.subrange(0, 1))
        } else {
            Some(p.subrange(0, i))
        },
    }
}

/// A base directory joined with a file name: a single separator stands
/// between them, none is doubled, and an empty base contributes nothing.
pub open spec fn joined(base: Seq<char>, name: Seq<char>) -> Seq<char> {
    if base.len() == 0 {
        name
    } else if base.last() == '/' {
        base + name
    } else {
        base + "/"@ + name
    }
}

/// The character sequence an optional location stands for.
pub open spec fn location_view(r: Option<String>) -> Option<Seq<char>> {
    match r {
        Some(s) => Some(s@),
        None => None,
    }
}

/// Position of the last occurrence of `needle` in `s`, scanned from the end.
fn last_position_of(s: &str, needle: char) -> (r: Option<usize>)
    ensures
        match r {
            Some(i) => i < s@.len() && last_index_of(s@, needle) == Some(i as int),
            None => last_index_of(s@, needle) is None,
        },
{
    let n = s.unicode_len();
    let mut i = n;
    proof {
        assert(s@.subrange(0, n as int) =~= s@);
    }
    while i > 0
        invariant
            i <= n,
            n == s@.len(),
            last_index_of(s@, needle) == last_index_of(s@.subrange(0, i as int), needle),
        decreases i,
    {
        let c = s.get_char(i - 1);
        proof {
            let p = s@.subrange(0, i as int);
            assert(p.last() == s@[i - 1]);
            assert(p.drop_last() =~= s@.subrange(0, i as int - 1));
        }
        if c == needle {
            return Some(i - 1);
        }
        i = i - 1;
    }
    proof {
        assert(s@.subrange(0, 0) =~= Seq::<char>::empty());
    }
    None
}

/// The deterministic subtitle output location for an input location: the
/// input with its extension replaced by ".srt", in the same directory.
/// It is computed from the input location alone.
pub fn srt_output_location(input: &str) -> (r: String)
    ensures
        r@ == with_srt_extension(input@),
{
    let n = input.unicode_len();
    let slash = last_position_of(input, '/');
    let dot = last_position_of(input, '.');
    let name_start: usize = match slash {
        Some(i) => i + 1,
        None => 0,
    };
    let cut: Option<usize> = match dot {
        Some(j) => if j > name_start {
            Some(j)
        } else {
            None
        },
        None => None,
    };
    match cut {
        Some(j) => {
            proof {
                assert(extension_dot(input@) == Some(j as int));
            }
            let mut out = input.substring_char(0, j).to_owned();
            out.append(".srt");
            out
        },
        None => {
            proof {
                assert(extension_dot(input@) is None);
            }
            let mut out = input.to_owned();
            out.append(".srt");
            out
        },
    }
}

/// The parent directory of a path, when it has one.
pub fn parent_location(path: &str) -> (r: Option<String>)
    ensures
        location_view(r) == parent_of(path@),
{
    let n = path.unicode_len();
    match last_position_of(path, '/') {
        None => None,
        Some(i) => {
            if i == 0 && n == 1 {
                None
            } else if i == 0 {
                Some(path.substring_char(0, 1).to_owned())
            } else {
                Some(path.substring_char(0, i).to_owned())
            }
        },
    }
}

/// A base directory joined with a file name.
pub fn join_path(base: &str, name: &str) -> (r: String)
    ensures
        r@ == joined(base@, name@),
{
    let n = base.unicode_len();
    if n == 0 {
        name.to_owned()
    } else {
        let last = base.get_char(n - 1);
        let mut out = base.to_owned();
        if last != '/' {
            out.append("/");
        }
        out.append(name);
        proof {
            assert(out@ =~= joined(base@, name@));
        }
        out
    }
}

} // verus!
