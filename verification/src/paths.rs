//! File-name handling: splitting a file name into stem and extension,
//! validating the extension, and synthesizing the output path.

use vstd::prelude::*;
use vstd::string::StrSliceExecFns;
use vstd::string::StringExecFns;

verus! {

/// The position of the last '.' in `s`, or -1 when `s` holds none.
pub open spec fn last_dot(s: Seq<char>) -> int
    decreases s.len(),
{
    if s.len() == 0 {
        -1
    } else if s[s.len() - 1] == '.' {
        s.len() - 1
    } else {
        last_dot(s.drop_last())
    }
}

/// The stem of a file name: everything before the last '.'. A name without a
/// dot, or whose only dot leads it, is all stem.
pub open spec fn stem_of(name: Seq<char>) -> Seq<char> {
    if last_dot(name) <= 0 {
        name
    } else {
        name.subrange(0, last_dot(name))
    }
}

/// The extension of a file name: everything after the last '.'. A name
/// without a dot, or whose only dot leads it, has an empty extension.
pub open spec fn ext_of(name: Seq<char>) -> Seq<char> {
    if last_dot(name) <= 0 {
        Seq::<char>::empty()
    } else {
        name.subrange(last_dot(name) + 1, name.len() as int)
    }
}

pub proof fn lemma_last_dot(s: Seq<char>)
    ensures
        -1 <= last_dot(s) < s.len(),
        last_dot(s) >= 0 ==> s[last_dot(s)] == '.',
        forall|j: int| last_dot(s) < j < s.len() ==> s[j] != '.',
    decreases s.len(),
{
    if s.len() > 0 && s[s.len() - 1] != '.' {
        lemma_last_dot(s.drop_last());
        assert forall|j: int| last_dot(s) < j < s.len() implies s[j] != '.' by {
            if j < s.len() - 1 {
                assert(s.drop_last()[j] == s[j]);
            }
        }
    }
}

/// Character-by-character string equality.
pub fn str_eq(a: &str, b: &str) -> (r: bool)
    ensures
        r == (a@ == b@),
{
    let na = a.unicode_len();
    let nb = b.unicode_len();
    if na != nb {
        return false;
    }
    let mut i: usize = 0;
    while i < na
        invariant
            i <= na,
            na == a@.len(),
            na == b@.len(),
            forall|j: int| 0 <= j < i ==> a@[j] == b@[j],
        decreases na - i,
    {
        if a.get_char(i) != b.get_char(i) {
            return false;
        }
        i += 1;
    }
    proof {
        assert(a@ =~= b@);
    }
    true
}

/// Splits a file name into its stem and its extension at the last '.'. A
/// leading dot alone does not begin an extension, so a dotless name and a
/// hidden-file name come back whole, with an empty extension.
pub fn split_file_name(name: &str) -> (r: (String, String))
    ensures
        r.0@ == stem_of(name@),
        r.1@ == ext_of(name@),
{
    proof {
        lemma_last_dot(name@);
    }
    let n = name.unicode_len();
    let mut i: usize = n;
    loop
        invariant
            i <= n,
            n == name@.len(),
            forall|j: int| i <= j < n ==> name@[j] != '.',
        ensures
            i <= n,
            n == name@.len(),
            forall|j: int| i <= j < n ==> name@[j] != '.',
            i == 0 || name@[i - 1] == '.',
        decreases i,
    {
        if i == 0 {
            break ;
        }
        if name.get_char(i - 1) == '.' {
            break ;
        }
        i -= 1;
    }
    if i <= 1 {
        (String::from_str(name), String::new())
    } else {
        let stem = name.substring_char(0, i - 1);
        let ext = name.substring_char(i, n);
        (String::from_str(stem), String::from_str(ext))
    }
}

/// Whether an extension is one of the accepted spreadsheet extensions.
pub open spec fn supported_ext_spec(e: Seq<char>) -> bool {
    e == "xlsx"@ || e == "xls"@ || e == "xlsm"@ || e == "ods"@
}

/// Tests an extension against the accepted set.
pub fn is_supported_extension(ext: &str) -> (r: bool)
    ensures
        r == supported_ext_spec(ext@),
{
    str_eq(ext, "xlsx") || str_eq(ext, "xls") || str_eq(ext, "xlsm") || str_eq(ext, "ods")
}

/// The output file name derived from a stem and an extension.
pub open spec fn output_name_spec(stem: Seq<char>, ext: Seq<char>) -> Seq<char> {
    stem + "_formatted."@ + ext
}

/// Builds the output file name `<stem>_formatted.<ext>`.
pub fn output_file_name(stem: &str, ext: &str) -> (r: String)
    ensures
        r@ == output_name_spec(stem@, ext@),
{
    let mut s = String::from_str(stem);
    s.append("_formatted.");
    s.append(ext);
    s
}

/// A directory and a file name joined with '/'; an empty directory stands for
/// the current one and adds no separator, and a directory already ending in
/// '/' gets no second one.
pub open spec fn joined_path_spec(dir: Seq<char>, name: Seq<char>) -> Seq<char> {
    if dir.len() == 0 {
        name
    } else if dir[dir.len() - 1] == '/' {
        dir + name
    } else {
        dir + "/"@ + name
    }
}

/// Joins a directory and a file name into one path.
pub fn join_path(dir: &str, name: &str) -> (r: String)
    ensures
        r@ == joined_path_spec(dir@, name@),
{
    let n = dir.unicode_len();
    if n == 0 {
        return String::from_str(name);
    }
    let mut s = String::from_str(dir);
    if dir.get_char(n - 1) != '/' {
        s.append("/");
    }
    s.append(name);
    s
}

} // verus!
