use vstd::prelude::*;
use crate::platform::Os;

verus! {

/// A path with every backslash turned into a forward slash.
pub open spec fn forward_slashed(s: Seq<char>) -> Seq<char> {
    s.map_values(|c: char| if c == '\\' { '/' } else { c })
}

/// `s` starts with a slash in front of a drive letter, as in `/C:/`.
pub open spec fn has_slashed_drive(s: Seq<char>) -> bool {
    &&& s.len() >= 4
    &&& s[0] == '/'
    &&& (('a' <= s[1] && s[1] <= 'z') || ('A' <= s[1] && s[1] <= 'Z'))
    &&& s[2] == ':'
    &&& s[3] == '/'
}

/// A working directory in the slash form that path joining expects. On
/// Windows backslashes become slashes and a leading `/<drive>:/` becomes
/// `<drive>:/`; other systems keep the path as it is.
pub open spec fn sanitized_dir(os: Os, dir: Seq<char>) -> Seq<char> {
    match os {
        Os::Windows => {
            let s = forward_slashed(dir);
            if has_slashed_drive(s) {
                s.drop_first()
            } else {
                s
            }
        },
        _ => dir,
    }
}

/// Joins a path component onto a base path, with `/` as the separator: a
/// component that starts with `/` replaces the base, and a separator is
/// added only where the base is not empty and does not already end in one.
pub open spec fn joined(base: Seq<char>, part: Seq<char>) -> Seq<char> {
    if part.len() > 0 && part[0] == '/' {
        part
    } else if base.len() == 0 || base.last() == '/' {
        base + part
    } else {
        base + seq!['/'] + part
    }
}

/// The cache directory of a release version: `<tool>-<version>`.
pub open spec fn cache_dir_of(tool: Seq<char>, version: Seq<char>) -> Seq<char> {
    tool + seq!['-'] + version
}

/// A file inside a directory, written as `<dir>/<name>`.
pub open spec fn file_in(dir: Seq<char>, name: Seq<char>) -> Seq<char> {
    dir + seq!['/'] + name
}

/// Rewrites a working directory into the slash form that path joining expects.
pub fn sanitize_working_dir(os: Os, dir: &str) -> (r: String)
    ensures
        r@ == sanitized_dir(os, dir@),
{
    match os {
        Os::Windows => {},
        _ => return String::from_str(dir),
    }
    let n = dir.unicode_len();
    let mut out = String::new();
    let mut i: usize = 0;
    while i < n
        invariant
            n == dir@.len(),
            i <= n,
            out@ == forward_slashed(dir@.subrange(0, i as int)),
        decreases n - i,
    {
        let c = dir.get_char(i);
        let ghost before = out@;
        if c == '\\' {
            out.append("/");
            proof {
                reveal_strlit("/");
            }
            assert("/"@ =~= seq!['/']);
        } else {
            let piece = dir.substring_char(i, i + 1);
            assert(piece@ =~= seq![c]);
            out.append(piece);
        }
        assert(out@ =~= before.push(if c == '\\' { '/' } else { c }));
        assert(dir@.subrange(0, i + 1) =~= dir@.subrange(0, i as int).push(c));
        assert(forward_slashed(dir@.subrange(0, i + 1)) =~= forward_slashed(
            dir@.subrange(0, i as int),
        ).push(if c == '\\' { '/' } else { c }));
        i = i + 1;
    }
    assert(dir@.subrange(0, n as int) =~= dir@);
    let s = out.as_str();
    if n >= 4 {
        let c0 = s.get_char(0);
        let c1 = s.get_char(1);
        let c2 = s.get_char(2);
        let c3 = s.get_char(3);
        if c0 == '/' && (('a' <= c1 && c1 <= 'z') || ('A' <= c1 && c1 <= 'Z')) && c2 == ':' && c3
            == '/' {
            let rest = String::from_str(s.substring_char(1, n));
            assert(rest@ =~= out@.drop_first());
            return rest;
        }
    }
    out
}

/// Joins a path component onto a base path (see [`joined`]).
pub fn join_path(base: &str, part: &str) -> (r: String)
    ensures
        r@ == joined(base@, part@),
{
    proof {
        reveal_strlit("/");
    }
    let part_len = part.unicode_len();
    if part_len > 0 && part.get_char(0) == '/' {
        return String::from_str(part);
    }
    let base_len = base.unicode_len();
    let mut out = String::from_str(base);
    if base_len > 0 && base.get_char(base_len - 1) != '/' {
        out.append("/");
    }
    out.append(part);
    out
}

/// The cache directory that holds one release version of a tool.
pub fn cache_directory(tool: &str, version: &str) -> (r: String)
    ensures
        r@ == cache_dir_of(tool@, version@),
{
    proof {
        reveal_strlit("-");
    }
    let mut out = String::from_str(tool);
    out.append("-");
    out.append(version);
    out
}

/// The path of a file inside a directory, written `<dir>/<name>`.
pub fn file_path(dir: &str, name: &str) -> (r: String)
    ensures
        r@ == file_in(dir@, name@),
{
    proof {
        reveal_strlit("/");
    }
    let mut out = String::from_str(dir);
    out.append("/");
    out.append(name);
    out
}

} // verus!
