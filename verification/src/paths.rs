//! Output path resolution.
//!
//! Paths are plain strings with `'/'` as the separator.  Two naming
//! conventions exist side by side, both derived from the input file's
//! stem: the command-line convention `<stem>_out.<ext>` resolved
//! against a working directory, and the desktop convention
//! `<stem>-8m.mp4` placed in the user's video directory (falling back
//! to the input's parent directory, then to the current directory).

use vstd::prelude::*;
use crate::error::ConvertError;

verus! {

/// Index of the last occurrence of `c` in `s`, or -1 when absent.
pub open spec fn rfind_char(s: Seq<char>, c: char) -> int
    decreases s.len(),
{
    if s.len() == 0 {
        -1
    } else if s.last() == c {
        s.len() - 1
    } else {
        rfind_char(s.drop_last(), c)
    }
}

proof fn lemma_rfind_char_at(s: Seq<char>, c: char, i: int)
    requires
        0 <= i < s.len(),
        s[i] == c,
        forall|j: int| i < j < s.len() ==> s[j] != c,
    ensures
        rfind_char(s, c) == i,
    decreases s.len(),
{
    if i < s.len() - 1 {
        lemma_rfind_char_at(s.drop_last(), c, i);
    }
}

proof fn lemma_rfind_char_none(s: Seq<char>, c: char)
    requires
        forall|j: int| 0 <= j < s.len() ==> s[j] != c,
    ensures
        rfind_char(s, c) == -1,
    decreases s.len(),
{
    if s.len() > 0 {
        lemma_rfind_char_none(s.drop_last(), c);
    }
}

/// Position of the last occurrence of `c`, if any.
fn rfind(s: &str, c: char) -> (r: Option<usize>)
    ensures
        match r {
            Some(i) => i < s@.len() && rfind_char(s@, c) == i,
            None => rfind_char(s@, c) == -1,
        },
{
    let mut i: usize = s.unicode_len();
    while i > 0
        invariant
            i <= s@.len(),
            forall|j: int| i <= j < s@.len() ==> s@[j] != c,
        decreases i,
    {
        let ch = s.get_char(i - 1);
        if ch == c {
            proof {
                lemma_rfind_char_at(s@, c, i - 1);
            }
            return Some(i - 1);
        }
        i = i - 1;
    }
    proof {
        lemma_rfind_char_none(s@, c);
    }
    None
}

/// The portion after the last `'/'`; the whole path when there is none.
pub open spec fn spec_file_name(p: Seq<char>) -> Seq<char> {
    p.subrange(rfind_char(p, '/') + 1, p.len() as int)
}

/// The file name without its extension: everything before the last
/// `'.'`, except that a name starting with its only `'.'` is kept
/// whole.  `None` when there is no file name at all.
pub open spec fn spec_file_stem(p: Seq<char>) -> Option<Seq<char>> {
    let f = spec_file_name(p);
    if f.len() == 0 {
        None
    } else {
        let d = rfind_char(f, '.');
        if d <= 0 {
            Some(f)
        } else {
            Some(f.subrange(0, d))
        }
    }
}

/// The file name's extension, after the last `'.'`; empty when there
/// is none.
pub open spec fn spec_extension(p: Seq<char>) -> Seq<char> {
    let f = spec_file_name(p);
    let d = rfind_char(f, '.');
    if d <= 0 {
        Seq::empty()
    } else {
        f.subrange(d + 1, f.len() as int)
    }
}

/// The directory above the file name: `None` for an empty path and for
/// the root, the empty string for a bare relative name.
pub open spec fn spec_parent(p: Seq<char>) -> Option<Seq<char>> {
    let i = rfind_char(p, '/');
    if p.len() == 0 {
        None
    } else if i == -1 {
        Some(Seq::empty())
    } else if i == 0 {
        if p.len() == 1 {
            None
        } else {
            Some(seq!['/'])
        }
    } else {
        Some(p.subrange(0, i))
    }
}

/// `dir` and `name` with one `'/'` between them; an empty `dir`
/// contributes nothing.
pub open spec fn spec_join(dir: Seq<char>, name: Seq<char>) -> Seq<char> {
    if dir.len() == 0 {
        name
    } else if dir.last() == '/' {
        dir + name
    } else {
        dir + seq!['/'] + name
    }
}

/// Whether the path is rooted.
pub open spec fn spec_has_root(p: Seq<char>) -> bool {
    p.len() > 0 && p[0] == '/'
}

/// The file name of `p`.
pub fn file_name_part(p: &str) -> (r: String)
    ensures
        r@ == spec_file_name(p@),
{
    let n = p.unicode_len();
    match rfind(p, '/') {
        Some(i) => p.substring_char(i + 1, n).to_owned(),
        None => {
            proof {
                assert(p@.subrange(0, n as int) =~= p@);
            }
            p.to_owned()
        },
    }
}

/// The stem and the extension of `p`'s file name.
pub fn file_stem_ext(p: &str) -> (r: Option<(String, String)>)
    ensures
        match r {
            Some(se) => spec_file_stem(p@) == Some(se.0@) && se.1@ == spec_extension(p@),
            None => spec_file_stem(p@) is None,
        },
{
    let f = file_name_part(p);
    let fs = f.as_str();
    let n = fs.unicode_len();
    if n == 0 {
        return None;
    }
    match rfind(fs, '.') {
        Some(d) if d > 0 => {
            let stem = fs.substring_char(0, d).to_owned();
            let ext = fs.substring_char(d + 1, n).to_owned();
            Some((stem, ext))
        },
        _ => {
            proof {
                assert(fs@.subrange(0, n as int) =~= fs@);
            }
            Some((fs.to_owned(), String::new()))
        },
    }
}

/// The parent directory of `p`.
pub fn parent_dir(p: &str) -> (r: Option<String>)
    ensures
        match r {
            Some(d) => spec_parent(p@) == Some(d@),
            None => spec_parent(p@) is None,
        },
{
    let n = p.unicode_len();
    if n == 0 {
        return None;
    }
    match rfind(p, '/') {
        None => Some(String::new()),
        Some(0) => {
            if n == 1 {
                None
            } else {
                proof {
                    reveal_strlit("/");
                    assert("/"@ =~= seq!['/']);
                }
                Some("/".to_owned())
            }
        },
        Some(i) => Some(p.substring_char(0, i).to_owned()),
    }
}

/// Joins a directory and a file name with one separator.
pub fn join_path(dir: &str, name: &str) -> (r: String)
    ensures
        r@ == spec_join(dir@, name@),
{
    let n = dir.unicode_len();
    if n == 0 {
        return name.to_owned();
    }
    let mut out = dir.to_owned();
    if dir.get_char(n - 1) != '/' {
        proof {
            reveal_strlit("/");
            assert("/"@ =~= seq!['/']);
        }
        out.append("/");
    }
    out.append(name);
    out
}

/// Whether `p` is rooted.
pub fn has_root(p: &str) -> (r: bool)
    ensures
        r == spec_has_root(p@),
{
    p.unicode_len() > 0 && p.get_char(0) == '/'
}

/// A resolved output location: the full file path, and the directory
/// that holds it (the one a file browser would be pointed at).
#[derive(Debug)]
pub struct OutFile {
    pub full_path: String,
    pub explorer_dir: String,
}

impl OutFile {
    /// An `OutFile` from its two parts.
    pub fn new(file_path: String, output_dir: String) -> (r: OutFile)
        ensures
            r.full_path@ == file_path@,
            r.explorer_dir@ == output_dir@,
    {
        OutFile { full_path: file_path, explorer_dir: output_dir }
    }

    /// An `OutFile` with both parts empty.
    pub fn empty() -> (r: OutFile)
        ensures
            r.full_path@ == Seq::<char>::empty(),
            r.explorer_dir@ == Seq::<char>::empty(),
    {
        OutFile { full_path: String::new(), explorer_dir: String::new() }
    }
}

/// A resolved output location under the desktop naming convention.
#[derive(Debug)]
pub struct FileInfo {
    pub file_path: String,
    pub output_dir: String,
}

impl FileInfo {
    /// A `FileInfo` from its two parts.
    pub fn new(file_path: String, output_dir: String) -> (r: FileInfo)
        ensures
            r.file_path@ == file_path@,
            r.output_dir@ == output_dir@,
    {
        FileInfo { file_path, output_dir }
    }

    /// A `FileInfo` with both parts empty.
    pub fn empty() -> (r: FileInfo)
        ensures
            r.file_path@ == Seq::<char>::empty(),
            r.output_dir@ == Seq::<char>::empty(),
    {
        FileInfo { file_path: String::new(), output_dir: String::new() }
    }
}

/// Relies on `directories::UserDirs`: the current user's video
/// directory, when the platform knows one.  The answer depends on the
/// environment, so nothing further is promised of it.
#[verifier::external_body]
fn user_video_dir() -> (r: Option<String>)
{
    match directories::UserDirs::new() {
        Some(dirs) => match dirs.video_dir() {
            Some(path) => path.to_str().map(|s| s.to_string()),
            None => None,
        },
        None => None,
    }
}

/// The desktop convention's file name for a given stem.
pub open spec fn spec_gui_name(stem: Seq<char>) -> Seq<char> {
    stem + "-8m.mp4"@
}

/// The directory the desktop convention writes into: the video
/// directory when one is known, else the input's parent, else the
/// current directory.
pub fn resolve_gui_dir(videos_dir: Option<String>, input: &str) -> (r: String)
    ensures
        match videos_dir {
            Some(v) => r@ == v@,
            None => match spec_parent(input@) {
                Some(d) => r@ == d,
                None => r@ == "."@,
            },
        },
{
    match videos_dir {
        Some(v) => v,
        None => match parent_dir(input) {
            Some(d) => d,
            None => ".".to_owned(),
        },
    }
}

/// The desktop convention's output location inside a given directory:
/// `<dir>/<stem>-8m.mp4`.  Fails only when the input has no file stem.
pub fn format_input_in(input: &str, dir: &str) -> (r: Result<FileInfo, ConvertError>)
    ensures
        match r {
            Ok(f) => spec_file_stem(input@) matches Some(stem) && f.file_path@ == spec_join(
                dir@,
                spec_gui_name(stem),
            ) && f.output_dir@ == dir@,
            Err(e) => e == ConvertError::NoFileStem && spec_file_stem(input@) is None,
        },
{
    match file_stem_ext(input) {
        None => Err(ConvertError::NoFileStem),
        Some((stem, _ext)) => {
            let mut name = stem;
            name.append("-8m.mp4");
            let full = join_path(dir, name.as_str());
            Ok(FileInfo { file_path: full, output_dir: dir.to_owned() })
        },
    }
}

/// The desktop convention end to end: picks the directory from the
/// environment's video directory (falling back to the input's parent,
/// then to the current directory) and names the file
/// `<stem>-8m.mp4` in it.
pub fn format_input(input: &str) -> (r: Result<FileInfo, ConvertError>)
    ensures
        match r {
            Ok(f) => spec_file_stem(input@) matches Some(stem) && f.file_path@ == spec_join(
                f.output_dir@,
                spec_gui_name(stem),
            ),
            Err(e) => e == ConvertError::NoFileStem && spec_file_stem(input@) is None,
        },
{
    let videos = user_video_dir();
    let dir = resolve_gui_dir(videos, input);
    format_input_in(input, dir.as_str())
}

/// The command-line convention's default file name:
/// `<stem>_out.<ext>`.  Fails only when the input has no file stem.
pub fn cli_default_name(input: &str) -> (r: Result<String, ConvertError>)
    ensures
        match r {
            Ok(name) => spec_file_stem(input@) matches Some(stem) && name@ == stem + "_out."@
                + spec_extension(input@),
            Err(e) => e == ConvertError::NoFileStem && spec_file_stem(input@) is None,
        },
{
    match file_stem_ext(input) {
        None => Err(ConvertError::NoFileStem),
        Some((stem, ext)) => {
            let mut name = stem;
            name.append("_out.");
            name.append(ext.as_str());
            Ok(name)
        },
    }
}

/// The command-line convention end to end: an explicit rooted output
/// is taken verbatim; an explicit relative one is resolved against the
/// working directory; with none, `<stem>_out.<ext>` is resolved
/// against the working directory.
pub fn resolve_cli_output(explicit: Option<&str>, cwd: &str, input: &str) -> (r: Result<
    String,
    ConvertError,
>)
    ensures
        match r {
            Ok(p) => match explicit {
                Some(o) => if spec_has_root(o@) {
                    p@ == o@
                } else {
                    p@ == spec_join(cwd@, o@)
                },
                None => spec_file_stem(input@) matches Some(stem) && p@ == spec_join(
                    cwd@,
                    stem + "_out."@ + spec_extension(input@),
                ),
            },
            Err(e) => e == ConvertError::NoFileStem && explicit is None && spec_file_stem(
                input@,
            ) is None,
        },
{
    match explicit {
        Some(o) => {
            if has_root(o) {
                Ok(o.to_owned())
            } else {
                Ok(join_path(cwd, o))
            }
        },
        None => {
            let name = cli_default_name(input)?;
            Ok(join_path(cwd, name.as_str()))
        },
    }
}

} // verus!
