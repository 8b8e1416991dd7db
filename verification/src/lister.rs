use vstd::prelude::*;
use vstd::string::*;
use crate::errors::{ErrorKind, MissingDir};

verus! {

/// One entry found directly inside the wallpapers directory, as plain values:
/// `name` is the final path component, `path` the full path. Listing never
/// descends, so only directly contained entries are ever represented.
#[derive(Debug)]
pub struct DirEntryInfo {
    pub name: String,
    pub path: String,
}

/// What probing and reading the wallpapers directory yielded. The unverified
/// shell performs the filesystem access and reports its outcome as one of
/// these plain values.
#[derive(Debug)]
pub enum DirProbe {
    /// The platform exposes no pictures base directory.
    NoPicturesDir,
    /// The wallpapers subdirectory of the pictures directory does not exist.
    NoWallpapersDir,
    /// The directory could not be opened, or reading an entry failed
    /// mid-scan; the text is the operating system's error text.
    ReadFailed(String),
    /// The directory was read completely; its direct entries, in directory
    /// iteration order.
    Read(Vec<DirEntryInfo>),
}

/// The code point a character compares as under ASCII-case-insensitive
/// comparison: ASCII uppercase letters fold to their lowercase counterpart,
/// every other character stands for itself.
pub open spec fn lower_code(c: char) -> int {
    if 65 <= c as int && c as int <= 90 {
        c as int + 32
    } else {
        c as int
    }
}

/// Two characters are equal ignoring ASCII case.
pub open spec fn char_ieq(x: char, y: char) -> bool {
    lower_code(x) == lower_code(y)
}

/// Two character sequences are equal ignoring ASCII case.
pub open spec fn chars_ieq(a: Seq<char>, b: Seq<char>) -> bool {
    a.len() == b.len() && (forall|i: int| 0 <= i < a.len() ==> char_ieq(a[i], b[i]))
}

/// The allow-list of image extensions: an extension qualifies when it equals
/// one of the four recognized raster formats ignoring ASCII case.
pub open spec fn is_allowed_ext(e: Seq<char>) -> bool {
    ||| chars_ieq(e, seq!['j', 'p', 'g'])
    ||| chars_ieq(e, seq!['j', 'p', 'e', 'g'])
    ||| chars_ieq(e, seq!['p', 'n', 'g'])
    ||| chars_ieq(e, seq!['w', 'e', 'b', 'p'])
}

/// The index of the last `.` in `s`, or `-1` when `s` holds none.
pub open spec fn last_dot(s: Seq<char>) -> int
    decreases s.len(),
{
    if s.len() == 0 {
        -1
    } else if s[s.len() - 1] == '.' {
        s.len() - 1
    } else {
        last_dot(s.drop_last())
    }
}

/// The last-dot index always lies in the name, or is `-1`.
pub proof fn lemma_last_dot_bounds(s: Seq<char>)
    ensures
        -1 <= last_dot(s) < s.len(),
    decreases s.len(),
{
    if s.len() > 0 && s[s.len() - 1] != '.' {
        lemma_last_dot_bounds(s.drop_last());
    }
}

/// The extension of a file name: the portion after the last `.`, or nothing
/// when the name holds no `.` or only a leading one (a hidden file such as
/// `.config` has no extension; a trailing `.` yields the empty extension).
pub open spec fn extension_of(name: Seq<char>) -> Option<Seq<char>> {
    let j = last_dot(name);
    if j <= 0 {
        None
    } else {
        Some(name.subrange(j + 1, name.len() as int))
    }
}

/// A file name denotes a wallpaper image when it has an extension and that
/// extension is on the allow-list.
pub open spec fn is_image_name(name: Seq<char>) -> bool {
    match extension_of(name) {
        Some(e) => is_allowed_ext(e),
        None => false,
    }
}

proof fn lemma_last_dot_none(s: Seq<char>)
    requires
        forall|k: int| 0 <= k < s.len() ==> s[k] != '.',
    ensures
        last_dot(s) == -1,
    decreases s.len(),
{
    if s.len() > 0 {
        lemma_last_dot_none(s.drop_last());
    }
}

proof fn lemma_last_dot_at(s: Seq<char>, j: int)
    requires
        0 <= j < s.len(),
        s[j] == '.',
        forall|k: int| j < k < s.len() ==> s[k] != '.',
    ensures
        last_dot(s) == j,
    decreases s.len(),
{
    if j < s.len() - 1 {
        lemma_last_dot_at(s.drop_last(), j);
    }
}

/// Whether `x` and `y` are equal ignoring ASCII case.
fn char_eq_ignore_case(x: char, y: char) -> (r: bool)
    ensures
        r == char_ieq(x, y),
{
    let cx = x as u32;
    let cy = y as u32;
    let lx: u32 = if 65 <= cx && cx <= 90 {
        cx + 32
    } else {
        cx
    };
    let ly: u32 = if 65 <= cy && cy <= 90 {
        cy + 32
    } else {
        cy
    };
    lx == ly
}

/// Whether the characters of `name` from `start` to the end equal, ignoring
/// ASCII case, the three characters `a`, `b`, `c`.
fn tail_ieq3(name: &str, start: usize, a: char, b: char, c: char) -> (r: bool)
    requires
        start + 3 == name@.len(),
        name@.len() <= usize::MAX,
    ensures
        r == chars_ieq(name@.subrange(start as int, name@.len() as int), seq![a, b, c]),
{
    let r = char_eq_ignore_case(name.get_char(start), a) && char_eq_ignore_case(
        name.get_char(start + 1),
        b,
    ) && char_eq_ignore_case(name.get_char(start + 2), c);
    proof {
        let sub = name@.subrange(start as int, name@.len() as int);
        let pat = seq![a, b, c];
        if r {
            assert forall|i: int| 0 <= i < sub.len() implies char_ieq(sub[i], pat[i]) by {
                assert(sub[i] == name@[start + i]);
            }
        }
    }
    r
}

/// Whether the characters of `name` from `start` to the end equal, ignoring
/// ASCII case, the four characters `a`, `b`, `c`, `d`.
fn tail_ieq4(name: &str, start: usize, a: char, b: char, c: char, d: char) -> (r: bool)
    requires
        start + 4 == name@.len(),
        name@.len() <= usize::MAX,
    ensures
        r == chars_ieq(name@.subrange(start as int, name@.len() as int), seq![a, b, c, d]),
{
    let r = char_eq_ignore_case(name.get_char(start), a) && char_eq_ignore_case(
        name.get_char(start + 1),
        b,
    ) && char_eq_ignore_case(name.get_char(start + 2), c) && char_eq_ignore_case(
        name.get_char(start + 3),
        d,
    );
    proof {
        let sub = name@.subrange(start as int, name@.len() as int);
        let pat = seq![a, b, c, d];
        if r {
            assert forall|i: int| 0 <= i < sub.len() implies char_ieq(sub[i], pat[i]) by {
                assert(sub[i] == name@[start + i]);
            }
        }
    }
    r
}

/// Whether the file name `name` denotes a wallpaper image: it has an
/// extension and the extension is one of the four allowed formats, compared
/// ignoring ASCII case.
pub fn is_image_file(name: &str) -> (r: bool)
    ensures
        r == is_image_name(name@),
{
    let n = name.unicode_len();
    let mut i: usize = 0;
    let mut found: Option<usize> = None;
    while i < n
        invariant
            i <= n,
            n == name@.len(),
            match found {
                Some(j) => j < i && name@[j as int] == '.' && (forall|k: int|
                    j < k < i ==> name@[k] != '.'),
                None => forall|k: int| 0 <= k < i ==> name@[k] != '.',
            },
        decreases n - i,
    {
        if name.get_char(i) == '.' {
            found = Some(i);
        }
        i = i + 1;
    }
    match found {
        None => {
            proof {
                lemma_last_dot_none(name@);
            }
            false
        },
        Some(j) => {
            proof {
                lemma_last_dot_at(name@, j as int);
            }
            if j == 0 {
                false
            } else {
                let elen = n - j - 1;
                if elen == 3 {
                    tail_ieq3(name, j + 1, 'j', 'p', 'g') || tail_ieq3(name, j + 1, 'p', 'n', 'g')
                } else if elen == 4 {
                    tail_ieq4(name, j + 1, 'j', 'p', 'e', 'g') || tail_ieq4(
                        name,
                        j + 1,
                        'w',
                        'e',
                        'b',
                        'p',
                    )
                } else {
                    false
                }
            }
        },
    }
}

/// The paths of the image-named entries among `entries`, in order: the one
/// sequence a complete scan of the directory must yield.
pub open spec fn image_paths(entries: Seq<DirEntryInfo>) -> Seq<Seq<char>>
    decreases entries.len(),
{
    if entries.len() == 0 {
        Seq::empty()
    } else {
        let rest = image_paths(entries.drop_last());
        if is_image_name(entries.last().name@) {
            rest.push(entries.last().path@)
        } else {
            rest
        }
    }
}

/// Keeps, in order, the paths of the entries whose names denote wallpaper
/// images; every other entry is silently skipped.
pub fn filter_image_entries(entries: &Vec<DirEntryInfo>) -> (r: Vec<String>)
    ensures
        r@.map_values(|p: String| p@) == image_paths(entries@),
{
    let mut r: Vec<String> = Vec::new();
    let mut i: usize = 0;
    while i < entries.len()
        invariant
            i <= entries@.len(),
            r@.map_values(|p: String| p@) == image_paths(entries@.take(i as int)),
        decreases entries@.len() - i,
    {
        let ghost prefix = entries@.take(i as int);
        if is_image_file(entries[i].name.as_str()) {
            r.push(entries[i].path.clone());
        }
        proof {
            let next = entries@.take(i + 1);
            assert(next.drop_last() =~= prefix);
            assert(next.last() == entries@[i as int]);
            if is_image_name(entries@[i as int].name@) {
                assert(r@.map_values(|p: String| p@) =~= image_paths(prefix).push(
                    entries@[i as int].path@,
                ));
            }
        }
        i = i + 1;
    }
    proof {
        assert(entries@.take(entries@.len() as int) =~= entries@);
    }
    r
}

/// The listing operation's decision: given what probing the filesystem
/// yielded, either the paths of the image entries or the error the operation
/// reports. A missing directory or a failed read yields an error and no
/// partial result; a directory holding no images yields the empty listing,
/// not an error.
pub fn list_wallpapers(probe: DirProbe) -> (r: Result<Vec<String>, ErrorKind>)
    ensures
        match probe {
            DirProbe::NoPicturesDir => r == Err::<Vec<String>, ErrorKind>(
                ErrorKind::DirectoryNotFound(MissingDir::Pictures),
            ),
            DirProbe::NoWallpapersDir => r == Err::<Vec<String>, ErrorKind>(
                ErrorKind::DirectoryNotFound(MissingDir::Wallpapers),
            ),
            DirProbe::ReadFailed(m) => r == Err::<Vec<String>, ErrorKind>(ErrorKind::IoError(m)),
            DirProbe::Read(entries) => (r matches Ok(paths) && paths@.map_values(|p: String| p@)
                == image_paths(entries@)),
        },
{
    match probe {
        DirProbe::NoPicturesDir => Err(ErrorKind::DirectoryNotFound(MissingDir::Pictures)),
        DirProbe::NoWallpapersDir => Err(ErrorKind::DirectoryNotFound(MissingDir::Wallpapers)),
        DirProbe::ReadFailed(m) => Err(ErrorKind::IoError(m)),
        DirProbe::Read(entries) => Ok(filter_image_entries(&entries)),
    }
}

} // verus!
