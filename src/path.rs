use vstd::prelude::*;
use vstd::string::*;

verus! {

/// What the file system says of a path, read by the caller before a lookup.
#[derive(Debug, Clone, Copy, PartialEq, Eq, Structural)]
pub struct PathInfo {
    pub exists: bool,
    pub is_dir: bool,
    pub is_symlink: bool,
    /// Some execute permission bit is set.
    pub is_executable: bool,
}

/// Index of the last `c` among the first `end` characters of `s`, or -1.
pub open spec fn last_index_before(s: Seq<char>, c: char, end: int) -> int
    decreases end,
{
    if end <= 0 {
        -1
    } else if s[end - 1] == c {
        end - 1
    } else {
        last_index_before(s, c, end - 1)
    }
}

/// The final component of a path: what follows its last `/`.
pub open spec fn file_name_of(p: Seq<char>) -> Seq<char> {
    p.subrange(last_index_before(p, '/', p.len() as int) + 1, p.len() as int)
}

/// What follows the last dot of the final component, where that dot is not
/// the component's first character and the component is not `..`.
///
/// A path that ends in `/` or `/.` has an empty final component here, and so
/// no extension. Such a path can only name a directory, and the icons of
/// directories are never cached, so no cache key is lost by it.
pub open spec fn extension_of(p: Seq<char>) -> Option<Seq<char>> {
    let name = file_name_of(p);
    let dot = last_index_before(name, '.', name.len() as int);
    if dot >= 1 && name != seq!['.', '.'] {
        Some(name.subrange(dot + 1, name.len() as int))
    } else {
        None
    }
}

/// Extensions of files that carry an icon of their own: application
/// launchers (`desktop`), executables (`exe`) and shortcuts (`lnk`).
///
/// One list serves every platform: an extension that carries no icon of its
/// own on some platform only costs an uncached lookup there.
pub open spec fn has_own_icon(ext: Seq<char>) -> bool {
    ext == "desktop"@ || ext == "exe"@ || ext == "lnk"@
}

/// Directories, symbolic links and executables may each have an icon of
/// their own, whatever their name.
pub open spec fn has_own_path_icon(info: PathInfo) -> bool {
    info.is_dir || info.is_symlink || info.is_executable
}

/// The text holds U+FFFD, which stands for bytes of a file name that were not
/// text: two different names may then read the same, so the text is no key.
pub open spec fn is_lossy(s: Seq<char>) -> bool {
    s.contains('\u{FFFD}')
}

/// The key under which the icon of a path may be cached, if any.
///
/// Directories, symbolic links, executables, files of the extensions above
/// and files without an extension may each have an icon of their own, so
/// their icons are never cached; nor are those of an extension that is not
/// text.
pub open spec fn cache_key_of(path: Seq<char>, info: PathInfo) -> Option<Seq<char>> {
    if has_own_path_icon(info) {
        None
    } else {
        match extension_of(path) {
            Some(ext) => if has_own_icon(ext) || is_lossy(ext) {
                None
            } else {
                Some(ext)
            },
            None => None,
        }
    }
}

proof fn lemma_last_index_bounds(s: Seq<char>, c: char, end: int)
    requires
        0 <= end <= s.len(),
    ensures
        -1 <= last_index_before(s, c, end) < end,
        last_index_before(s, c, end) >= 0 ==> s[last_index_before(s, c, end)] == c,
    decreases end,
{
    if end > 0 && s[end - 1] != c {
        lemma_last_index_bounds(s, c, end - 1);
    }
}

fn last_index_of_char(s: &str, c: char, end: usize) -> (r: Option<usize>)
    requires
        end <= s@.len(),
    ensures
        match r {
            Some(i) => i == last_index_before(s@, c, end as int),
            None => last_index_before(s@, c, end as int) == -1,
        },
{
    let mut i: usize = end;
    loop
        invariant
            i <= end <= s@.len(),
            last_index_before(s@, c, end as int) == last_index_before(s@, c, i as int),
        decreases i,
    {
        if i == 0 {
            return None;
        }
        if s.get_char(i - 1) == c {
            return Some(i - 1);
        }
        i = i - 1;
    }
}

/// The extension of a path, as `extension_of` states it.
pub fn extension(path: &str) -> (r: Option<String>)
    ensures
        match r {
            Some(e) => extension_of(path@) == Some(e@),
            None => extension_of(path@) is None,
        },
{
    let n = path.unicode_len();
    proof {
        lemma_last_index_bounds(path@, '/', n as int);
    }
    let start: usize = match last_index_of_char(path, '/', n) {
        Some(i) => i + 1,
        None => 0,
    };
    let name = path.substring_char(start, n);
    assert(name@ == file_name_of(path@));
    let m = name.unicode_len();
    proof {
        lemma_last_index_bounds(name@, '.', m as int);
    }
    match last_index_of_char(name, '.', m) {
        Some(dot) => {
            let is_parent = m == 2 && name.get_char(0) == '.' && name.get_char(1) == '.';
            assert(is_parent <==> name@ == seq!['.', '.']) by {
                if name@.len() == 2 && name@ != seq!['.', '.'] {
                    assert(!(name@[0] == '.' && name@[1] == '.') || name@ =~= seq!['.', '.']);
                }
            }
            if dot >= 1 && !is_parent {
                Some(name.substring_char(dot + 1, m).to_owned())
            } else {
                None
            }
        },
        None => None,
    }
}

/// Whether the text equals `b`, character by character.
fn same_text(a: &str, b: &str) -> (r: bool)
    ensures
        r == (a@ == b@),
{
    let n = a.unicode_len();
    if n != b.unicode_len() {
        return false;
    }
    let mut i: usize = 0;
    while i < n
        invariant
            n == a@.len() == b@.len(),
            i <= n,
            forall|j: int| 0 <= j < i ==> a@[j] == b@[j],
        decreases n - i,
    {
        if a.get_char(i) != b.get_char(i) {
            return false;
        }
        i = i + 1;
    }
    assert(a@ =~= b@);
    true
}

/// Whether the text holds U+FFFD.
pub fn is_lossy_text(s: &str) -> (r: bool)
    ensures
        r == is_lossy(s@),
{
    let n = s.unicode_len();
    let mut i: usize = 0;
    while i < n
        invariant
            n == s@.len(),
            i <= n,
            forall|j: int| 0 <= j < i ==> s@[j] != '\u{FFFD}',
        decreases n - i,
    {
        if s.get_char(i) == '\u{FFFD}' {
            return true;
        }
        i = i + 1;
    }
    false
}

/// Whether files of this extension carry an icon of their own.
pub fn has_own_icon_extension(ext: &str) -> (r: bool)
    ensures
        r == has_own_icon(ext@),
{
    same_text(ext, "desktop") || same_text(ext, "exe") || same_text(ext, "lnk")
}

/// The key under which the icon of `path` may be cached, as `cache_key_of`
/// states it.
pub fn cache_key(path: &str, info: &PathInfo) -> (r: Option<String>)
    ensures
        match r {
            Some(k) => cache_key_of(path@, *info) == Some(k@),
            None => cache_key_of(path@, *info) is None,
        },
{
    if info.is_dir || info.is_symlink || info.is_executable {
        return None;
    }
    match extension(path) {
        Some(ext) => {
            if has_own_icon_extension(ext.as_str()) || is_lossy_text(ext.as_str()) {
                None
            } else {
                Some(ext)
            }
        },
        None => None,
    }
}

} // verus!
