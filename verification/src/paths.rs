//! Paths: the screenshots directory, path joining, base names, and the
//! candidate locations of the bundled test image.
//!
//! The library handles paths as plain strings with `/` as the separator;
//! which directories exist on disk is the caller's business.

use vstd::prelude::*;
use vstd::string::*;

use crate::errors::AppError;

verus! {

/// Name of the subfolder that holds the screenshots.
pub open spec fn screenshots_folder_chars() -> Seq<char> {
    "Flicker Screenshots"@
}

/// Relies on dirs::picture_dir: the platform pictures directory, if any.
/// The answer depends on the environment, so nothing is stated of it.
#[verifier::external_body]
fn platform_picture_dir() -> Option<String> {
    dirs::picture_dir().map(|p| p.to_string_lossy().to_string())
}

/// Relies on dirs::home_dir: the home directory, if any. The answer depends
/// on the environment, so nothing is stated of it.
#[verifier::external_body]
fn platform_home_dir() -> Option<String> {
    dirs::home_dir().map(|p| p.to_string_lossy().to_string())
}

/// `dir`/`name`.
pub fn join_path(dir: &str, name: &str) -> (r: String)
    ensures
        r@ == dir@ + "/"@ + name@,
{
    let mut s = dir.to_owned();
    s.append("/");
    s.append(name);
    s
}

/// The screenshots directory under a base directory: the pictures directory
/// when one is resolved, the home directory as the fallback, and
/// `DirectoryUnavailable` when there is neither.
pub fn resolve_screenshots_dir(pictures: Option<String>, home: Option<String>) -> (r: Result<
    String,
    AppError,
>)
    ensures
        pictures is Some ==> (r matches Ok(d) && d@ == pictures->Some_0@ + "/"@
            + screenshots_folder_chars()),
        (pictures is None && home is Some) ==> (r matches Ok(d) && d@ == home->Some_0@ + "/"@
            + screenshots_folder_chars()),
        pictures is None && home is None <==> r == Err::<String, AppError>(
            AppError::DirectoryUnavailable,
        ),
{
    let base = match pictures {
        Some(p) => p,
        None => match home {
            Some(h) => h,
            None => { return Err(AppError::DirectoryUnavailable) },
        },
    };
    Ok(join_path(base.as_str(), "Flicker Screenshots"))
}

/// The screenshots directory of this machine: the platform pictures
/// directory, or the home directory when there is none, with the
/// screenshots subfolder appended. Whatever the platform answers, a
/// successful result ends in `/` plus the subfolder's name.
pub fn screenshots_dir() -> (r: Result<String, AppError>)
    ensures
        r matches Ok(d) ==> {
            let tail = seq!['/'] + screenshots_folder_chars();
            &&& d@.len() >= tail.len()
            &&& d@.subrange(d@.len() - tail.len(), d@.len() as int) == tail
        },
        r matches Err(e) ==> e == AppError::DirectoryUnavailable,
{
    let picture = platform_picture_dir();
    let home = platform_home_dir();
    let r = resolve_screenshots_dir(picture, home);
    proof {
        reveal_strlit("/");
        match &r {
            Ok(d) => {
                let tail = seq!['/'] + screenshots_folder_chars();
                assert(d@.subrange(d@.len() - tail.len(), d@.len() as int) =~= tail);
            },
            Err(_) => {},
        }
    }
    r
}

/// The characters after the last `/`; the whole string when it has none.
pub open spec fn after_last_slash(s: Seq<char>) -> Seq<char>
    decreases s.len(),
{
    if s.len() == 0 {
        s
    } else if s.last() == '/' {
        Seq::empty()
    } else {
        after_last_slash(s.drop_last()).push(s.last())
    }
}

proof fn lemma_after_last_slash_no_slash(s: Seq<char>)
    requires
        forall|j: int| 0 <= j < s.len() ==> s[j] != '/',
    ensures
        after_last_slash(s) == s,
    decreases s.len(),
{
    if s.len() > 0 {
        lemma_after_last_slash_no_slash(s.drop_last());
        assert(after_last_slash(s.drop_last()).push(s.last()) =~= s);
    } else {
        assert(after_last_slash(s) =~= s);
    }
}

proof fn lemma_after_last_slash_at(s: Seq<char>, k: int)
    requires
        0 <= k < s.len(),
        s[k] == '/',
        forall|j: int| k < j < s.len() ==> s[j] != '/',
    ensures
        after_last_slash(s) == s.subrange(k + 1, s.len() as int),
    decreases s.len(),
{
    if k == s.len() - 1 {
        assert(after_last_slash(s) =~= s.subrange(k + 1, s.len() as int));
    } else {
        lemma_after_last_slash_at(s.drop_last(), k);
        assert(s.drop_last().subrange(k + 1, s.len() - 1).push(s.last()) =~= s.subrange(
            k + 1,
            s.len() as int,
        ));
    }
}

/// The base name of a path: the part after the last `/`. `None` when that
/// part is empty, `.` or `..` and so names no file.
pub fn file_name_of(path: &str) -> (r: Option<String>)
    ensures
        ({
            let tail = after_last_slash(path@);
            if tail.len() == 0 || tail == "."@ || tail == ".."@ {
                r is None
            } else {
                r matches Some(b) && b@ == tail
            }
        }),
{
    proof {
        reveal_strlit(".");
        reveal_strlit("..");
    }
    let n = path.unicode_len();
    let mut i: usize = n;
    while i > 0 && path.get_char(i - 1) != '/'
        invariant
            i <= n,
            n == path@.len(),
            forall|j: int| i <= j < n ==> path@[j] != '/',
        decreases i,
    {
        i = i - 1;
    }
    proof {
        if i == 0 {
            lemma_after_last_slash_no_slash(path@);
            assert(path@.subrange(0, n as int) =~= path@);
        } else {
            lemma_after_last_slash_at(path@, i - 1);
        }
    }
    let tail = path.substring_char(i, n);
    let len = n - i;
    if len == 0 {
        return None;
    }
    if len == 1 && tail.get_char(0) == '.' {
        proof {
            assert(tail@ =~= "."@);
        }
        return None;
    }
    if len == 2 && tail.get_char(0) == '.' && tail.get_char(1) == '.' {
        proof {
            assert(tail@ =~= ".."@);
        }
        return None;
    }
    proof {
        assert(tail@ != "."@ && tail@ != ".."@) by {
            if tail@ == "."@ {
                assert(tail@[0] == '.' && tail@.len() == 1);
            }
            if tail@ == ".."@ {
                assert(tail@[0] == '.' && tail@[1] == '.' && tail@.len() == 2);
            }
        }
    }
    Some(tail.to_owned())
}

/// s ends with the given suffix.
pub open spec fn ends_with(s: Seq<char>, suffix: Seq<char>) -> bool {
    s.len() >= suffix.len() && s.subrange(s.len() - suffix.len(), s.len() as int) == suffix
}

/// Whether s ends with the given suffix.
pub fn str_ends_with(s: &str, suffix: &str) -> (r: bool)
    ensures
        r == ends_with(s@, suffix@),
{
    let n = s.unicode_len();
    let m = suffix.unicode_len();
    if m > n {
        return false;
    }
    let mut i: usize = 0;
    while i < m
        invariant
            m <= n,
            i <= m,
            n == s@.len(),
            m == suffix@.len(),
            forall|j: int| 0 <= j < i ==> s@[n - m + j] == suffix@[j],
        decreases m - i,
    {
        if s.get_char(n - m + i) != suffix.get_char(i) {
            proof {
                assert(s@.subrange(n - m, n as int)[i as int] != suffix@[i as int]);
            }
            return false;
        }
        i = i + 1;
    }
    proof {
        assert(s@.subrange(n - m, n as int) =~= suffix@);
    }
    true
}

/// The view of an optional path.
pub open spec fn opt_chars(o: Option<&str>) -> Option<Seq<char>> {
    if o is Some {
        Some(o->Some_0@)
    } else {
        None
    }
}

/// Where the bundled test image may sit, in probing order: under the
/// resource directory, under the working directory's source tree, under its
/// public assets, and, when the working directory is the source tree
/// itself, under that directory directly.
pub open spec fn icon_candidate_paths(
    resource_dir: Option<Seq<char>>,
    current_dir: Option<Seq<char>>,
) -> Seq<Seq<char>> {
    let rs: Seq<Seq<char>> = if resource_dir is Some {
        seq![resource_dir->Some_0 + "/icons/icon.png"@]
    } else {
        Seq::empty()
    };
    let cs: Seq<Seq<char>> = if current_dir is Some {
        let cd = current_dir->Some_0;
        let base = seq![cd + "/src-tauri/icons/icon.png"@, cd + "/public/icon.png"@];
        if cd == "src-tauri"@ || ends_with(cd, "/src-tauri"@) {
            base + seq![cd + "/icons/icon.png"@]
        } else {
            base
        }
    } else {
        Seq::empty()
    };
    rs + cs
}

/// The candidate paths of the bundled test image, in probing order.
pub fn icon_candidates(resource_dir: Option<&str>, current_dir: Option<&str>) -> (r: Vec<String>)
    ensures
        r@.map_values(|s: String| s@) == icon_candidate_paths(
            opt_chars(resource_dir),
            opt_chars(current_dir),
        ),
{
    let mut out: Vec<String> = Vec::new();
    if let Some(rd) = resource_dir {
        let mut p = rd.to_owned();
        p.append("/icons/icon.png");
        out.push(p);
    }
    if let Some(cd) = current_dir {
        let mut p1 = cd.to_owned();
        p1.append("/src-tauri/icons/icon.png");
        out.push(p1);
        let mut p2 = cd.to_owned();
        p2.append("/public/icon.png");
        out.push(p2);
        let n = cd.unicode_len();
        let whole = if n == 9 {
            str_ends_with(cd, "src-tauri")
        } else {
            false
        };
        let in_tree = whole || str_ends_with(cd, "/src-tauri");
        proof {
            reveal_strlit("src-tauri");
            if whole {
                assert(cd@.subrange(0, 9) =~= cd@);
            }
            if cd@ == "src-tauri"@ {
                assert(cd@.subrange(cd@.len() - 9, cd@.len() as int) =~= cd@);
            }
            assert(in_tree == (cd@ == "src-tauri"@ || ends_with(cd@, "/src-tauri"@)));
        }
        if in_tree {
            let mut p3 = cd.to_owned();
            p3.append("/icons/icon.png");
            out.push(p3);
        }
    }
    proof {
        assert(out@.map_values(|s: String| s@) =~= icon_candidate_paths(
            opt_chars(resource_dir),
            opt_chars(current_dir),
        ));
    }
    out
}

} // verus!
