//! Paths as text, and the platform they are for.

use vstd::prelude::*;

verus! {

/// The operating system the application runs on, as far as paths and
/// storage choices depend on it.
#[derive(Clone, Copy, Debug, PartialEq, Eq, Structural)]
pub enum Platform {
    MacOs,
    Windows,
    Other,
}

/// The separator written between the parts of a path on `platform`.
pub open spec fn separator(platform: Platform) -> char {
    if platform == Platform::Windows {
        '\\'
    } else {
        '/'
    }
}

/// Whether `c` separates the parts of a path on `platform`: `/` everywhere,
/// and `\` on Windows as well.
pub open spec fn is_separator(platform: Platform, c: char) -> bool {
    c == '/' || (platform == Platform::Windows && c == '\\')
}

/// The relative path `name` placed under `base` on `platform`, with the
/// platform's separator between them unless `base` is empty or already ends
/// with a separator.
pub open spec fn joined(platform: Platform, base: Seq<char>, name: Seq<char>) -> Seq<char> {
    if base.len() == 0 {
        name
    } else if is_separator(platform, base.last()) {
        base + name
    } else {
        base + seq![separator(platform)] + name
    }
}

/// The relative path `name` placed under `base` on `platform`.
pub fn join_path(base: &str, name: &str, platform: Platform) -> (r: String)
    ensures
        r@ == joined(platform, base@, name@),
{
    let n = base.unicode_len();
    if n == 0 {
        return String::from_str(name);
    }
    let last = base.get_char(n - 1);
    let windows = platform == Platform::Windows;
    let mut r = String::from_str(base);
    if last != '/' && !(windows && last == '\\') {
        if windows {
            proof {
                reveal_strlit("\\");
            }
            r.append("\\");
        } else {
            proof {
                reveal_strlit("/");
            }
            r.append("/");
        }
    }
    r.append(name);
    r
}

} // verus!
