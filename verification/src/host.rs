//! The machine the setup runs on, as the library sees it: its platform, the
//! directories its environment names, and how paths are put together.
use crate::text::chars_of;
use vstd::prelude::*;
use vstd::string::*;

verus! {

/// The three platforms the editor tables know.
#[derive(Clone, Copy, Debug, PartialEq, Eq, Structural)]
pub enum Platform {
    MacOs,
    Linux,
    Windows,
}

/// What the environment says about the machine. A directory that could not
/// be resolved is `None`.
#[derive(Clone, Debug)]
pub struct Host {
    pub platform: Platform,
    /// The user's home directory.
    pub home: Option<String>,
    /// `%APPDATA%`.
    pub app_data: Option<String>,
    /// `%LOCALAPPDATA%`.
    pub local_app_data: Option<String>,
    /// `%ProgramFiles%`.
    pub program_files: Option<String>,
}

/// Whether `c` separates path components on `platform`.
pub open spec fn is_separator(platform: Platform, c: char) -> bool {
    c == '/' || (platform == Platform::Windows && c == '\\')
}

/// The separator that joining inserts on `platform`.
pub open spec fn separator(platform: Platform) -> char {
    if platform == Platform::Windows {
        '\\'
    } else {
        '/'
    }
}

/// `rel` adjoined to `base`: one separator goes between them unless `base` is
/// empty or already ends with one.
pub open spec fn joined(platform: Platform, base: Seq<char>, rel: Seq<char>) -> Seq<char> {
    if base.len() == 0 || is_separator(platform, base.last()) {
        base + rel
    } else {
        base.push(separator(platform)) + rel
    }
}

/// Adjoins the relative path `rel` to `base`.
pub fn join(platform: Platform, base: &str, rel: &str) -> (r: String)
    ensures
        r@ == joined(platform, base@, rel@),
{
    let chars = chars_of(base);
    let n: usize = chars.len();
    let windows = match platform {
        Platform::Windows => true,
        _ => false,
    };
    let mut out = String::from_str(base);
    if n > 0 && !(chars[n - 1] == '/' || (windows && chars[n - 1] == '\\')) {
        proof {
            reveal_strlit("\\");
            reveal_strlit("/");
            assert("\\"@ =~= seq!['\\']);
            assert("/"@ =~= seq!['/']);
        }
        if windows {
            out.append("\\");
        } else {
            out.append("/");
        }
        assert(out@ =~= base@.push(separator(platform)));
    }
    out.append(rel);
    out
}

} // verus!
