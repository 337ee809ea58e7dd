//! The host platform as a plain value, and the path rules that depend on it.

use crate::text::{chars_of, has_prefix, push_text, slice_of, starts_with, string_of};
use vstd::prelude::*;

verus! {

/// The operating system on which runtimes are searched and installed.
#[derive(Debug, Clone, Copy, PartialEq, Eq, Structural)]
pub enum HostOs {
    Linux,
    MacOs,
    Windows,
    Other,
}

/// The processor architecture of the host.
#[derive(Debug, Clone, Copy, PartialEq, Eq, Structural)]
pub enum HostArch {
    X86_64,
    Aarch64,
    X86,
    Arm,
    Other,
}

/// What the rules need to know of the host.
#[derive(Debug, Clone, Copy, PartialEq, Eq, Structural)]
pub struct HostPlatform {
    pub os: HostOs,
    pub arch: HostArch,
    /// Whether the system is Alpine Linux, told by its release file.
    pub alpine: bool,
}

/// The character that the host writes between the components of a path.
pub open spec fn separator(os: HostOs) -> char {
    if os == HostOs::Windows {
        '\\'
    } else {
        '/'
    }
}

/// Whether the host reads `c` as a separator of path components.
pub open spec fn is_separator(c: char, os: HostOs) -> bool {
    c == '/' || (os == HostOs::Windows && c == '\\')
}

/// `base` extended by the relative path `name`: an empty base gives `name`, and
/// the separator is written only where `base` does not already end in one.
pub open spec fn joined(base: Seq<char>, name: Seq<char>, os: HostOs) -> Seq<char> {
    if base.len() == 0 {
        name
    } else if is_separator(base.last(), os) {
        base + name
    } else {
        base.push(separator(os)) + name
    }
}

/// The name of the `java` executable on the host.
pub open spec fn java_binary(os: HostOs) -> Seq<char> {
    if os == HostOs::Windows {
        "java.exe"@
    } else {
        "java"@
    }
}

/// The separator of the host as a character.
pub fn separator_char(os: HostOs) -> (c: char)
    ensures
        c == separator(os),
{
    match os {
        HostOs::Windows => '\\',
        _ => '/',
    }
}

/// Appends the relative path `name` to the path in `path`.
pub fn push_component(path: &mut Vec<char>, name: &str, os: HostOs)
    ensures
        final(path)@ == joined(old(path)@, name@, os),
{
    let n = path.len();
    if n == 0 {
        assert(path@ + name@ =~= name@);
        push_text(path, name);
    } else {
        let last = path[n - 1];
        let ends_in_separator = last == '/' || (matches!(os, HostOs::Windows) && last == '\\');
        if !ends_in_separator {
            path.push(separator_char(os));
        }
        push_text(path, name);
    }
}

/// Joins a base path and a relative path by the rules of the host.
pub fn join(base: &str, name: &str, os: HostOs) -> (out: String)
    ensures
        out@ == joined(base@, name@, os),
{
    let mut path = chars_of(base);
    push_component(&mut path, name, os);
    string_of(&path)
}

/// The name of the `java` executable on the host.
pub fn java_binary_name(os: HostOs) -> (name: &'static str)
    ensures
        name@ == java_binary(os),
{
    match os {
        HostOs::Windows => "java.exe",
        _ => "java",
    }
}

/// The prefix that Windows puts before a canonical path.
pub open spec fn unc_prefix() -> Seq<char> {
    seq!['\\', '\\', '?', '\\']
}

/// A path without the prefix `\\?\` on Windows; unchanged on other hosts and
/// where the prefix is absent.
pub open spec fn without_unc_prefix(path: Seq<char>, os: HostOs) -> Seq<char> {
    if os == HostOs::Windows && has_prefix(path, unc_prefix()) {
        path.subrange(4, path.len() as int)
    } else {
        path
    }
}

/// Removes the prefix `\\?\` from a Windows path; does nothing elsewhere.
pub fn strip_unc_prefix(path: String, os: HostOs) -> (out: String)
    ensures
        out@ == without_unc_prefix(path@, os),
{
    match os {
        HostOs::Windows => {
            let chars = chars_of(path.as_str());
            let mut prefix: Vec<char> = Vec::new();
            prefix.push('\\');
            prefix.push('\\');
            prefix.push('?');
            prefix.push('\\');
            assert(prefix@ =~= unc_prefix());
            if starts_with(&chars, &prefix) {
                let rest = slice_of(&chars, 4, chars.len());
                string_of(&rest)
            } else {
                path
            }
        },
        _ => path,
    }
}

/// Where the `java` executable stands below the home directory of a runtime.
pub open spec fn java_executable_in(home: Seq<char>, os: HostOs) -> Seq<char> {
    if os == HostOs::MacOs {
        joined(
            joined(joined(joined(home, "Contents"@, os), "Home"@, os), "bin"@, os),
            "java"@,
            os,
        )
    } else {
        joined(joined(home, "bin"@, os), java_binary(os), os)
    }
}

/// The path of the `java` executable of a runtime whose home directory is
/// `java_home`: below `Contents/Home/bin` on macOS, below `bin` elsewhere, and
/// named `java.exe` on Windows.
pub fn resolve_java_executable(java_home: &str, os: HostOs) -> (out: String)
    ensures
        out@ == java_executable_in(java_home@, os),
{
    let mut path = chars_of(java_home);
    match os {
        HostOs::MacOs => {
            push_component(&mut path, "Contents", os);
            push_component(&mut path, "Home", os);
            push_component(&mut path, "bin", os);
            push_component(&mut path, "java", os);
        },
        _ => {
            push_component(&mut path, "bin", os);
            push_component(&mut path, java_binary_name(os), os);
        },
    }
    string_of(&path)
}

} // verus!
