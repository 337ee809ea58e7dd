//! Reading the version banner of a runtime and the rules on version numbers.

use crate::text::{
    after, before, chars_of, contains, contains_sub, parse_u32, read_u32, scan_until, slice_of,
    string_of, until,
};
use crate::types::{JavaInstallation, JavaSource};
use vstd::prelude::*;

verus! {

/// Whether `major` lies inside the optional window `[min, max]`.
pub open spec fn version_in_window(major: u32, min: Option<u64>, max: Option<u32>) -> bool {
    &&& (min matches Some(lo) ==> major as int >= lo as int)
    &&& (max matches Some(hi) ==> major <= hi)
}

/// Tells whether a major version satisfies an optional lower and upper bound.
pub fn is_version_compatible(major: u32, min: Option<u64>, max: Option<u32>) -> (ok: bool)
    ensures
        ok == version_in_window(major, min, max),
{
    let meets_min = match min {
        Some(lo) => major as u64 >= lo,
        None => true,
    };
    let meets_max = match max {
        Some(hi) => major <= hi,
        None => true,
    };
    meets_min && meets_max
}

/// The dotted component of a version string that names the major version: the
/// second one where the first is `1`, as in `1.8.0_301`, else the first.
pub open spec fn major_component(version: Seq<char>) -> Seq<char> {
    if before(version, '.') == seq!['1'] {
        before(after(version, '.'), '.')
    } else {
        before(version, '.')
    }
}

/// The major version that a version string names: the number written by its
/// major component up to a dash, or 0 where that is no number.
pub open spec fn java_major(version: Seq<char>) -> u32 {
    match parse_u32(before(major_component(version), '-')) {
        Some(n) => n,
        None => 0,
    }
}

/// The component of `s` that starts at `from` and ends before the next `c`.
fn component_from(s: &Vec<char>, from: usize, c: char) -> (out: (Vec<char>, usize))
    requires
        from <= s.len(),
    ensures
        out.0@ == before(s@.subrange(from as int, s.len() as int), c),
        from <= out.1 <= s.len(),
        out.1 - from == until(s@.subrange(from as int, s.len() as int), c),
{
    let end = scan_until(s, from, c);
    let part = slice_of(s, from, end);
    proof {
        let t = s@.subrange(from as int, s.len() as int);
        assert(t.subrange(0, end - from) =~= s@.subrange(from as int, end as int));
    }
    (part, end)
}

/// The major version of a version string over its characters.
fn major_of_chars(v: &Vec<char>) -> (major: u32)
    ensures
        major == java_major(v@),
{
    assert(v@.subrange(0, v.len() as int) =~= v@);
    let (first, dot) = component_from(v, 0, '.');
    let legacy = first.len() == 1 && first[0] == '1';
    proof {
        if legacy {
            assert(first@ =~= seq!['1']);
        }
    }
    let component = if legacy {
        if dot < v.len() {
            let (second, _) = component_from(v, dot + 1, '.');
            second
        } else {
            let none: Vec<char> = Vec::new();
            assert(before(Seq::<char>::empty(), '.') =~= Seq::<char>::empty());
            none
        }
    } else {
        first
    };
    assert(component@ == major_component(v@));
    assert(component@.subrange(0, component.len() as int) =~= component@);
    let (head, _) = component_from(&component, 0, '-');
    match read_u32(&head) {
        Some(n) => n,
        None => 0,
    }
}

/// The major version that a version string names. `1.8.0_301` names 8, `17.0.1`
/// names 17, `11-ea` names 11, and a string that names none gives 0.
pub fn parse_java_version(version: &str) -> (major: u32)
    ensures
        major == java_major(version@),
{
    let v = chars_of(version);
    major_of_chars(&v)
}

/// The text between the first two double quotes of a line that mentions
/// `version`.
pub open spec fn quoted_version(line: Seq<char>) -> Option<Seq<char>> {
    if contains_sub(line, "version"@) && until(line, '"') < line.len() && until(
        after(line, '"'),
        '"',
    ) < after(line, '"').len() {
        Some(before(after(line, '"'), '"'))
    } else {
        None
    }
}

/// The first line of a banner that yields a quoted version.
pub open spec fn version_line(banner: Seq<char>) -> Option<Seq<char>>
    decreases banner.len(),
{
    let line = before(banner, '\n');
    if quoted_version(line) is Some {
        Some(line)
    } else if 0 <= until(banner, '\n') < banner.len() {
        version_line(after(banner, '\n'))
    } else {
        None
    }
}

/// The version that a banner reports: the quoted text of its version line.
pub open spec fn banner_version(banner: Seq<char>) -> Option<Seq<char>> {
    match version_line(banner) {
        Some(line) => quoted_version(line),
        None => None,
    }
}

/// Finds the quoted version of one line.
fn quoted_version_of(line: &Vec<char>) -> (out: Option<Vec<char>>)
    ensures
        out is Some <==> quoted_version(line@) is Some,
        out matches Some(v) ==> quoted_version(line@) == Some(v@),
{
    let keyword = chars_of("version");
    if !contains(line, &keyword) {
        return None;
    }
    assert(line@.subrange(0, line.len() as int) =~= line@);
    let open = scan_until(line, 0, '"');
    if open >= line.len() {
        return None;
    }
    let (inner, close) = component_from(line, open + 1, '"');
    if close >= line.len() {
        return None;
    }
    Some(inner)
}

/// Finds the version line of a banner, starting at `from`.
fn version_line_from(banner: &Vec<char>, from: usize) -> (out: Option<Vec<char>>)
    requires
        from <= banner.len(),
    ensures
        out is Some <==> version_line(banner@.subrange(from as int, banner.len() as int)) is Some,
        out matches Some(line) ==> version_line(
            banner@.subrange(from as int, banner.len() as int),
        ) == Some(line@),
{
    let n = banner.len();
    let mut start: usize = from;
    loop
        invariant
            from <= start <= n,
            n == banner.len(),
            version_line(banner@.subrange(from as int, n as int)) == version_line(
                banner@.subrange(start as int, n as int),
            ),
        decreases n - start,
    {
        let (line, end) = component_from(banner, start, '\n');
        if quoted_version_of(&line).is_some() {
            return Some(line);
        }
        if end >= n {
            return None;
        }
        proof {
            let t = banner@.subrange(start as int, n as int);
            assert(after(t, '\n') =~= banner@.subrange(end + 1, n as int));
        }
        start = end + 1;
    }
}

/// Extracts the version from the output of `java -version`.
pub fn parse_version_string(output: &str) -> (out: Option<String>)
    ensures
        out is Some <==> banner_version(output@) is Some,
        out matches Some(v) ==> banner_version(output@) == Some(v@),
{
    let banner = chars_of(output);
    assert(banner@.subrange(0, banner.len() as int) =~= banner@);
    match version_line_from(&banner, 0) {
        Some(line) => match quoted_version_of(&line) {
            Some(v) => Some(string_of(&v)),
            None => None,
        },
        None => None,
    }
}

/// Whether a banner describes an installation: it reports a version, and the
/// version names a positive major version.
pub open spec fn banner_accepted(banner: Seq<char>) -> bool {
    banner_version(banner) matches Some(v) && java_major(v) > 0
}

/// The architecture that a banner suggests.
pub open spec fn banner_arch(banner: Seq<char>) -> Seq<char> {
    if contains_sub(banner, "64-Bit"@) {
        "x64"@
    } else {
        "x86"@
    }
}

/// The vendor word of a banner: what stands on its version line before the
/// first blank.
pub open spec fn banner_vendor(banner: Seq<char>) -> Seq<char> {
    match version_line(banner) {
        Some(line) => before(line, ' '),
        None => Seq::<char>::empty(),
    }
}

impl JavaInstallation {
    /// An installation names a positive major version.
    pub open spec fn wf(self) -> bool {
        java_major(self.version@) > 0
    }
}

/// Builds the installation that a probe of `path` found, from what the runtime
/// printed on its error stream. A banner without a quoted version, or with
/// one that names no positive major version, describes no installation.
pub fn check_java_installation(path: &str, banner: &str, source: JavaSource) -> (out: Option<
    JavaInstallation,
>)
    ensures
        out is Some <==> banner_accepted(banner@),
        out matches Some(java) ==> {
            &&& java.wf()
            &&& java.path@ == path@
            &&& Some(java.version@) == banner_version(banner@)
            &&& java.arch@ == banner_arch(banner@)
            &&& java.vendor@ == banner_vendor(banner@)
            &&& java.source@ == source.name()
            &&& java.is_64bit == contains_sub(banner@, "64-Bit"@)
        },
{
    let text = chars_of(banner);
    assert(text@.subrange(0, text.len() as int) =~= text@);
    let line = match version_line_from(&text, 0) {
        Some(line) => line,
        None => {
            return None;
        },
    };
    let version = match quoted_version_of(&line) {
        Some(v) => v,
        None => {
            return None;
        },
    };
    if major_of_chars(&version) == 0 {
        return None;
    }
    let marker = chars_of("64-Bit");
    let is_64bit = contains(&text, &marker);
    let arch = if is_64bit {
        "x64"
    } else {
        "x86"
    };
    assert(line@.subrange(0, line.len() as int) =~= line@);
    let (vendor, _) = component_from(&line, 0, ' ');
    Some(
        JavaInstallation {
            path: path.to_owned(),
            version: string_of(&version),
            arch: arch.to_owned(),
            vendor: string_of(&vendor),
            source: source.as_str().to_owned(),
            is_64bit,
        },
    )
}

} // verus!
