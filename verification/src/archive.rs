//! What to do with each entry of an archive: where it may be written, what is
//! passed over and what makes the archive unacceptable.

use crate::platform::{is_separator, joined, push_component, HostOs};
use crate::text::{
    after, before, chars_of, contains, contains_sub, ends_with, has_prefix, has_suffix, opt_text,
    scan_until, slice_of, string_of, until,
};
use vstd::prelude::*;

verus! {

/// A path with every separator of the host written as `/`.
pub open spec fn with_slashes(path: Seq<char>, os: HostOs) -> Seq<char> {
    Seq::new(
        path.len(),
        |i: int|
            if is_separator(path[i], os) {
                '/'
            } else {
                path[i]
            },
    )
}

/// Whether a path names a place by itself: it begins with a separator or, on
/// Windows, with a drive.
pub open spec fn is_rooted(path: Seq<char>, os: HostOs) -> bool {
    ||| path.len() > 0 && is_separator(path[0], os)
    ||| os == HostOs::Windows && path.len() >= 2 && path[1] == ':'
}

/// The components of a path written with `/`, without the empty ones and
/// without those that are a single dot.
pub open spec fn kept_parts(slashed: Seq<char>) -> Seq<Seq<char>>
    decreases slashed.len(),
{
    let part = before(slashed, '/');
    let head = if part.len() == 0 || part == seq!['.'] {
        Seq::<Seq<char>>::empty()
    } else {
        seq![part]
    };
    if 0 <= until(slashed, '/') < slashed.len() {
        head + kept_parts(after(slashed, '/'))
    } else {
        head
    }
}

/// The components that a path of an archive entry contributes.
pub open spec fn entry_parts(path: Seq<char>, os: HostOs) -> Seq<Seq<char>> {
    kept_parts(with_slashes(path, os))
}

/// Whether one of the components steps to the parent directory.
pub open spec fn has_parent_step(parts: Seq<Seq<char>>) -> bool {
    exists|i: int| 0 <= i < parts.len() && #[trigger] parts[i] == seq!['.', '.']
}

/// What sanitising makes of the path of an archive entry.
pub enum PathVerdict {
    /// The path stays below the directory it is joined to; these are its
    /// components.
    Safe(Seq<Seq<char>>),
    /// The path names a place by itself.
    Absolute,
    /// The path steps to a parent directory.
    ParentTraversal,
}

/// The verdict on the path of an archive entry.
pub open spec fn verdict_on(path: Seq<char>, os: HostOs) -> PathVerdict {
    if is_rooted(path, os) {
        PathVerdict::Absolute
    } else if has_parent_step(entry_parts(path, os)) {
        PathVerdict::ParentTraversal
    } else {
        PathVerdict::Safe(entry_parts(path, os))
    }
}

/// A component that names a file or directory: not empty, neither of the dot
/// names, and without a separator inside.
pub open spec fn is_normal_part(part: Seq<char>, os: HostOs) -> bool {
    &&& part.len() > 0
    &&& part != seq!['.']
    &&& part != seq!['.', '.']
    &&& forall|i: int| 0 <= i < part.len() ==> !is_separator(#[trigger] part[i], os)
}

/// Whether every component names a file or directory.
pub open spec fn all_normal(parts: Seq<Seq<char>>, os: HostOs) -> bool {
    forall|i: int| 0 <= i < parts.len() ==> is_normal_part(#[trigger] parts[i], os)
}

/// `root` extended by each component in turn.
pub open spec fn extended(root: Seq<char>, parts: Seq<Seq<char>>, os: HostOs) -> Seq<char>
    decreases parts.len(),
{
    if parts.len() == 0 {
        root
    } else {
        joined(extended(root, parts.drop_last(), os), parts.last(), os)
    }
}

/// Whether `path` lies below `root` by its spelling alone: it is `root`
/// extended by components that each name a file or directory.
pub open spec fn within_root(root: Seq<char>, path: Seq<char>, os: HostOs) -> bool {
    exists|parts: Seq<Seq<char>>|
        all_normal(parts, os) && path == #[trigger] extended(root, parts, os)
}

/// The message for a path that steps to a parent directory.
pub open spec fn traversal_message(path: Seq<char>) -> Seq<char> {
    "Unsafe archive entry path detected (parent traversal): "@ + path
}

/// The message for a path that names a place by itself.
pub open spec fn absolute_message(path: Seq<char>) -> Seq<char> {
    "Unsafe archive entry path detected (absolute path): "@ + path
}

/// The views of a sequence of character vectors.
pub open spec fn parts_view(parts: Seq<Vec<char>>) -> Seq<Seq<char>> {
    Seq::new(parts.len(), |i: int| parts[i]@)
}

/// No kept component holds a `/`, is empty or is a single dot.
pub proof fn lemma_kept_parts(slashed: Seq<char>)
    ensures
        forall|i: int|
            0 <= i < kept_parts(slashed).len() ==> {
                let part = #[trigger] kept_parts(slashed)[i];
                &&& part.len() > 0
                &&& part != seq!['.']
                &&& forall|k: int| 0 <= k < part.len() ==> part[k] != '/' && exists|j: int|
                    0 <= j < slashed.len() && slashed[j] == #[trigger] part[k]
            },
    decreases slashed.len(),
{
    let part = before(slashed, '/');
    crate::text::lemma_until_bounds(slashed, '/');
    let u = until(slashed, '/');
    let head = if part.len() == 0 || part == seq!['.'] {
        Seq::<Seq<char>>::empty()
    } else {
        seq![part]
    };
    let all = kept_parts(slashed);
    if 0 <= u < slashed.len() {
        let rest = after(slashed, '/');
        lemma_kept_parts(rest);
        assert forall|i: int| 0 <= i < all.len() implies {
            let p = #[trigger] all[i];
            &&& p.len() > 0
            &&& p != seq!['.']
            &&& forall|k: int| 0 <= k < p.len() ==> p[k] != '/' && exists|j: int|
                0 <= j < slashed.len() && slashed[j] == #[trigger] p[k]
        } by {
            let p = all[i];
            if i < head.len() {
                assert(p == part);
                assert forall|k: int| 0 <= k < p.len() implies p[k] != '/' && exists|j: int|
                    0 <= j < slashed.len() && slashed[j] == #[trigger] p[k] by {
                    assert(p[k] == slashed[k]);
                }
            } else {
                assert(p == kept_parts(rest)[i - head.len()]);
                assert forall|k: int| 0 <= k < p.len() implies p[k] != '/' && exists|j: int|
                    0 <= j < slashed.len() && slashed[j] == #[trigger] p[k] by {
                    let j = choose|j: int| 0 <= j < rest.len() && rest[j] == p[k];
                    assert(rest[j] == slashed[u + 1 + j]);
                }
            }
        }
    } else {
        assert(all == head);
        assert forall|i: int| 0 <= i < all.len() implies {
            let p = #[trigger] all[i];
            &&& p.len() > 0
            &&& p != seq!['.']
            &&& forall|k: int| 0 <= k < p.len() ==> p[k] != '/' && exists|j: int|
                0 <= j < slashed.len() && slashed[j] == #[trigger] p[k]
        } by {
            let p = all[i];
            assert(p == part);
            assert forall|k: int| 0 <= k < p.len() implies p[k] != '/' && exists|j: int|
                0 <= j < slashed.len() && slashed[j] == #[trigger] p[k] by {
                assert(p[k] == slashed[k]);
            }
        }
    }
}

/// The components of a path that was found safe each name a file or
/// directory, so whatever they extend stays below it.
pub proof fn law_safe_path_stays_within(root: Seq<char>, path: Seq<char>, os: HostOs)
    requires
        verdict_on(path, os) is Safe,
    ensures
        all_normal(entry_parts(path, os), os),
        within_root(root, extended(root, entry_parts(path, os), os), os),
        has_prefix(extended(root, entry_parts(path, os), os), root),
{
    law_extended_begins_with_root(root, entry_parts(path, os), os);
    let slashed = with_slashes(path, os);
    let parts = entry_parts(path, os);
    lemma_kept_parts(slashed);
    assert forall|i: int| 0 <= i < parts.len() implies is_normal_part(#[trigger] parts[i], os) by {
        let p = parts[i];
        assert(p != seq!['.', '.']);
        assert forall|k: int| 0 <= k < p.len() implies !is_separator(#[trigger] p[k], os) by {
            let j = choose|j: int| 0 <= j < slashed.len() && slashed[j] == p[k];
            assert(p[k] != '/');
            if os == HostOs::Windows && p[k] == '\\' {
                assert(is_separator(path[j], os) || slashed[j] == path[j]);
                assert(false);
            }
        }
    }
}

/// Whatever components extend a root, the result begins with the root.
pub proof fn law_extended_begins_with_root(root: Seq<char>, parts: Seq<Seq<char>>, os: HostOs)
    ensures
        has_prefix(extended(root, parts, os), root),
    decreases parts.len(),
{
    if parts.len() == 0 {
        assert(root.subrange(0, root.len() as int) =~= root);
    } else {
        let base = extended(root, parts.drop_last(), os);
        law_extended_begins_with_root(root, parts.drop_last(), os);
        let out = joined(base, parts.last(), os);
        assert(base.subrange(0, root.len() as int) == root);
        if base.len() == 0 {
            assert(root.len() == 0);
            assert(out.subrange(0, 0) =~= root);
        } else {
            assert(out.subrange(0, base.len() as int) =~= base);
            assert(out.subrange(0, root.len() as int) =~= base.subrange(0, root.len() as int));
        }
    }
}

/// Writes every separator of the host as `/`.
fn slashed_chars(path: &Vec<char>, os: HostOs) -> (out: Vec<char>)
    ensures
        out@ == with_slashes(path@, os),
{
    let mut out: Vec<char> = Vec::new();
    let mut i: usize = 0;
    while i < path.len()
        invariant
            i <= path.len(),
            out@ == with_slashes(path@, os).subrange(0, i as int),
        decreases path.len() - i,
    {
        let c = path[i];
        if c == '/' || (matches!(os, HostOs::Windows) && c == '\\') {
            out.push('/');
        } else {
            out.push(c);
        }
        i = i + 1;
    }
    out
}

/// Splits a path written with `/` into the components that are kept.
fn split_parts(slashed: &Vec<char>) -> (out: Vec<Vec<char>>)
    ensures
        parts_view(out@) == kept_parts(slashed@),
{
    let n = slashed.len();
    let mut out: Vec<Vec<char>> = Vec::new();
    let mut from: usize = 0;
    assert(slashed@.subrange(0, n as int) =~= slashed@);
    assert(parts_view(out@) =~= Seq::<Seq<char>>::empty());
    loop
        invariant
            from <= n,
            n == slashed.len(),
            kept_parts(slashed@) == parts_view(out@) + kept_parts(
                slashed@.subrange(from as int, n as int),
            ),
        decreases n - from,
    {
        let ghost rest = slashed@.subrange(from as int, n as int);
        let ghost so_far = parts_view(out@);
        let end = scan_until(slashed, from, '/');
        let part = slice_of(slashed, from, end);
        assert(part@ =~= before(rest, '/'));
        let dot = part.len() == 1 && part[0] == '.';
        proof {
            if dot {
                assert(part@ =~= seq!['.']);
            }
        }
        let ghost head = if part@.len() == 0 || part@ == seq!['.'] {
            Seq::<Seq<char>>::empty()
        } else {
            seq![part@]
        };
        if part.len() > 0 && !dot {
            let ghost before_push = out@;
            out.push(part);
            assert(parts_view(out@) =~= so_far + head);
        } else {
            assert(parts_view(out@) =~= so_far + head);
        }
        if end >= n {
            assert(kept_parts(rest) == head);
            return out;
        }
        proof {
            let next = slashed@.subrange(end + 1, n as int);
            assert(after(rest, '/') =~= next);
            assert(kept_parts(rest) == head + kept_parts(next));
            assert(so_far + (head + kept_parts(next)) =~= (so_far + head) + kept_parts(next));
        }
        from = end + 1;
    }
}

/// Tests whether one of the components is `..`.
fn any_parent_step(parts: &Vec<Vec<char>>) -> (found: bool)
    ensures
        found == has_parent_step(parts_view(parts@)),
{
    let mut i: usize = 0;
    while i < parts.len()
        invariant
            i <= parts.len(),
            forall|k: int| 0 <= k < i ==> #[trigger] parts_view(parts@)[k] != seq!['.', '.'],
        decreases parts.len() - i,
    {
        let p = &parts[i];
        if p.len() == 2 && p[0] == '.' && p[1] == '.' {
            assert(parts_view(parts@)[i as int] =~= seq!['.', '.']);
            return true;
        }
        proof {
            let q = parts_view(parts@)[i as int];
            if q == seq!['.', '.'] {
                assert(q.len() == 2 && q[0] == '.' && q[1] == '.');
            }
        }
        i = i + 1;
    }
    false
}

/// The components of the path of an archive entry, or the reason for which
/// the path is refused.
fn safe_parts(entry_path: &str, os: HostOs) -> (out: Result<Vec<Vec<char>>, String>)
    ensures
        match verdict_on(entry_path@, os) {
            PathVerdict::Safe(parts) => out matches Ok(found) && parts_view(found@) == parts,
            PathVerdict::Absolute => out matches Err(msg) && msg@ == absolute_message(entry_path@),
            PathVerdict::ParentTraversal => out matches Err(msg) && msg@ == traversal_message(
                entry_path@,
            ),
        },
{
    let path = chars_of(entry_path);
    let n = path.len();
    let starts_at_root = n > 0 && (path[0] == '/' || (matches!(os, HostOs::Windows) && path[0]
        == '\\'));
    let starts_at_drive = matches!(os, HostOs::Windows) && n >= 2 && path[1] == ':';
    if starts_at_root || starts_at_drive {
        return Err(
            "Unsafe archive entry path detected (absolute path): ".to_owned().concat(entry_path),
        );
    }
    let slashed = slashed_chars(&path, os);
    let parts = split_parts(&slashed);
    if any_parent_step(&parts) {
        return Err(
            "Unsafe archive entry path detected (parent traversal): ".to_owned().concat(entry_path),
        );
    }
    Ok(parts)
}

/// Extends the path in `path` by each component in turn.
fn push_parts(path: &mut Vec<char>, parts: &Vec<Vec<char>>, count: usize, os: HostOs)
    requires
        count <= parts.len(),
    ensures
        final(path)@ == extended(old(path)@, parts_view(parts@).subrange(0, count as int), os),
{
    let ghost root = path@;
    let ghost views = parts_view(parts@);
    let mut i: usize = 0;
    assert(views.subrange(0, 0) =~= Seq::<Seq<char>>::empty());
    while i < count
        invariant
            i <= count <= parts.len(),
            views == parts_view(parts@),
            path@ == extended(root, views.subrange(0, i as int), os),
        decreases count - i,
    {
        let name = string_of(&parts[i]);
        proof {
            let upto = views.subrange(0, i + 1);
            assert(upto.drop_last() =~= views.subrange(0, i as int));
            assert(upto.last() == parts@[i as int]@);
        }
        push_component(path, name.as_str(), os);
        i = i + 1;
    }
}

/// The path of an archive entry made safe to join below a directory: its
/// components that name something, written with the separator of the host. A
/// path that begins at a root or steps to a parent directory is refused.
pub fn sanitize_relative_path(entry_path: &str, os: HostOs) -> (out: Result<String, String>)
    ensures
        match verdict_on(entry_path@, os) {
            PathVerdict::Safe(parts) => out matches Ok(safe) && safe@ == extended(
                Seq::<char>::empty(),
                parts,
                os,
            ),
            PathVerdict::Absolute => out matches Err(msg) && msg@ == absolute_message(entry_path@),
            PathVerdict::ParentTraversal => out matches Err(msg) && msg@ == traversal_message(
                entry_path@,
            ),
        },
{
    match safe_parts(entry_path, os) {
        Ok(parts) => {
            let mut path: Vec<char> = Vec::new();
            push_parts(&mut path, &parts, parts.len(), os);
            assert(parts_view(parts@).subrange(0, parts.len() as int) =~= parts_view(parts@));
            Ok(string_of(&path))
        },
        Err(msg) => Err(msg),
    }
}


/// What to do with one entry of an archive.
#[derive(Debug, Clone)]
pub enum EntryAction {
    /// Nothing: the entry is passed over.
    Skip,
    /// Create the directory at `path` with its parents.
    CreateDir { path: String },
    /// Make sure that `parent` exists, then write the content of the entry to
    /// `path`; where `mode` is given, set it as the Unix mode of the file.
    WriteFile { path: String, parent: String, mode: Option<u32> },
}

/// The Unix mode that is kept for an extracted file: that of the entry, but
/// none on Windows.
pub open spec fn kept_mode(mode: Option<u32>, os: HostOs) -> Option<u32> {
    if os == HostOs::Windows {
        None
    } else {
        mode
    }
}

/// Whether `action` is what an entry with the given components calls for: a
/// directory is created, a file is written below its parent, both at the
/// components' place below `root`.
pub open spec fn action_places(
    action: EntryAction,
    root: Seq<char>,
    parts: Seq<Seq<char>>,
    is_dir: bool,
    mode: Option<u32>,
    os: HostOs,
) -> bool {
    if is_dir {
        action matches EntryAction::CreateDir { path } && path@ == extended(root, parts, os)
    } else {
        action matches EntryAction::WriteFile { path, parent, mode: m } && path@ == extended(
            root,
            parts,
            os,
        ) && parent@ == extended(root, parts.drop_last(), os) && m == mode
    }
}

/// Builds the action for an entry with the given components.
fn place_entry(
    extract_to: &str,
    parts: &Vec<Vec<char>>,
    is_dir: bool,
    mode: Option<u32>,
    os: HostOs,
) -> (action: EntryAction)
    requires
        parts.len() > 0,
    ensures
        action_places(action, extract_to@, parts_view(parts@), is_dir, mode, os),
{
    let ghost views = parts_view(parts@);
    let mut path = chars_of(extract_to);
    push_parts(&mut path, parts, parts.len() - 1, os);
    assert(views.subrange(0, parts.len() - 1) =~= views.drop_last());
    let parent = string_of(&path);
    let last = string_of(&parts[parts.len() - 1]);
    push_component(&mut path, last.as_str(), os);
    assert(views.last() == last@);
    if is_dir {
        EntryAction::CreateDir { path: string_of(&path) }
    } else {
        EntryAction::WriteFile { path: string_of(&path), parent, mode }
    }
}

/// The progress of the extraction of a gzipped tar archive.
#[derive(Debug, Clone)]
pub struct TarExtraction {
    /// The first component of the first entry that has one.
    pub top_level_dir: Option<String>,
}

/// The top-level directory after an entry with the given components.
pub open spec fn top_level_after(before_entry: Option<Seq<char>>, parts: Seq<Seq<char>>) -> Option<
    Seq<char>,
> {
    match before_entry {
        Some(name) => Some(name),
        None => if parts.len() > 0 {
            Some(parts[0])
        } else {
            None
        },
    }
}

impl TarExtraction {
    /// The state before the first entry.
    pub fn new() -> (state: TarExtraction)
        ensures
            state.top_level_dir is None,
    {
        TarExtraction { top_level_dir: None }
    }

    /// Decides what to do with the next entry of the archive. An entry whose
    /// path begins at a root or steps to a parent directory makes the archive
    /// unacceptable. An entry without components is passed over. Any other is
    /// placed below `extract_to`; the first component of the first such entry
    /// is recorded as the top-level directory.
    pub fn plan_entry(
        &mut self,
        extract_to: &str,
        entry_path: &str,
        is_dir: bool,
        mode: Option<u32>,
        os: HostOs,
    ) -> (out: Result<EntryAction, String>)
        ensures
            match verdict_on(entry_path@, os) {
                PathVerdict::Safe(parts) => {
                    &&& out matches Ok(action)
                    &&& opt_text(final(self).top_level_dir) == top_level_after(
                        opt_text(old(self).top_level_dir),
                        parts,
                    )
                    &&& parts.len() == 0 ==> action is Skip
                    &&& parts.len() > 0 ==> action_places(
                        action,
                        extract_to@,
                        parts,
                        is_dir,
                        kept_mode(mode, os),
                        os,
                    ) && within_root(extract_to@, extended(extract_to@, parts, os), os)
                },
                PathVerdict::Absolute => {
                    &&& out matches Err(msg)
                    &&& msg@ == absolute_message(entry_path@)
                    &&& *final(self) == *old(self)
                },
                PathVerdict::ParentTraversal => {
                    &&& out matches Err(msg)
                    &&& msg@ == traversal_message(entry_path@)
                    &&& *final(self) == *old(self)
                },
            },
    {
        let parts = match safe_parts(entry_path, os) {
            Ok(parts) => parts,
            Err(msg) => {
                return Err(msg);
            },
        };
        if parts.len() == 0 {
            return Ok(EntryAction::Skip);
        }
        proof {
            law_safe_path_stays_within(extract_to@, entry_path@, os);
        }
        if self.top_level_dir.is_none() {
            self.top_level_dir = Some(string_of(&parts[0]));
        }
        let mode = match os {
            HostOs::Windows => None,
            _ => mode,
        };
        Ok(place_entry(extract_to, &parts, is_dir, mode, os))
    }

    /// The result of the extraction once every entry was handled: the name of
    /// the top-level directory, or the failure of an archive that has none.
    pub fn finish(self) -> (out: Result<String, String>)
        ensures
            match self.top_level_dir {
                Some(name) => out == Ok::<String, String>(name),
                None => out matches Err(msg) && msg@ == "Archive appears to be empty"@,
            },
    {
        match self.top_level_dir {
            Some(name) => Ok(name),
            None => Err("Archive appears to be empty".to_owned()),
        }
    }
}

/// Whether an entry of a zip archive is passed over for lying in the
/// signature directory of a Java archive.
pub open spec fn is_meta_inf(path: Seq<char>) -> bool {
    contains_sub(path, "META-INF"@)
}

/// Decides what to do with one entry of a zip archive, named `entry_name`. An
/// entry whose name begins at a root or steps to a parent directory makes the
/// archive unacceptable. An entry without components, or whose place holds
/// `META-INF`, is passed over. A name that ends in `/` is a directory; any
/// other entry is a file.
pub fn plan_zip_entry(extract_to: &str, entry_name: &str, os: HostOs) -> (out: Result<
    EntryAction,
    String,
>)
    ensures
        match verdict_on(entry_name@, os) {
            PathVerdict::Safe(parts) => {
                &&& out matches Ok(action)
                &&& (parts.len() == 0 || is_meta_inf(extended(extract_to@, parts, os)))
                    ==> action is Skip
                &&& !(parts.len() == 0 || is_meta_inf(extended(extract_to@, parts, os)))
                    ==> action_places(
                    action,
                    extract_to@,
                    parts,
                    has_suffix(entry_name@, seq!['/']),
                    None,
                    os,
                ) && within_root(extract_to@, extended(extract_to@, parts, os), os)
            },
            PathVerdict::Absolute => out matches Err(msg) && msg@ == absolute_message(entry_name@),
            PathVerdict::ParentTraversal => out matches Err(msg) && msg@ == traversal_message(
                entry_name@,
            ),
        },
{
    let parts = match safe_parts(entry_name, os) {
        Ok(parts) => parts,
        Err(msg) => {
            return Err(msg);
        },
    };
    if parts.len() == 0 {
        return Ok(EntryAction::Skip);
    }
    proof {
        law_safe_path_stays_within(extract_to@, entry_name@, os);
    }
    let mut place = chars_of(extract_to);
    push_parts(&mut place, &parts, parts.len(), os);
    assert(parts_view(parts@).subrange(0, parts.len() as int) =~= parts_view(parts@));
    let marker = chars_of("META-INF");
    if contains(&place, &marker) {
        return Ok(EntryAction::Skip);
    }
    let name = chars_of(entry_name);
    let mut slash: Vec<char> = Vec::new();
    slash.push('/');
    assert(slash@ =~= seq!['/']);
    let is_dir = ends_with(&name, &slash);
    Ok(place_entry(extract_to, &parts, is_dir, None, os))
}


/// What the header of one entry of a tar archive tells.
#[derive(Debug, Clone)]
pub struct ArchiveEntry {
    pub path: String,
    pub is_dir: bool,
    /// The Unix mode of the entry, where the header holds one.
    pub mode: Option<u32>,
}

/// What is done with the entries of a tar archive, one action for each entry
/// in order, and the name of its top-level directory.
#[derive(Debug, Clone)]
pub struct TarPlan {
    pub actions: Vec<EntryAction>,
    pub top_level_dir: String,
}

/// The message with which a path is refused; empty for a path that is safe.
pub open spec fn refusal_message(path: Seq<char>, os: HostOs) -> Seq<char> {
    match verdict_on(path, os) {
        PathVerdict::Safe(_) => Seq::<char>::empty(),
        PathVerdict::Absolute => absolute_message(path),
        PathVerdict::ParentTraversal => traversal_message(path),
    }
}

/// Whether the first `n` entries all have safe paths.
pub open spec fn all_safe(entries: Seq<ArchiveEntry>, n: int, os: HostOs) -> bool {
    forall|k: int| 0 <= k < n ==> verdict_on((#[trigger] entries[k]).path@, os) is Safe
}

/// The top-level directory that the first `n` entries establish.
pub open spec fn top_level_through(entries: Seq<ArchiveEntry>, n: int, os: HostOs) -> Option<
    Seq<char>,
>
    decreases n,
{
    if n <= 0 {
        None
    } else {
        top_level_after(
            top_level_through(entries, n - 1, os),
            entry_parts(entries[n - 1].path@, os),
        )
    }
}

/// Whether `action` is what the entry calls for below `root`.
pub open spec fn is_action_for(
    action: EntryAction,
    entry: ArchiveEntry,
    root: Seq<char>,
    os: HostOs,
) -> bool {
    let parts = entry_parts(entry.path@, os);
    if parts.len() == 0 {
        action is Skip
    } else {
        action_places(action, root, parts, entry.is_dir, kept_mode(entry.mode, os), os)
    }
}

/// Plans the extraction of a gzipped tar archive from the headers of its
/// entries. The first entry whose path begins at a root or steps to a parent
/// directory makes the whole archive unacceptable; so does an archive in
/// which no entry has a component. Else every entry gets its action and the
/// first component of the first entry that has one names the top-level
/// directory.
pub fn extract_tar_gz(entries: &Vec<ArchiveEntry>, extract_to: &str, os: HostOs) -> (out: Result<
    TarPlan,
    String,
>)
    ensures
        out is Ok <==> all_safe(entries@, entries@.len() as int, os) && top_level_through(
            entries@,
            entries@.len() as int,
            os,
        ) is Some,
        out matches Ok(plan) ==> {
            &&& plan.actions@.len() == entries@.len()
            &&& forall|k: int|
                0 <= k < entries@.len() ==> is_action_for(
                    #[trigger] plan.actions@[k],
                    entries@[k],
                    extract_to@,
                    os,
                )
            &&& Some(plan.top_level_dir@) == top_level_through(
                entries@,
                entries@.len() as int,
                os,
            )
        },
        out matches Err(msg) ==> {
            ||| exists|i: int|
                0 <= i < entries@.len() && all_safe(entries@, i, os) && !(verdict_on(
                    (#[trigger] entries@[i]).path@,
                    os,
                ) is Safe) && msg@ == refusal_message(entries@[i].path@, os)
            ||| all_safe(entries@, entries@.len() as int, os) && msg@
                == "Archive appears to be empty"@
        },
{
    let mut state = TarExtraction::new();
    let mut actions: Vec<EntryAction> = Vec::new();
    let mut i: usize = 0;
    while i < entries.len()
        invariant
            i <= entries.len(),
            all_safe(entries@, i as int, os),
            actions@.len() == i,
            forall|k: int|
                0 <= k < i ==> is_action_for(#[trigger] actions@[k], entries@[k], extract_to@, os),
            opt_text(state.top_level_dir) == top_level_through(entries@, i as int, os),
        decreases entries.len() - i,
    {
        let entry = &entries[i];
        match state.plan_entry(extract_to, entry.path.as_str(), entry.is_dir, entry.mode, os) {
            Ok(action) => {
                actions.push(action);
            },
            Err(msg) => {
                assert(!(verdict_on(entries@[i as int].path@, os) is Safe));
                return Err(msg);
            },
        }
        i = i + 1;
    }
    match state.finish() {
        Ok(top_level_dir) => Ok(TarPlan { actions, top_level_dir }),
        Err(msg) => Err(msg),
    }
}

/// Whether `action` is what the entry of a zip archive named `name` calls for
/// below `root`.
pub open spec fn is_zip_action_for(
    action: EntryAction,
    name: Seq<char>,
    root: Seq<char>,
    os: HostOs,
) -> bool {
    let parts = entry_parts(name, os);
    if parts.len() == 0 || is_meta_inf(extended(root, parts, os)) {
        action is Skip
    } else {
        action_places(action, root, parts, has_suffix(name, seq!['/']), None, os)
    }
}

/// Plans the extraction of a zip archive from the names of its entries. The
/// first entry whose name begins at a root or steps to a parent directory
/// makes the whole archive unacceptable. Else every entry gets its action.
pub fn extract_zip(names: &Vec<String>, extract_to: &str, os: HostOs) -> (out: Result<
    Vec<EntryAction>,
    String,
>)
    ensures
        out is Ok <==> forall|k: int|
            0 <= k < names@.len() ==> verdict_on((#[trigger] names@[k])@, os) is Safe,
        out matches Ok(actions) ==> {
            &&& actions@.len() == names@.len()
            &&& forall|k: int|
                0 <= k < names@.len() ==> is_zip_action_for(
                    #[trigger] actions@[k],
                    names@[k]@,
                    extract_to@,
                    os,
                )
        },
        out matches Err(msg) ==> exists|i: int|
            0 <= i < names@.len() && (forall|k: int|
                0 <= k < i ==> verdict_on((#[trigger] names@[k])@, os) is Safe) && !(verdict_on(
                (#[trigger] names@[i])@,
                os,
            ) is Safe) && msg@ == refusal_message(names@[i]@, os),
{
    let mut actions: Vec<EntryAction> = Vec::new();
    let mut i: usize = 0;
    while i < names.len()
        invariant
            i <= names.len(),
            forall|k: int| 0 <= k < i ==> verdict_on((#[trigger] names@[k])@, os) is Safe,
            actions@.len() == i,
            forall|k: int|
                0 <= k < i ==> is_zip_action_for(
                    #[trigger] actions@[k],
                    names@[k]@,
                    extract_to@,
                    os,
                ),
        decreases names.len() - i,
    {
        match plan_zip_entry(extract_to, names[i].as_str(), os) {
            Ok(action) => {
                actions.push(action);
            },
            Err(msg) => {
                assert(!(verdict_on(names@[i as int]@, os) is Safe));
                return Err(msg);
            },
        }
        i = i + 1;
    }
    Ok(actions)
}

} // verus!
