//! Replacing a file so that a crash never leaves a half-written one: the steps
//! of the replacement and what each leaves on disk.

use crate::error::JavaError;
use crate::platform::{is_separator, HostOs};
use crate::text::{chars_of, push_text, slice_of, string_of};
use vstd::prelude::*;

verus! {

/// One step on the file system.
#[derive(Debug, Clone)]
pub enum FsStep {
    /// Create the directory and its parents.
    CreateDirAll { path: String },
    /// Write the new content to the file at `path`.
    Write { path: String },
    /// Remove the file at `path` if it is there.
    RemoveIfExists { path: String },
    /// Give the file at `from` the name `to`.
    Rename { from: String, to: String },
}

/// The index of the last separator of a path, or -1 where it has none.
pub open spec fn last_separator(path: Seq<char>, os: HostOs) -> int
    decreases path.len(),
{
    if path.len() == 0 {
        -1
    } else if is_separator(path.last(), os) {
        path.len() - 1
    } else {
        last_separator(path.drop_last(), os)
    }
}

/// The directory that holds a path: what stands before its last separator,
/// the separator itself for a path directly below the root, and the empty
/// path for a bare name. The empty path and the root have none.
pub open spec fn parent_of(path: Seq<char>, os: HostOs) -> Option<Seq<char>> {
    let at = last_separator(path, os);
    if path.len() == 0 || (at == 0 && path.len() == 1) {
        None
    } else if at < 0 {
        Some(Seq::<char>::empty())
    } else if at == 0 {
        Some(path.subrange(0, 1))
    } else {
        Some(path.subrange(0, at))
    }
}

/// The name under which the new content is written first.
pub open spec fn temp_path_of(path: Seq<char>) -> Seq<char> {
    path + ".tmp"@
}

/// Whether `steps` replace the file at `path` by way of its temporary file:
/// create the parent directory, write the temporary file, remove the old
/// file, rename the temporary file.
pub open spec fn is_atomic_replacement(steps: Seq<FsStep>, path: Seq<char>, os: HostOs) -> bool {
    &&& steps.len() == 4
    &&& steps[0] matches FsStep::CreateDirAll { path: dir }
    &&& Some(dir@) == parent_of(path, os)
    &&& steps[1] matches FsStep::Write { path: tmp }
    &&& tmp@ == temp_path_of(path)
    &&& steps[2] matches FsStep::RemoveIfExists { path: old_file }
    &&& old_file@ == path
    &&& steps[3] matches FsStep::Rename { from, to }
    &&& from@ == temp_path_of(path)
    &&& to@ == path
}

/// Finds the last separator of a path.
fn find_last_separator(path: &Vec<char>, os: HostOs) -> (at: Option<usize>)
    ensures
        match at {
            Some(i) => i == last_separator(path@, os) && i < path.len(),
            None => last_separator(path@, os) == -1,
        },
{
    let mut n: usize = path.len();
    assert(path@.subrange(0, n as int) =~= path@);
    while n > 0
        invariant
            n <= path.len(),
            last_separator(path@, os) == last_separator(path@.subrange(0, n as int), os),
        decreases n,
    {
        let c = path[n - 1];
        proof {
            let upto = path@.subrange(0, n as int);
            assert(upto.last() == c);
            assert(upto.drop_last() =~= path@.subrange(0, n - 1));
        }
        if c == '/' || (matches!(os, HostOs::Windows) && c == '\\') {
            return Some(n - 1);
        }
        n = n - 1;
    }
    None
}

/// The steps that replace the file at `path` with new content so that at
/// every moment the file holds its old content, is missing, or holds the new
/// content whole. A path without a parent directory is refused.
pub fn write_file_atomic(path: &str, os: HostOs) -> (out: Result<Vec<FsStep>, JavaError>)
    ensures
        match parent_of(path@, os) {
            Some(_) => out matches Ok(steps) && is_atomic_replacement(steps@, path@, os),
            None => out matches Err(JavaError::InvalidConfig(msg)) && msg@
                == "Path has no parent directory"@,
        },
{
    let chars = chars_of(path);
    let at = find_last_separator(&chars, os);
    let parent: Vec<char> = match at {
        Some(i) => {
            if chars.len() == 1 {
                return Err(JavaError::InvalidConfig("Path has no parent directory".to_owned()));
            }
            if i == 0 {
                slice_of(&chars, 0, 1)
            } else {
                slice_of(&chars, 0, i)
            }
        },
        None => {
            if chars.len() == 0 {
                return Err(JavaError::InvalidConfig("Path has no parent directory".to_owned()));
            }
            Vec::new()
        },
    };
    let mut tmp = chars_of(path);
    push_text(&mut tmp, ".tmp");
    let mut steps: Vec<FsStep> = Vec::new();
    steps.push(FsStep::CreateDirAll { path: string_of(&parent) });
    steps.push(FsStep::Write { path: string_of(&tmp) });
    steps.push(FsStep::RemoveIfExists { path: path.to_owned() });
    steps.push(FsStep::Rename { from: string_of(&tmp), to: path.to_owned() });
    Ok(steps)
}

/// The files of a disk: the content of each path that holds a file.
pub type Files = Map<Seq<char>, Seq<u8>>;

/// The files after one step that went through, where `content` is what a
/// write puts down.
pub open spec fn after_step(files: Files, step: FsStep, content: Seq<u8>) -> Files {
    match step {
        FsStep::CreateDirAll { path } => files,
        FsStep::Write { path } => files.insert(path@, content),
        FsStep::RemoveIfExists { path } => files.remove(path@),
        FsStep::Rename { from, to } => if files.dom().contains(from@) {
            files.remove(from@).insert(to@, files[from@])
        } else {
            files
        },
    }
}

/// The files after the first `done` steps went through.
pub open spec fn after_steps(files: Files, steps: Seq<FsStep>, content: Seq<u8>, done: nat) -> Files
    decreases done,
{
    if done == 0 || done > steps.len() {
        files
    } else {
        after_step(after_steps(files, steps, content, (done - 1) as nat), steps[done - 1], content)
    }
}

/// Whether the file at `path` holds what it held in `before` or is missing.
pub open spec fn old_or_missing(now: Files, before: Files, path: Seq<char>) -> bool {
    !now.dom().contains(path) || (before.dom().contains(path) && now[path] == before[path])
}

/// However far an atomic replacement gets before a crash, the file holds its
/// old content or is missing, until the last step has gone through; then it
/// holds the new content whole.
pub proof fn law_replacement_is_atomic(
    files: Files,
    steps: Seq<FsStep>,
    path: Seq<char>,
    content: Seq<u8>,
    os: HostOs,
    done: nat,
)
    requires
        is_atomic_replacement(steps, path, os),
        done <= 4,
    ensures
        done < 4 ==> old_or_missing(after_steps(files, steps, content, done), files, path),
        done == 4 ==> after_steps(files, steps, content, done).dom().contains(path) && after_steps(
            files,
            steps,
            content,
            done,
        )[path] == content,
{
    reveal_with_fuel(after_steps, 5);
    let tmp = temp_path_of(path);
    assert(tmp.len() == path.len() + ".tmp"@.len());
    reveal_strlit(".tmp");
    assert(tmp != path);
    let s1 = after_steps(files, steps, content, 1);
    let s2 = after_steps(files, steps, content, 2);
    let s3 = after_steps(files, steps, content, 3);
    let s4 = after_steps(files, steps, content, 4);
    assert(s1 == files);
    assert(s2 == files.insert(tmp, content));
    assert(s3 == s2.remove(path));
    assert(s3.dom().contains(tmp));
    assert(s3[tmp] == content);
    assert(s4 == s3.remove(tmp).insert(path, content));
}

} // verus!
