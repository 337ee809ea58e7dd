//! The user's settings: the paths that the user named, the preferred runtime
//! and the time of the last detection.

use crate::text::{same_text, texts};
use vstd::prelude::*;

verus! {

/// The user's settings.
#[derive(Debug, Clone)]
pub struct JavaConfig {
    /// The paths that the user named, in the order in which they were added;
    /// none occurs twice through `add_user_defined_path`.
    pub user_defined_paths: Vec<String>,
    pub preferred_java_path: Option<String>,
    /// When runtimes were last detected, in seconds since the Unix epoch.
    pub last_detection_time: u64,
}

impl Default for JavaConfig {
    fn default() -> (config: JavaConfig)
        ensures
            config.user_defined_paths@.len() == 0,
            config.preferred_java_path is None,
            config.last_detection_time == 0,
    {
        JavaConfig {
            user_defined_paths: Vec::new(),
            preferred_java_path: None,
            last_detection_time: 0,
        }
    }
}

/// The paths after `path` was added: unchanged where it is among them, else
/// with `path` at the end.
pub open spec fn with_path(paths: Seq<Seq<char>>, path: Seq<char>) -> Seq<Seq<char>> {
    if paths.contains(path) {
        paths
    } else {
        paths.push(path)
    }
}

/// The paths that differ from `path`, in their order.
pub open spec fn without_path(paths: Seq<Seq<char>>, path: Seq<char>) -> Seq<Seq<char>>
    decreases paths.len(),
{
    if paths.len() == 0 {
        paths
    } else if paths.last() == path {
        without_path(paths.drop_last(), path)
    } else {
        without_path(paths.drop_last(), path).push(paths.last())
    }
}

/// The settings to work with: the stored ones, or the defaults where none are
/// stored or they cannot be read.
pub fn load_java_config(stored: Option<JavaConfig>) -> (config: JavaConfig)
    ensures
        match stored {
            Some(found) => config == found,
            None => config.user_defined_paths@.len() == 0 && config.preferred_java_path is None
                && config.last_detection_time == 0,
        },
{
    match stored {
        Some(found) => found,
        None => JavaConfig::default(),
    }
}

/// Tests whether `path` is among `paths`.
fn lists_path(paths: &Vec<String>, path: &str) -> (found: bool)
    ensures
        found == texts(paths@).contains(path@),
{
    let mut i: usize = 0;
    while i < paths.len()
        invariant
            i <= paths.len(),
            forall|k: int| 0 <= k < i ==> texts(paths@)[k] != path@,
        decreases paths.len() - i,
    {
        if same_text(paths[i].as_str(), path) {
            assert(texts(paths@)[i as int] == path@);
            return true;
        }
        i = i + 1;
    }
    false
}

/// Adds a path to those that the user named, unless it is among them.
pub fn add_user_defined_path(config: &mut JavaConfig, path: String)
    ensures
        texts(final(config).user_defined_paths@) == with_path(
            texts(old(config).user_defined_paths@),
            path@,
        ),
        final(config).preferred_java_path == old(config).preferred_java_path,
        final(config).last_detection_time == old(config).last_detection_time,
{
    if !lists_path(&config.user_defined_paths, path.as_str()) {
        let ghost before_push = config.user_defined_paths@;
        config.user_defined_paths.push(path);
        assert(texts(config.user_defined_paths@) =~= texts(before_push).push(path@));
    }
}

/// Removes a path from those that the user named, wherever it stands.
pub fn remove_user_defined_path(config: &mut JavaConfig, path: &str)
    ensures
        texts(final(config).user_defined_paths@) == without_path(
            texts(old(config).user_defined_paths@),
            path@,
        ),
        final(config).preferred_java_path == old(config).preferred_java_path,
        final(config).last_detection_time == old(config).last_detection_time,
{
    let mut kept: Vec<String> = Vec::new();
    let ghost all = texts(config.user_defined_paths@);
    let mut i: usize = 0;
    assert(all.subrange(0, 0) =~= Seq::<Seq<char>>::empty());
    assert(texts(kept@) =~= Seq::<Seq<char>>::empty());
    while i < config.user_defined_paths.len()
        invariant
            i <= config.user_defined_paths.len(),
            all == texts(config.user_defined_paths@),
            texts(kept@) == without_path(all.subrange(0, i as int), path@),
        decreases config.user_defined_paths.len() - i,
    {
        proof {
            let upto = all.subrange(0, i + 1);
            assert(upto.drop_last() =~= all.subrange(0, i as int));
            assert(upto.last() == config.user_defined_paths@[i as int]@);
        }
        if !same_text(config.user_defined_paths[i].as_str(), path) {
            let ghost before_push = kept@;
            kept.push(config.user_defined_paths[i].clone());
            assert(texts(kept@) =~= texts(before_push).push(config.user_defined_paths@[i as int]@));
        }
        i = i + 1;
    }
    assert(all.subrange(0, all.len() as int) =~= all);
    config.user_defined_paths = kept;
}

/// Sets or clears the preferred runtime.
pub fn set_preferred_java_path(config: &mut JavaConfig, path: Option<String>)
    ensures
        final(config).preferred_java_path == path,
        final(config).user_defined_paths == old(config).user_defined_paths,
        final(config).last_detection_time == old(config).last_detection_time,
{
    config.preferred_java_path = path;
}

/// The preferred runtime, if one is set.
pub fn get_preferred_java_path(config: &JavaConfig) -> (path: Option<String>)
    ensures
        path == config.preferred_java_path,
{
    match &config.preferred_java_path {
        Some(p) => Some(p.clone()),
        None => None,
    }
}

/// Records `now` as the time of the last detection.
pub fn update_last_detection_time(config: &mut JavaConfig, now: u64)
    ensures
        final(config).last_detection_time == now,
        final(config).user_defined_paths == old(config).user_defined_paths,
        final(config).preferred_java_path == old(config).preferred_java_path,
{
    config.last_detection_time = now;
}

/// Adding a path a second time changes nothing.
pub proof fn law_add_path_is_idempotent(paths: Seq<Seq<char>>, path: Seq<char>)
    ensures
        with_path(with_path(paths, path), path) == with_path(paths, path),
{
    if !paths.contains(path) {
        let once = paths.push(path);
        assert(once[paths.len() as int] == path);
    }
}

/// Paths without a repetition stay so when a path is added.
pub proof fn law_add_path_keeps_distinct(paths: Seq<Seq<char>>, path: Seq<char>)
    requires
        paths.no_duplicates(),
    ensures
        with_path(paths, path).no_duplicates(),
        with_path(paths, path).contains(path),
{
    if !paths.contains(path) {
        let once = paths.push(path);
        assert(once[paths.len() as int] == path);
        assert forall|i: int, j: int|
            0 <= i < once.len() && 0 <= j < once.len() && i != j implies once[i] != once[j] by {
            if i < paths.len() && j < paths.len() {
                assert(paths[i] != paths[j]);
            } else if i < paths.len() {
                assert(paths.contains(paths[i]));
            } else {
                assert(paths.contains(paths[j]));
            }
        }
    }
}

/// A removed path is no longer among the paths, and every other path stays.
pub proof fn law_removed_path_is_gone(paths: Seq<Seq<char>>, path: Seq<char>)
    ensures
        !without_path(paths, path).contains(path),
        forall|other: Seq<char>|
            other != path ==> (#[trigger] without_path(paths, path).contains(other)
                <==> paths.contains(other)),
    decreases paths.len(),
{
    let out = without_path(paths, path);
    if paths.len() > 0 {
        let front = paths.drop_last();
        let rest = without_path(front, path);
        law_removed_path_is_gone(front, path);
        if out.contains(path) {
            let k = choose|k: int| 0 <= k < out.len() && out[k] == path;
            if k < rest.len() {
                assert(rest[k] == path);
                assert(rest.contains(path));
            }
            assert(false);
        }
        assert forall|other: Seq<char>| other != path implies (#[trigger] out.contains(other)
            <==> paths.contains(other)) by {
            if out.contains(other) {
                let k = choose|k: int| 0 <= k < out.len() && out[k] == other;
                if k < rest.len() {
                    assert(rest[k] == other);
                    assert(rest.contains(other));
                    let m = choose|m: int| 0 <= m < front.len() && front[m] == other;
                    assert(paths[m] == other);
                } else {
                    assert(paths[paths.len() - 1] == other);
                }
            }
            if paths.contains(other) {
                let m = choose|m: int| 0 <= m < paths.len() && paths[m] == other;
                if m < front.len() {
                    assert(front[m] == other);
                    assert(front.contains(other));
                    assert(rest.contains(other));
                    let k = choose|k: int| 0 <= k < rest.len() && rest[k] == other;
                    assert(out[k] == other);
                } else {
                    assert(out[out.len() - 1] == other);
                }
            }
        }
    }
}

} // verus!
