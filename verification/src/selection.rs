//! From probed candidates to the list of installations, and the choice of an
//! installation for a required range of versions.

use crate::text::same_text;
use crate::types::JavaInstallation;
use crate::validation::{is_version_compatible, java_major, parse_java_version, version_in_window};
use vstd::prelude::*;

verus! {

/// The major version of an installation.
pub open spec fn major_of(java: JavaInstallation) -> u32 {
    java_major(java.version@)
}

/// Whether an installation with the given path is listed.
pub open spec fn lists_path(list: Seq<JavaInstallation>, path: Seq<char>) -> bool {
    exists|i: int| 0 <= i < list.len() && (#[trigger] list[i]).path@ == path
}

/// The installations that probing found, each path once: of several results
/// with one path the first stays; a failed probe contributes nothing.
pub open spec fn distinct_found(probed: Seq<Option<JavaInstallation>>) -> Seq<JavaInstallation>
    decreases probed.len(),
{
    if probed.len() == 0 {
        Seq::<JavaInstallation>::empty()
    } else {
        let rest = distinct_found(probed.drop_last());
        match probed.last() {
            Some(java) => if lists_path(rest, java.path@) {
                rest
            } else {
                rest.push(java)
            },
            None => rest,
        }
    }
}

/// A list ordered by major version, newest first, after `java` was put behind
/// everything that is at least as new.
pub open spec fn inserted(sorted: Seq<JavaInstallation>, java: JavaInstallation) -> Seq<
    JavaInstallation,
>
    decreases sorted.len(),
{
    if sorted.len() == 0 {
        seq![java]
    } else if major_of(sorted.last()) >= major_of(java) {
        sorted.push(java)
    } else {
        inserted(sorted.drop_last(), java).push(sorted.last())
    }
}

/// The installations ordered by major version, newest first; installations
/// of one major version keep their order.
pub open spec fn newest_first(list: Seq<JavaInstallation>) -> Seq<JavaInstallation>
    decreases list.len(),
{
    if list.len() == 0 {
        list
    } else {
        inserted(newest_first(list.drop_last()), list.last())
    }
}

/// Whether no installation stands before a newer one.
pub open spec fn is_newest_first(list: Seq<JavaInstallation>) -> bool {
    forall|i: int, j: int|
        0 <= i < j < list.len() ==> major_of(#[trigger] list[i]) >= major_of(#[trigger] list[j])
}

/// Inserting at `at` is what `inserted` describes, where everything from `at`
/// on is older than `java` and what stands before `at` is not.
pub proof fn lemma_inserted_at(sorted: Seq<JavaInstallation>, java: JavaInstallation, at: int)
    requires
        0 <= at <= sorted.len(),
        forall|k: int| at <= k < sorted.len() ==> major_of(#[trigger] sorted[k]) < major_of(java),
        at > 0 ==> major_of(sorted[at - 1]) >= major_of(java),
    ensures
        inserted(sorted, java) == sorted.insert(at, java),
    decreases sorted.len() - at,
{
    if sorted.len() == 0 {
        assert(sorted.insert(0, java) =~= seq![java]);
    } else if at == sorted.len() {
        assert(sorted.insert(at, java) =~= sorted.push(java));
    } else {
        let front = sorted.drop_last();
        assert(major_of(sorted[sorted.len() - 1]) < major_of(java));
        assert forall|k: int| at <= k < front.len() implies major_of(#[trigger] front[k])
            < major_of(java) by {
            assert(front[k] == sorted[k]);
        }
        if at > 0 {
            assert(front[at - 1] == sorted[at - 1]);
        }
        lemma_inserted_at(front, java, at);
        assert(front.insert(at, java).push(sorted.last()) =~= sorted.insert(at, java));
    }
}

/// Inserting keeps the order and the installations.
pub proof fn lemma_inserted_keeps_order(sorted: Seq<JavaInstallation>, java: JavaInstallation)
    requires
        is_newest_first(sorted),
    ensures
        is_newest_first(inserted(sorted, java)),
        inserted(sorted, java).to_multiset() == sorted.to_multiset().insert(java),
        inserted(sorted, java).len() == sorted.len() + 1,
    decreases sorted.len(),
{
    broadcast use vstd::seq_lib::group_to_multiset_ensures;

    let out = inserted(sorted, java);
    if sorted.len() == 0 {
        assert(out =~= Seq::<JavaInstallation>::empty().push(java));
    } else if major_of(sorted.last()) >= major_of(java) {
        assert forall|i: int, j: int| 0 <= i < j < out.len() implies major_of(#[trigger] out[i])
            >= major_of(#[trigger] out[j]) by {
            if j < sorted.len() {
                assert(out[i] == sorted[i] && out[j] == sorted[j]);
            } else {
                assert(out[i] == sorted[i]);
                if i < sorted.len() - 1 {
                    assert(major_of(sorted[i]) >= major_of(sorted[sorted.len() - 1]));
                }
            }
        }
    } else {
        let front = sorted.drop_last();
        let last = sorted.last();
        assert(is_newest_first(front)) by {
            assert forall|i: int, j: int| 0 <= i < j < front.len() implies major_of(
                #[trigger] front[i],
            ) >= major_of(#[trigger] front[j]) by {
                assert(front[i] == sorted[i] && front[j] == sorted[j]);
            }
        }
        lemma_inserted_keeps_order(front, java);
        let mid = inserted(front, java);
        assert(out == mid.push(last));
        assert(sorted =~= front.push(last));
        assert forall|i: int, j: int| 0 <= i < j < out.len() implies major_of(#[trigger] out[i])
            >= major_of(#[trigger] out[j]) by {
            if j < mid.len() {
                assert(out[i] == mid[i] && out[j] == mid[j]);
            } else {
                assert(out[j] == last);
                assert(out[i] == mid[i]);
                assert(mid.to_multiset().contains(mid[i])) by {
                    assert(mid.contains(mid[i]));
                }
                if mid[i] == java {
                } else {
                    assert(front.to_multiset().contains(mid[i]));
                    assert(front.contains(mid[i]));
                    let k = choose|k: int| 0 <= k < front.len() && front[k] == mid[i];
                    assert(sorted[k] == mid[i]);
                    assert(major_of(sorted[k]) >= major_of(sorted[sorted.len() - 1]));
                }
            }
        }
        assert(out.to_multiset() =~= sorted.to_multiset().insert(java));
    }
}

/// What `newest_first` gives is ordered and holds the same installations.
pub proof fn law_newest_first_is_ordered(list: Seq<JavaInstallation>)
    ensures
        is_newest_first(newest_first(list)),
        newest_first(list).to_multiset() == list.to_multiset(),
        newest_first(list).len() == list.len(),
    decreases list.len(),
{
    broadcast use vstd::seq_lib::group_to_multiset_ensures;

    if list.len() == 0 {
    } else {
        let front = list.drop_last();
        law_newest_first_is_ordered(front);
        lemma_inserted_keeps_order(newest_first(front), list.last());
        assert(list =~= front.push(list.last()));
    }
}

/// What `distinct_found` gives holds no path twice, and every path that a
/// probe found.
pub proof fn law_distinct_found_has_each_path_once(probed: Seq<Option<JavaInstallation>>)
    ensures
        forall|i: int, j: int|
            0 <= i < j < distinct_found(probed).len() ==> (#[trigger] distinct_found(
                probed,
            )[i]).path@ != (#[trigger] distinct_found(probed)[j]).path@,
        forall|k: int|
            0 <= k < probed.len() ==> (#[trigger] probed[k] matches Some(java) ==> lists_path(
                distinct_found(probed),
                java.path@,
            )),
    decreases probed.len(),
{
    let out = distinct_found(probed);
    if probed.len() > 0 {
        let front = probed.drop_last();
        let rest = distinct_found(front);
        law_distinct_found_has_each_path_once(front);
        assert forall|i: int, j: int| 0 <= i < j < out.len() implies (#[trigger] out[i]).path@ != (
        #[trigger] out[j]).path@ by {
            if j < rest.len() {
                assert(out[i] == rest[i] && out[j] == rest[j]);
            } else {
                assert(out[i] == rest[i]);
            }
        }
        assert forall|k: int| 0 <= k < probed.len() implies (#[trigger] probed[k] matches Some(java)
            ==> lists_path(out, java.path@)) by {
            if let Some(java) = probed[k] {
                if k < front.len() {
                    assert(front[k] == probed[k]);
                    let m = choose|m: int| 0 <= m < rest.len() && (#[trigger] rest[m]).path@
                        == java.path@;
                    assert(out[m] == rest[m]);
                } else {
                    if lists_path(rest, java.path@) {
                        let m = choose|m: int| 0 <= m < rest.len() && (#[trigger] rest[m]).path@
                            == java.path@;
                        assert(out[m] == rest[m]);
                    } else {
                        assert(out[out.len() - 1] == java);
                    }
                }
            }
        }
    }
}

/// Tests whether an installation with the given path is listed.
fn has_path(list: &Vec<JavaInstallation>, path: &str) -> (found: bool)
    ensures
        found == lists_path(list@, path@),
{
    let mut i: usize = 0;
    while i < list.len()
        invariant
            i <= list.len(),
            forall|k: int| 0 <= k < i ==> (#[trigger] list@[k]).path@ != path@,
        decreases list.len() - i,
    {
        if same_text(list[i].path.as_str(), path) {
            assert(list@[i as int].path@ == path@);
            return true;
        }
        i = i + 1;
    }
    false
}

/// Orders installations by major version, newest first; installations of one
/// major version keep their order.
pub fn sort_newest_first(list: &Vec<JavaInstallation>) -> (out: Vec<JavaInstallation>)
    ensures
        out@ == newest_first(list@),
        is_newest_first(out@),
        out@.to_multiset() == list@.to_multiset(),
{
    let mut out: Vec<JavaInstallation> = Vec::new();
    let mut i: usize = 0;
    assert(list@.subrange(0, 0) =~= Seq::<JavaInstallation>::empty());
    while i < list.len()
        invariant
            i <= list.len(),
            out@ == newest_first(list@.subrange(0, i as int)),
        decreases list.len() - i,
    {
        let java = list[i].duplicate();
        let major = parse_java_version(java.version.as_str());
        let mut at: usize = out.len();
        while at > 0 && parse_java_version(out[at - 1].version.as_str()) < major
            invariant
                at <= out.len(),
                major == major_of(java),
                forall|k: int| at <= k < out.len() ==> major_of(#[trigger] out@[k]) < major,
            decreases at,
        {
            at = at - 1;
        }
        proof {
            lemma_inserted_at(out@, java, at as int);
            let upto = list@.subrange(0, i + 1);
            assert(upto.drop_last() =~= list@.subrange(0, i as int));
            assert(upto.last() == java);
        }
        out.insert(at, java);
        i = i + 1;
    }
    proof {
        assert(list@.subrange(0, list.len() as int) =~= list@);
        law_newest_first_is_ordered(list@);
    }
    out
}

/// The installations of a machine, from the probes of its candidates in the
/// order of the scan: each path once, newest major version first.
pub fn detect_java_installations(probed: Vec<Option<JavaInstallation>>) -> (out: Vec<
    JavaInstallation,
>)
    ensures
        out@ == newest_first(distinct_found(probed@)),
        is_newest_first(out@),
{
    let mut found: Vec<JavaInstallation> = Vec::new();
    let mut i: usize = 0;
    assert(probed@.subrange(0, 0) =~= Seq::<Option<JavaInstallation>>::empty());
    while i < probed.len()
        invariant
            i <= probed.len(),
            found@ == distinct_found(probed@.subrange(0, i as int)),
        decreases probed.len() - i,
    {
        proof {
            let upto = probed@.subrange(0, i + 1);
            assert(upto.drop_last() =~= probed@.subrange(0, i as int));
            assert(upto.last() == probed@[i as int]);
        }
        match &probed[i] {
            Some(java) => {
                if !has_path(&found, java.path.as_str()) {
                    found.push(java.duplicate());
                }
            },
            None => {},
        }
        i = i + 1;
    }
    assert(probed@.subrange(0, probed.len() as int) =~= probed@);
    sort_newest_first(&found)
}

/// The installations in the order in which the managed tree extends a list:
/// those of the list, then each managed one whose path is new.
pub open spec fn extended_by(
    detected: Seq<JavaInstallation>,
    managed: Seq<Option<JavaInstallation>>,
) -> Seq<JavaInstallation>
    decreases managed.len(),
{
    if managed.len() == 0 {
        detected
    } else {
        let rest = extended_by(detected, managed.drop_last());
        match managed.last() {
            Some(java) => if lists_path(rest, java.path@) {
                rest
            } else {
                rest.push(java)
            },
            None => rest,
        }
    }
}

/// The installations of a machine together with those of the managed tree:
/// `detected` extended by the probes of the managed directories, each new
/// path once, newest major version first.
pub fn detect_all_java_installations(
    detected: Vec<JavaInstallation>,
    managed: Vec<Option<JavaInstallation>>,
) -> (out: Vec<JavaInstallation>)
    ensures
        out@ == newest_first(extended_by(detected@, managed@)),
        is_newest_first(out@),
{
    let mut found = detected;
    let mut i: usize = 0;
    assert(managed@.subrange(0, 0) =~= Seq::<Option<JavaInstallation>>::empty());
    while i < managed.len()
        invariant
            i <= managed.len(),
            found@ == extended_by(detected@, managed@.subrange(0, i as int)),
        decreases managed.len() - i,
    {
        proof {
            let upto = managed@.subrange(0, i + 1);
            assert(upto.drop_last() =~= managed@.subrange(0, i as int));
            assert(upto.last() == managed@[i as int]);
        }
        match &managed[i] {
            Some(java) => {
                if !has_path(&found, java.path.as_str()) {
                    found.push(java.duplicate());
                }
            },
            None => {},
        }
        i = i + 1;
    }
    assert(managed@.subrange(0, managed.len() as int) =~= managed@);
    sort_newest_first(&found)
}

/// Whether an installation satisfies the window of major versions.
pub open spec fn fits(java: JavaInstallation, min: Option<u64>, max: Option<u32>) -> bool {
    version_in_window(major_of(java), min, max)
}

/// Whether `out` is the first installation of `list` that fits the window, or
/// nothing where none fits.
pub open spec fn is_first_fit(
    out: Option<JavaInstallation>,
    list: Seq<JavaInstallation>,
    min: Option<u64>,
    max: Option<u32>,
) -> bool {
    match out {
        Some(java) => exists|i: int|
            0 <= i < list.len() && #[trigger] list[i] == java && fits(java, min, max) && forall|
                k: int,
            |
                0 <= k < i ==> !fits(#[trigger] list[k], min, max),
        None => forall|k: int| 0 <= k < list.len() ==> !fits(#[trigger] list[k], min, max),
    }
}

/// The first installation of the list whose major version lies in the window
/// between `min` and `max`, each bound only where it is given.
pub fn get_compatible_java(
    list: &Vec<JavaInstallation>,
    min: Option<u64>,
    max: Option<u32>,
) -> (out: Option<JavaInstallation>)
    ensures
        is_first_fit(out, list@, min, max),
{
    let mut i: usize = 0;
    while i < list.len()
        invariant
            i <= list.len(),
            forall|k: int| 0 <= k < i ==> !fits(#[trigger] list@[k], min, max),
        decreases list.len() - i,
    {
        let major = parse_java_version(list[i].version.as_str());
        if is_version_compatible(major, min, max) {
            let java = list[i].duplicate();
            assert(list@[i as int] == java);
            return Some(java);
        }
        i = i + 1;
    }
    None
}

/// The installation to recommend: the first of the list that is at least of
/// the required major version, or simply the first where none is required.
pub fn get_recommended_java(
    list: &Vec<JavaInstallation>,
    required_major_version: Option<u64>,
) -> (out: Option<JavaInstallation>)
    ensures
        required_major_version is Some ==> is_first_fit(out, list@, required_major_version, None),
        required_major_version is None ==> out == if list@.len() > 0 {
            Some(list@[0])
        } else {
            None
        },
{
    match required_major_version {
        Some(_) => get_compatible_java(list, required_major_version, None),
        None => {
            if list.len() > 0 {
                Some(list[0].duplicate())
            } else {
                None
            }
        },
    }
}

/// Whether what a probe found satisfies the window of major versions; a
/// failed probe satisfies nothing.
pub fn is_java_compatible(
    probe: &Option<JavaInstallation>,
    min: Option<u64>,
    max: Option<u32>,
) -> (ok: bool)
    ensures
        ok == (*probe matches Some(java) && fits(java, min, max)),
{
    match probe {
        Some(java) => {
            let major = parse_java_version(java.version.as_str());
            is_version_compatible(major, min, max)
        },
        None => false,
    }
}

} // verus!
