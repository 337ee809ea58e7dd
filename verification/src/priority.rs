//! The layered choice of the runtime for a launch: overrides first, then every
//! installation of the machine.

use crate::selection::{fits, get_compatible_java, is_first_fit, is_java_compatible};
use crate::text::{opt_text, texts};
use crate::types::JavaInstallation;
use vstd::prelude::*;

verus! {

/// The path of an override, where one is given and not empty.
pub open spec fn given_path(value: Option<Seq<char>>) -> Seq<Seq<char>> {
    match value {
        Some(path) => if path.len() > 0 {
            seq![path]
        } else {
            Seq::<Seq<char>>::empty()
        },
        None => Seq::<Seq<char>>::empty(),
    }
}

/// The preferred path of the settings, where one is set.
pub open spec fn preferred_path(value: Option<Seq<char>>) -> Seq<Seq<char>> {
    match value {
        Some(path) => seq![path],
        None => Seq::<Seq<char>>::empty(),
    }
}

/// The paths that are tried before detection, in order: the override of the
/// instance, the global override, the preferred path of the settings.
pub open spec fn override_paths(
    instance: Option<Seq<char>>,
    global: Option<Seq<char>>,
    preferred: Option<Seq<char>>,
) -> Seq<Seq<char>> {
    given_path(instance) + given_path(global) + preferred_path(preferred)
}

/// The paths that are tried before detection, in order.
pub fn launch_overrides(
    instance_java_override: &Option<String>,
    global_java_path: &Option<String>,
    preferred_java_path: &Option<String>,
) -> (paths: Vec<String>)
    ensures
        texts(paths@) == override_paths(
            opt_text(*instance_java_override),
            opt_text(*global_java_path),
            opt_text(*preferred_java_path),
        ),
{
    let mut paths: Vec<String> = Vec::new();
    if let Some(path) = instance_java_override {
        if path.as_str().unicode_len() > 0 {
            paths.push(path.clone());
        }
    }
    assert(texts(paths@) =~= given_path(opt_text(*instance_java_override)));
    let ghost first = texts(paths@);
    if let Some(path) = global_java_path {
        if path.as_str().unicode_len() > 0 {
            paths.push(path.clone());
        }
    }
    assert(texts(paths@) =~= first + given_path(opt_text(*global_java_path)));
    let ghost second = texts(paths@);
    if let Some(path) = preferred_java_path {
        paths.push(path.clone());
    }
    assert(texts(paths@) =~= second + preferred_path(opt_text(*preferred_java_path)));
    paths
}

/// What the resolution for a launch does next.
#[derive(Debug, Clone)]
pub enum LaunchStep {
    /// Probe the executable at this path and come back with the result.
    Probe(String),
    /// Detect every installation of the machine and come back with them.
    Detect,
    /// The resolution has ended with this choice.
    Done(Option<JavaInstallation>),
}

/// Whether one of the probes found an installation that fits the window.
pub open spec fn some_probe_fits(
    probes: Seq<Option<JavaInstallation>>,
    min: Option<u64>,
    max: Option<u32>,
) -> bool {
    exists|i: int| 0 <= i < probes.len() && probe_fits(#[trigger] probes[i], min, max)
}

/// Whether a probe found an installation that fits the window.
pub open spec fn probe_fits(
    probe: Option<JavaInstallation>,
    min: Option<u64>,
    max: Option<u32>,
) -> bool {
    probe matches Some(java) && fits(java, min, max)
}

/// Whether `step` is what the layered lookup does with what is known so far.
/// The first probe that fits decides. While no probe fits, the next override
/// is probed; after the last, the installations of the machine are asked for,
/// and the first of them that fits is chosen.
pub open spec fn is_launch_step(
    step: LaunchStep,
    overrides: Seq<String>,
    probes: Seq<Option<JavaInstallation>>,
    detected: Option<Seq<JavaInstallation>>,
    min: Option<u64>,
    max: Option<u32>,
) -> bool {
    if some_probe_fits(probes, min, max) {
        step matches LaunchStep::Done(Some(java)) && exists|i: int|
            0 <= i < probes.len() && #[trigger] probes[i] == Some(java) && fits(java, min, max)
                && forall|k: int| 0 <= k < i ==> !probe_fits(#[trigger] probes[k], min, max)
    } else if probes.len() < overrides.len() {
        step matches LaunchStep::Probe(path) && path == overrides[probes.len() as int]
    } else {
        match detected {
            None => step is Detect,
            Some(list) => step matches LaunchStep::Done(choice) && is_first_fit(
                choice,
                list,
                min,
                max,
            ),
        }
    }
}

/// The installations of an optional list.
pub open spec fn opt_list(detected: Option<&Vec<JavaInstallation>>) -> Option<
    Seq<JavaInstallation>,
> {
    match detected {
        Some(list) => Some(list@),
        None => None,
    }
}

/// Decides the next step of the choice of a runtime for a launch. `overrides`
/// are the paths to try first, `probes` the results of those that were probed
/// so far, in the same order, and `detected` the installations of the
/// machine once they were asked for.
pub fn resolve_java_for_launch(
    overrides: &Vec<String>,
    probes: &Vec<Option<JavaInstallation>>,
    detected: Option<&Vec<JavaInstallation>>,
    required_major_version: Option<u64>,
    max_major_version: Option<u32>,
) -> (step: LaunchStep)
    ensures
        is_launch_step(
            step,
            overrides@,
            probes@,
            opt_list(detected),
            required_major_version,
            max_major_version,
        ),
{
    let mut i: usize = 0;
    while i < probes.len()
        invariant
            i <= probes.len(),
            forall|k: int|
                0 <= k < i ==> !probe_fits(
                    #[trigger] probes@[k],
                    required_major_version,
                    max_major_version,
                ),
        decreases probes.len() - i,
    {
        if is_java_compatible(&probes[i], required_major_version, max_major_version) {
            match &probes[i] {
                Some(java) => {
                    let choice = java.duplicate();
                    assert(probes@[i as int] == Some(choice));
                    assert(probe_fits(
                        probes@[i as int],
                        required_major_version,
                        max_major_version,
                    ));
                    return LaunchStep::Done(Some(choice));
                },
                None => {},
            }
        }
        i = i + 1;
    }
    if probes.len() < overrides.len() {
        return LaunchStep::Probe(overrides[probes.len()].clone());
    }
    match detected {
        None => LaunchStep::Detect,
        Some(list) => LaunchStep::Done(
            get_compatible_java(list, required_major_version, max_major_version),
        ),
    }
}

} // verus!
