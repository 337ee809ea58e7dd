//! The freshness rule of the stored catalog and the places of the state files.

use crate::platform::{join, joined, HostOs};
use crate::types::JavaCatalog;
use vstd::prelude::*;

verus! {

/// How long a stored catalog is good for, in seconds: one day.
pub const CACHE_DURATION_SECS: u64 = 86400;

/// Whether a catalog stamped `cached_at` is fresh at the time `now`: less than
/// a day has passed since. A catalog stamped later than `now` counts as
/// fresh.
pub open spec fn is_fresh(now: u64, cached_at: u64) -> bool {
    (now as int) - (cached_at as int) < (CACHE_DURATION_SECS as int)
}

/// Tests the freshness of a catalog stamped `cached_at` at the time `now`.
pub fn cache_is_fresh(now: u64, cached_at: u64) -> (fresh: bool)
    ensures
        fresh == is_fresh(now, cached_at),
{
    cached_at > now || now - cached_at < CACHE_DURATION_SECS
}

/// The catalog that the cache answers with at the time `now`: the stored one,
/// where there is one and it is fresh.
pub fn load_cached_catalog(stored: Option<JavaCatalog>, now: u64) -> (out: Option<JavaCatalog>)
    ensures
        out matches Some(catalog) ==> is_fresh(now, catalog.cached_at),
        match stored {
            Some(catalog) => if is_fresh(now, catalog.cached_at) {
                out == Some(catalog)
            } else {
                out is None
            },
            None => out is None,
        },
{
    match stored {
        Some(catalog) => {
            if cache_is_fresh(now, catalog.cached_at) {
                Some(catalog)
            } else {
                None
            }
        },
        None => None,
    }
}

/// The catalog that a fetch answers with before it asks the provider: none
/// where a refresh is forced, else what the cache answers with.
pub fn catalog_without_fetch(
    force_refresh: bool,
    stored: Option<JavaCatalog>,
    now: u64,
) -> (out: Option<JavaCatalog>)
    ensures
        out matches Some(catalog) ==> is_fresh(now, catalog.cached_at) && !force_refresh,
        force_refresh ==> out is None,
        !force_refresh ==> match stored {
            Some(catalog) => if is_fresh(now, catalog.cached_at) {
                out == Some(catalog)
            } else {
                out is None
            },
            None => out is None,
        },
{
    if force_refresh {
        None
    } else {
        load_cached_catalog(stored, now)
    }
}

/// The file that holds the stored catalog, below the application data
/// directory.
pub fn catalog_cache_path(app_data_dir: &str, os: HostOs) -> (path: String)
    ensures
        path@ == joined(app_data_dir@, "java_catalog_cache.json"@, os),
{
    join(app_data_dir, "java_catalog_cache.json", os)
}

/// The file that holds the user's settings, below the application data
/// directory.
pub fn java_config_path(app_data_dir: &str, os: HostOs) -> (path: String)
    ensures
        path@ == joined(app_data_dir@, "java_config.json"@, os),
{
    join(app_data_dir, "java_config.json", os)
}

/// The file that holds the pending installs, below the application data
/// directory.
pub fn download_queue_path(app_data_dir: &str, os: HostOs) -> (path: String)
    ensures
        path@ == joined(app_data_dir@, "java_download_queue.json"@, os),
{
    join(app_data_dir, "java_download_queue.json", os)
}

/// The directory of the managed installations, below the application data
/// directory.
pub fn get_java_install_dir(app_data_dir: &str, os: HostOs) -> (path: String)
    ensures
        path@ == joined(app_data_dir@, "java"@, os),
{
    join(app_data_dir, "java", os)
}

} // verus!
