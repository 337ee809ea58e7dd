//! What every source of Java releases tells of itself.

use vstd::prelude::*;

verus! {

/// A source of Java releases. Fetching is left to the host of the library;
/// these are the names under which the source asks and installs.
pub trait JavaProvider {
    /// The name of the provider, such as `adoptium`.
    fn provider_name(&self) -> &'static str;

    /// The name of the host's operating system in the provider's queries.
    fn os_name(&self) -> &'static str;

    /// The name of the host's architecture in the provider's queries.
    fn arch_name(&self) -> &'static str;

    /// The first part of the name of an installation directory, such as
    /// `temurin`.
    fn install_prefix(&self) -> &'static str;
}

} // verus!
