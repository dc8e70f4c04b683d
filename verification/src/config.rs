//! Configuration types of an application.

use vstd::prelude::*;

verus! {

/// The application's configuration.
pub struct Config {}

/// A configuration section, found under a key of the configuration tree.
pub trait ConfigTrait {
    /// The key of the section.
    fn key() -> &'static str;
}

} // verus!
