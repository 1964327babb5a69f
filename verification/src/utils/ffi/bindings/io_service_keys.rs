//! IOKit service dictionary keys.

use vstd::prelude::*;

verus! {

/// Provider class key.
pub const K_IOPROVIDER_CLASS_KEY: &'static str = "IOProviderClass";
/// Name match key.
pub const K_IONAME_MATCH_KEY: &'static str = "IONameMatch";

} // verus!
