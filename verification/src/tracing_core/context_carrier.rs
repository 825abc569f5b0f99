//! Carriers of the context across processes: headers written on the way out
//! and read on the way in.

use vstd::prelude::*;

verus! {

/// Where an exit span writes the context it hands on.
pub trait Injectable {
    /// Inject the given key/value into the implementation.
    /// The way of injection is determined by the implementation, no panic! should happens even injection fails.
    fn inject(&self, key: String, value: String);
}

/// Where an entry span reads the context it continues.
pub trait Extractable {
    /// Fetch the value by the given key.
    fn extract(&self, key: String) -> &str;
}

} // verus!
