//! A marker for values destined for the XML wire encoding, which the
//! transport layer around the library performs.

use vstd::prelude::*;

verus! {

/// Wraps a record that the transport layer encodes as an XML document.
pub struct Xml<T>(pub T);

} // verus!
