use vstd::prelude::*;

verus! {

/// An embedded data specification of an AAS element. The format gives it no
/// fields that this library reads yet.
#[derive(Clone, Copy, PartialEq, Eq, Structural, Debug, Default)]
pub struct EmbeddedDataSpecification {}

} // verus!
