//! How a builder hands out what it has built.

use vstd::prelude::*;

verus! {

/// A freshly built plugin instance, owned by whoever asked for it.
///
/// Builders return their encoder or demuxer in this wrapper, behind the
/// capability trait that the instance implements.
pub struct Instance<T: ?Sized>(pub Box<T>);

} // verus!
