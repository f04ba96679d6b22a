use vstd::prelude::*;

verus! {

/// Common error of the operations, over the cause `E` that the caller's
/// conversion and transport report.
#[derive(Debug, PartialEq)]
pub enum Error<E> {
    /// A returned item could not be converted into the caller's record type.
    Conversion(E),
    /// The store or the transport reported a failure; forwarded as it came.
    Sdk(E),
}

} // verus!
