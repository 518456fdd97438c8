//! The two ways an operation on a container can fail.

use vstd::prelude::*;

verus! {

/// Why an operation on a container was refused.
///
/// The codec answers with a plain yes or no, so neither kind carries a
/// finer reason.
#[derive(Clone, Copy, Debug, PartialEq, Eq)]
pub enum BasisError {
    /// The codec refused the container or the data of one of its levels.
    InvalidFileContents,
    /// An image or level index names nothing in the container.
    InvalidArgument,
}

} // verus!
