//! The kinds of files that can be imported.

use vstd::prelude::*;

verus! {

/// Where a file to import comes from.
#[derive(Copy, Clone, PartialEq, Eq, Debug, Structural)]
pub enum ImportSourceType {
    /// A listing as an upstream interface handed it out.
    ApiOutput,
    /// A dossier that was handed in.
    Dossier,
    /// An export of the collection "Heisse Preise".
    HeissePreise,
}

} // verus!
