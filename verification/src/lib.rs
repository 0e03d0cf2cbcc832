use vstd::prelude::*;

pub mod cache;
pub mod config;
pub mod error;
pub mod record;
pub mod store;
pub mod transform;
pub mod variant;

verus! {

use crate::error::ImagioError;

/// The top-level commands the service can be started with.
#[derive(Clone, Copy, Debug, PartialEq, Eq, Structural)]
pub enum ImagioCommand {
    Init { force: bool },
    Generate,
    Serve,
}

/// Batch regeneration of derivatives. Derivatives are produced on
/// demand and memoized, so there is nothing to do ahead of time; the
/// command always succeeds.
pub fn generate() -> (r: Result<(), ImagioError>)
    ensures
        r is Ok,
{
    Ok(())
}

} // verus!
