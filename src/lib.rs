//! Expected launch measurement of SEV-SNP guests, and the data paths around the
//! attestation report that carries the measured value.
use vstd::prelude::*;

pub mod features;
pub mod launch;
pub mod report;

verus! {

} // verus!
