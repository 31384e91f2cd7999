use vstd::prelude::*;

verus! {

/// Receives the outcome of every Redis command and every parse failure and
/// writes them to the log.
pub struct ErrorLogger {}

} // verus!
