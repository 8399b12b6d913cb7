//! Chains of error causes.

use std::io::ErrorKind;
use vstd::prelude::*;

verus! {

/// An error with its chain of causes.
#[verifier::external_type_specification]
#[verifier::external_body]
pub struct ExAnyhowError(anyhow::Error);

/// What sort of I/O error an I/O error is.
#[verifier::external_type_specification]
pub struct ExErrorKind(ErrorKind);

/// The links of an error's chain of causes, the error itself first: of each I/O error what sort
/// it is, and nothing of the others.
pub uninterp spec fn error_causes(error: anyhow::Error) -> Seq<Option<ErrorKind>>;

/// Walks `anyhow::Error::chain` and takes from each link that is an I/O error what sort it is.
#[verifier::external_body]
fn causes_of(error: &anyhow::Error) -> (causes: Vec<Option<ErrorKind>>)
    ensures
        causes@ == error_causes(*error),
{
    error.chain().map(|cause| cause.downcast_ref::<std::io::Error>().map(|io| io.kind())).collect()
}

/// Whether one of the causes says that something was not found.
pub fn any_not_found(causes: &Vec<Option<ErrorKind>>) -> (found: bool)
    ensures
        found == causes@.contains(Some(ErrorKind::NotFound)),
{
    let mut i: usize = 0;
    while i < causes.len()
        invariant
            i <= causes.len(),
            forall|j: int| 0 <= j < i ==> causes@[j] != Some(ErrorKind::NotFound),
        decreases causes.len() - i,
    {
        if let Some(ErrorKind::NotFound) = &causes[i] {
            assert(causes@[i as int] == Some(ErrorKind::NotFound));
            return true;
        }
        i = i + 1;
    }
    false
}

/// Whether an I/O error that says "not found" is among the causes of `error`: the mark of a core
/// path that no longer exists.
pub fn is_not_found_error(error: &anyhow::Error) -> (found: bool)
    ensures
        found == error_causes(*error).contains(Some(ErrorKind::NotFound)),
{
    any_not_found(&causes_of(error))
}

} // verus!
