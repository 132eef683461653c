use vstd::prelude::*;

use crate::errors::LoadError;
use crate::model::Expectation;

verus! {

/// The source name under which configuration posted to the admin endpoint is
/// compiled.
pub const ADMIN_SOURCE: &'static str = "POST web configuration";

/// What the configuration compiler returned for `source`, with a failure
/// tied to the source it came from.
pub fn compiled_batch(source: &str, compiled: Result<Vec<Expectation>, String>) -> (r: Result<Vec<Expectation>, LoadError>)
    ensures
        match compiled {
            Ok(batch) => r == Ok::<Vec<Expectation>, LoadError>(batch),
            Err(cause) => match r {
                Err(LoadError::Compile { source: s, cause: c }) => s@ == source@ && c == cause,
                _ => false,
            },
        },
{
    match compiled {
        Ok(batch) => Ok(batch),
        Err(cause) => Err(LoadError::Compile { source: String::from_str(source), cause }),
    }
}

} // verus!
