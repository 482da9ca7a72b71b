use vstd::prelude::*;

verus! {

/// Keeps the value of a step that succeeded. A step that failed gives `None`,
/// upon which the caller abandons the connection and moves on to the next one.
pub fn unwrap_or_continue<T, E>(step: Result<T, E>) -> (r: Option<T>)
    ensures
        match step {
            Ok(v) => r == Some(v),
            Err(_) => r is None,
        },
{
    match step {
        Ok(v) => Some(v),
        Err(_) => None,
    }
}

} // verus!
