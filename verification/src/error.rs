use vstd::prelude::*;

verus! {

/// What can go wrong while the service is being set up.
#[derive(Clone, Copy, Debug, PartialEq, Eq)]
pub enum Error {
    /// The environment holds no variable of this name.
    ConfigMissingEnv(&'static str),
}

} // verus!
