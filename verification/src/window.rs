//! The main window as this controller observes it: either absent, or
//! present with a boolean visibility.

use vstd::prelude::*;

verus! {

/// Visibility of the main window, the one attribute this controller reads
/// and flips.
#[derive(Clone, Copy, Debug, PartialEq, Eq, Structural)]
pub enum Visibility {
    Visible,
    Hidden,
}

/// The opposite visibility.
pub open spec fn spec_flip(v: Visibility) -> Visibility {
    match v {
        Visibility::Visible => Visibility::Hidden,
        Visibility::Hidden => Visibility::Visible,
    }
}

impl Visibility {
    /// Flip between `Visible` and `Hidden`.
    pub fn flip(self) -> (r: Visibility)
        ensures
            r == spec_flip(self),
    {
        match self {
            Visibility::Visible => Visibility::Hidden,
            Visibility::Hidden => Visibility::Visible,
        }
    }
}

} // verus!
