use vstd::prelude::*;

verus! {

/// The two selections a compositor tracks independently.
#[derive(Clone, Copy, Debug, PartialEq, Eq, Structural)]
pub enum Selection {
    /// Text that is merely highlighted.
    Primary,
    /// Content placed by an explicit copy.
    Clipboard,
}

} // verus!
