use vstd::prelude::*;

verus! {

/// The state of a pixel on a bichromatic (black/white/red) panel.
///
/// The two bit-planes of the controller encode a pixel jointly; only three of
/// the four bit combinations are ever produced by this driver.
#[derive(Clone, Copy, PartialEq, Eq, Debug, Structural)]
pub enum Color {
    Black,
    White,
    Red,
}

} // verus!
