use vstd::prelude::*;

pub mod geometry;
pub mod layer;
pub mod panel;
pub mod popup;
pub mod reconcile;
pub mod seat_table;
pub mod spawn;
pub mod supervisor;

verus! {

/// Where an applet slot list stands on the panel.
#[derive(Debug, Clone, Copy, PartialEq, Eq, Structural)]
pub enum Alignment {
    Left,
    Center,
    Right,
}

} // verus!
