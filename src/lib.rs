//! The capture-to-spectrum core of an audio visualiser: framing of captured
//! samples into overlapping analysis windows, selection of the audible half
//! of each spectrum, the index structure of the displayed curve, and the
//! decisions of the capture controller, the capture thread and the players.
use vstd::prelude::*;

pub mod capture;
pub mod controller;
pub mod curve;
pub mod framing;
pub mod playlist;
pub mod sessions;
pub mod spectrum;
pub mod window;

verus! {

} // verus!
