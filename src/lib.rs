//! The tiling core of a window manager: layouts and their knobs, the geometry
//! of placed windows, and the arrangement pass that turns a layout's decisions
//! into display requests.
use vstd::prelude::*;

pub mod bindings;
pub mod config;
pub mod geometry;
pub mod layout;
pub mod xconnection;
pub mod manager;

verus! {

/// An X resource identifier.
pub type Xid = u32;

} // verus!
