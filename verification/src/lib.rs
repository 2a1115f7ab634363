//! Decision logic of a graphical front end for the raven theme manager.
//!
//! The library holds what the window shows (the list of themes, the
//! selection, the popup) and decides, for every button the user presses, how
//! that state changes and which theme operation has to be carried out.  The
//! theme operations themselves (disk, network, processes) and the drawing are
//! done by the caller, which reports their outcome back where it matters.

pub mod bindings;
pub mod theme;
pub mod popup;
pub mod model;
pub mod layout;
