//! Theme selection for the Pop desktop, without the widgets: the catalog of
//! installed themes, the dark/slim flag machine, and the controllers that turn
//! a user's choice into an ordered list of writes to the desktop's settings.

pub mod catalog;
pub mod controller;
pub mod flags;
pub mod focus;
pub mod fraction;
pub mod metadata;
pub mod text;
