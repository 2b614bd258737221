//! Verified core of a Home Assistant managed photo frame.

pub mod control;
pub mod dns;
pub mod endpoint;
pub mod fit;
pub mod form;
pub mod ha_bridge;
pub mod identity;
pub mod local_photos;
pub mod media;
pub mod panel;
pub mod paths;
pub mod photo_cache;
pub mod portal;
pub mod provisioning;
pub mod rendered_image;
pub mod runtime;
pub mod screens;
pub mod sd_card;
pub mod setup_state;
pub mod sorting;
pub mod state;
pub mod text;
pub mod touch;
pub mod ui;
pub mod wifi;

use vstd::prelude::*;

verus! {

/// Width of the panel in the orientation photos are composed in.
pub const PANEL_LOGICAL_WIDTH: usize = 1280;

/// Height of the panel in the orientation photos are composed in.
pub const PANEL_LOGICAL_HEIGHT: usize = 800;

} // verus!
