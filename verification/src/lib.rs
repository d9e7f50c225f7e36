//! Shell-side policy for a Wayland compositor: geometry projection, layout placement, window
//! policy and restore stacks, workspace routing, focus decisions, layer-shell arrangement, and
//! the control-plane command-line grammar.

#[allow(unused_imports)]
use vstd::prelude::*;


pub mod cli;
pub mod commands;
pub mod configure;
pub mod floating;
pub mod focus;
pub mod fps_hud;
pub mod geometry;
pub mod interaction;
pub mod layer;
pub mod layer_lifecycle;
pub mod lifecycle;
pub mod lifecycle_events;
pub mod model;
pub mod popup;
pub mod presentation;
pub mod search;
pub mod shortcuts;
pub mod stacking;
pub mod surface_presentation;
pub mod text;
pub mod viewport;
pub mod tiling;
pub mod window_control;
pub mod window_policy;
pub mod window_switcher;
pub mod workspace;
pub mod x11;
