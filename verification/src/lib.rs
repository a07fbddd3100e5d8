//! A configurable stand-in for a real-time-bid-response endpoint: a
//! tolerant bid-request model, an impression matcher, and a placeholder
//! template engine, composed into a per-request selection entry point.
use vstd::prelude::*;

pub mod app_conf;
pub mod arg_option;
pub mod content_builder;
pub mod json;
pub mod resource_selector;
pub mod rtb_model;
pub mod selection;
pub mod template;

verus! {

} // verus!
