//! The immutable bundle handed to every shading call.
use vstd::prelude::*;

use crate::body::Body;
use crate::light::Lights;

verus! {

/// Bounds a render is run under.
#[derive(Clone, Copy, Debug)]
pub struct Limits {
    /// How many light bounces a shading call may follow.
    pub max_light_bounces: usize,
}

/// The world a render works in: the root body, the lights, and the limits.
/// It is built once per render and only read afterwards.
#[derive(Debug)]
pub struct WorldInfo {
    pub root_object: Body,
    pub lights: Lights,
    pub limits: Limits,
}

} // verus!
