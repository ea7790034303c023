use vstd::prelude::*;

verus! {

/// One cuboid instance exactly as the GPU-visible instance buffer holds it:
/// minimum corner, maximum corner, a color/material index and flag bits, at a
/// fixed stride of eight 32-bit words. The corner coordinates are carried as
/// raw 32-bit patterns of the shader's floating-point encoding; this core
/// never interprets them numerically, it only stores and counts records.
#[derive(Clone, Copy, PartialEq, Eq, Structural, Debug)]
pub struct Cuboid {
    pub min_x: u32,
    pub min_y: u32,
    pub min_z: u32,
    pub max_x: u32,
    pub max_y: u32,
    pub max_z: u32,
    pub color: u32,
    pub flags: u32,
}

} // verus!
