//! The values a program's variables are bound to.
//!
//! Floating-point components are carried as their IEEE-754 bit patterns
//! (`f32::to_bits`): this layer only stores and copies them, and two values
//! are equal exactly when their bits are.

use vstd::prelude::*;

verus! {

/// Position of a declared variable within one category of a program's
/// interface (uniforms, blocks or textures).
pub type ParameterId = u16;

/// A numeric uniform value of one of a closed set of kinds.
#[derive(Clone, Copy, Debug, PartialEq)]
pub enum UniformValue {
    I32(i32),
    F32(u32),
    I32Vector2([i32; 2]),
    I32Vector3([i32; 3]),
    I32Vector4([i32; 4]),
    F32Vector2([u32; 2]),
    F32Vector3([u32; 3]),
    F32Vector4([u32; 4]),
    F32Matrix2([[u32; 2]; 2]),
    F32Matrix3([[u32; 3]; 3]),
    F32Matrix4([[u32; 4]; 4]),
}

/// A shared reference to a buffer resource, backing a uniform block.
#[derive(Clone, Copy, Debug, PartialEq)]
pub struct BufferHandle {
    pub id: u64,
}

/// A shared reference to a texture resource.
#[derive(Clone, Copy, Debug, PartialEq)]
pub struct TextureHandle {
    pub id: u64,
}

/// A shared reference to a sampler configuration.
#[derive(Clone, Copy, Debug, PartialEq)]
pub struct SamplerHandle {
    pub id: u64,
}

/// A texture with an optional sampler. Some textures (multi-sampled ones)
/// are used without a sampler.
#[derive(Clone, Copy, Debug, PartialEq)]
pub struct TextureParam {
    pub texture: TextureHandle,
    pub sampler: Option<SamplerHandle>,
}

} // verus!
