//! A compiled program's declared interface, and the per-draw storage that
//! linking and filling write into.

use vstd::prelude::*;
use crate::value::{UniformValue, BufferHandle, TextureParam};

verus! {

/// One variable that a program declares, as reflection reports it.
#[derive(Clone, Debug, PartialEq)]
pub struct ShaderVar {
    pub name: String,
}

/// The full declared interface of one compiled program. The order of each
/// list assigns the parameter ids of its category.
#[derive(Clone, Debug, PartialEq)]
pub struct ProgramInfo {
    pub uniforms: Vec<ShaderVar>,
    pub blocks: Vec<ShaderVar>,
    pub textures: Vec<ShaderVar>,
}

impl ProgramInfo {
    /// True when the program declares no variable of any category.
    pub open spec fn is_empty_interface(&self) -> bool {
        &&& self.uniforms@.len() == 0
        &&& self.blocks@.len() == 0
        &&& self.textures@.len() == 0
    }
}

/// Per-draw output: one optional value per declared variable of each
/// category, indexed by parameter id.
#[derive(Clone, Debug, PartialEq)]
pub struct ParamStorage {
    pub uniforms: Vec<Option<UniformValue>>,
    pub blocks: Vec<Option<BufferHandle>>,
    pub textures: Vec<Option<TextureParam>>,
}

/// A sequence of `n` empty slots.
pub open spec fn empty_slots<T>(n: nat) -> Seq<Option<T>> {
    Seq::new(n, |i: int| None::<T>)
}

fn none_slots<T>(n: usize) -> (r: Vec<Option<T>>)
    ensures
        r@ == empty_slots::<T>(n as nat),
{
    let mut r: Vec<Option<T>> = Vec::with_capacity(n);
    let mut i: usize = 0;
    while i < n
        invariant
            i <= n,
            r@ == empty_slots::<T>(i as nat),
        decreases n - i,
    {
        r.push(None);
        i = i + 1;
        assert(r@ =~= empty_slots::<T>(i as nat));
    }
    r
}

impl ParamStorage {
    /// Storage sized to a program's interface, with every slot empty.
    pub fn for_program(info: &ProgramInfo) -> (r: ParamStorage)
        ensures
            r.uniforms@ == empty_slots::<UniformValue>(info.uniforms@.len()),
            r.blocks@ == empty_slots::<BufferHandle>(info.blocks@.len()),
            r.textures@ == empty_slots::<TextureParam>(info.textures@.len()),
    {
        ParamStorage {
            uniforms: none_slots(info.uniforms.len()),
            blocks: none_slots(info.blocks.len()),
            textures: none_slots(info.textures.len()),
        }
    }
}

} // verus!
