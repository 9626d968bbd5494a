//! The parameter capability, the two-phase linking protocol, and the
//! parameter source that supplies nothing.

use vstd::prelude::*;
use crate::value::{UniformValue, BufferHandle, TextureParam, ParameterId};
use crate::program::{ShaderVar, ProgramInfo, ParamStorage};

verus! {

/// An error found while linking a parameter source to a program.
#[derive(Clone, PartialEq, Debug)]
pub enum ParameterError {
    /// The source requires an instance to link against, but none was given.
    MissingSelf,
    /// The program declares a uniform that the source does not have.
    MissingUniform(String),
    /// The program declares a uniform that the source does not match.
    BadUniform(String),
    /// The program declares a block that the source does not have.
    MissingBlock(String),
    /// The program declares a block that the source does not match.
    BadBlock(String),
    /// The program declares a texture that the source does not have.
    MissingTexture(String),
    /// The program declares a texture that the source does not match.
    BadTexture(String),
}

/// A single value that can be bound to a program variable: it says which
/// declared variables it is compatible with, and writes itself into one
/// slot of a parameter storage.
pub trait Parameter: Sized {
    /// Whether this kind of value may be bound to the given declared uniform.
    spec fn accepts_uniform(var: ShaderVar) -> bool;

    /// Whether this kind of value may be bound to the given declared block.
    spec fn accepts_block(var: ShaderVar) -> bool;

    /// Whether this kind of value may be bound to the given declared texture.
    spec fn accepts_texture(var: ShaderVar) -> bool;

    /// Whether `id` names a slot of this kind's category in `storage`.
    spec fn has_slot(id: int, storage: ParamStorage) -> bool;

    /// `after` is `before` with this value stored at `id` of its category,
    /// and nothing else changed.
    spec fn put_into(&self, id: int, before: ParamStorage, after: ParamStorage) -> bool;

    fn check_uniform(var: &ShaderVar) -> (r: bool)
        ensures
            r == Self::accepts_uniform(*var),
    ;

    fn check_block(var: &ShaderVar) -> (r: bool)
        ensures
            r == Self::accepts_block(*var),
    ;

    fn check_texture(var: &ShaderVar) -> (r: bool)
        ensures
            r == Self::accepts_texture(*var),
    ;

    fn put(&self, id: ParameterId, storage: &mut ParamStorage)
        requires
            Self::has_slot(id as int, *old(storage)),
        ensures
            self.put_into(id as int, *old(storage), *final(storage)),
    ;
}

impl Parameter for UniformValue {
    open spec fn accepts_uniform(var: ShaderVar) -> bool {
        true
    }

    open spec fn accepts_block(var: ShaderVar) -> bool {
        false
    }

    open spec fn accepts_texture(var: ShaderVar) -> bool {
        false
    }

    open spec fn has_slot(id: int, storage: ParamStorage) -> bool {
        0 <= id < storage.uniforms@.len()
    }

    open spec fn put_into(&self, id: int, before: ParamStorage, after: ParamStorage) -> bool {
        &&& after.uniforms@ == before.uniforms@.update(id, Some(*self))
        &&& after.blocks@ == before.blocks@
        &&& after.textures@ == before.textures@
    }

    fn check_uniform(_var: &ShaderVar) -> (r: bool) {
        true
    }

    fn check_block(_var: &ShaderVar) -> (r: bool) {
        false
    }

    fn check_texture(_var: &ShaderVar) -> (r: bool) {
        false
    }

    fn put(&self, id: ParameterId, storage: &mut ParamStorage) {
        storage.uniforms.set(id as usize, Some(*self));
    }
}

impl Parameter for BufferHandle {
    open spec fn accepts_uniform(var: ShaderVar) -> bool {
        false
    }

    open spec fn accepts_block(var: ShaderVar) -> bool {
        true
    }

    open spec fn accepts_texture(var: ShaderVar) -> bool {
        false
    }

    open spec fn has_slot(id: int, storage: ParamStorage) -> bool {
        0 <= id < storage.blocks@.len()
    }

    open spec fn put_into(&self, id: int, before: ParamStorage, after: ParamStorage) -> bool {
        &&& after.uniforms@ == before.uniforms@
        &&& after.blocks@ == before.blocks@.update(id, Some(*self))
        &&& after.textures@ == before.textures@
    }

    fn check_uniform(_var: &ShaderVar) -> (r: bool) {
        false
    }

    fn check_block(_var: &ShaderVar) -> (r: bool) {
        true
    }

    fn check_texture(_var: &ShaderVar) -> (r: bool) {
        false
    }

    fn put(&self, id: ParameterId, storage: &mut ParamStorage) {
        storage.blocks.set(id as usize, Some(*self));
    }
}

impl Parameter for TextureParam {
    open spec fn accepts_uniform(var: ShaderVar) -> bool {
        false
    }

    open spec fn accepts_block(var: ShaderVar) -> bool {
        false
    }

    open spec fn accepts_texture(var: ShaderVar) -> bool {
        true
    }

    open spec fn has_slot(id: int, storage: ParamStorage) -> bool {
        0 <= id < storage.textures@.len()
    }

    open spec fn put_into(&self, id: int, before: ParamStorage, after: ParamStorage) -> bool {
        &&& after.uniforms@ == before.uniforms@
        &&& after.blocks@ == before.blocks@
        &&& after.textures@ == before.textures@.update(id, Some(*self))
    }

    fn check_uniform(_var: &ShaderVar) -> (r: bool) {
        false
    }

    fn check_block(_var: &ShaderVar) -> (r: bool) {
        false
    }

    fn check_texture(_var: &ShaderVar) -> (r: bool) {
        true
    }

    fn put(&self, id: ParameterId, storage: &mut ParamStorage) {
        storage.textures.set(id as usize, Some(*self));
    }
}

/// A source of shader parameters: it is linked once against a program's
/// interface, and the resulting link is then used to fill a storage for
/// each draw.
pub trait ShaderParam: Sized {
    /// Where each of a program's variables finds its value in this source.
    type Link: Clone;

    /// What linking `this` against `info` may return.
    spec fn link_result(this: Option<Self>, info: ProgramInfo, r: Result<Self::Link, ParameterError>) -> bool;

    /// `link` can be used to fill `storage` from this source.
    spec fn fits(&self, link: Self::Link, storage: ParamStorage) -> bool;

    /// `after` is `before` filled from this source through `link`.
    spec fn filled(&self, link: Self::Link, before: ParamStorage, after: ParamStorage) -> bool;

    /// Builds the link of this source to a program. `this` is `None` where
    /// only the type of the source is known.
    fn create_link(this: Option<&Self>, info: &ProgramInfo) -> (r: Result<Self::Link, ParameterError>)
        ensures
            Self::link_result(
                match this {
                    Some(s) => Some(*s),
                    None => None,
                },
                *info,
                r,
            ),
    ;

    /// Copies the current values into `storage`, using a link made by
    /// `create_link`.
    fn fill_params(&self, link: &Self::Link, storage: &mut ParamStorage)
        requires
            self.fits(*link, *old(storage)),
        ensures
            self.filled(*link, *old(storage), *final(storage)),
    ;
}

/// The parameter source that supplies nothing: it links only to programs
/// that declare no variable.
#[derive(Clone, Copy, Debug, PartialEq)]
pub struct NoParams;

/// The link of `NoParams`, which carries nothing.
#[derive(Clone, Copy, Debug, PartialEq)]
pub struct EmptyLink;

/// The error of linking `NoParams` to a program: the first declared
/// variable, looking at uniforms, then blocks, then textures.
pub open spec fn first_declared_missing(info: ProgramInfo) -> Option<ParameterError> {
    if info.uniforms@.len() > 0 {
        Some(ParameterError::MissingUniform(info.uniforms@[0].name))
    } else if info.blocks@.len() > 0 {
        Some(ParameterError::MissingBlock(info.blocks@[0].name))
    } else if info.textures@.len() > 0 {
        Some(ParameterError::MissingTexture(info.textures@[0].name))
    } else {
        None
    }
}

impl ShaderParam for NoParams {
    type Link = EmptyLink;

    open spec fn link_result(this: Option<Self>, info: ProgramInfo, r: Result<EmptyLink, ParameterError>) -> bool {
        match first_declared_missing(info) {
            Some(e) => r == Err::<EmptyLink, ParameterError>(e),
            None => r == Ok::<EmptyLink, ParameterError>(EmptyLink),
        }
    }

    open spec fn fits(&self, link: EmptyLink, storage: ParamStorage) -> bool {
        true
    }

    open spec fn filled(&self, link: EmptyLink, before: ParamStorage, after: ParamStorage) -> bool {
        after == before
    }

    fn create_link(_this: Option<&NoParams>, info: &ProgramInfo) -> (r: Result<EmptyLink, ParameterError>) {
        if info.uniforms.len() > 0 {
            return Err(ParameterError::MissingUniform(info.uniforms[0].name.clone()));
        }
        if info.blocks.len() > 0 {
            return Err(ParameterError::MissingBlock(info.blocks[0].name.clone()));
        }
        if info.textures.len() > 0 {
            return Err(ParameterError::MissingTexture(info.textures[0].name.clone()));
        }
        Ok(EmptyLink)
    }

    fn fill_params(&self, _link: &EmptyLink, _storage: &mut ParamStorage) {
    }
}

} // verus!
