//! Binding of shader parameter values to a compiled program's declared
//! variables: a one-time link against the program's reflected interface,
//! then cheap per-draw fills of a flat parameter storage.

pub mod value;
pub mod program;
pub mod param;
pub mod dictionary;
pub mod laws;

pub use value::{UniformValue, BufferHandle, TextureHandle, SamplerHandle, TextureParam, ParameterId};
pub use program::{ShaderVar, ProgramInfo, ParamStorage};
pub use param::{ParameterError, Parameter, ShaderParam, NoParams, EmptyLink};
pub use dictionary::{NamedCell, ParamDictionary, ParamDictionaryLink};
