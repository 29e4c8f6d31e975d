//! The driver calls that the resource layer issues.

use vstd::prelude::*;
use crate::texture::{SamplerParam, TextureType};

verus! {

/// A binding point of the graphics context. Each holds at most one object.
#[derive(Clone, Copy, Debug, PartialEq, Eq, Structural)]
pub enum BindTarget {
    VertexArray,
    ArrayBuffer,
    ElementArrayBuffer,
    Program,
    Texture2D,
}

/// Scalar type of one vertex attribute component.
#[derive(Clone, Copy, Debug, PartialEq, Eq, Structural)]
pub enum ScalarType {
    Int,
    Float,
}

/// One driver call, with its arguments.
///
/// Floating-point values travel as their IEEE-754 bit patterns: this layer
/// only hands them on and never computes with them.
#[derive(Debug, PartialEq, Eq)]
pub enum DriverCall {
    /// Asks for a fresh object name of the kind that `target` binds; the
    /// answer is handed to the wrapper's constructor.
    Generate { target: BindTarget },
    /// Makes `id` the current object of `target`; `id == 0` empties it.
    Bind { target: BindTarget, id: u32 },
    /// Replaces the whole store of the buffer bound at `target` (usage: static draw).
    BufferData { target: BindTarget, bytes: usize, data: Vec<u32> },
    /// Sets how attribute slot `index` reads the bound array buffer.
    AttribPointer { index: u32, components: i32, ty: ScalarType, stride: i32, offset: usize },
    /// Enables attribute slot `index`.
    EnableAttrib { index: u32 },
    /// Releases the object `id`, of the kind that `target` binds.
    Delete { target: BindTarget, id: u32 },
    /// Releases the compiled shader stage `id`.
    DeleteStage { id: u32 },
    /// Asks where the variable `name` lives in `program`; the answer is a
    /// location, or -1 where the program has no such active variable.
    UniformLocation { program: u32, name: String },
    /// Writes `value` to the uniform at `location` of the current program.
    SetUniform { location: i32, value: UniformValue },
    /// Selects texture unit `unit` for the texture calls that follow.
    ActiveTexture { unit: i32 },
    /// Fills the bound 2D texture with `pixels`, stored as RGBA.
    TexImage { width: u32, height: u32, format: TextureType, pixels: Vec<u8> },
    /// Builds the mipmap chain of the bound 2D texture.
    GenerateMipmap,
    /// Sets one sampling parameter of the bound 2D texture.
    TexParameter { param: SamplerParam },
    /// Draws `count` indices of the bound element buffer as triangles.
    DrawElements { count: usize },
}

/// A value for a shader uniform. Floats are IEEE-754 bit patterns and
/// matrices are column-major.
#[derive(Debug, PartialEq, Eq)]
pub enum UniformValue {
    Int(i32),
    Float(u32),
    Vec3([u32; 3]),
    Vec4([u32; 4]),
    Mat2([u32; 4]),
    Mat3([u32; 9]),
    Mat4([u32; 16]),
    DMat3([u64; 9]),
}

} // verus!
