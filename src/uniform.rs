//! Named shader variables and the values written to them.

use vstd::prelude::*;
use crate::driver::{BindTarget, DriverCall, UniformValue};
use crate::handle::{bind_calls, bound, unbind_calls, unbound, GpuObject};
use crate::shader::Shader;

verus! {

/// The location that the driver reports for a name the program lacks.
pub const NOT_FOUND: i32 = -1;

/// A variable of one shader program, by its location.
///
/// A location of [`NOT_FOUND`] is kept as it is: writes to it are issued
/// and the driver ignores them.
pub struct Uniform {
    location: i32,
}

impl View for Uniform {
    type V = i32;

    closed spec fn view(&self) -> i32 {
        self.location
    }
}

/// The calls that writing `value` issues: the program is made current, then
/// the value is written.
pub open spec fn write_calls(program: GpuObject, location: i32, value: UniformValue) -> Seq<
    DriverCall,
> {
    bind_calls(program, BindTarget::Program) + seq![DriverCall::SetUniform { location, value }]
}

/// The calls that looking `name` up in `program` issues: the program is made
/// current for the query and left unbound after it.
pub open spec fn locate_calls(program: GpuObject, name: String) -> Seq<DriverCall> {
    bind_calls(program, BindTarget::Program) + seq![
        DriverCall::UniformLocation { program: program.id, name },
    ] + unbind_calls(bound(program), BindTarget::Program)
}

impl Uniform {
    /// Asks the driver where `name` lives in `shader`'s program; the answer
    /// goes to [`Uniform::new`].
    pub fn locate(name: String, shader: &mut Shader, calls: &mut Vec<DriverCall>)
        ensures
            final(shader)@ == unbound(old(shader)@),
            final(calls)@ == old(calls)@ + locate_calls(old(shader)@, name),
    {
        shader.bind(calls);
        let program = shader.id();
        calls.push(DriverCall::UniformLocation { program, name });
        shader.unbind(calls);
    }

    /// The uniform at `location`, as the driver answered a lookup.
    pub fn new(location: i32) -> (r: Uniform)
        ensures
            r@ == location,
    {
        Uniform { location }
    }

    /// The location of this uniform.
    pub fn location(&self) -> (r: i32)
        ensures
            r == self@,
    {
        self.location
    }

    /// Whether the program has this variable at all.
    pub fn is_found(&self) -> (r: bool)
        ensures
            r == (self@ != NOT_FOUND),
    {
        self.location != NOT_FOUND
    }

    /// Makes `shader` current and writes a float, given as its bit pattern.
    pub fn setf(&self, value: u32, shader: &mut Shader, calls: &mut Vec<DriverCall>)
        ensures
            final(shader)@ == bound(old(shader)@),
            final(calls)@ == old(calls)@ + write_calls(old(shader)@, self@, UniformValue::Float(value)),
    {
        shader.bind(calls);
        calls.push(DriverCall::SetUniform { location: self.location, value: UniformValue::Float(value) });
    }

    /// Makes `shader` current and writes an integer.
    pub fn seti(&self, value: i32, shader: &mut Shader, calls: &mut Vec<DriverCall>)
        ensures
            final(shader)@ == bound(old(shader)@),
            final(calls)@ == old(calls)@ + write_calls(old(shader)@, self@, UniformValue::Int(value)),
    {
        shader.bind(calls);
        calls.push(DriverCall::SetUniform { location: self.location, value: UniformValue::Int(value) });
    }

    /// Makes `shader` current and writes a 4x4 float matrix, column-major.
    pub fn set_m4f(&self, value: [u32; 16], shader: &mut Shader, calls: &mut Vec<DriverCall>)
        ensures
            final(shader)@ == bound(old(shader)@),
            final(calls)@ == old(calls)@ + write_calls(old(shader)@, self@, UniformValue::Mat4(value)),
    {
        shader.bind(calls);
        calls.push(DriverCall::SetUniform { location: self.location, value: UniformValue::Mat4(value) });
    }

    /// Makes `shader` current and writes a float 3-vector given by components.
    pub fn set_3f(&self, x: u32, y: u32, z: u32, shader: &mut Shader, calls: &mut Vec<DriverCall>)
        ensures
            final(shader)@ == bound(old(shader)@),
            final(calls)@ == old(calls)@ + write_calls(old(shader)@, self@, UniformValue::Vec3([x, y, z])),
    {
        shader.bind(calls);
        calls.push(DriverCall::SetUniform { location: self.location, value: UniformValue::Vec3([x, y, z]) });
    }

    /// Makes `shader` current and writes a float 4-vector given by components.
    pub fn set_4f(&self, x0: u32, x1: u32, x2: u32, x3: u32, shader: &mut Shader, calls: &mut Vec<DriverCall>)
        ensures
            final(shader)@ == bound(old(shader)@),
            final(calls)@ == old(calls)@ + write_calls(old(shader)@, self@, UniformValue::Vec4([x0, x1, x2, x3])),
    {
        shader.bind(calls);
        calls.push(DriverCall::SetUniform { location: self.location, value: UniformValue::Vec4([x0, x1, x2, x3]) });
    }

    /// Makes `shader` current and writes a float 4-vector.
    pub fn set_v4f(&self, value: [u32; 4], shader: &mut Shader, calls: &mut Vec<DriverCall>)
        ensures
            final(shader)@ == bound(old(shader)@),
            final(calls)@ == old(calls)@ + write_calls(old(shader)@, self@, UniformValue::Vec4(value)),
    {
        shader.bind(calls);
        calls.push(DriverCall::SetUniform { location: self.location, value: UniformValue::Vec4(value) });
    }

    /// Makes `shader` current and writes a float 3-vector.
    pub fn set_v3f(&self, value: [u32; 3], shader: &mut Shader, calls: &mut Vec<DriverCall>)
        ensures
            final(shader)@ == bound(old(shader)@),
            final(calls)@ == old(calls)@ + write_calls(old(shader)@, self@, UniformValue::Vec3(value)),
    {
        shader.bind(calls);
        calls.push(DriverCall::SetUniform { location: self.location, value: UniformValue::Vec3(value) });
    }

    /// Makes `shader` current and writes a 2x2 float matrix, column-major.
    pub fn set_m2f(&self, value: [u32; 4], shader: &mut Shader, calls: &mut Vec<DriverCall>)
        ensures
            final(shader)@ == bound(old(shader)@),
            final(calls)@ == old(calls)@ + write_calls(old(shader)@, self@, UniformValue::Mat2(value)),
    {
        shader.bind(calls);
        calls.push(DriverCall::SetUniform { location: self.location, value: UniformValue::Mat2(value) });
    }

    /// Makes `shader` current and writes a 3x3 float matrix, column-major.
    pub fn set_m3f(&self, value: [u32; 9], shader: &mut Shader, calls: &mut Vec<DriverCall>)
        ensures
            final(shader)@ == bound(old(shader)@),
            final(calls)@ == old(calls)@ + write_calls(old(shader)@, self@, UniformValue::Mat3(value)),
    {
        shader.bind(calls);
        calls.push(DriverCall::SetUniform { location: self.location, value: UniformValue::Mat3(value) });
    }

    /// Makes `shader` current and writes a 3x3 double matrix, column-major.
    pub fn set_m3d(&self, value: [u64; 9], shader: &mut Shader, calls: &mut Vec<DriverCall>)
        ensures
            final(shader)@ == bound(old(shader)@),
            final(calls)@ == old(calls)@ + write_calls(old(shader)@, self@, UniformValue::DMat3(value)),
    {
        shader.bind(calls);
        calls.push(DriverCall::SetUniform { location: self.location, value: UniformValue::DMat3(value) });
    }
}

} // verus!
