//! A drawable unit: vertex array, buffers, program and texture together.

use vstd::prelude::*;
use crate::buffer::{
    attrib_calls, bytes_of, element_bind_calls, entries, upload_bytes, ElementBuffer, LayoutItem,
    VertexArray, VertexAttribDescriptor, VertexBuffer,
};
use crate::driver::{BindTarget, DriverCall};
use crate::handle::{bind_calls, bound, release_calls, unbound, GpuObject};
use crate::shader::Shader;
use crate::texture::{texture_bind_calls, Texture};

verus! {

/// A part that a mesh cannot be built without.
#[derive(Clone, Copy, Debug, PartialEq, Eq, Structural)]
pub enum MeshPart {
    Shader,
    Vertices,
    Indices,
    Texture,
}

/// A mesh build that lacked parts: all of them, in the order of [`MeshPart`].
#[derive(Debug, PartialEq, Eq)]
pub struct MeshError {
    pub missing: Vec<MeshPart>,
}

/// The parts of a mesh, gathered one by one. Vertices are float bit patterns.
pub struct MeshBuilder {
    pub shader: Option<Shader>,
    pub vertices: Option<Vec<u32>>,
    pub indices: Option<Vec<u32>>,
    pub attrib_desc: Option<VertexAttribDescriptor>,
    pub texture: Option<Texture>,
}

/// What a mesh holds, as the driver sees it.
pub struct MeshState {
    pub vao: GpuObject,
    pub vbo: GpuObject,
    pub ebo: GpuObject,
    pub shader: GpuObject,
    pub texture: GpuObject,
    pub unit: i32,
    pub count: usize,
}

/// A vertex array with its buffers, the program that draws it, and its texture.
pub struct Mesh {
    vao: VertexArray,
    vbo: VertexBuffer,
    ebo: ElementBuffer,
    shader: Shader,
    texture: Texture,
    count: usize,
}

impl View for Mesh {
    type V = MeshState;

    closed spec fn view(&self) -> MeshState {
        MeshState {
            vao: self.vao@,
            vbo: self.vbo@,
            ebo: self.ebo@,
            shader: self.shader@,
            texture: self.texture@.0,
            unit: self.texture@.1,
            count: self.count,
        }
    }
}

/// The required parts that `b` lacks, in the order of [`MeshPart`].
pub open spec fn missing_parts(b: MeshBuilder) -> Seq<MeshPart> {
    (if b.shader is None { seq![MeshPart::Shader] } else { seq![] })
    + (if b.vertices is None { seq![MeshPart::Vertices] } else { seq![] })
    + (if b.indices is None { seq![MeshPart::Indices] } else { seq![] })
    + (if b.texture is None { seq![MeshPart::Texture] } else { seq![] })
}

/// The calls that configure an optional layout.
pub open spec fn layout_calls(layout: Option<Map<u8, LayoutItem>>) -> Seq<DriverCall> {
    match layout {
        Some(m) => attrib_calls(entries(m), bytes_of(entries(m)) as i32),
        None => seq![],
    }
}

/// The calls that building a mesh on the objects `vao`, `vbo` and `ebo`
/// issues: both buffers are filled (the element buffer with its array bound),
/// the layout (if any) is linked, and the array and buffers are left unbound.
pub open spec fn mesh_build_calls(
    vao: GpuObject,
    vbo: GpuObject,
    ebo: GpuObject,
    vertices: Vec<u32>,
    indices: Vec<u32>,
    layout: Option<Map<u8, LayoutItem>>,
) -> Seq<DriverCall> {
    bind_calls(vbo, BindTarget::ArrayBuffer) + seq![
        DriverCall::BufferData {
            target: BindTarget::ArrayBuffer,
            bytes: upload_bytes(vertices@.len()) as usize,
            data: vertices,
        },
    ] + element_bind_calls(ebo, vao) + seq![
        DriverCall::BufferData {
            target: BindTarget::ElementArrayBuffer,
            bytes: upload_bytes(indices@.len()) as usize,
            data: indices,
        },
    ] + layout_calls(layout) + seq![
        DriverCall::Bind { target: BindTarget::ArrayBuffer, id: 0 },
        DriverCall::Bind { target: BindTarget::VertexArray, id: 0 },
        DriverCall::Bind { target: BindTarget::ElementArrayBuffer, id: 0 },
    ]
}

/// The calls that releasing a mesh's array and buffers issues.
pub open spec fn buffers_release_calls(vao: GpuObject, vbo: GpuObject, ebo: GpuObject) -> Seq<
    DriverCall,
> {
    release_calls(vbo, BindTarget::ArrayBuffer) + release_calls(
        ebo,
        BindTarget::ElementArrayBuffer,
    ) + release_calls(vao, BindTarget::VertexArray)
}

/// The layout a builder holds, as a map from slot to attribute.
pub open spec fn layout_of(d: Option<VertexAttribDescriptor>) -> Option<Map<u8, LayoutItem>> {
    match d {
        Some(d) => Some(d@),
        None => None,
    }
}

impl Mesh {
    /// A builder holding no parts yet.
    pub fn builder() -> (r: MeshBuilder)
        ensures
            r.shader is None,
            r.vertices is None,
            r.indices is None,
            r.attrib_desc is None,
            r.texture is None,
    {
        MeshBuilder { shader: None, vertices: None, indices: None, attrib_desc: None, texture: None }
    }

    /// Binds the program, the texture and the vertex array, then draws all indices.
    pub fn draw(&mut self, calls: &mut Vec<DriverCall>)
        ensures
            final(self)@ == (MeshState {
                vao: bound(old(self)@.vao),
                shader: bound(old(self)@.shader),
                texture: bound(old(self)@.texture),
                ..old(self)@
            }),
            final(calls)@ == old(calls)@ + bind_calls(old(self)@.shader, BindTarget::Program)
                + texture_bind_calls(old(self)@.texture) + bind_calls(
                old(self)@.vao,
                BindTarget::VertexArray,
            ) + seq![DriverCall::DrawElements { count: old(self)@.count }],
    {
        self.shader.bind(calls);
        self.texture.bind(calls);
        self.vao.bind(calls);
        calls.push(DriverCall::DrawElements { count: self.count });
    }

    /// Releases every object of the mesh: buffers, array, program, texture.
    pub fn release(self, calls: &mut Vec<DriverCall>)
        ensures
            final(calls)@ == old(calls)@ + release_calls(self@.vbo, BindTarget::ArrayBuffer)
                + release_calls(self@.ebo, BindTarget::ElementArrayBuffer) + release_calls(
                self@.vao,
                BindTarget::VertexArray,
            ) + seq![DriverCall::Delete { target: BindTarget::Program, id: self@.shader.id }]
                + release_calls(self@.texture, BindTarget::Texture2D),
    {
        let Mesh { vao, vbo, ebo, shader, texture, count: _ } = self;
        vbo.release(calls);
        ebo.release(calls);
        vao.release(calls);
        shader.release(calls);
        texture.release(calls);
    }
}

impl MeshBuilder {
    /// Sets the program.
    pub fn shader(&mut self, shader: Shader) -> (r: &mut Self)
        ensures
            *r == (MeshBuilder { shader: Some(shader), ..*old(self) }),
            *final(self) == *final(r),
    {
        self.shader = Some(shader);
        self
    }

    /// Sets the vertex data.
    pub fn vertices(&mut self, vs: Vec<u32>) -> (r: &mut Self)
        ensures
            *r == (MeshBuilder { vertices: Some(vs), ..*old(self) }),
            *final(self) == *final(r),
    {
        self.vertices = Some(vs);
        self
    }

    /// Sets the triangle indices.
    pub fn indices(&mut self, is: Vec<u32>) -> (r: &mut Self)
        ensures
            *r == (MeshBuilder { indices: Some(is), ..*old(self) }),
            *final(self) == *final(r),
    {
        self.indices = Some(is);
        self
    }

    /// Sets the vertex layout.
    pub fn vertex_layout(&mut self, descriptor: VertexAttribDescriptor) -> (r: &mut Self)
        ensures
            *r == (MeshBuilder { attrib_desc: Some(descriptor), ..*old(self) }),
            *final(self) == *final(r),
    {
        self.attrib_desc = Some(descriptor);
        self
    }

    /// Sets the texture.
    pub fn texture(&mut self, texture: Texture) -> (r: &mut Self)
        ensures
            *r == (MeshBuilder { texture: Some(texture), ..*old(self) }),
            *final(self) == *final(r),
    {
        self.texture = Some(texture);
        self
    }

    /// Builds the mesh from the parts gathered, on the vertex array `vao`
    /// and the buffers `vbo` and `ebo` created for it. Every required part
    /// must be there; if any is not, the array and buffers are released and
    /// the error lists all the parts that are missing.
    pub fn build(
        &mut self,
        vao: VertexArray,
        vbo: VertexBuffer,
        ebo: ElementBuffer,
        calls: &mut Vec<DriverCall>,
    ) -> (r: Result<Mesh, MeshError>)
        requires
            old(self).vertices is Some ==> upload_bytes(old(self).vertices->0@.len()) <= usize::MAX,
            old(self).indices is Some ==> upload_bytes(old(self).indices->0@.len()) <= usize::MAX,
        ensures
            missing_parts(*old(self)).len() > 0 ==> {
                &&& r is Err
                &&& r->Err_0.missing@ == missing_parts(*old(self))
                &&& *final(self) == *old(self)
                &&& final(calls)@ == old(calls)@ + buffers_release_calls(vao@, vbo@, ebo@)
            },
            missing_parts(*old(self)).len() == 0 ==> {
                &&& r is Ok
                &&& r->Ok_0@.vao == unbound(vao@)
                &&& r->Ok_0@.vbo == unbound(vbo@)
                &&& r->Ok_0@.ebo == unbound(ebo@)
                &&& r->Ok_0@.shader == old(self).shader->0@
                &&& r->Ok_0@.texture == old(self).texture->0@.0
                &&& r->Ok_0@.unit == old(self).texture->0@.1
                &&& r->Ok_0@.count == old(self).indices->0@.len()
                &&& final(calls)@ == old(calls)@ + mesh_build_calls(
                    vao@,
                    vbo@,
                    ebo@,
                    old(self).vertices->0,
                    old(self).indices->0,
                    layout_of(old(self).attrib_desc),
                )
                &&& final(self).shader is None
                &&& final(self).vertices is None
                &&& final(self).indices is None
                &&& final(self).attrib_desc is None
                &&& final(self).texture is None
            },
    {
        let missing = self.missing();
        if missing.len() > 0 {
            let ghost calls0 = calls@;
            vbo.release(calls);
            ebo.release(calls);
            vao.release(calls);
            proof {
                assert(calls@ =~= calls0 + buffers_release_calls(vao@, vbo@, ebo@));
            }
            return Err(MeshError { missing });
        }
        let ghost calls0 = calls@;
        let ghost (vao0, vbo0, ebo0) = (vao@, vbo@, ebo@);
        let mut vao = vao;
        let mut vbo = vbo;
        let mut ebo = ebo;
        let shader = self.shader.take().unwrap();
        let vertices = self.vertices.take().unwrap();
        let indices = self.indices.take().unwrap();
        let attrib_desc = self.attrib_desc.take();
        let texture = self.texture.take().unwrap();
        let ghost vs = vertices;
        let ghost is = indices;
        let count = indices.len();

        vbo.set_data(vertices, calls);
        ebo.set_data(indices, &mut vao, calls);
        let ghost before_layout = calls@;
        match attrib_desc {
            Some(d) => {
                d.link(&mut vao, &mut vbo, calls);
                proof {
                    let s = entries(d@);
                    if s.len() == 0 {
                        assert(attrib_calls(s, bytes_of(s) as i32) =~= Seq::<DriverCall>::empty());
                    }
                    assert(calls@ =~= before_layout + attrib_calls(s, bytes_of(s) as i32));
                }
            },
            None => {},
        }
        vbo.unbind(calls);
        vao.unbind(calls);
        ebo.unbind(&mut vao, calls);
        proof {
            assert(calls@ =~= calls0 + mesh_build_calls(
                vao0,
                vbo0,
                ebo0,
                vs,
                is,
                layout_of(old(self).attrib_desc),
            ));
        }
        Ok(Mesh { vao, vbo, ebo, shader, texture, count })
    }

    /// The required parts still missing.
    pub fn missing(&self) -> (r: Vec<MeshPart>)
        ensures
            r@ == missing_parts(*self),
    {
        let mut missing: Vec<MeshPart> = Vec::new();
        if self.shader.is_none() {
            missing.push(MeshPart::Shader);
        }
        if self.vertices.is_none() {
            missing.push(MeshPart::Vertices);
        }
        if self.indices.is_none() {
            missing.push(MeshPart::Indices);
        }
        if self.texture.is_none() {
            missing.push(MeshPart::Texture);
        }
        proof {
            assert(missing@ =~= missing_parts(*self));
        }
        missing
    }
}

} // verus!
