use mandelbrot_gl::buffer::{ElementBuffer, LayoutItem, VertexArray, VertexAttribDescriptor, VertexBuffer};
use mandelbrot_gl::controls::{Controls, Key, Movement};
use mandelbrot_gl::driver::{BindTarget, DriverCall, ScalarType};
use mandelbrot_gl::mesh::{Mesh, MeshPart};
use mandelbrot_gl::shader::{BuildEvent, Shader, ShaderBuild};
use mandelbrot_gl::texture::{Image, Texture, TextureType};

fn shader(calls: &mut Vec<DriverCall>) -> Shader {
    let mut build = ShaderBuild::new("v".to_string(), "f".to_string());
    build.step(BuildEvent::Compiled { shader: 1, success: true }, calls);
    build.step(BuildEvent::Compiled { shader: 2, success: true }, calls);
    build.step(BuildEvent::Linked { program: 3, success: true }, calls);
    Shader::new(build, calls).unwrap()
}

fn objects(calls: &mut Vec<DriverCall>) -> (VertexArray, VertexBuffer, ElementBuffer) {
    let mut vao = VertexArray::new(10);
    VertexBuffer::allocate(&mut vao, calls);
    let vbo = VertexBuffer::new(11);
    ElementBuffer::allocate(&mut vao, calls);
    let ebo = ElementBuffer::new(12, &mut vao, calls);
    (vao, vbo, ebo)
}

fn texture(calls: &mut Vec<DriverCall>) -> Texture {
    Texture::new(4, Image { pixels: vec![0; 4], width: 1, height: 1 }, 0, TextureType::RGBA, calls)
}

#[test]
fn build_lists_every_missing_part() {
    let mut calls = Vec::new();
    let mut builder = Mesh::builder();
    builder.vertices(vec![1, 2]);
    let (vao, vbo, ebo) = objects(&mut calls);
    calls.clear();
    let err = builder.build(vao, vbo, ebo, &mut calls).err().unwrap();
    assert_eq!(err.missing, vec![MeshPart::Shader, MeshPart::Indices, MeshPart::Texture]);
    assert_eq!(
        calls,
        vec![
            DriverCall::Delete { target: BindTarget::ArrayBuffer, id: 11 },
            DriverCall::Bind { target: BindTarget::ElementArrayBuffer, id: 0 },
            DriverCall::Delete { target: BindTarget::ElementArrayBuffer, id: 12 },
            DriverCall::Bind { target: BindTarget::VertexArray, id: 0 },
            DriverCall::Delete { target: BindTarget::VertexArray, id: 10 },
        ]
    );
    assert_eq!(builder.missing(), vec![MeshPart::Shader, MeshPart::Indices, MeshPart::Texture]);
}

#[test]
fn build_fills_buffers_links_layout_and_unbinds() {
    let mut calls = Vec::new();
    let s = shader(&mut calls);
    let t = texture(&mut calls);
    let mut desc = VertexAttribDescriptor::new();
    desc.layout(0, LayoutItem::Float(2)).layout(1, LayoutItem::Float(2));
    let (vao, vbo, ebo) = objects(&mut calls);
    calls.clear();
    let mut builder = Mesh::builder();
    builder
        .shader(s)
        .vertices(vec![1, 2, 3, 4])
        .indices(vec![0, 1, 2])
        .vertex_layout(desc)
        .texture(t);
    let mut mesh = builder.build(vao, vbo, ebo, &mut calls).ok().unwrap();
    assert!(builder.missing().len() == 4);
    assert_eq!(
        calls,
        vec![
            DriverCall::Bind { target: BindTarget::ArrayBuffer, id: 11 },
            DriverCall::BufferData { target: BindTarget::ArrayBuffer, bytes: 16, data: vec![1, 2, 3, 4] },
            DriverCall::BufferData { target: BindTarget::ElementArrayBuffer, bytes: 12, data: vec![0, 1, 2] },
            DriverCall::AttribPointer { index: 0, components: 2, ty: ScalarType::Float, stride: 16, offset: 0 },
            DriverCall::EnableAttrib { index: 0 },
            DriverCall::AttribPointer { index: 1, components: 2, ty: ScalarType::Float, stride: 16, offset: 8 },
            DriverCall::EnableAttrib { index: 1 },
            DriverCall::Bind { target: BindTarget::ArrayBuffer, id: 0 },
            DriverCall::Bind { target: BindTarget::VertexArray, id: 0 },
            DriverCall::Bind { target: BindTarget::ElementArrayBuffer, id: 0 },
        ]
    );
    calls.clear();
    mesh.draw(&mut calls);
    assert_eq!(
        calls,
        vec![
            DriverCall::Bind { target: BindTarget::VertexArray, id: 10 },
            DriverCall::DrawElements { count: 3 },
        ]
    );
    calls.clear();
    mesh.release(&mut calls);
    assert_eq!(
        calls,
        vec![
            DriverCall::Delete { target: BindTarget::ArrayBuffer, id: 11 },
            DriverCall::Delete { target: BindTarget::ElementArrayBuffer, id: 12 },
            DriverCall::Bind { target: BindTarget::VertexArray, id: 0 },
            DriverCall::Delete { target: BindTarget::VertexArray, id: 10 },
            DriverCall::Delete { target: BindTarget::Program, id: 3 },
            DriverCall::Bind { target: BindTarget::Texture2D, id: 0 },
            DriverCall::Delete { target: BindTarget::Texture2D, id: 4 },
        ]
    );
}

#[test]
fn keys_set_and_clear_controls() {
    let mut c = Controls::new();
    c.key_down(Some(Key::W));
    c.key_down(Some(Key::LShift));
    c.key_down(Some(Key::Other));
    c.key_down(None);
    assert_eq!(c.movements(), vec![Movement::Forward, Movement::Down]);
    c.key_up(Some(Key::W));
    c.key_down(Some(Key::A));
    c.key_down(Some(Key::Space));
    assert_eq!(c.movements(), vec![Movement::Left, Movement::Up, Movement::Down]);
    c.set_mouse(true);
    assert!(c.mouse);
}

#[test]
fn iteration_count_doubles_and_halves_within_bounds() {
    let mut c = Controls::new();
    let mut iter: i32 = 2;
    c.key_down(Some(Key::Q));
    c.update_iterations(&mut iter);
    assert_eq!(iter, 4);
    assert!(!c.inc);
    c.update_iterations(&mut iter);
    assert_eq!(iter, 4);
    let mut top: i32 = 1024;
    c.key_down(Some(Key::Q));
    c.update_iterations(&mut top);
    assert_eq!(top, 1024);
    assert!(c.inc);
    let mut c = Controls::new();
    let mut low: i32 = 2;
    c.key_down(Some(Key::E));
    c.update_iterations(&mut low);
    assert_eq!(low, 2);
    assert!(c.dec);
    let mut high: i32 = 512;
    c.update_iterations(&mut high);
    assert_eq!(high, 256);
    assert!(!c.dec);
}
