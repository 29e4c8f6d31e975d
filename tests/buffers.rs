use mandelbrot_gl::buffer::{ElementBuffer, LayoutItem, VertexArray, VertexAttribDescriptor, VertexBuffer};
use mandelbrot_gl::driver::{BindTarget, DriverCall, ScalarType};

fn pointer(index: u32, components: i32, ty: ScalarType, stride: i32, offset: usize) -> DriverCall {
    DriverCall::AttribPointer { index, components, ty, stride, offset }
}

#[test]
fn quad_layout_has_stride_sixteen_and_offsets_zero_and_eight() {
    let mut vao = VertexArray::new(1);
    let mut calls = Vec::new();
    VertexBuffer::allocate(&mut vao, &mut calls);
    let mut vbo = VertexBuffer::new(2);
    calls.clear();
    let mut desc = VertexAttribDescriptor::new();
    desc.layout(0, LayoutItem::Float(2)).layout(1, LayoutItem::Float(2));
    assert_eq!(desc.stride(), 16);
    desc.link(&mut vao, &mut vbo, &mut calls);
    assert_eq!(
        calls,
        vec![
            DriverCall::Bind { target: BindTarget::ArrayBuffer, id: 2 },
            pointer(0, 2, ScalarType::Float, 16, 0),
            DriverCall::EnableAttrib { index: 0 },
            pointer(1, 2, ScalarType::Float, 16, 8),
            DriverCall::EnableAttrib { index: 1 },
        ]
    );
}

#[test]
fn offsets_follow_ascending_slots_not_insertion_order() {
    let mut vao = VertexArray::new(3);
    let mut calls = Vec::new();
    VertexBuffer::allocate(&mut vao, &mut calls);
    let mut vbo = VertexBuffer::new(4);
    vao.unbind(&mut calls);
    calls.clear();
    let mut desc = VertexAttribDescriptor::new();
    desc.layout(5, LayoutItem::Integer(1))
        .layout(0, LayoutItem::Float(3))
        .layout(2, LayoutItem::Float(4));
    assert_eq!(desc.stride(), 32);
    desc.link(&mut vao, &mut vbo, &mut calls);
    assert_eq!(
        calls,
        vec![
            DriverCall::Bind { target: BindTarget::VertexArray, id: 3 },
            DriverCall::Bind { target: BindTarget::ArrayBuffer, id: 4 },
            pointer(0, 3, ScalarType::Float, 32, 0),
            DriverCall::EnableAttrib { index: 0 },
            pointer(2, 4, ScalarType::Float, 32, 12),
            DriverCall::EnableAttrib { index: 2 },
            pointer(5, 1, ScalarType::Int, 32, 28),
            DriverCall::EnableAttrib { index: 5 },
        ]
    );
}

#[test]
fn relayout_of_a_slot_replaces_it() {
    let mut desc = VertexAttribDescriptor::new();
    desc.layout(0, LayoutItem::Float(4)).layout(0, LayoutItem::Float(1));
    assert_eq!(desc.stride(), 4);
}

#[test]
fn empty_layout_has_stride_zero_and_links_nothing() {
    let mut vao = VertexArray::new(1);
    let mut calls = Vec::new();
    VertexBuffer::allocate(&mut vao, &mut calls);
    let mut vbo = VertexBuffer::new(2);
    vao.unbind(&mut calls);
    calls.clear();
    let desc = VertexAttribDescriptor::new();
    assert_eq!(desc.stride(), 0);
    desc.link(&mut vao, &mut vbo, &mut calls);
    assert!(calls.is_empty());
}

#[test]
fn widest_layout_stride() {
    let mut desc = VertexAttribDescriptor::new();
    for slot in 0..=255u8 {
        desc.layout(slot, LayoutItem::Integer(255));
    }
    assert_eq!(desc.stride(), 256 * 255 * 4);
}

#[test]
fn vertex_array_bind_twice_issues_one_call() {
    let mut vao = VertexArray::new(7);
    let mut calls = Vec::new();
    vao.bind(&mut calls);
    vao.bind(&mut calls);
    assert_eq!(calls, vec![DriverCall::Bind { target: BindTarget::VertexArray, id: 7 }]);
    vao.unbind(&mut calls);
    vao.unbind(&mut calls);
    assert_eq!(calls.len(), 2);
    assert_eq!(calls[1], DriverCall::Bind { target: BindTarget::VertexArray, id: 0 });
}

#[test]
fn vertex_buffer_bind_twice_issues_one_call() {
    let mut vao = VertexArray::new(1);
    let mut calls = Vec::new();
    VertexBuffer::allocate(&mut vao, &mut calls);
    let mut vbo = VertexBuffer::new(9);
    assert_eq!(
        calls,
        vec![
            DriverCall::Bind { target: BindTarget::VertexArray, id: 1 },
            DriverCall::Generate { target: BindTarget::ArrayBuffer },
        ]
    );
    calls.clear();
    vbo.bind(&mut calls);
    vbo.bind(&mut calls);
    assert_eq!(calls, vec![DriverCall::Bind { target: BindTarget::ArrayBuffer, id: 9 }]);
}

#[test]
fn element_buffer_binds_its_array_first() {
    let mut vao = VertexArray::new(1);
    let mut calls = Vec::new();
    ElementBuffer::allocate(&mut vao, &mut calls);
    let mut ebo = ElementBuffer::new(5, &mut vao, &mut calls);
    assert_eq!(
        calls,
        vec![
            DriverCall::Bind { target: BindTarget::VertexArray, id: 1 },
            DriverCall::Generate { target: BindTarget::ElementArrayBuffer },
            DriverCall::Bind { target: BindTarget::ElementArrayBuffer, id: 5 },
        ]
    );
    calls.clear();
    ebo.bind(&mut vao, &mut calls);
    assert!(calls.is_empty());
    ebo.unbind(&mut vao, &mut calls);
    assert_eq!(
        calls,
        vec![
            DriverCall::Bind { target: BindTarget::VertexArray, id: 0 },
            DriverCall::Bind { target: BindTarget::ElementArrayBuffer, id: 0 },
        ]
    );
}

#[test]
fn upload_carries_the_data_and_its_byte_size() {
    let mut vao = VertexArray::new(1);
    let mut calls = Vec::new();
    VertexBuffer::allocate(&mut vao, &mut calls);
    let mut vbo = VertexBuffer::new(2);
    calls.clear();
    let data: Vec<u32> = [-1.0f32, 0.5, 1.0].iter().map(|f| f.to_bits()).collect();
    vbo.set_data(data.clone(), &mut calls);
    vbo.set_data(vec![], &mut calls);
    assert_eq!(
        calls,
        vec![
            DriverCall::Bind { target: BindTarget::ArrayBuffer, id: 2 },
            DriverCall::BufferData { target: BindTarget::ArrayBuffer, bytes: 12, data },
            DriverCall::BufferData { target: BindTarget::ArrayBuffer, bytes: 0, data: vec![] },
        ]
    );
}

#[test]
fn element_upload_carries_indices() {
    let mut vao = VertexArray::new(1);
    let mut calls = Vec::new();
    ElementBuffer::allocate(&mut vao, &mut calls);
    let mut ebo = ElementBuffer::new(3, &mut vao, &mut calls);
    calls.clear();
    ebo.set_data(vec![0, 1, 2, 0, 2, 3], &mut vao, &mut calls);
    assert_eq!(
        calls,
        vec![DriverCall::BufferData {
            target: BindTarget::ElementArrayBuffer,
            bytes: 24,
            data: vec![0, 1, 2, 0, 2, 3],
        }]
    );
}

#[test]
fn release_unbinds_then_deletes() {
    let mut vao = VertexArray::new(4);
    let mut calls = Vec::new();
    vao.bind(&mut calls);
    calls.clear();
    vao.release(&mut calls);
    assert_eq!(
        calls,
        vec![
            DriverCall::Bind { target: BindTarget::VertexArray, id: 0 },
            DriverCall::Delete { target: BindTarget::VertexArray, id: 4 },
        ]
    );
    let mut other = VertexArray::new(5);
    let mut calls = Vec::new();
    VertexBuffer::allocate(&mut other, &mut calls);
    let vbo = VertexBuffer::new(6);
    calls.clear();
    vbo.release(&mut calls);
    assert_eq!(calls, vec![DriverCall::Delete { target: BindTarget::ArrayBuffer, id: 6 }]);
}
