use mandelbrot_gl::driver::{BindTarget, DriverCall, UniformValue};
use mandelbrot_gl::shader::{BuildAction, BuildEvent, BuildState, Shader, ShaderBuild, ShaderError, ShaderStage};
use mandelbrot_gl::uniform::{Uniform, NOT_FOUND};

fn linked_shader(program: u32, calls: &mut Vec<DriverCall>) -> Shader {
    let mut build = ShaderBuild::new("v.glsl".to_string(), "f.glsl".to_string());
    build.step(BuildEvent::Compiled { shader: 10, success: true }, calls);
    build.step(BuildEvent::Compiled { shader: 11, success: true }, calls);
    build.step(BuildEvent::Linked { program, success: true }, calls);
    Shader::new(build, calls).unwrap()
}

#[test]
fn build_asks_for_vertex_then_fragment_then_link() {
    let mut calls = Vec::new();
    let mut build = ShaderBuild::new("v.glsl".to_string(), "f.glsl".to_string());
    assert_eq!(build.next_action(), BuildAction::Compile { stage: ShaderStage::Vertex });
    assert_eq!(build.source_path(ShaderStage::Vertex), "v.glsl");
    build.step(BuildEvent::Compiled { shader: 10, success: true }, &mut calls);
    assert_eq!(build.next_action(), BuildAction::Compile { stage: ShaderStage::Fragment });
    assert_eq!(build.source_path(ShaderStage::Fragment), "f.glsl");
    build.step(BuildEvent::Compiled { shader: 11, success: true }, &mut calls);
    assert_eq!(build.next_action(), BuildAction::Link { vertex: 10, fragment: 11 });
    assert!(calls.is_empty());
    build.step(BuildEvent::Linked { program: 12, success: true }, &mut calls);
    assert_eq!(build.next_action(), BuildAction::Done);
    assert_eq!(build.state, BuildState::Linked { program: 12 });
    assert_eq!(calls, vec![DriverCall::DeleteStage { id: 10 }, DriverCall::DeleteStage { id: 11 }]);
    calls.clear();
    let shader = Shader::new(build, &mut calls).unwrap();
    assert_eq!(shader.id(), 12);
    assert_eq!(calls, vec![DriverCall::Bind { target: BindTarget::Program, id: 12 }]);
}

#[test]
fn fragment_syntax_error_names_the_fragment_file() {
    let mut calls = Vec::new();
    let mut build = ShaderBuild::new("quad.vert".to_string(), "broken.frag".to_string());
    build.step(BuildEvent::Compiled { shader: 1, success: true }, &mut calls);
    build.step(BuildEvent::Compiled { shader: 2, success: false }, &mut calls);
    assert_eq!(build.next_action(), BuildAction::Done);
    let r = Shader::new(build, &mut calls);
    assert_eq!(
        r.err(),
        Some(ShaderError::Compile { stage: ShaderStage::Fragment, path: "broken.frag".to_string() })
    );
    assert_eq!(calls, vec![DriverCall::DeleteStage { id: 2 }, DriverCall::DeleteStage { id: 1 }]);
}

#[test]
fn vertex_compile_error_stops_the_build() {
    let mut calls = Vec::new();
    let mut build = ShaderBuild::new("bad.vert".to_string(), "f".to_string());
    build.step(BuildEvent::Compiled { shader: 1, success: false }, &mut calls);
    build.step(BuildEvent::Compiled { shader: 2, success: true }, &mut calls);
    let r = Shader::new(build, &mut calls);
    assert_eq!(
        r.err(),
        Some(ShaderError::Compile { stage: ShaderStage::Vertex, path: "bad.vert".to_string() })
    );
    assert_eq!(calls, vec![DriverCall::DeleteStage { id: 1 }]);
}

#[test]
fn unreadable_vertex_source_creates_nothing() {
    let mut calls = Vec::new();
    let mut build = ShaderBuild::new("gone.vert".to_string(), "f".to_string());
    build.step(BuildEvent::Unreadable { message: "denied".to_string() }, &mut calls);
    let r = Shader::new(build, &mut calls);
    assert_eq!(
        r.err(),
        Some(ShaderError::Io { path: "gone.vert".to_string(), message: "denied".to_string() })
    );
    assert!(calls.is_empty());
}

#[test]
fn unreadable_source_is_an_io_error() {
    let mut calls = Vec::new();
    let mut build = ShaderBuild::new("v".to_string(), "missing.frag".to_string());
    build.step(BuildEvent::Compiled { shader: 1, success: true }, &mut calls);
    build.step(BuildEvent::Unreadable { message: "not found".to_string() }, &mut calls);
    let r = Shader::new(build, &mut calls);
    assert_eq!(
        r.err(),
        Some(ShaderError::Io { path: "missing.frag".to_string(), message: "not found".to_string() })
    );
    assert_eq!(calls, vec![DriverCall::DeleteStage { id: 1 }]);
}

#[test]
fn failed_link_names_both_files() {
    let mut calls = Vec::new();
    let mut build = ShaderBuild::new("a.vert".to_string(), "b.frag".to_string());
    build.step(BuildEvent::Compiled { shader: 1, success: true }, &mut calls);
    build.step(BuildEvent::Compiled { shader: 2, success: true }, &mut calls);
    build.step(BuildEvent::Linked { program: 3, success: false }, &mut calls);
    let r = Shader::new(build, &mut calls);
    assert_eq!(
        r.err(),
        Some(ShaderError::Link { vertex: "a.vert".to_string(), fragment: "b.frag".to_string() })
    );
    assert_eq!(
        calls,
        vec![
            DriverCall::DeleteStage { id: 1 },
            DriverCall::DeleteStage { id: 2 },
            DriverCall::Delete { target: BindTarget::Program, id: 3 },
        ]
    );
}

#[test]
fn shader_bind_twice_issues_one_call_and_release_is_unconditional() {
    let mut calls = Vec::new();
    let mut shader = linked_shader(12, &mut calls);
    calls.clear();
    shader.bind(&mut calls);
    assert!(calls.is_empty());
    shader.unbind(&mut calls);
    shader.bind(&mut calls);
    shader.bind(&mut calls);
    assert_eq!(
        calls,
        vec![
            DriverCall::Bind { target: BindTarget::Program, id: 0 },
            DriverCall::Bind { target: BindTarget::Program, id: 12 },
        ]
    );
    calls.clear();
    shader.release(&mut calls);
    assert_eq!(calls, vec![DriverCall::Delete { target: BindTarget::Program, id: 12 }]);
}

#[test]
fn locate_binds_queries_and_unbinds() {
    let mut calls = Vec::new();
    let mut shader = linked_shader(12, &mut calls);
    shader.unbind(&mut calls);
    calls.clear();
    Uniform::locate("mvp".to_string(), &mut shader, &mut calls);
    assert_eq!(
        calls,
        vec![
            DriverCall::Bind { target: BindTarget::Program, id: 12 },
            DriverCall::UniformLocation { program: 12, name: "mvp".to_string() },
            DriverCall::Bind { target: BindTarget::Program, id: 0 },
        ]
    );
}

#[test]
fn missing_uniform_write_is_accepted() {
    let mut calls = Vec::new();
    let mut shader = linked_shader(12, &mut calls);
    calls.clear();
    let u = Uniform::new(NOT_FOUND);
    assert!(!u.is_found());
    u.seti(5, &mut shader, &mut calls);
    assert_eq!(calls, vec![DriverCall::SetUniform { location: -1, value: UniformValue::Int(5) }]);
}

#[test]
fn uniform_writes_rebind_and_upload() {
    let mut calls = Vec::new();
    let mut shader = linked_shader(12, &mut calls);
    shader.unbind(&mut calls);
    calls.clear();
    let u = Uniform::new(3);
    assert!(u.is_found());
    assert_eq!(u.location(), 3);
    let one = 1.0f32.to_bits();
    u.setf(one, &mut shader, &mut calls);
    u.set_3f(1, 2, 3, &mut shader, &mut calls);
    u.set_v3f([1, 2, 3], &mut shader, &mut calls);
    u.set_4f(1, 2, 3, 4, &mut shader, &mut calls);
    u.set_v4f([1, 2, 3, 4], &mut shader, &mut calls);
    u.set_m2f([1, 0, 0, 1], &mut shader, &mut calls);
    let mut m3 = [0u32; 9];
    m3[0] = one;
    u.set_m3f(m3, &mut shader, &mut calls);
    u.set_m3d([7u64; 9], &mut shader, &mut calls);
    u.set_m4f([9u32; 16], &mut shader, &mut calls);
    assert_eq!(
        calls,
        vec![
            DriverCall::Bind { target: BindTarget::Program, id: 12 },
            DriverCall::SetUniform { location: 3, value: UniformValue::Float(one) },
            DriverCall::SetUniform { location: 3, value: UniformValue::Vec3([1, 2, 3]) },
            DriverCall::SetUniform { location: 3, value: UniformValue::Vec3([1, 2, 3]) },
            DriverCall::SetUniform { location: 3, value: UniformValue::Vec4([1, 2, 3, 4]) },
            DriverCall::SetUniform { location: 3, value: UniformValue::Vec4([1, 2, 3, 4]) },
            DriverCall::SetUniform { location: 3, value: UniformValue::Mat2([1, 0, 0, 1]) },
            DriverCall::SetUniform { location: 3, value: UniformValue::Mat3(m3) },
            DriverCall::SetUniform { location: 3, value: UniformValue::DMat3([7u64; 9]) },
            DriverCall::SetUniform { location: 3, value: UniformValue::Mat4([9u32; 16]) },
        ]
    );
}
