use glwrap::shader::{Program, ProgramUniformContext, Shader, ShaderKind, Uniform, NOT_FOUND};

#[test]
fn vertex_compile_success_keeps_handle_and_stage() {
    let s = Shader::vertex_from_source(7, 1, String::new()).unwrap();
    assert_eq!(s.id, 7);
    assert_eq!(s.kind, ShaderKind::Vertex);
}

#[test]
fn fragment_compile_success_keeps_handle_and_stage() {
    let s = Shader::fragment_from_source(9, 1, String::from("warning: unused")).unwrap();
    assert_eq!(s.id, 9);
    assert_eq!(s.kind, ShaderKind::Fragment);
}

#[test]
fn compile_failure_carries_the_log() {
    let r = Shader::vertex_from_source(3, 0, String::from("0:1: syntax error"));
    assert_eq!(r.unwrap_err(), "0:1: syntax error");
}

#[test]
fn two_compiled_shaders_have_their_own_handles() {
    let a = Shader::vertex_from_source(1, 1, String::new()).unwrap();
    let b = Shader::fragment_from_source(2, 1, String::new()).unwrap();
    drop(a);
    assert_eq!(b.id, 2);
    assert_eq!(b.kind, ShaderKind::Fragment);
}

#[test]
fn link_success_and_failure() {
    let p = Program::link(String::from("main"), 11, 1, String::new()).unwrap();
    assert_eq!(p.name, "main");
    assert_eq!(p.id, 11);
    let e = Program::link(String::from("main"), 12, 0, String::from("link failed")).unwrap_err();
    assert_eq!(e, "link failed");
}

#[test]
fn attachments_in_given_order() {
    let v = Shader::vertex_from_source(4, 1, String::new()).unwrap();
    let f = Shader::fragment_from_source(5, 1, String::new()).unwrap();
    assert_eq!(Program::attachments(&[&v, &f]), vec![4, 5]);
    assert_eq!(Program::attachments(&[]), Vec::<u32>::new());
}

#[test]
fn uniform_lookup_may_be_absent() {
    let p = Program::link(String::from("p"), 1, 1, String::new()).unwrap();
    assert_eq!(p.get_uniform_option(NOT_FOUND), None);
    assert_eq!(p.get_uniform_option(0), Some(Uniform { id: 0 }));
    assert_eq!(p.get_uniform_option(5), Some(Uniform { id: 5 }));
    assert_eq!(p.get_uniform(3), Uniform { id: 3 });
}

#[test]
fn attrib_lookup_keeps_location() {
    let p = Program::link(String::from("p"), 1, 1, String::new()).unwrap();
    assert_eq!(p.get_attrib(0).id, 0);
    assert_eq!(p.get_attrib(6).id, 6);
}

fn context() -> ProgramUniformContext {
    let p = Program::link(String::from("p"), 1, 1, String::new()).unwrap();
    p.use_program()
}

#[test]
fn integer_and_boolean_uniforms() {
    let ctx = context();
    let u = Uniform { id: 2 };
    assert_eq!(ctx.set_i32(u, -5), (2, -5));
    assert_eq!(ctx.set_bool(u, true), (2, 1));
    assert_eq!(ctx.set_bool(u, false), (2, 0));
}

#[test]
fn identity_matrix_keeps_sixteen_values() {
    let ctx = context();
    let id: [[f32; 4]; 4] = [
        [1.0, 0.0, 0.0, 0.0],
        [0.0, 1.0, 0.0, 0.0],
        [0.0, 0.0, 1.0, 0.0],
        [0.0, 0.0, 0.0, 1.0],
    ];
    let (loc, vals) = ctx.set_mat4(Uniform { id: 4 }, &id);
    assert_eq!(loc, 4);
    assert_eq!(
        vals,
        vec![1.0, 0.0, 0.0, 0.0, 0.0, 1.0, 0.0, 0.0, 0.0, 0.0, 1.0, 0.0, 0.0, 0.0, 0.0, 1.0]
    );
}

#[test]
fn matrix_is_column_major_untransposed() {
    let ctx = context();
    let m: [[i32; 4]; 4] = [[0, 1, 2, 3], [4, 5, 6, 7], [8, 9, 10, 11], [12, 13, 14, 15]];
    let (_, vals) = ctx.set_mat4(Uniform { id: 0 }, &m);
    assert_eq!(vals, (0..16).collect::<Vec<i32>>());
}
