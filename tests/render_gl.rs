use render_gl::{
    decode_name, text_before_nul, whitespace_buffer, ActiveUniform, Error, Program, Shader,
    ShaderStage, UniformTable, UniformType, GL_FRAGMENT_SHADER, GL_VERTEX_SHADER,
};

fn name_buffer(name: &str) -> Vec<u8> {
    let mut buf = vec![b' '; 256];
    buf[..name.len()].copy_from_slice(name.as_bytes());
    buf[name.len()] = 0;
    buf
}

fn active(name: &str, type_code: u32, location: i32) -> ActiveUniform {
    ActiveUniform {
        name: name_buffer(name),
        name_len: name.len() as i32,
        size: 1,
        type_code,
        location,
    }
}

fn linked_with(uniforms: Vec<ActiveUniform>) -> Program {
    Program::from_shaders(9, 1, &vec![], &uniforms).ok().unwrap()
}

fn color_and_time() -> Program {
    linked_with(vec![active("u_color", 0x8B52, 0), active("u_time", 0x1406, 1)])
}

#[test]
fn stage_of_vert_resource() {
    assert_eq!(Shader::stage_for_resource("basic.vert").ok(), Some(ShaderStage::Vertex));
    assert_eq!(ShaderStage::from_resource_name("basic.vert"), Some(ShaderStage::Vertex));
}

#[test]
fn stage_of_frag_resource() {
    assert_eq!(Shader::stage_for_resource("basic.frag").ok(), Some(ShaderStage::Fragment));
}

#[test]
fn stage_of_geom_resource_is_unknown() {
    match Shader::stage_for_resource("basic.geom") {
        Err(Error::CanNotDetermineShaderTypeForResource { name }) => assert_eq!(name, "basic.geom"),
        other => panic!("unexpected {:?}", other),
    }
}

#[test]
fn stage_needs_whole_suffix() {
    assert_eq!(ShaderStage::from_resource_name("vert"), None);
    assert_eq!(ShaderStage::from_resource_name(".vert"), Some(ShaderStage::Vertex));
    assert_eq!(ShaderStage::from_resource_name("a.vert.txt"), None);
    assert_eq!(ShaderStage::from_resource_name(""), None);
}

#[test]
fn stage_kinds_are_driver_codes() {
    assert_eq!(ShaderStage::Vertex.gl_kind(), GL_VERTEX_SHADER);
    assert_eq!(ShaderStage::Fragment.gl_kind(), 0x8B30);
    assert_eq!(GL_FRAGMENT_SHADER, 0x8B30);
    assert_eq!(ShaderStage::Fragment.extension(), ".frag");
}

#[test]
fn compile_success_gives_shader() {
    let s = Shader::from_source(3, ShaderStage::Vertex, 1, &vec![]).ok().unwrap();
    assert_eq!(s.id(), 3);
    assert_eq!(s.stage(), ShaderStage::Vertex);
    let f = Shader::from_frag_source(4, 1, &vec![]).ok().unwrap();
    assert_eq!(f.stage(), ShaderStage::Fragment);
    assert_eq!(f.into_id(), 4);
}

#[test]
fn compile_failure_gives_log() {
    let mut log = b"0:1(1): error: syntax error".to_vec();
    log.push(0);
    let r = Shader::from_vert_source(3, 0, &log);
    let message = r.err().unwrap();
    assert_eq!(message, "0:1(1): error: syntax error");
    assert!(!message.is_empty());
}

#[test]
fn compile_failure_named_by_resource() {
    let r = Shader::from_res("basic.vert", Err(String::from("bad token")));
    match r {
        Err(Error::CompileError { name, message }) => {
            assert_eq!(name, "basic.vert");
            assert_eq!(message, "bad token");
        }
        other => panic!("unexpected {:?}", other.map(|s| s.id())),
    }
    let ok = Shader::from_res("basic.vert", Shader::from_source(5, ShaderStage::Vertex, 1, &vec![]));
    assert_eq!(ok.ok().unwrap().id(), 5);
}

#[test]
fn link_failure_gives_log() {
    let mut log = b"error: no vertex shader".to_vec();
    log.push(0);
    log.extend_from_slice(b"   ");
    let message = Program::from_shaders(7, 0, &log, &vec![]).err().unwrap();
    assert_eq!(message, "error: no vertex shader");
    match Program::from_res("triangle", Err(message)) {
        Err(Error::LinkError { name, message }) => {
            assert_eq!(name, "triangle");
            assert_eq!(message, "error: no vertex shader");
        }
        _ => panic!("expected a link error"),
    }
}

#[test]
fn link_success_gives_program() {
    let p = Program::from_shaders(7, 1, &vec![], &vec![]).ok().unwrap();
    assert_eq!(p.id(), 7);
    assert!(p.uniforms().is_empty());
    assert_eq!(p.into_id(), 7);
}

#[test]
fn reflected_table_has_declared_uniforms() {
    let p = color_and_time();
    let t = p.uniforms();
    assert_eq!(t.len(), 2);
    let color = t.get("u_color").unwrap();
    assert_eq!(color.typ, UniformType::FloatVec4);
    assert_eq!(color.location, 0);
    let time = t.get("u_time").unwrap();
    assert_eq!(time.typ, UniformType::Float);
    assert_eq!(time.location, 1);
    assert!(t.get("u_color ").is_none());
}

#[test]
fn unknown_uniform_is_rejected() {
    let p = color_and_time();
    match p.set_uniform1f("u_missing") {
        Err(Error::UnknownUniform { name }) => assert_eq!(name, "u_missing"),
        other => panic!("unexpected {:?}", other),
    }
}

#[test]
fn mismatched_uniform_type_is_rejected() {
    let p = color_and_time();
    match p.set_uniform1f("u_color") {
        Err(Error::UniformTypeMismatch { name, declared, given }) => {
            assert_eq!(name, "u_color");
            assert_eq!(declared, UniformType::FloatVec4);
            assert_eq!(given, UniformType::Float);
        }
        other => panic!("unexpected {:?}", other),
    }
    assert_eq!(p.uniform_target("u_color", UniformType::FloatVec4).ok(), Some(0));
}

#[test]
fn matching_uniform_gives_location() {
    let p = color_and_time();
    assert_eq!(p.set_uniform1f("u_time").ok(), Some(1));
}

#[test]
fn optimised_away_uniform_is_tolerated() {
    let p = linked_with(vec![active("u_unused", 0x1406, -1)]);
    assert_eq!(p.set_uniform1f("u_unused").ok(), Some(-1));
}

#[test]
fn end_to_end_triangle() {
    let names = Program::resource_names("triangle");
    assert_eq!(names, vec![String::from("triangle.vert"), String::from("triangle.frag")]);
    let vert_stage = Shader::stage_for_resource(&names[0]).ok().unwrap();
    let frag_stage = Shader::stage_for_resource(&names[1]).ok().unwrap();
    assert_eq!(vert_stage, ShaderStage::Vertex);
    assert_eq!(frag_stage, ShaderStage::Fragment);
    let vert = Shader::from_res(&names[0], Shader::from_source(1, vert_stage, 1, &vec![]));
    let frag = Shader::from_res(&names[1], Shader::from_source(2, frag_stage, 1, &vec![]));
    assert!(vert.is_ok() && frag.is_ok());
    let plain = Program::from_res("triangle", Program::from_shaders(3, 1, &vec![], &vec![]));
    assert!(plain.ok().unwrap().uniforms().is_empty());
    let with_uniform = Program::from_res(
        "triangle",
        Program::from_shaders(3, 1, &vec![], &vec![active("u_time", 0x1406, 0)]),
    );
    assert!(!with_uniform.ok().unwrap().uniforms().is_empty());
}

#[test]
fn duplicate_reported_name_keeps_last() {
    let p = linked_with(vec![active("u_a", 0x1406, 1), active("u_a", 0x1404, 2)]);
    assert_eq!(p.uniforms().len(), 1);
    let u = p.uniforms().get("u_a").unwrap();
    assert_eq!(u.location, 2);
    assert_eq!(u.typ, UniformType::Int);
}

#[test]
fn reported_name_length_bounds_name() {
    let mut a = active("u_color", 0x8B52, 0);
    a.name_len = 3;
    let p = linked_with(vec![a]);
    assert!(p.uniforms().get("u_c").is_some());
    assert!(p.uniforms().get("u_color").is_none());
}

#[test]
fn invalid_utf8_name_is_replaced() {
    let a = ActiveUniform { name: vec![0xFF, b'a', 0], name_len: 2, size: 1, type_code: 0x1406, location: 0 };
    let p = linked_with(vec![a]);
    assert!(p.uniforms().get("\u{FFFD}a").is_some());
    assert_eq!(p.uniforms().len(), 1);
}

#[test]
fn whitespace_buffer_has_len_spaces() {
    assert_eq!(whitespace_buffer(4), b"    ".to_vec());
    assert_eq!(whitespace_buffer(0), Vec::<u8>::new());
    assert_eq!(whitespace_buffer(-5), Vec::<u8>::new());
}

#[test]
fn text_stops_at_nul() {
    assert_eq!(text_before_nul(&b"abc\0def".to_vec()), b"abc".to_vec());
    assert_eq!(text_before_nul(&b"abc".to_vec()), b"abc".to_vec());
    assert_eq!(text_before_nul(&b"\0abc".to_vec()), Vec::<u8>::new());
    assert_eq!(text_before_nul(&vec![]), Vec::<u8>::new());
}

#[test]
fn decode_name_respects_length_and_nul() {
    let buf = b"u_time\0    ".to_vec();
    assert_eq!(decode_name(&buf, 6), b"u_time".to_vec());
    assert_eq!(decode_name(&buf, 100), b"u_time".to_vec());
    assert_eq!(decode_name(&buf, 2), b"u_".to_vec());
    assert_eq!(decode_name(&buf, -1), Vec::<u8>::new());
}

#[test]
fn uniform_type_codes_round_trip() {
    let codes: [u32; 17] = [
        0x1406, 0x8B50, 0x8B51, 0x8B52, 0x1404, 0x8B53, 0x8B54, 0x8B55, 0x1405, 0x8B56, 0x8B5A,
        0x8B5B, 0x8B5C, 0x8B5E, 0x8B5F, 0x8B60, 0x1234,
    ];
    for c in codes {
        assert_eq!(UniformType::from_gl(c).gl_code(), c);
    }
    assert_eq!(UniformType::from_gl(0x8B5C), UniformType::FloatMat4);
    assert_eq!(UniformType::from_gl(0x1234), UniformType::Other(0x1234));
}

#[test]
fn table_insert_and_replace() {
    let mut t = UniformTable::new();
    assert!(t.is_empty());
    t.insert(String::from("a"), render_gl::Uniform { location: 0, typ: UniformType::Bool });
    t.insert(String::from("b"), render_gl::Uniform { location: 1, typ: UniformType::Int });
    t.insert(String::from("a"), render_gl::Uniform { location: 5, typ: UniformType::Float });
    assert_eq!(t.len(), 2);
    assert_eq!(t.get("a").unwrap().location, 5);
    assert_eq!(t.get("b").unwrap().typ, UniformType::Int);
}

#[test]
fn resource_load_error_carries_name() {
    match Error::resource_load("basic.vert", String::from("not found")) {
        Error::ResourceLoad { name, inner } => {
            assert_eq!(name, "basic.vert");
            assert_eq!(inner, "not found");
        }
        _ => panic!("expected a load error"),
    }
}
