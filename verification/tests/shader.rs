use graph_punk::shader::{check_stages, Shader, ShaderType};

fn shader(shader_type: ShaderType) -> Shader {
    Shader::new(shader_type, String::from("name"), String::from("void main() {}"))
}

#[test]
fn a_new_shader_keeps_what_it_was_given() {
    let vertex = Shader::new(
        ShaderType::Vertex,
        String::from("basic_2D_vertex_shader"),
        String::from("void main() {}"),
    );

    assert!(vertex.is_vertex_shader());
    assert!(!vertex.is_fragment_shader());
    assert_eq!(vertex.borrow_name(), "basic_2D_vertex_shader");
    assert_eq!(vertex.borrow_source(), "void main() {}");
    assert_eq!(vertex.get_id(), 0);
}

#[test]
fn a_fragment_shader_is_no_vertex_shader() {
    let fragment = shader(ShaderType::Fragment);

    assert!(fragment.is_fragment_shader());
    assert!(!fragment.is_vertex_shader());
}

#[test]
fn set_id_changes_the_id_only() {
    let mut vertex = shader(ShaderType::Vertex);

    vertex.set_id(7);

    assert_eq!(vertex.get_id(), 7);
    assert!(vertex.is_vertex_shader());
    assert_eq!(vertex.borrow_name(), "name");
    assert_eq!(vertex.borrow_source(), "void main() {}");
}

#[test]
fn a_vertex_and_a_fragment_shader_make_a_program() {
    assert_eq!(
        check_stages(&shader(ShaderType::Vertex), &shader(ShaderType::Fragment)),
        Ok(())
    );
}

#[test]
fn the_first_wrong_stage_is_named() {
    assert_eq!(
        check_stages(&shader(ShaderType::Fragment), &shader(ShaderType::Fragment)),
        Err(String::from("'vertex_shader' is not a Vertex Shader"))
    );
    assert_eq!(
        check_stages(&shader(ShaderType::Fragment), &shader(ShaderType::Vertex)),
        Err(String::from("'vertex_shader' is not a Vertex Shader"))
    );
    assert_eq!(
        check_stages(&shader(ShaderType::Vertex), &shader(ShaderType::Vertex)),
        Err(String::from("'fragment_shader' is not a Fragment Shader"))
    );
}
