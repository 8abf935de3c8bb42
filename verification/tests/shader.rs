use cubeview::shader::{shader_path, Stage};

#[test]
fn shader_path_prefixes_the_directory() {
    assert_eq!(shader_path("vertex.glsl"), "src/shaders/vertex.glsl");
    assert_eq!(shader_path("fragment.glsl"), "src/shaders/fragment.glsl");
}

#[test]
fn shader_path_of_empty_name_is_the_directory() {
    assert_eq!(shader_path(""), "src/shaders/");
}

#[test]
fn shader_path_keeps_the_name_unchanged() {
    assert_eq!(shader_path("../other/é.glsl"), "src/shaders/../other/é.glsl");
}

#[test]
fn stages_name_their_sources() {
    assert_eq!(Stage::Vertex.file_name(), "vertex.glsl");
    assert_eq!(Stage::Fragment.file_name(), "fragment.glsl");
    assert_eq!(Stage::Vertex.path(), "src/shaders/vertex.glsl");
    assert_eq!(Stage::Fragment.path(), "src/shaders/fragment.glsl");
}
