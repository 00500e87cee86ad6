use asaogea::shaders::{
    HlslCompiler, IncludeHandler, RawShaderDefinition, ShaderCode, ShaderDefinition, ShaderFileDefinition, SpirV,
};

#[test]
fn raw_definitions_hold_their_code() {
    let def = RawShaderDefinition::new("imgui-vertex", "vs_6_0", "float4 main() {}".to_string());
    assert_eq!(def.file_name(), Some("imgui-vertex".to_string()));
    assert_eq!(def.code(), ShaderCode::Inline("float4 main() {}".to_string()));
    assert_eq!(def.entry_point(), "main");
    assert_eq!(def.target_profile(), "vs_6_0");
    let def = def.set_entry_point("vs_main".to_string());
    assert_eq!(def.entry_point_of(), "vs_main");
    assert_eq!(def.file_name_of(), "imgui-vertex");
    assert_eq!(def.code_of(), "float4 main() {}");
    assert_eq!(def.target_profile_of(), "vs_6_0");
}

#[test]
fn file_definitions_name_their_file() {
    let def = ShaderFileDefinition::new("shaders/mesh.hlsl".to_string(), "ps_6_0");
    assert_eq!(def.file_name(), Some("mesh.hlsl".to_string()));
    assert_eq!(def.code(), ShaderCode::File("shaders/mesh.hlsl".to_string()));
    assert_eq!(def.path(), "shaders/mesh.hlsl");
    assert_eq!(def.entry_point(), "main");
    assert_eq!(def.target_profile(), "ps_6_0");
    let def = def.set_entry_point("ps_main".to_string());
    assert_eq!(def.entry_point(), "ps_main");
    assert_eq!(def.path(), "shaders/mesh.hlsl");
}

#[test]
fn relative_includes_are_looked_for_in_the_shader_directory_first() {
    let handler = IncludeHandler::new();
    assert_eq!(
        handler.candidates("common.hlsl", false),
        vec!["./shaders/common.hlsl".to_string(), "./common.hlsl".to_string()]
    );
    assert_eq!(handler.candidates("/abs/common.hlsl", true), vec!["/abs/common.hlsl".to_string()]);
}

#[test]
fn compiler_has_an_include_handler() {
    let compiler = HlslCompiler::new().ok().unwrap();
    assert_eq!(compiler.include_handler().candidates("x", false).len(), 2);
}

#[test]
fn spirv_keeps_its_bytes() {
    let code = SpirV::from_raw(vec![3, 2, 35, 7]);
    assert_eq!(code.raw(), vec![3, 2, 35, 7]);
}

#[test]
fn file_names_are_the_last_component() {
    assert_eq!(ShaderFileDefinition::new("mesh.hlsl".to_string(), "ps_6_0").file_name(), Some("mesh.hlsl".to_string()));
    assert_eq!(ShaderFileDefinition::new("/abs/dir/ui.hlsl".to_string(), "vs_6_0").file_name(), Some("ui.hlsl".to_string()));
    assert_eq!(ShaderFileDefinition::new("".to_string(), "vs_6_0").file_name(), None);
    assert_eq!(ShaderFileDefinition::new("..".to_string(), "vs_6_0").file_name(), None);
}

#[test]
fn sources_are_looked_for_where_they_exist() {
    let handler = IncludeHandler::new();
    assert_eq!(
        handler.source_candidates("common.hlsl"),
        vec!["./shaders/common.hlsl".to_string(), "./common.hlsl".to_string()]
    );
    assert_eq!(handler.source_candidates("/abs/common.hlsl"), vec!["/abs/common.hlsl".to_string()]);
    assert_eq!(handler.chosen_candidate(&vec![false, true]), Some(1));
    assert_eq!(handler.chosen_candidate(&vec![true, true]), Some(0));
    assert_eq!(handler.chosen_candidate(&vec![false, false]), None);
}
