use three_d::context::Command;
use three_d::context::MeshShader;
use three_d::context::Program;
use three_d::mesh::vertex_shader_source;
use three_d::mesh::MeshProgram;
use three_d::mesh::MeshPrograms;
use three_d::mesh::DEPTH_FRAGMENT_SHADER;
use three_d::text::contains;
use three_d::text::contains_bytes;

fn expected_vertex_shader(
    instanced: bool,
    use_positions: bool,
    use_normals: bool,
    use_uvs: bool,
    use_colors: bool,
) -> String {
    format!(
        "
                layout (std140) uniform Camera
                {{
                    mat4 viewProjection;
                    mat4 view;
                    mat4 projection;
                    vec3 position;
                    float padding;
                }} camera;

                uniform mat4 modelMatrix;
                in vec3 position;

                {} // Instancing
                {} // Positions out
                {} // Normals in/out
                {} // UV coordinates in/out
                {} // Colors in/out

                void main()
                {{
                    mat4 local2World = modelMatrix;
                    {} // Instancing
                    vec4 worldPosition = local2World * vec4(position, 1.);
                    gl_Position = camera.viewProjection * worldPosition;
                    {} // Position
                    {} // Normal
                    {} // UV coordinates
                    {} // Colors
                }}
            ",
        if instanced {
            "in vec4 row1;
                in vec4 row2;
                in vec4 row3;"
        } else {
            ""
        },
        if use_positions { "out vec3 pos;" } else { "" },
        if use_normals {
            "uniform mat4 normalMatrix;
                in vec3 normal;
                out vec3 nor;"
        } else {
            ""
        },
        if use_uvs {
            "in vec2 uv_coordinates;
                out vec2 uvs;"
        } else {
            ""
        },
        if use_colors {
            "in vec4 color;
                out vec4 col;"
        } else {
            ""
        },
        if instanced {
            "
                    mat4 transform;
                    transform[0] = vec4(row1.x, row2.x, row3.x, 0.0);
                    transform[1] = vec4(row1.y, row2.y, row3.y, 0.0);
                    transform[2] = vec4(row1.z, row2.z, row3.z, 0.0);
                    transform[3] = vec4(row1.w, row2.w, row3.w, 1.0);
                    local2World *= transform;"
        } else {
            ""
        },
        if use_positions { "pos = worldPosition.xyz;" } else { "" },
        if use_normals { "nor = mat3(normalMatrix) * normal;" } else { "" },
        if use_uvs { "uvs = uv_coordinates;" } else { "" },
        if use_colors { "col = color;" } else { "" }
    )
}

#[test]
fn the_vertex_shader_is_the_template_with_its_pieces_for_every_choice() {
    for bits in 0..32u32 {
        let instanced = bits & 1 != 0;
        let use_positions = bits & 2 != 0;
        let use_normals = bits & 4 != 0;
        let use_uvs = bits & 8 != 0;
        let use_colors = bits & 16 != 0;
        assert_eq!(
            vertex_shader_source(instanced, use_positions, use_normals, use_uvs, use_colors),
            expected_vertex_shader(instanced, use_positions, use_normals, use_uvs, use_colors)
        );
    }
}

#[test]
fn the_plain_vertex_shader_declares_nothing_optional() {
    let source = vertex_shader_source(false, false, false, false, false);
    assert!(source.contains("in vec3 position;"));
    assert!(source.contains("gl_Position = camera.viewProjection * worldPosition;"));
    assert!(!source.contains("out vec3 pos;"));
    assert!(!source.contains("normalMatrix"));
    assert!(!source.contains("uv_coordinates"));
    assert!(!source.contains("in vec4 color;"));
    assert!(!source.contains("row1"));
}

#[test]
fn a_depth_program_reads_positions_only() {
    let (program, vertex_shader) = MeshProgram::new(Program { id: 3 }, DEPTH_FRAGMENT_SHADER);
    assert_eq!(DEPTH_FRAGMENT_SHADER, "void main() {}");
    assert_eq!(
        program,
        MeshProgram {
            program: Program { id: 3 },
            use_normals: false,
            use_uvs: false,
            use_colors: false
        }
    );
    assert_eq!(program.program(), Program { id: 3 });
    assert_eq!(vertex_shader, expected_vertex_shader(false, false, false, false, false));
}

#[test]
fn a_program_reads_what_its_fragment_shader_declares() {
    let fragment = "in vec3 pos;\nin vec3 nor;\nin vec2 uvs;\nin vec4 col;\nvoid main() {}";
    let (program, vertex_shader) = MeshProgram::new(Program { id: 1 }, fragment);
    assert!(program.use_normals);
    assert!(program.use_uvs);
    assert!(program.use_colors);
    assert_eq!(vertex_shader, expected_vertex_shader(false, true, true, true, true));
}

#[test]
fn each_declaration_is_found_by_itself() {
    let (normals, source) = MeshProgram::new(Program { id: 1 }, "x in vec3 nor; y");
    assert!(normals.use_normals && !normals.use_uvs && !normals.use_colors);
    assert_eq!(source, expected_vertex_shader(false, false, true, false, false));
    let (uvs, source) = MeshProgram::new(Program { id: 1 }, "in vec2 uvs;");
    assert!(!uvs.use_normals && uvs.use_uvs && !uvs.use_colors);
    assert_eq!(source, expected_vertex_shader(false, false, false, true, false));
    let (colors, source) = MeshProgram::new(Program { id: 1 }, "void main() { } in vec4 col;");
    assert!(!colors.use_normals && !colors.use_uvs && colors.use_colors);
    assert_eq!(source, expected_vertex_shader(false, false, false, false, true));
    let (positions, source) = MeshProgram::new(Program { id: 1 }, "in vec3 pos;");
    assert!(!positions.use_normals && !positions.use_uvs && !positions.use_colors);
    assert_eq!(source, expected_vertex_shader(false, true, false, false, false));
}

#[test]
fn a_declaration_that_is_written_otherwise_is_not_found() {
    let (program, source) = MeshProgram::new(
        Program { id: 1 },
        "in  vec3 nor;\nin vec2 uvs ;\nin vec4 col\nIn vec3 pos;",
    );
    assert!(!program.use_normals);
    assert!(!program.use_uvs);
    assert!(!program.use_colors);
    assert_eq!(source, expected_vertex_shader(false, false, false, false, false));
}

#[test]
fn an_instanced_program_reads_the_rows_of_the_instance() {
    let (program, source) = MeshProgram::new_internal(Program { id: 8 }, "in vec2 uvs;", true);
    assert_eq!(program.program, Program { id: 8 });
    assert!(program.use_uvs);
    assert_eq!(source, expected_vertex_shader(true, false, false, true, false));
    assert!(source.contains("local2World *= transform;"));
    let plain = MeshProgram::new_internal(Program { id: 8 }, "in vec2 uvs;", false);
    assert_eq!(plain, MeshProgram::new(Program { id: 8 }, "in vec2 uvs;"));
}

#[test]
fn the_shared_programs_start_out_unlinked_for_no_mesh() {
    let programs = MeshPrograms::new(
        Program { id: 1 },
        Program { id: 2 },
        "uniform vec4 color;",
        Program { id: 3 },
        "uniform sampler2D tex; in vec2 uvs;",
        Program { id: 4 },
        "in vec4 col;",
    );
    let reads = |id, use_uvs, use_colors| MeshProgram {
        program: Program { id },
        use_normals: false,
        use_uvs,
        use_colors,
    };
    assert_eq!(
        programs,
        MeshPrograms {
            depth: reads(1, false, false),
            depth_created: false,
            color: reads(2, false, false),
            color_created: false,
            texture: reads(3, true, false),
            texture_created: false,
            per_vertex_color: reads(4, false, true),
            per_vertex_color_created: false,
            mesh_count: 0,
        }
    );
}

#[test]
fn a_shared_program_is_linked_the_first_time_that_it_is_asked_for() {
    let mut programs = MeshPrograms::new(
        Program { id: 1 },
        Program { id: 2 },
        "",
        Program { id: 3 },
        "in vec2 uvs;",
        Program { id: 4 },
        "in vec4 col;",
    );
    let (program, commands) = programs.get(MeshShader::Texture);
    assert_eq!(program, programs.texture);
    assert_eq!(
        commands,
        vec![Command::CreateMeshProgram { program: Program { id: 3 }, shader: MeshShader::Texture }]
    );
    assert!(programs.texture_created);
    assert!(!programs.depth_created && !programs.color_created);
    assert!(!programs.per_vertex_color_created);
    let (program, commands) = programs.get(MeshShader::Texture);
    assert_eq!(program, programs.texture);
    assert!(commands.is_empty());
    let (program, commands) = programs.get(MeshShader::Depth);
    assert_eq!(program, programs.depth);
    assert_eq!(
        commands,
        vec![Command::CreateMeshProgram { program: Program { id: 1 }, shader: MeshShader::Depth }]
    );
    let (program, commands) = programs.get(MeshShader::Color);
    assert_eq!(program, programs.color);
    assert_eq!(
        commands,
        vec![Command::CreateMeshProgram { program: Program { id: 2 }, shader: MeshShader::Color }]
    );
    let (program, commands) = programs.get(MeshShader::PerVertexColor);
    assert_eq!(program, programs.per_vertex_color);
    assert_eq!(
        commands,
        vec![Command::CreateMeshProgram {
            program: Program { id: 4 },
            shader: MeshShader::PerVertexColor
        }]
    );
    assert!(programs.depth_created && programs.color_created);
    assert!(programs.texture_created && programs.per_vertex_color_created);
}

#[test]
fn the_shared_programs_are_freed_with_the_last_mesh() {
    let mut programs =
        MeshPrograms::new(Program { id: 1 }, Program { id: 2 }, "", Program { id: 3 }, "", Program { id: 4 }, "");
    programs.mesh_count = 2;
    programs.get(MeshShader::Depth);
    programs.get(MeshShader::Texture);
    assert_eq!(programs.release(), vec![]);
    assert_eq!(programs.mesh_count, 1);
    assert!(programs.depth_created && programs.texture_created);
    assert_eq!(
        programs.release(),
        vec![
            Command::DeleteProgram { program: Program { id: 1 } },
            Command::DeleteProgram { program: Program { id: 3 } },
        ]
    );
    assert_eq!(programs.mesh_count, 0);
    assert!(!programs.depth_created && !programs.color_created);
    assert!(!programs.texture_created && !programs.per_vertex_color_created);
    programs.mesh_count = 1;
    programs.get(MeshShader::Depth);
    programs.get(MeshShader::Color);
    programs.get(MeshShader::Texture);
    programs.get(MeshShader::PerVertexColor);
    assert_eq!(
        programs.release(),
        vec![
            Command::DeleteProgram { program: Program { id: 1 } },
            Command::DeleteProgram { program: Program { id: 2 } },
            Command::DeleteProgram { program: Program { id: 3 } },
            Command::DeleteProgram { program: Program { id: 4 } },
        ]
    );
}

#[test]
fn a_text_holds_what_stands_in_it() {
    assert!(contains("hello world", "hello"));
    assert!(contains("hello world", "world"));
    assert!(contains("hello world", "o w"));
    assert!(contains("hello world", "hello world"));
    assert!(contains("hello world", ""));
    assert!(contains("", ""));
    assert!(contains("aab", "ab"));
    assert!(contains("abababc", "ababc"));
}

#[test]
fn a_text_does_not_hold_what_does_not_stand_in_it() {
    assert!(!contains("hello world", "worlds"));
    assert!(!contains("hello world", "hello world!"));
    assert!(!contains("", "a"));
    assert!(!contains("abc", "ac"));
    assert!(!contains("aaa", "aaaa"));
    assert!(!contains("abcab", "abd"));
}

#[test]
fn a_search_agrees_with_the_standard_one() {
    let texts = ["", "a", "ab", "ba", "aba", "in vec3 nor;", "x in vec3 nor; y", "ünï in vec2 uvs;"];
    for haystack in texts.iter() {
        for needle in texts.iter() {
            assert_eq!(contains(haystack, needle), haystack.contains(needle));
            assert_eq!(
                contains_bytes(haystack.as_bytes(), needle.as_bytes()),
                haystack.contains(needle)
            );
        }
    }
}
