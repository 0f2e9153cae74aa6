//! Triangle meshes and the shader programs that draw them.

use vstd::prelude::*;
use vstd::string::*;
use crate::buffer::ElementBuffer;
use crate::buffer::VertexBuffer;
use crate::camera::Camera;
use crate::context::Command;
use crate::context::MeshShader;
use crate::context::Name;
use crate::context::Program;
use crate::context::Recording;
use crate::context::RecordingView;
use crate::context::Texture;
use crate::error::Error;
use crate::error::ErrorView;
use crate::math::Transformation;
use crate::math::Vec4;
use crate::states::RenderStates;
use crate::states::Viewport;
use crate::text::contains;
use crate::text::occurs_in;

verus! {

/// What a fragment shader declares when it reads the position of the
/// fragment in the world.
pub const POSITION_INPUT: &'static str = "in vec3 pos;";

/// What a fragment shader declares when it reads the normal of the fragment.
pub const NORMAL_INPUT: &'static str = "in vec3 nor;";

/// What a fragment shader declares when it reads the uv coordinates of the
/// fragment.
pub const UV_INPUT: &'static str = "in vec2 uvs;";

/// What a fragment shader declares when it reads the colour of the fragment.
pub const COLOR_INPUT: &'static str = "in vec4 col;";

/// The fragment shader of a program that writes depth only.
pub const DEPTH_FRAGMENT_SHADER: &'static str = "void main() {}";

/// The vertex shader up to the inputs of instancing.
pub const HEAD: &'static str = "\n                layout (std140) uniform Camera\n                {\n                    mat4 viewProjection;\n                    mat4 view;\n                    mat4 projection;\n                    vec3 position;\n                    float padding;\n                } camera;\n\n                uniform mat4 modelMatrix;\n                in vec3 position;\n\n                ";

/// The vertex shader between the inputs of instancing and the output of the position.
pub const AFTER_INSTANCE_INPUTS: &'static str = " // Instancing\n                ";

/// The vertex shader between the output of the position and the inputs of the normal.
pub const AFTER_POSITION_OUTPUT: &'static str = " // Positions out\n                ";

/// The vertex shader between the inputs of the normal and those of the uv coordinates.
pub const AFTER_NORMAL_INPUTS: &'static str = " // Normals in/out\n                ";

/// The vertex shader between the inputs of the uv coordinates and those of the colour.
pub const AFTER_UV_INPUTS: &'static str = " // UV coordinates in/out\n                ";

/// The vertex shader from the inputs of the colour into the body of `main`.
pub const MAIN: &'static str = " // Colors in/out\n\n                void main()\n                {\n                    mat4 local2World = modelMatrix;\n                    ";

/// The vertex shader between the transformation of an instance and the position that is handed on.
pub const WORLD_POSITION: &'static str = " // Instancing\n                    vec4 worldPosition = local2World * vec4(position, 1.);\n                    gl_Position = camera.viewProjection * worldPosition;\n                    ";

/// The vertex shader between the position and the normal that are handed on.
pub const AFTER_POSITION: &'static str = " // Position\n                    ";

/// The vertex shader between the normal and the uv coordinates that are handed on.
pub const AFTER_NORMAL: &'static str = " // Normal\n                    ";

/// The vertex shader between the uv coordinates and the colour that are handed on.
pub const AFTER_UV: &'static str = " // UV coordinates\n                    ";

/// The end of the vertex shader.
pub const TAIL: &'static str = " // Colors\n                }\n            ";

/// The rows of the transformation of an instance, as vertex inputs.
pub const INSTANCE_INPUTS: &'static str = "in vec4 row1;\n                in vec4 row2;\n                in vec4 row3;";

/// The position in the world, as an output to the fragment shader.
pub const POSITION_OUTPUT: &'static str = "out vec3 pos;";

/// The normal as a vertex input and as an output to the fragment shader, with the matrix that transforms it.
pub const NORMAL_INPUTS: &'static str = "uniform mat4 normalMatrix;\n                in vec3 normal;\n                out vec3 nor;";

/// The uv coordinates as a vertex input and as an output to the fragment shader.
pub const UV_INPUTS: &'static str = "in vec2 uv_coordinates;\n                out vec2 uvs;";

/// The colour as a vertex input and as an output to the fragment shader.
pub const COLOR_INPUTS: &'static str = "in vec4 color;\n                out vec4 col;";

/// The statements that apply the transformation of an instance.
pub const INSTANCE_TRANSFORM: &'static str = "\n                    mat4 transform;\n                    transform[0] = vec4(row1.x, row2.x, row3.x, 0.0);\n                    transform[1] = vec4(row1.y, row2.y, row3.y, 0.0);\n                    transform[2] = vec4(row1.z, row2.z, row3.z, 0.0);\n                    transform[3] = vec4(row1.w, row2.w, row3.w, 1.0);\n                    local2World *= transform;";

/// The statement that hands the position in the world on.
pub const POSITION_ASSIGNMENT: &'static str = "pos = worldPosition.xyz;";

/// The statement that hands the transformed normal on.
pub const NORMAL_ASSIGNMENT: &'static str = "nor = mat3(normalMatrix) * normal;";

/// The statement that hands the uv coordinates on.
pub const UV_ASSIGNMENT: &'static str = "uvs = uv_coordinates;";

/// The statement that hands the colour on.
pub const COLOR_ASSIGNMENT: &'static str = "col = color;";

/// The text where it is wanted, and nothing where it is not.
pub open spec fn piece(wanted: bool, text: Seq<char>) -> Seq<char> {
    if wanted {
        text
    } else {
        Seq::empty()
    }
}

/// The vertex shader of a mesh program: the fixed text, with the inputs,
/// outputs and statements of instancing, position, normal, uv coordinates
/// and colour put in where each is wanted.
pub open spec fn spec_vertex_shader_source(
    instanced: bool,
    use_positions: bool,
    use_normals: bool,
    use_uvs: bool,
    use_colors: bool,
) -> Seq<char> {
    HEAD@ + piece(instanced, INSTANCE_INPUTS@) + AFTER_INSTANCE_INPUTS@ + piece(
        use_positions,
        POSITION_OUTPUT@,
    ) + AFTER_POSITION_OUTPUT@ + piece(use_normals, NORMAL_INPUTS@) + AFTER_NORMAL_INPUTS@ + piece(
        use_uvs,
        UV_INPUTS@,
    ) + AFTER_UV_INPUTS@ + piece(use_colors, COLOR_INPUTS@) + MAIN@ + piece(
        instanced,
        INSTANCE_TRANSFORM@,
    ) + WORLD_POSITION@ + piece(use_positions, POSITION_ASSIGNMENT@) + AFTER_POSITION@ + piece(
        use_normals,
        NORMAL_ASSIGNMENT@,
    ) + AFTER_NORMAL@ + piece(use_uvs, UV_ASSIGNMENT@) + AFTER_UV@ + piece(
        use_colors,
        COLOR_ASSIGNMENT@,
    ) + TAIL@
}

/// Whether the fragment shader source declares the given input.
pub open spec fn declares(fragment_shader_source: &str, input: &str) -> bool {
    occurs_in(input.spec_bytes(), fragment_shader_source.spec_bytes())
}

fn append_piece(source: &mut String, wanted: bool, text: &str)
    ensures
        final(source)@ == old(source)@ + piece(wanted, text@),
{
    if wanted {
        source.append(text);
    }
}

/// The vertex shader of a mesh program.
pub fn vertex_shader_source(
    instanced: bool,
    use_positions: bool,
    use_normals: bool,
    use_uvs: bool,
    use_colors: bool,
) -> (source: String)
    ensures
        source@ == spec_vertex_shader_source(
            instanced,
            use_positions,
            use_normals,
            use_uvs,
            use_colors,
        ),
{
    let mut source = String::from_str(HEAD);
    append_piece(&mut source, instanced, INSTANCE_INPUTS);
    source.append(AFTER_INSTANCE_INPUTS);
    append_piece(&mut source, use_positions, POSITION_OUTPUT);
    source.append(AFTER_POSITION_OUTPUT);
    append_piece(&mut source, use_normals, NORMAL_INPUTS);
    source.append(AFTER_NORMAL_INPUTS);
    append_piece(&mut source, use_uvs, UV_INPUTS);
    source.append(AFTER_UV_INPUTS);
    append_piece(&mut source, use_colors, COLOR_INPUTS);
    source.append(MAIN);
    append_piece(&mut source, instanced, INSTANCE_TRANSFORM);
    source.append(WORLD_POSITION);
    append_piece(&mut source, use_positions, POSITION_ASSIGNMENT);
    source.append(AFTER_POSITION);
    append_piece(&mut source, use_normals, NORMAL_ASSIGNMENT);
    source.append(AFTER_NORMAL);
    append_piece(&mut source, use_uvs, UV_ASSIGNMENT);
    source.append(AFTER_UV);
    append_piece(&mut source, use_colors, COLOR_ASSIGNMENT);
    source.append(TAIL);
    source
}

/// A shader program used for rendering one or more instances of a mesh. It
/// has a fixed vertex shader and a customizable fragment shader for custom
/// lighting. Use this in combination with `Mesh::render`.
#[derive(Clone, Copy, Debug, PartialEq, Eq)]
pub struct MeshProgram {
    /// The name of the linked program on the device.
    pub program: Program,
    /// Whether the program reads the normals of the mesh.
    pub use_normals: bool,
    /// Whether the program reads the uv coordinates of the mesh.
    pub use_uvs: bool,
    /// Whether the program reads the colours of the mesh.
    pub use_colors: bool,
}

impl MeshProgram {
    /// The program of the given name for the given fragment shader: it
    /// reads of the mesh what the fragment shader declares.
    pub open spec fn spec_new(program: Program, fragment_shader_source: &str) -> MeshProgram {
        MeshProgram {
            program,
            use_normals: declares(fragment_shader_source, NORMAL_INPUT),
            use_uvs: declares(fragment_shader_source, UV_INPUT),
            use_colors: declares(fragment_shader_source, COLOR_INPUT),
        }
    }

    /// The vertex shader that goes with the given fragment shader: it hands
    /// on exactly what the fragment shader declares.
    pub open spec fn spec_vertex_shader(fragment_shader_source: &str, instanced: bool) -> Seq<
        char,
    > {
        spec_vertex_shader_source(
            instanced,
            declares(fragment_shader_source, POSITION_INPUT),
            declares(fragment_shader_source, NORMAL_INPUT),
            declares(fragment_shader_source, UV_INPUT),
            declares(fragment_shader_source, COLOR_INPUT),
        )
    }

    /// Describes a new shader program for rendering meshes, under the given
    /// name, and gives the vertex shader that it is to be linked from. The
    /// fragment shader can use the fragment's position by adding
    /// `in vec3 pos;`, its normal by `in vec3 nor;`, its uv coordinates by
    /// `in vec2 uvs;` and its per vertex colour by `in vec4 col;` to the
    /// shader source code.
    pub fn new(program: Program, fragment_shader_source: &str) -> (made: (MeshProgram, String))
        ensures
            made.0 == Self::spec_new(program, fragment_shader_source),
            made.1@ == Self::spec_vertex_shader(fragment_shader_source, false),
    {
        Self::new_internal(program, fragment_shader_source, false)
    }

    /// Describes a new shader program for rendering meshes, or instances of
    /// meshes where `instanced` holds, under the given name, and gives the
    /// vertex shader that it is to be linked from.
    pub fn new_internal(program: Program, fragment_shader_source: &str, instanced: bool) -> (made: (
        MeshProgram,
        String,
    ))
        ensures
            made.0 == Self::spec_new(program, fragment_shader_source),
            made.1@ == Self::spec_vertex_shader(fragment_shader_source, instanced),
    {
        let use_positions = contains(fragment_shader_source, POSITION_INPUT);
        let use_normals = contains(fragment_shader_source, NORMAL_INPUT);
        let use_uvs = contains(fragment_shader_source, UV_INPUT);
        let use_colors = contains(fragment_shader_source, COLOR_INPUT);
        let vertex_shader_source = vertex_shader_source(
            instanced,
            use_positions,
            use_normals,
            use_uvs,
            use_colors,
        );
        (MeshProgram { program, use_normals, use_uvs, use_colors }, vertex_shader_source)
    }

    /// The name of the linked program on the device.
    pub fn program(&self) -> (program: Program)
        ensures
            program == self.program,
    {
        self.program
    }
}

/// The programs that the render functions of all meshes share, and the
/// number of meshes that there are. Each program is linked the first time
/// that a mesh is rendered with it; all are freed with the last mesh.
#[derive(Clone, Copy, Debug, PartialEq, Eq)]
pub struct MeshPrograms {
    /// The program that writes depth only.
    pub depth: MeshProgram,
    /// Whether the command that links `depth` has been issued.
    pub depth_created: bool,
    /// The program that shows a mesh in one colour.
    pub color: MeshProgram,
    /// Whether the command that links `color` has been issued.
    pub color_created: bool,
    /// The program that shows a mesh with a texture.
    pub texture: MeshProgram,
    /// Whether the command that links `texture` has been issued.
    pub texture_created: bool,
    /// The program that shows a mesh with the colours of its vertices.
    pub per_vertex_color: MeshProgram,
    /// Whether the command that links `per_vertex_color` has been issued.
    pub per_vertex_color_created: bool,
    /// The number of meshes that have been made and not deleted.
    pub mesh_count: u32,
}

impl MeshPrograms {
    /// The program for the given shader.
    pub open spec fn program(self, shader: MeshShader) -> MeshProgram {
        match shader {
            MeshShader::Depth => self.depth,
            MeshShader::Color => self.color,
            MeshShader::Texture => self.texture,
            MeshShader::PerVertexColor => self.per_vertex_color,
        }
    }

    /// Whether the program for the given shader has been linked.
    pub open spec fn created(self, shader: MeshShader) -> bool {
        match shader {
            MeshShader::Depth => self.depth_created,
            MeshShader::Color => self.color_created,
            MeshShader::Texture => self.texture_created,
            MeshShader::PerVertexColor => self.per_vertex_color_created,
        }
    }

    /// The programs once the one for the given shader has been asked for.
    pub open spec fn with_created(self, shader: MeshShader) -> MeshPrograms {
        match shader {
            MeshShader::Depth => MeshPrograms { depth_created: true, ..self },
            MeshShader::Color => MeshPrograms { color_created: true, ..self },
            MeshShader::Texture => MeshPrograms { texture_created: true, ..self },
            MeshShader::PerVertexColor => MeshPrograms { per_vertex_color_created: true, ..self },
        }
    }

    /// What asking for the program for the given shader issues: its
    /// linking, the first time.
    pub open spec fn spec_get(self, shader: MeshShader) -> Seq<Command> {
        if self.created(shader) {
            Seq::empty()
        } else {
            seq![Command::CreateMeshProgram { program: self.program(shader).program, shader }]
        }
    }

    /// The command that frees a program, if it has been linked.
    pub open spec fn spec_free(created: bool, program: MeshProgram) -> Seq<Command> {
        if created {
            seq![Command::DeleteProgram { program: program.program }]
        } else {
            Seq::empty()
        }
    }

    /// What the end of a mesh issues for the programs: where the mesh is the
    /// last one, every program that has been linked is freed.
    pub open spec fn spec_release(self) -> Seq<Command> {
        if self.mesh_count == 1 {
            Self::spec_free(self.depth_created, self.depth) + Self::spec_free(
                self.color_created,
                self.color,
            ) + Self::spec_free(self.texture_created, self.texture) + Self::spec_free(
                self.per_vertex_color_created,
                self.per_vertex_color,
            )
        } else {
            Seq::empty()
        }
    }

    /// The programs after the end of a mesh: there is one mesh less, and
    /// after the last one no program is linked any more.
    pub open spec fn released(self) -> MeshPrograms {
        if self.mesh_count == 1 {
            MeshPrograms {
                depth_created: false,
                color_created: false,
                texture_created: false,
                per_vertex_color_created: false,
                mesh_count: 0,
                ..self
            }
        } else {
            MeshPrograms { mesh_count: (self.mesh_count - 1) as u32, ..self }
        }
    }

    /// The shared programs under the given names, none linked yet, for no
    /// mesh yet. The program that writes depth has the fragment shader
    /// `DEPTH_FRAGMENT_SHADER`; the fragment shaders of the three others are
    /// handed in.
    pub fn new(
        depth: Program,
        color: Program,
        color_fragment_shader: &str,
        texture: Program,
        texture_fragment_shader: &str,
        per_vertex_color: Program,
        per_vertex_color_fragment_shader: &str,
    ) -> (programs: MeshPrograms)
        ensures
            programs == (MeshPrograms {
                depth: MeshProgram::spec_new(depth, DEPTH_FRAGMENT_SHADER),
                depth_created: false,
                color: MeshProgram::spec_new(color, color_fragment_shader),
                color_created: false,
                texture: MeshProgram::spec_new(texture, texture_fragment_shader),
                texture_created: false,
                per_vertex_color: MeshProgram::spec_new(
                    per_vertex_color,
                    per_vertex_color_fragment_shader,
                ),
                per_vertex_color_created: false,
                mesh_count: 0,
            }),
    {
        MeshPrograms {
            depth: MeshProgram::new(depth, DEPTH_FRAGMENT_SHADER).0,
            depth_created: false,
            color: MeshProgram::new(color, color_fragment_shader).0,
            color_created: false,
            texture: MeshProgram::new(texture, texture_fragment_shader).0,
            texture_created: false,
            per_vertex_color: MeshProgram::new(per_vertex_color, per_vertex_color_fragment_shader).0,
            per_vertex_color_created: false,
            mesh_count: 0,
        }
    }

    /// The program for the given shader, with the command that links it if
    /// this is the first time that it is asked for.
    pub fn get(&mut self, shader: MeshShader) -> (got: (MeshProgram, Vec<Command>))
        ensures
            got.0 == old(self).program(shader),
            got.1@ == old(self).spec_get(shader),
            *final(self) == old(self).with_created(shader),
    {
        let mut commands: Vec<Command> = Vec::new();
        let program = match shader {
            MeshShader::Depth => {
                if !self.depth_created {
                    commands.push(
                        Command::CreateMeshProgram { program: self.depth.program, shader },
                    );
                    self.depth_created = true;
                }
                self.depth
            },
            MeshShader::Color => {
                if !self.color_created {
                    commands.push(
                        Command::CreateMeshProgram { program: self.color.program, shader },
                    );
                    self.color_created = true;
                }
                self.color
            },
            MeshShader::Texture => {
                if !self.texture_created {
                    commands.push(
                        Command::CreateMeshProgram { program: self.texture.program, shader },
                    );
                    self.texture_created = true;
                }
                self.texture
            },
            MeshShader::PerVertexColor => {
                if !self.per_vertex_color_created {
                    commands.push(
                        Command::CreateMeshProgram { program: self.per_vertex_color.program, shader },
                    );
                    self.per_vertex_color_created = true;
                }
                self.per_vertex_color
            },
        };
        (program, commands)
    }

    /// Takes note of the end of a mesh, and gives the commands that free
    /// the programs if it was the last one.
    pub fn release(&mut self) -> (commands: Vec<Command>)
        requires
            old(self).mesh_count > 0,
        ensures
            commands@ == old(self).spec_release(),
            *final(self) == old(self).released(),
    {
        let mut commands: Vec<Command> = Vec::new();
        self.mesh_count = self.mesh_count - 1;
        if self.mesh_count == 0 {
            if self.depth_created {
                commands.push(Command::DeleteProgram { program: self.depth.program });
            }
            self.depth_created = false;
            if self.color_created {
                commands.push(Command::DeleteProgram { program: self.color.program });
            }
            self.color_created = false;
            if self.texture_created {
                commands.push(Command::DeleteProgram { program: self.texture.program });
            }
            self.texture_created = false;
            if self.per_vertex_color_created {
                commands.push(Command::DeleteProgram { program: self.per_vertex_color.program });
            }
            self.per_vertex_color_created = false;
        }
        commands
    }
}

/// A triangle mesh which can be rendered with one of the programs that all
/// meshes share or with a mesh program of its own.
#[derive(Debug, PartialEq, Eq)]
pub struct Mesh {
    /// The positions of the vertices, three values each.
    pub position_buffer: VertexBuffer,
    /// The normals of the vertices, where the mesh has them.
    pub normal_buffer: Option<VertexBuffer>,
    /// The indices of the vertices of each triangle, where the mesh has
    /// them; else each three vertices in a row make a triangle.
    pub index_buffer: Option<ElementBuffer>,
    /// The uv coordinates of the vertices, where the mesh has them.
    pub uv_buffer: Option<VertexBuffer>,
    /// The colours of the vertices, where the mesh has them.
    pub color_buffer: Option<VertexBuffer>,
}

impl Mesh {
    /// The error for a program that reads uv coordinates of a mesh without
    /// them.
    pub open spec fn spec_no_uvs() -> ErrorView {
        ErrorView::FailedToCreateMesh {
            message: "The mesh shader program needs uv coordinates, but the mesh does not have any."@,
        }
    }

    /// The error for a program that reads normals of a mesh without them.
    pub open spec fn spec_no_normals() -> ErrorView {
        ErrorView::FailedToCreateMesh {
            message: "The mesh shader program needs normals, but the mesh does not have any. Consider calculating the normals on the CPUMesh."@,
        }
    }

    /// The error for a program that reads colours of a mesh without them.
    pub open spec fn spec_no_colors() -> ErrorView {
        ErrorView::FailedToCreateMesh {
            message: "The mesh shader program needs per vertex colors, but the mesh does not have any."@,
        }
    }

    /// What every draw of the mesh begins with: the transformation, the
    /// camera and the positions are handed to the program.
    pub open spec fn spec_begin(
        &self,
        program: &MeshProgram,
        transformation: Transformation,
        camera: Camera,
    ) -> Seq<Command> {
        seq![
            Command::UseUniformMat4 {
                program: program.program,
                name: Name::ModelMatrix,
                value: transformation.matrix,
            },
            Command::UseUniformBlock {
                program: program.program,
                buffer: camera.matrix_buffer,
                name: Name::Camera,
            },
            Command::UseAttributeVec3 {
                program: program.program,
                buffer: self.position_buffer.buffer,
                name: Name::Position,
            },
        ]
    }

    /// The uv coordinates are handed to a program that reads them; a mesh
    /// without them is an error.
    pub open spec fn spec_uvs(&self, program: &MeshProgram) -> RecordingView {
        if !program.use_uvs {
            RecordingView::done(Seq::empty())
        } else {
            match self.uv_buffer {
                Some(uv_buffer) => RecordingView::done(
                    seq![
                        Command::UseAttributeVec2 {
                            program: program.program,
                            buffer: uv_buffer.buffer,
                            name: Name::UvCoordinates,
                        },
                    ],
                ),
                None => RecordingView::failed(Seq::empty(), Self::spec_no_uvs()),
            }
        }
    }

    /// The matrix of the normals and the normals are handed to a program
    /// that reads them; a mesh without normals is an error.
    pub open spec fn spec_normals(
        &self,
        program: &MeshProgram,
        transformation: Transformation,
    ) -> RecordingView {
        if !program.use_normals {
            RecordingView::done(Seq::empty())
        } else {
            match self.normal_buffer {
                Some(normal_buffer) => RecordingView::done(
                    seq![
                        Command::UseUniformMat4 {
                            program: program.program,
                            name: Name::NormalMatrix,
                            value: transformation.normal_matrix->0,
                        },
                        Command::UseAttributeVec3 {
                            program: program.program,
                            buffer: normal_buffer.buffer,
                            name: Name::Normal,
                        },
                    ],
                ),
                None => RecordingView::failed(Seq::empty(), Self::spec_no_normals()),
            }
        }
    }

    /// The colours are handed to a program that reads them; a mesh without
    /// them is an error.
    pub open spec fn spec_colors(&self, program: &MeshProgram) -> RecordingView {
        if !program.use_colors {
            RecordingView::done(Seq::empty())
        } else {
            match self.color_buffer {
                Some(color_buffer) => RecordingView::done(
                    seq![
                        Command::UseAttributeVec4 {
                            program: program.program,
                            buffer: color_buffer.buffer,
                            name: Name::Color,
                        },
                    ],
                ),
                None => RecordingView::failed(Seq::empty(), Self::spec_no_colors()),
            }
        }
    }

    /// The draw itself: by the indices where the mesh has them, else of
    /// every three positions in a row as one triangle.
    pub open spec fn spec_draw(
        &self,
        program: &MeshProgram,
        render_states: RenderStates,
        viewport: Viewport,
    ) -> Command {
        match self.index_buffer {
            Some(index_buffer) => Command::DrawElements {
                program: program.program,
                render_states,
                viewport,
                element_buffer: index_buffer.buffer,
            },
            None => Command::DrawArrays {
                program: program.program,
                render_states,
                viewport,
                count: ((self.position_buffer.count as u32) / 3) as u32,
            },
        }
    }

    /// What rendering the mesh with the program issues: the beginning of
    /// every draw, then what the program reads of uv coordinates, normals
    /// and colours, in that order, then the draw. The first attribute that
    /// the program reads and the mesh lacks stops the rendering with its
    /// error.
    pub open spec fn spec_render(
        &self,
        program: &MeshProgram,
        render_states: RenderStates,
        viewport: Viewport,
        transformation: Transformation,
        camera: Camera,
    ) -> RecordingView {
        RecordingView::done(self.spec_begin(program, transformation, camera)).followed_by(
            self.spec_uvs(program),
        ).followed_by(self.spec_normals(program, transformation)).followed_by(
            self.spec_colors(program),
        ).followed_by(RecordingView::done(seq![self.spec_draw(program, render_states, viewport)]))
    }

    /// What rendering the mesh with one of the shared programs issues: the
    /// program is linked if this is the first time that it is asked for;
    /// then the program is handed what goes with it, and the mesh is
    /// rendered with it.
    pub open spec fn spec_render_shared(
        &self,
        programs: MeshPrograms,
        shader: MeshShader,
        handed: Seq<Command>,
        render_states: RenderStates,
        viewport: Viewport,
        transformation: Transformation,
        camera: Camera,
    ) -> RecordingView {
        RecordingView::done(programs.spec_get(shader) + handed).followed_by(
            self.spec_render(
                &programs.program(shader),
                render_states,
                viewport,
                transformation,
                camera,
            ),
        )
    }

    /// What rendering the mesh in one colour issues: the colour is handed
    /// to the shared program that shows a mesh in one colour, and the mesh
    /// is rendered with it.
    pub open spec fn spec_render_with_color(
        &self,
        programs: MeshPrograms,
        color: Vec4,
        render_states: RenderStates,
        viewport: Viewport,
        transformation: Transformation,
        camera: Camera,
    ) -> RecordingView {
        self.spec_render_shared(
            programs,
            MeshShader::Color,
            seq![
                Command::UseUniformVec4 {
                    program: programs.color.program,
                    name: Name::Color,
                    value: color,
                },
            ],
            render_states,
            viewport,
            transformation,
            camera,
        )
    }

    /// What the end of the mesh issues for its buffers: each is freed, the
    /// positions first, then normals, indices, uv coordinates and colours
    /// as far as the mesh has them.
    pub open spec fn spec_free_buffers(&self) -> Seq<Command> {
        seq![Command::DeleteBuffer { buffer: self.position_buffer.buffer }] + (
        match self.normal_buffer {
            Some(buffer) => seq![Command::DeleteBuffer { buffer: buffer.buffer }],
            None => Seq::empty(),
        }) + (match self.index_buffer {
            Some(buffer) => seq![Command::DeleteBuffer { buffer: buffer.buffer }],
            None => Seq::empty(),
        }) + (match self.uv_buffer {
            Some(buffer) => seq![Command::DeleteBuffer { buffer: buffer.buffer }],
            None => Seq::empty(),
        }) + (match self.color_buffer {
            Some(buffer) => seq![Command::DeleteBuffer { buffer: buffer.buffer }],
            None => Seq::empty(),
        })
    }

    /// Whether the mesh has every attribute that the program reads.
    pub open spec fn renders(&self, program: &MeshProgram) -> bool {
        &&& program.use_uvs ==> self.uv_buffer is Some
        &&& program.use_normals ==> self.normal_buffer is Some
        &&& program.use_colors ==> self.color_buffer is Some
    }

    /// Whether rendering the mesh with the program comes to hand over the
    /// matrix of the normals.
    pub open spec fn reads_normal_matrix(&self, program: &MeshProgram) -> bool {
        &&& program.use_normals
        &&& self.normal_buffer is Some
        &&& program.use_uvs ==> self.uv_buffer is Some
    }

    /// Whether rendering the mesh with the program comes to hand over the
    /// matrix of the normals.
    pub fn needs_normal_matrix(&self, program: &MeshProgram) -> (needed: bool)
        ensures
            needed == self.reads_normal_matrix(program),
    {
        program.use_normals && self.normal_buffer.is_some() && (!program.use_uvs
            || self.uv_buffer.is_some())
    }

    /// Whether the mesh has every attribute that the program reads.
    pub fn can_render(&self, program: &MeshProgram) -> (possible: bool)
        ensures
            possible == self.renders(program),
    {
        (!program.use_uvs || self.uv_buffer.is_some()) && (!program.use_normals
            || self.normal_buffer.is_some()) && (!program.use_colors
            || self.color_buffer.is_some())
    }

    /// A mesh of the given buffers of per vertex data on the device. The
    /// shared programs count one mesh more.
    pub fn new(
        programs: &mut MeshPrograms,
        position_buffer: VertexBuffer,
        normal_buffer: Option<VertexBuffer>,
        index_buffer: Option<ElementBuffer>,
        uv_buffer: Option<VertexBuffer>,
        color_buffer: Option<VertexBuffer>,
    ) -> (mesh: Mesh)
        requires
            old(programs).mesh_count < u32::MAX,
        ensures
            mesh == (Mesh { position_buffer, normal_buffer, index_buffer, uv_buffer, color_buffer }),
            *final(programs) == (MeshPrograms {
                mesh_count: (old(programs).mesh_count + 1) as u32,
                ..*old(programs)
            }),
    {
        programs.mesh_count = programs.mesh_count + 1;
        Mesh { position_buffer, normal_buffer, index_buffer, uv_buffer, color_buffer }
    }

    /// The end of the mesh: the shared programs count one mesh less and are
    /// freed if this was the last one, and the buffers of the mesh are
    /// freed. The mesh is used up.
    pub fn delete(self, programs: &mut MeshPrograms) -> (commands: Vec<Command>)
        requires
            old(programs).mesh_count > 0,
        ensures
            commands@ == old(programs).spec_release() + self.spec_free_buffers(),
            *final(programs) == old(programs).released(),
    {
        let mut commands = programs.release();
        let mut freed = self.free_buffers();
        commands.append(&mut freed);
        commands
    }

    fn free_buffers(&self) -> (commands: Vec<Command>)
        ensures
            commands@ == self.spec_free_buffers(),
    {
        let mut commands: Vec<Command> = Vec::new();
        commands.push(Command::DeleteBuffer { buffer: self.position_buffer.buffer });
        if let Some(buffer) = self.normal_buffer {
            commands.push(Command::DeleteBuffer { buffer: buffer.buffer });
        }
        if let Some(buffer) = self.index_buffer {
            commands.push(Command::DeleteBuffer { buffer: buffer.buffer });
        }
        if let Some(buffer) = self.uv_buffer {
            commands.push(Command::DeleteBuffer { buffer: buffer.buffer });
        }
        if let Some(buffer) = self.color_buffer {
            commands.push(Command::DeleteBuffer { buffer: buffer.buffer });
        }
        commands
    }

    /// Render the mesh with the given mesh program. Must be called in a
    /// render target render function, for example in the closure of
    /// `Screen::write`. The transformation can be used to position,
    /// orientate and scale the mesh; its matrix of the normals must be
    /// there where the rendering comes to hand it over.
    ///
    /// # Errors
    /// Will return an error if the mesh shader program requires a certain
    /// attribute and the mesh does not have that attribute. For example if
    /// the program needs the normal to calculate lighting, but the mesh does
    /// not have per vertex normals, this function will return an error.
    pub fn render(
        &self,
        program: &MeshProgram,
        render_states: RenderStates,
        viewport: Viewport,
        transformation: &Transformation,
        camera: &Camera,
    ) -> (recording: Recording)
        requires
            self.reads_normal_matrix(program) ==> transformation.normal_matrix is Some,
        ensures
            recording@ == self.spec_render(
                program,
                render_states,
                viewport,
                *transformation,
                *camera,
            ),
    {
        let ghost begin = self.spec_begin(program, *transformation, *camera);
        let mut commands: Vec<Command> = Vec::new();
        commands.push(
            Command::UseUniformMat4 {
                program: program.program,
                name: Name::ModelMatrix,
                value: transformation.matrix,
            },
        );
        commands.push(
            Command::UseUniformBlock {
                program: program.program,
                buffer: camera.matrix_buffer(),
                name: Name::Camera,
            },
        );
        commands.push(
            Command::UseAttributeVec3 {
                program: program.program,
                buffer: self.position_buffer.buffer,
                name: Name::Position,
            },
        );
        assert(commands@ =~= begin);
        if program.use_uvs {
            match self.uv_buffer {
                Some(uv_buffer) => {
                    commands.push(
                        Command::UseAttributeVec2 {
                            program: program.program,
                            buffer: uv_buffer.buffer,
                            name: Name::UvCoordinates,
                        },
                    );
                },
                None => {
                    return Recording {
                        commands,
                        result: Err(
                            Error::FailedToCreateMesh {
                                message: String::from_str(
                                    "The mesh shader program needs uv coordinates, but the mesh does not have any.",
                                ),
                            },
                        ),
                    };
                },
            }
        }
        assert(RecordingView::done(commands@) =~= RecordingView::done(begin).followed_by(
            self.spec_uvs(program),
        )) by {
            assert(commands@ =~= begin + self.spec_uvs(program).commands);
        }
        let ghost after_uvs = commands@;
        if program.use_normals {
            match self.normal_buffer {
                Some(normal_buffer) => {
                    commands.push(
                        Command::UseUniformMat4 {
                            program: program.program,
                            name: Name::NormalMatrix,
                            value: transformation.normal_matrix.unwrap(),
                        },
                    );
                    commands.push(
                        Command::UseAttributeVec3 {
                            program: program.program,
                            buffer: normal_buffer.buffer,
                            name: Name::Normal,
                        },
                    );
                },
                None => {
                    return Recording {
                        commands,
                        result: Err(
                            Error::FailedToCreateMesh {
                                message: String::from_str(
                                    "The mesh shader program needs normals, but the mesh does not have any. Consider calculating the normals on the CPUMesh.",
                                ),
                            },
                        ),
                    };
                },
            }
        }
        assert(commands@ =~= after_uvs + self.spec_normals(program, *transformation).commands);
        let ghost after_normals = commands@;
        if program.use_colors {
            match self.color_buffer {
                Some(color_buffer) => {
                    commands.push(
                        Command::UseAttributeVec4 {
                            program: program.program,
                            buffer: color_buffer.buffer,
                            name: Name::Color,
                        },
                    );
                },
                None => {
                    return Recording {
                        commands,
                        result: Err(
                            Error::FailedToCreateMesh {
                                message: String::from_str(
                                    "The mesh shader program needs per vertex colors, but the mesh does not have any.",
                                ),
                            },
                        ),
                    };
                },
            }
        }
        assert(commands@ =~= after_normals + self.spec_colors(program).commands);
        let ghost after_colors = commands@;
        if let Some(ref index_buffer) = self.index_buffer {
            commands.push(
                Command::DrawElements {
                    program: program.program,
                    render_states,
                    viewport,
                    element_buffer: index_buffer.buffer,
                },
            );
        } else {
            commands.push(
                Command::DrawArrays {
                    program: program.program,
                    render_states,
                    viewport,
                    count: (#[verifier::truncate]
                    (self.position_buffer.count() as u32)) / 3,
                },
            );
        }
        assert(commands@ =~= after_colors + seq![self.spec_draw(program, render_states, viewport)]);
        Recording::done(commands)
    }

    fn render_shared(
        &self,
        programs: &mut MeshPrograms,
        shader: MeshShader,
        handed: Vec<Command>,
        render_states: RenderStates,
        viewport: Viewport,
        transformation: &Transformation,
        camera: &Camera,
    ) -> (recording: Recording)
        requires
            self.reads_normal_matrix(&old(programs).program(shader))
                ==> transformation.normal_matrix is Some,
        ensures
            recording@ == self.spec_render_shared(
                *old(programs),
                shader,
                handed@,
                render_states,
                viewport,
                *transformation,
                *camera,
            ),
            *final(programs) == old(programs).with_created(shader),
    {
        let (program, mut commands) = programs.get(shader);
        let mut handed = handed;
        commands.append(&mut handed);
        Recording::done(commands).followed_by(
            self.render(&program, render_states, viewport, transformation, camera),
        )
    }

    /// Render only the depth of the mesh into the current depth render
    /// target, which is useful for shadow maps or a depth pre-pass. Must be
    /// called in a render target render function, for example in the
    /// closure of `Screen::write`. The transformation can be used to
    /// position, orientate and scale the mesh.
    pub fn render_depth(
        &self,
        programs: &mut MeshPrograms,
        render_states: RenderStates,
        viewport: Viewport,
        transformation: &Transformation,
        camera: &Camera,
    ) -> (recording: Recording)
        requires
            self.reads_normal_matrix(&old(programs).depth) ==> transformation.normal_matrix is Some,
        ensures
            recording@ == self.spec_render_shared(
                *old(programs),
                MeshShader::Depth,
                Seq::empty(),
                render_states,
                viewport,
                *transformation,
                *camera,
            ),
            *final(programs) == old(programs).with_created(MeshShader::Depth),
    {
        self.render_shared(
            programs,
            MeshShader::Depth,
            Vec::new(),
            render_states,
            viewport,
            transformation,
            camera,
        )
    }

    /// Render the mesh with a colour per triangle vertex. The colours are
    /// defined when constructing the mesh. Must be called in a render
    /// target render function, for example in the closure of
    /// `Screen::write`. The transformation can be used to position,
    /// orientate and scale the mesh.
    ///
    /// # Errors
    /// Will return an error if the mesh has no colours and the shared
    /// program reads them.
    pub fn render_color(
        &self,
        programs: &mut MeshPrograms,
        render_states: RenderStates,
        viewport: Viewport,
        transformation: &Transformation,
        camera: &Camera,
    ) -> (recording: Recording)
        requires
            self.reads_normal_matrix(&old(programs).per_vertex_color)
                ==> transformation.normal_matrix is Some,
        ensures
            recording@ == self.spec_render_shared(
                *old(programs),
                MeshShader::PerVertexColor,
                Seq::empty(),
                render_states,
                viewport,
                *transformation,
                *camera,
            ),
            *final(programs) == old(programs).with_created(MeshShader::PerVertexColor),
    {
        self.render_shared(
            programs,
            MeshShader::PerVertexColor,
            Vec::new(),
            render_states,
            viewport,
            transformation,
            camera,
        )
    }

    /// Render the mesh with the given colour. Must be called in a render
    /// target render function, for example in the closure of
    /// `Screen::write`. The transformation can be used to position,
    /// orientate and scale the mesh.
    pub fn render_with_color(
        &self,
        programs: &mut MeshPrograms,
        color: &Vec4,
        render_states: RenderStates,
        viewport: Viewport,
        transformation: &Transformation,
        camera: &Camera,
    ) -> (recording: Recording)
        requires
            self.reads_normal_matrix(&old(programs).color) ==> transformation.normal_matrix is Some,
        ensures
            recording@ == self.spec_render_with_color(
                *old(programs),
                *color,
                render_states,
                viewport,
                *transformation,
                *camera,
            ),
            *final(programs) == old(programs).with_created(MeshShader::Color),
    {
        let mut handed: Vec<Command> = Vec::new();
        handed.push(
            Command::UseUniformVec4 {
                program: programs.color.program,
                name: Name::Color,
                value: *color,
            },
        );
        self.render_shared(
            programs,
            MeshShader::Color,
            handed,
            render_states,
            viewport,
            transformation,
            camera,
        )
    }

    /// Render the mesh with the given texture. Must be called in a render
    /// target render function, for example in the closure of
    /// `Screen::write`. The transformation can be used to position,
    /// orientate and scale the mesh.
    ///
    /// # Errors
    /// Will return an error if the mesh has no uv coordinates and the
    /// shared program reads them.
    pub fn render_with_texture(
        &self,
        programs: &mut MeshPrograms,
        texture: Texture,
        render_states: RenderStates,
        viewport: Viewport,
        transformation: &Transformation,
        camera: &Camera,
    ) -> (recording: Recording)
        requires
            self.reads_normal_matrix(&old(programs).texture)
                ==> transformation.normal_matrix is Some,
        ensures
            recording@ == self.spec_render_shared(
                *old(programs),
                MeshShader::Texture,
                seq![
                    Command::UseTexture {
                        program: old(programs).texture.program,
                        texture,
                        name: Name::Tex,
                    },
                ],
                render_states,
                viewport,
                *transformation,
                *camera,
            ),
            *final(programs) == old(programs).with_created(MeshShader::Texture),
    {
        let mut handed: Vec<Command> = Vec::new();
        handed.push(
            Command::UseTexture { program: programs.texture.program, texture, name: Name::Tex },
        );
        self.render_shared(
            programs,
            MeshShader::Texture,
            handed,
            render_states,
            viewport,
            transformation,
            camera,
        )
    }
}

/// Rendering a mesh with a program succeeds exactly where the mesh has every
/// attribute that the program reads, whatever else is handed in; and so does
/// rendering it with one of the shared programs.
pub proof fn lemma_render_succeeds_iff_attributes_present(
    mesh: Mesh,
    program: &MeshProgram,
    programs: MeshPrograms,
    shader: MeshShader,
    handed: Seq<Command>,
    render_states: RenderStates,
    viewport: Viewport,
    transformation: Transformation,
    camera: Camera,
)
    ensures
        mesh.spec_render(program, render_states, viewport, transformation, camera).failure is None
            <==> mesh.renders(program),
        mesh.spec_render_shared(
            programs,
            shader,
            handed,
            render_states,
            viewport,
            transformation,
            camera,
        ).failure is None <==> mesh.renders(&programs.program(shader)),
{
}

/// A rendering that fails has not drawn: no draw command stands in what it
/// issued.
pub proof fn lemma_failed_render_draws_nothing(
    mesh: Mesh,
    program: &MeshProgram,
    render_states: RenderStates,
    viewport: Viewport,
    transformation: Transformation,
    camera: Camera,
    at: int,
)
    requires
        !mesh.renders(program),
        0 <= at < mesh.spec_render(
            program,
            render_states,
            viewport,
            transformation,
            camera,
        ).commands.len(),
    ensures
        !(mesh.spec_render(program, render_states, viewport, transformation, camera).commands[at]
            is DrawArrays),
        !(mesh.spec_render(program, render_states, viewport, transformation, camera).commands[at]
            is DrawElements),
{
}

/// When the last mesh ends, every shared program that was linked is freed
/// and none is linked any more; the end of any other mesh leaves the
/// programs as they are.
pub proof fn lemma_programs_live_as_long_as_meshes(programs: MeshPrograms)
    requires
        programs.mesh_count > 0,
    ensures
        programs.mesh_count == 1 ==> forall|shader: MeshShader|
            !programs.released().created(shader) && (programs.created(shader)
                ==> programs.spec_release().contains(
                Command::DeleteProgram { program: programs.program(shader).program },
            )),
        programs.mesh_count > 1 ==> programs.spec_release().len() == 0 && forall|
            shader: MeshShader,
        |
            programs.released().created(shader) == programs.created(shader),
        programs.released().mesh_count == programs.mesh_count - 1,
{
    if programs.mesh_count == 1 {
        let freed = programs.spec_release();
        assert forall|shader: MeshShader| programs.created(shader) implies freed.contains(
            Command::DeleteProgram { program: programs.program(shader).program },
        ) by {
            let depth = MeshPrograms::spec_free(programs.depth_created, programs.depth);
            let color = MeshPrograms::spec_free(programs.color_created, programs.color);
            let texture = MeshPrograms::spec_free(programs.texture_created, programs.texture);
            let per_vertex_color = MeshPrograms::spec_free(
                programs.per_vertex_color_created,
                programs.per_vertex_color,
            );
            match shader {
                MeshShader::Depth => {
                    assert(freed[0] == depth[0]);
                },
                MeshShader::Color => {
                    assert(freed[depth.len() as int] == color[0]);
                },
                MeshShader::Texture => {
                    assert(freed[(depth.len() + color.len()) as int] == texture[0]);
                },
                MeshShader::PerVertexColor => {
                    assert(freed[(depth.len() + color.len() + texture.len()) as int]
                        == per_vertex_color[0]);
                },
            }
        }
    }
}

} // verus!
