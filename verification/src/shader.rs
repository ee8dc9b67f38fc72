//! Shader stages: what the driver is asked to compile, and what follows from
//! its answer.

use crate::codes;
use crate::command::GlCommand;
use vstd::prelude::*;

verus! {

/// The stage of the pipeline that a shader runs in.
#[derive(Clone, Copy, Debug, PartialEq, Eq, Structural)]
pub enum ShaderStage {
    Vertex,
    Fragment,
}

/// The driver refused the source of a stage; `log` is its diagnostic text,
/// unchanged.
#[derive(Debug, PartialEq, Eq)]
pub struct CompileError {
    pub stage: ShaderStage,
    pub log: String,
}

/// A compiled stage. The value stands for the driver-side object: it is not
/// copied, and linking consumes it.
#[derive(Debug, PartialEq, Eq)]
pub struct Shader {
    pub stage: ShaderStage,
    pub id: u32,
}

/// The driver's code for a stage.
pub open spec fn stage_code(stage: ShaderStage) -> u32 {
    match stage {
        ShaderStage::Vertex => codes::VERTEX_SHADER,
        ShaderStage::Fragment => codes::FRAGMENT_SHADER,
    }
}

/// The driver's code for a stage: the kind of shader object to create for it.
pub fn gl_stage_from(stage: &ShaderStage) -> (code: u32)
    ensures
        code == stage_code(*stage),
{
    match stage {
        ShaderStage::Vertex => codes::gl_vertex_shader(),
        ShaderStage::Fragment => codes::gl_fragment_shader(),
    }
}

impl Shader {
    /// Concludes the compilation of a stage from the driver's answer.
    ///
    /// `id` is the shader object that the driver compiled, `status` its
    /// compile status and `log` its diagnostic text. Where the status is the
    /// driver's "false" the result is the error, with the log unchanged, and
    /// the one request returned releases the object, so that nothing
    /// half-made stays behind. Otherwise the result is the compiled stage and
    /// there is nothing to request.
    pub fn compile(stage: ShaderStage, id: u32, status: i32, log: String) -> (out: (
        Result<Shader, CompileError>,
        Vec<GlCommand>,
    ))
        ensures
            status != codes::FALSE ==> out.0 == Ok::<Shader, CompileError>(Shader { stage, id })
                && out.1@ == Seq::<GlCommand>::empty(),
            status == codes::FALSE ==> out.0 == Err::<Shader, CompileError>(
                CompileError { stage, log },
            ) && out.1@ == seq![GlCommand::DeleteShader { shader: id }],
    {
        let mut commands: Vec<GlCommand> = Vec::new();
        if status == codes::gl_false() as i32 {
            commands.push(GlCommand::DeleteShader { shader: id });
            assert(commands@ =~= seq![GlCommand::DeleteShader { shader: id }]);
            (Err(CompileError { stage, log }), commands)
        } else {
            (Ok(Shader { stage, id }), commands)
        }
    }

    /// Releases a stage that will not be linked, consuming the value.
    pub fn destroy(self) -> (command: GlCommand)
        ensures
            command == (GlCommand::DeleteShader { shader: self.id }),
    {
        GlCommand::DeleteShader { shader: self.id }
    }
}

} // verus!
