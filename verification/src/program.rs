//! Programs: linking two compiled stages, making the program current, and
//! resolving uniform names to locations through a cache.

use crate::codes;
use crate::command::GlCommand;
use crate::context::{GpuContext, GpuState};
use crate::shader::Shader;
use crate::table::NameTable;
use vstd::prelude::*;

verus! {

/// The driver refused to link; `log` is its diagnostic text, unchanged.
#[derive(Debug, PartialEq, Eq)]
pub struct LinkError {
    pub log: String,
}

/// What to do next about one uniform.
#[derive(Clone, Copy, Debug, PartialEq, Eq, Structural)]
pub enum UniformStep {
    /// Upload the value to this location.
    Upload { location: i32 },
    /// The program has no active uniform of that name: upload nothing.
    Skip,
    /// The location is not known yet: ask the driver, then report its answer.
    Query,
}

/// A linked program with the uniform locations it has learnt so far.
#[derive(Debug)]
pub struct Program {
    id: u32,
    locations: NameTable<i32>,
}

/// What follows from a location: the driver gives a negative location to a
/// name that is no active uniform, and such a uniform is silently left alone.
pub open spec fn step_for(location: i32) -> UniformStep {
    if location >= 0 {
        UniformStep::Upload { location }
    } else {
        UniformStep::Skip
    }
}

/// What to do about the uniform `name`, given the locations learnt so far.
pub open spec fn step_from_cache(locations: Map<Seq<char>, i32>, name: Seq<char>) -> UniformStep {
    if locations.contains_key(name) {
        step_for(locations[name])
    } else {
        UniformStep::Query
    }
}

/// The requests that link program `id` from two compiled stages.
pub open spec fn link_requests(id: u32, vertex: u32, fragment: u32) -> Seq<GlCommand> {
    seq![
        GlCommand::AttachShader { program: id, shader: vertex },
        GlCommand::AttachShader { program: id, shader: fragment },
        GlCommand::LinkProgram { program: id },
    ]
}

/// The requests that follow a link: both stages are released whatever the
/// outcome, and the program too where the link failed.
pub open spec fn cleanup_requests(id: u32, vertex: u32, fragment: u32, linked: bool) -> Seq<
    GlCommand,
> {
    let stages = seq![
        GlCommand::DeleteShader { shader: vertex },
        GlCommand::DeleteShader { shader: fragment },
    ];
    if linked {
        stages
    } else {
        stages.push(GlCommand::DeleteProgram { program: id })
    }
}

/// A uniform whose name the program does not have is left alone, and the
/// locations learnt for every other name stay as they were.
pub proof fn lemma_absent_uniform_is_skipped(
    locations: Map<Seq<char>, i32>,
    name: Seq<char>,
    location: i32,
    other: Seq<char>,
)
    requires
        location < 0,
        other != name,
    ensures
        step_for(location) == UniformStep::Skip,
        step_from_cache(locations.insert(name, location), name) == UniformStep::Skip,
        locations.insert(name, location).contains_key(other) == locations.contains_key(other),
        locations.contains_key(other) ==> locations.insert(name, location)[other]
            == locations[other],
        step_from_cache(locations.insert(name, location), other) == step_from_cache(
            locations,
            other,
        ),
{
}

/// Once a location has been reported for a name, the cache answers for that
/// name without another query.
pub proof fn lemma_located_uniform_is_cached(
    locations: Map<Seq<char>, i32>,
    name: Seq<char>,
    location: i32,
)
    ensures
        step_from_cache(locations.insert(name, location), name) == step_for(location),
        step_from_cache(locations.insert(name, location), name) != UniformStep::Query,
{
}

impl Program {
    /// The driver's handle of this program.
    pub closed spec fn handle(&self) -> u32 {
        self.id
    }

    /// The locations learnt so far, by uniform name.
    pub closed spec fn locations(&self) -> Map<Seq<char>, i32> {
        self.locations@
    }

    /// The requests that link the program object `id` from a vertex and a
    /// fragment stage: attach both, then link.
    pub fn link_commands(id: u32, vertex: &Shader, fragment: &Shader) -> (commands: Vec<GlCommand>)
        ensures
            commands@ == link_requests(id, vertex.id, fragment.id),
    {
        let mut commands: Vec<GlCommand> = Vec::new();
        commands.push(GlCommand::AttachShader { program: id, shader: vertex.id });
        commands.push(GlCommand::AttachShader { program: id, shader: fragment.id });
        commands.push(GlCommand::LinkProgram { program: id });
        assert(commands@ =~= link_requests(id, vertex.id, fragment.id));
        commands
    }

    /// Concludes a link from the driver's answer.
    ///
    /// Both stages are consumed and released whatever the outcome. Where
    /// `status` is the driver's "false" the result is the error, with the log
    /// unchanged, and the program object is released as well; otherwise the
    /// result is the program, with no location learnt yet.
    pub fn link(id: u32, vertex: Shader, fragment: Shader, status: i32, log: String) -> (out: (
        Result<Program, LinkError>,
        Vec<GlCommand>,
    ))
        ensures
            out.1@ == cleanup_requests(id, vertex.id, fragment.id, status != codes::FALSE),
            status != codes::FALSE ==> out.0 is Ok && out.0->Ok_0.handle() == id
                && out.0->Ok_0.locations() == Map::<Seq<char>, i32>::empty(),
            status == codes::FALSE ==> out.0 == Err::<Program, LinkError>(LinkError { log }),
    {
        let mut commands: Vec<GlCommand> = Vec::new();
        commands.push(GlCommand::DeleteShader { shader: vertex.id });
        commands.push(GlCommand::DeleteShader { shader: fragment.id });
        if status == codes::gl_false() as i32 {
            commands.push(GlCommand::DeleteProgram { program: id });
            assert(commands@ =~= cleanup_requests(id, vertex.id, fragment.id, false));
            (Err(LinkError { log }), commands)
        } else {
            assert(commands@ =~= cleanup_requests(id, vertex.id, fragment.id, true));
            (Ok(Program { id, locations: NameTable::new() }), commands)
        }
    }

    /// The driver's handle of this program.
    pub fn id(&self) -> (id: u32)
        ensures
            id == self.handle(),
    {
        self.id
    }

    /// Makes this program the current pipeline. Texture bindings stay.
    pub fn activate(&self, ctx: &mut GpuContext) -> (command: GlCommand)
        ensures
            command == (GlCommand::UseProgram { program: self.handle() }),
            final(ctx)@ == old(ctx)@.step(command),
            final(ctx)@ == (GpuState { program: self.handle(), ..old(ctx)@ }),
    {
        let command = GlCommand::UseProgram { program: self.id };
        ctx.apply(command);
        command
    }

    /// The first step of setting the uniform `name`: what the cache says.
    ///
    /// The program must be current. Where the location is cached the answer
    /// is final: upload to it, or skip a name that the program does not have.
    /// Otherwise the driver has to be asked, and `located_uniform` takes its
    /// answer.
    pub fn set_uniform(&self, ctx: &GpuContext, name: &str) -> (step: UniformStep)
        requires
            ctx.current_program() == self.handle(),
        ensures
            step == step_from_cache(self.locations(), name@),
    {
        match self.locations.get(name) {
            Some(location) => Program::step(*location),
            None => UniformStep::Query,
        }
    }

    /// The second step of setting the uniform `name`: the driver reported
    /// `location` for it. The location is cached, and the answer is final.
    /// A name that the program does not have is skipped, silently, and the
    /// locations of all other names stay as they were.
    pub fn located_uniform(&mut self, ctx: &GpuContext, name: &str, location: i32) -> (step:
        UniformStep)
        requires
            ctx.current_program() == old(self).handle(),
        ensures
            step == step_for(location),
            final(self).handle() == old(self).handle(),
            final(self).locations() == old(self).locations().insert(name@, location),
    {
        self.locations.insert(name, location);
        Program::step(location)
    }

    /// What follows from a location.
    pub fn step(location: i32) -> (step: UniformStep)
        ensures
            step == step_for(location),
    {
        if location >= 0 {
            UniformStep::Upload { location }
        } else {
            UniformStep::Skip
        }
    }

    /// Releases this program, consuming the value and with it every cached
    /// location.
    pub fn destroy(self) -> (command: GlCommand)
        ensures
            command == (GlCommand::DeleteProgram { program: self.handle() }),
    {
        GlCommand::DeleteProgram { program: self.id }
    }
}

} // verus!
