//! A model of the driver's implicit state: which program is current, which
//! texture unit is selected, and which texture each unit has bound.
//!
//! The driver keeps this state in hidden globals, so the order of requests
//! matters. Here it is a value. `GpuState` says what each request does to it;
//! `GpuContext` is the executable record of it that operations take and
//! update, and their contracts say what they need from it and what they leave
//! in it.
//!
//! The model takes every unit code from `TEXTURE0` upwards to name a unit that
//! the driver has.

use crate::codes;
use crate::command::GlCommand;
use vstd::prelude::*;

verus! {

/// The driver state that the order of requests depends on.
pub struct GpuState {
    /// The handle of the current program; zero where none is current.
    pub program: u32,
    /// The index of the selected texture unit.
    pub unit: u32,
    /// The texture bound to the two-dimensional target of each unit; zero
    /// where none is bound.
    pub textures: Map<u32, u32>,
}

impl GpuState {
    /// The state of a fresh rendering context: no current program, unit zero
    /// selected, no texture bound anywhere.
    pub open spec fn fresh() -> GpuState {
        GpuState { program: 0, unit: 0, textures: Map::total(|unit: u32| 0u32) }
    }

    /// The state after one request.
    ///
    /// Making a program current replaces the current program. Selecting a
    /// unit replaces the selected unit; a code below `TEXTURE0` names no unit
    /// and is ignored. Binding to the two-dimensional target replaces the
    /// binding of the selected unit. Releasing a texture unbinds it wherever
    /// it is bound. No other request touches this state.
    pub open spec fn step(self, command: GlCommand) -> GpuState {
        match command {
            GlCommand::UseProgram { program } => GpuState { program, ..self },
            GlCommand::ActiveTexture { unit } => if unit >= codes::TEXTURE0 {
                GpuState { unit: (unit - codes::TEXTURE0) as u32, ..self }
            } else {
                self
            },
            GlCommand::BindTexture { target, texture } => if target == codes::TEXTURE_2D {
                GpuState { textures: self.textures.insert(self.unit, texture), ..self }
            } else {
                self
            },
            GlCommand::DeleteTexture { texture } => GpuState {
                textures: Map::total(
                    |unit: u32|
                        if self.textures[unit] == texture {
                            0
                        } else {
                            self.textures[unit]
                        },
                ),
                ..self
            },
            _ => self,
        }
    }

    /// The state after a sequence of requests, carried out in order.
    pub open spec fn run(self, commands: Seq<GlCommand>) -> GpuState
        decreases commands.len(),
    {
        if commands.len() == 0 {
            self
        } else {
            self.run(commands.drop_last()).step(commands.last())
        }
    }
}

/// Carrying out one more request after a sequence is a step from where the
/// sequence led.
pub proof fn lemma_run_push(state: GpuState, commands: Seq<GlCommand>, command: GlCommand)
    ensures
        state.run(commands.push(command)) == state.run(commands).step(command),
{
    assert(commands.push(command).drop_last() =~= commands);
    assert(commands.push(command).last() == command);
}

/// Carrying out two sequences one after the other is carrying out their
/// concatenation.
pub proof fn lemma_run_concat(state: GpuState, first: Seq<GlCommand>, second: Seq<GlCommand>)
    ensures
        state.run(first + second) == state.run(first).run(second),
    decreases second.len(),
{
    if second.len() == 0 {
        assert(first + second =~= first);
    } else {
        assert((first + second).drop_last() =~= first + second.drop_last());
        assert((first + second).last() == second.last());
        lemma_run_concat(state, first, second.drop_last());
    }
}

/// Requests that set sampler parameters, pixel-store parameters, the polygon
/// mode or the viewport, that upload pixels or build mipmaps, and those that
/// attach, link or release shaders and programs, leave the state as it is.
pub proof fn lemma_step_without_effect(state: GpuState, command: GlCommand)
    requires
        !(command is UseProgram),
        !(command is ActiveTexture),
        !(command is BindTexture),
        !(command is DeleteTexture),
    ensures
        state.step(command) == state,
{
}

/// The texture bound to the two-dimensional target of one unit.
#[derive(Clone, Copy, Debug)]
struct UnitBinding {
    unit: u32,
    texture: u32,
}

/// What is left of `texture` once `released` is released: nothing where it
/// is the released texture, else itself.
spec fn unless_released(texture: u32, released: u32) -> u32 {
    if texture == released {
        0
    } else {
        texture
    }
}

/// The texture that `bindings` records for `unit`; zero, the driver's name for
/// "no texture", where it records none.
spec fn binding_of(bindings: Seq<UnitBinding>, unit: u32) -> u32
    decreases bindings.len(),
{
    if bindings.len() == 0 {
        0
    } else if bindings.last().unit == unit {
        bindings.last().texture
    } else {
        binding_of(bindings.drop_last(), unit)
    }
}

/// Where `bindings[i]` is the last entry that records its unit, the texture
/// of that unit is that of `bindings[i]`.
proof fn lemma_binding_at(bindings: Seq<UnitBinding>, i: int)
    requires
        0 <= i < bindings.len(),
        forall|k: int| i < k < bindings.len() ==> (#[trigger] bindings[k]).unit != bindings[i].unit,
    ensures
        binding_of(bindings, bindings[i].unit) == bindings[i].texture,
    decreases bindings.len(),
{
    if i < bindings.len() - 1 {
        assert(bindings.last() == bindings[bindings.len() - 1]);
        let rest = bindings.drop_last();
        assert(rest[i] == bindings[i]);
        assert forall|k: int| i < k < rest.len() implies (#[trigger] rest[k]).unit
            != rest[i].unit by {
            assert(rest[k] == bindings[k]);
        }
        lemma_binding_at(rest, i);
    }
}

/// Where no entry of `bindings` records `unit`, its texture is zero.
proof fn lemma_binding_absent(bindings: Seq<UnitBinding>, unit: u32)
    requires
        forall|i: int| 0 <= i < bindings.len() ==> (#[trigger] bindings[i]).unit != unit,
    ensures
        binding_of(bindings, unit) == 0,
    decreases bindings.len(),
{
    if bindings.len() > 0 {
        assert(bindings.last() == bindings[bindings.len() - 1]);
        let rest = bindings.drop_last();
        assert forall|i: int| 0 <= i < rest.len() implies (#[trigger] rest[i]).unit != unit by {
            assert(rest[i] == bindings[i]);
        }
        lemma_binding_absent(rest, unit);
    }
}

/// Replacing an entry by one that records the same unit leaves every other
/// unit's texture as it was.
proof fn lemma_binding_update_other(
    bindings: Seq<UnitBinding>,
    i: int,
    entry: UnitBinding,
    unit: u32,
)
    requires
        0 <= i < bindings.len(),
        entry.unit == bindings[i].unit,
        unit != entry.unit,
    ensures
        binding_of(bindings.update(i, entry), unit) == binding_of(bindings, unit),
    decreases bindings.len(),
{
    let updated = bindings.update(i, entry);
    let last = bindings.len() - 1;
    assert(updated.last() == updated[last]);
    assert(bindings.last() == bindings[last]);
    if i == last {
        assert(updated.drop_last() =~= bindings.drop_last());
    } else {
        assert(updated.drop_last() =~= bindings.drop_last().update(i, entry));
        assert(bindings.drop_last()[i] == bindings[i]);
        if bindings.last().unit != unit {
            lemma_binding_update_other(bindings.drop_last(), i, entry, unit);
        }
    }
}

/// Replacing the texture of the last entry that records a unit changes the
/// texture of that unit and of no other.
proof fn lemma_binding_update(bindings: Seq<UnitBinding>, i: int, texture: u32, unit: u32)
    requires
        0 <= i < bindings.len(),
        forall|k: int| i < k < bindings.len() ==> (#[trigger] bindings[k]).unit != bindings[i].unit,
    ensures
        ({
            let entry = UnitBinding { unit: bindings[i].unit, texture };
            binding_of(bindings.update(i, entry), unit) == if unit == entry.unit {
                texture
            } else {
                binding_of(bindings, unit)
            }
        }),
{
    let entry = UnitBinding { unit: bindings[i].unit, texture };
    let updated = bindings.update(i, entry);
    if unit == bindings[i].unit {
        assert(updated[i] == entry);
        assert forall|k: int| i < k < updated.len() implies (#[trigger] updated[k]).unit
            != updated[i].unit by {
            assert(updated[k] == bindings[k]);
        }
        lemma_binding_at(updated, i);
    } else {
        lemma_binding_update_other(bindings, i, entry, unit);
    }
}

/// Adding an entry at the end sets the texture of its unit and of no other.
proof fn lemma_binding_push(bindings: Seq<UnitBinding>, entry: UnitBinding, unit: u32)
    ensures
        binding_of(bindings.push(entry), unit) == if unit == entry.unit {
            entry.texture
        } else {
            binding_of(bindings, unit)
        },
{
    let pushed = bindings.push(entry);
    assert(pushed.last() == entry);
    assert(pushed.drop_last() =~= bindings);
}

/// Clearing every entry that holds `texture` clears the units that had it
/// bound and leaves the others as they were.
proof fn lemma_binding_clear(
    before: Seq<UnitBinding>,
    after: Seq<UnitBinding>,
    texture: u32,
    unit: u32,
)
    requires
        after.len() == before.len(),
        forall|i: int|
            0 <= i < before.len() ==> (#[trigger] after[i]).unit == before[i].unit
                && after[i].texture == unless_released(before[i].texture, texture),
    ensures
        binding_of(after, unit) == unless_released(binding_of(before, unit), texture),
    decreases before.len(),
{
    if before.len() > 0 {
        let last = before.len() - 1;
        assert(before.last() == before[last]);
        assert(after.last() == after[last]);
        assert(after[last].unit == before[last].unit);
        let b = before.drop_last();
        let a = after.drop_last();
        assert forall|i: int| 0 <= i < b.len() implies (#[trigger] a[i]).unit == b[i].unit
            && a[i].texture == unless_released(b[i].texture, texture) by {
            assert(a[i] == after[i]);
            assert(b[i] == before[i]);
        }
        lemma_binding_clear(b, a, texture, unit);
    }
}

/// The executable record of the driver state. Its view is the `GpuState` it
/// records.
#[derive(Debug)]
pub struct GpuContext {
    program: u32,
    unit: u32,
    bindings: Vec<UnitBinding>,
}

impl View for GpuContext {
    type V = GpuState;

    closed spec fn view(&self) -> GpuState {
        GpuState {
            program: self.program,
            unit: self.unit,
            textures: Map::total(|unit: u32| binding_of(self.bindings@, unit)),
        }
    }
}

impl GpuContext {
    /// The handle of the current program; zero where none is current.
    pub open spec fn current_program(&self) -> u32 {
        self@.program
    }

    /// The index of the selected texture unit.
    pub open spec fn active_unit(&self) -> u32 {
        self@.unit
    }

    /// The texture bound to the two-dimensional target of `unit`; zero
    /// where none is bound.
    pub open spec fn texture_at(&self, unit: u32) -> u32 {
        self@.textures[unit]
    }

    /// The state of a fresh rendering context: no current program, unit zero
    /// selected, no texture bound anywhere.
    pub fn new() -> (ctx: GpuContext)
        ensures
            ctx@ == GpuState::fresh(),
    {
        let ctx = GpuContext { program: 0, unit: 0, bindings: Vec::new() };
        assert(ctx@.textures =~= GpuState::fresh().textures);
        ctx
    }

    /// The handle of the current program.
    pub fn program(&self) -> (handle: u32)
        ensures
            handle == self.current_program(),
    {
        self.program
    }

    /// The index of the selected texture unit.
    pub fn unit(&self) -> (unit: u32)
        ensures
            unit == self.active_unit(),
    {
        self.unit
    }

    /// The texture bound at `unit`.
    pub fn bound_texture(&self, unit: u32) -> (texture: u32)
        ensures
            texture == self.texture_at(unit),
    {
        let mut i: usize = self.bindings.len();
        while i > 0
            invariant
                i <= self.bindings@.len(),
                forall|k: int|
                    i <= k < self.bindings@.len() ==> (#[trigger] self.bindings@[k]).unit != unit,
            decreases i,
        {
            i -= 1;
            if self.bindings[i].unit == unit {
                proof {
                    lemma_binding_at(self.bindings@, i as int);
                }
                return self.bindings[i].texture;
            }
        }
        proof {
            lemma_binding_absent(self.bindings@, unit);
        }
        0
    }

    /// Records that `texture` was bound at the selected unit.
    fn bind_texture(&mut self, texture: u32)
        ensures
            final(self).unit == old(self).unit,
            final(self).program == old(self).program,
            forall|u: u32|
                binding_of(final(self).bindings@, u) == if u == old(self).unit {
                    texture
                } else {
                    binding_of(old(self).bindings@, u)
                },
    {
        let unit = self.unit;
        let mut i: usize = self.bindings.len();
        while i > 0
            invariant
                i <= self.bindings@.len(),
                forall|k: int|
                    i <= k < self.bindings@.len() ==> (#[trigger] self.bindings@[k]).unit != unit,
                *self == *old(self),
                unit == self.unit,
            decreases i,
        {
            i -= 1;
            if self.bindings[i].unit == unit {
                proof {
                    assert forall|u: u32|
                        binding_of(
                            self.bindings@.update(i as int, UnitBinding { unit, texture }),
                            u,
                        ) == if u == unit {
                            texture
                        } else {
                            binding_of(self.bindings@, u)
                        } by {
                        lemma_binding_update(self.bindings@, i as int, texture, u);
                    }
                }
                self.bindings[i] = UnitBinding { unit, texture };
                return ;
            }
        }
        proof {
            let entry = UnitBinding { unit, texture };
            assert forall|u: u32|
                binding_of(self.bindings@.push(entry), u) == if u == unit {
                    texture
                } else {
                    binding_of(self.bindings@, u)
                } by {
                lemma_binding_push(self.bindings@, entry, u);
            }
        }
        self.bindings.push(UnitBinding { unit, texture });
    }

    /// Records that `texture` was released: every unit that had it bound
    /// has nothing bound afterwards.
    fn release_texture(&mut self, texture: u32)
        ensures
            final(self).unit == old(self).unit,
            final(self).program == old(self).program,
            forall|u: u32|
                binding_of(final(self).bindings@, u) == unless_released(
                    binding_of(old(self).bindings@, u),
                    texture,
                ),
    {
        let ghost before = self.bindings@;
        let mut i: usize = 0;
        while i < self.bindings.len()
            invariant
                i <= self.bindings@.len(),
                before == old(self).bindings@,
                self.bindings@.len() == before.len(),
                self.program == old(self).program,
                self.unit == old(self).unit,
                forall|k: int|
                    0 <= k < i ==> (#[trigger] self.bindings@[k]).unit == before[k].unit
                        && self.bindings@[k].texture == unless_released(before[k].texture, texture),
                forall|k: int|
                    i <= k < self.bindings@.len() ==> (#[trigger] self.bindings@[k]) == before[k],
            decreases self.bindings@.len() - i,
        {
            if self.bindings[i].texture == texture {
                let unit = self.bindings[i].unit;
                self.bindings[i] = UnitBinding { unit, texture: 0 };
            }
            i += 1;
        }
        proof {
            assert forall|u: u32|
                binding_of(self.bindings@, u) == unless_released(
                    binding_of(before, u),
                    texture,
                ) by {
                lemma_binding_clear(before, self.bindings@, texture, u);
            }
        }
    }

    /// Records one request that the driver was given.
    pub fn apply(&mut self, command: GlCommand)
        ensures
            final(self)@ == old(self)@.step(command),
    {
        match command {
            GlCommand::UseProgram { program } => {
                self.program = program;
            },
            GlCommand::ActiveTexture { unit } => {
                let first = codes::gl_texture0();
                if unit >= first {
                    self.unit = unit - first;
                }
            },
            GlCommand::BindTexture { target, texture } => {
                if target == codes::gl_texture_2d() {
                    self.bind_texture(texture);
                }
            },
            GlCommand::DeleteTexture { texture } => {
                self.release_texture(texture);
            },
            _ => {},
        }
        assert(self@.textures =~= old(self)@.step(command).textures);
    }

    /// Records a sequence of requests that the driver was given, in order.
    pub fn apply_all(&mut self, commands: &Vec<GlCommand>)
        ensures
            final(self)@ == old(self)@.run(commands@),
    {
        let mut i: usize = 0;
        while i < commands.len()
            invariant
                i <= commands@.len(),
                self@ == old(self)@.run(commands@.take(i as int)),
            decreases commands@.len() - i,
        {
            proof {
                lemma_run_push(old(self)@, commands@.take(i as int), commands@[i as int]);
                assert(commands@.take(i as int).push(commands@[i as int]) =~= commands@.take(
                    i + 1,
                ));
            }
            self.apply(commands[i]);
            i += 1;
        }
        assert(commands@.take(i as int) =~= commands@);
    }
}

} // verus!
