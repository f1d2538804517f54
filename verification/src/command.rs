//! Command encoding: the clear and draw commands of one frame, recorded in
//! order into a buffer that is bound to that frame's target.

use vstd::prelude::*;
use crate::config::{ClearValues, FrameTarget};
use crate::geometry::{BufferRange, GeometryBuffer, Instance, Vertex};
use crate::pipeline::PipelineState;

verus! {

/// One draw: the pipeline it runs and the geometry it reads.
#[derive(Clone, Copy, Debug, PartialEq, Eq)]
pub struct DrawCall {
    pub pipeline: PipelineState,
    pub vertices: BufferRange,
    pub instances: BufferRange,
}

/// One encoded command.
#[derive(Clone, Copy, Debug, PartialEq, Eq)]
pub enum Command {
    /// Overwrite the whole target with these values.
    Clear(ClearValues),
    /// Draw into the target.
    Draw(DrawCall),
}

/// What the attachments of a target hold while a command buffer executes.
#[derive(Clone, Copy, Debug, PartialEq, Eq)]
pub enum TargetState {
    /// Whatever an earlier frame left there.
    Undefined,
    /// Every pixel holds these values, and nothing else.
    Cleared(ClearValues),
    /// Geometry has been drawn over it.
    Drawn,
}

/// What a target in `state` holds after `command` has executed on it.
pub open spec fn execute(state: TargetState, command: Command) -> TargetState {
    match command {
        Command::Clear(values) => TargetState::Cleared(values),
        Command::Draw(_) => TargetState::Drawn,
    }
}

/// What a target holds just before the command at `index` executes, when
/// `commands` run in order on a target that starts out undefined. For `index`
/// equal to the length this is what the target holds in the end.
pub open spec fn state_before(commands: Seq<Command>, index: int) -> TargetState
    decreases index,
{
    if index <= 0 || index > commands.len() {
        TargetState::Undefined
    } else {
        execute(state_before(commands, index - 1), commands[index - 1])
    }
}

/// The ordering rule of a frame: every draw comes after a clear.
pub open spec fn clear_precedes_draw(commands: Seq<Command>) -> bool {
    forall|j: int|
        0 <= j < commands.len() && #[trigger] commands[j] is Draw ==> exists|i: int|
            0 <= i < j && #[trigger] commands[i] is Clear
}

/// Once a command has executed, the target is no longer undefined.
pub proof fn lemma_defined_after_first_command(commands: Seq<Command>, index: int)
    requires
        0 < index <= commands.len(),
    ensures
        !(state_before(commands, index) is Undefined),
{
}

/// The ordering rule says that no draw goes into an undefined target: every
/// draw comes after a clear exactly when no draw finds the target as an
/// earlier frame left it.
pub proof fn lemma_ordered_iff_no_draw_into_undefined(commands: Seq<Command>)
    ensures
        clear_precedes_draw(commands) <==> forall|j: int|
            0 <= j < commands.len() && #[trigger] commands[j] is Draw ==> !(state_before(commands, j)
                is Undefined),
{
    if clear_precedes_draw(commands) {
        assert forall|j: int| 0 <= j < commands.len() && #[trigger] commands[j] is Draw implies !(
        state_before(commands, j) is Undefined) by {
            lemma_defined_after_first_command(commands, j);
        }
    }
    if forall|j: int|
        0 <= j < commands.len() && #[trigger] commands[j] is Draw ==> !(state_before(commands, j)
            is Undefined) {
        assert forall|j: int| 0 <= j < commands.len() && #[trigger] commands[j] is Draw implies exists|
            i: int,
        | 0 <= i < j && #[trigger] commands[i] is Clear by {
            lemma_first_command_is_a_clear(commands, j);
        }
    }
}

/// Where no draw goes into an undefined target, the first command is a clear
/// whenever there is a draw at all.
proof fn lemma_first_command_is_a_clear(commands: Seq<Command>, j: int)
    requires
        0 <= j < commands.len(),
        commands[j] is Draw,
        forall|k: int|
            0 <= k < commands.len() && #[trigger] commands[k] is Draw ==> !(state_before(commands, k)
                is Undefined),
    ensures
        0 < j,
        commands[0] is Clear,
{
    assert(state_before(commands, 0) is Undefined);
    if commands[0] is Draw {
        assert(!(state_before(commands, 0) is Undefined));
    }
}

/// What a recording or a finished command buffer is: the target it is bound
/// to and the commands in the order they were recorded.
pub struct CommandsModel {
    pub target: FrameTarget,
    pub commands: Seq<Command>,
}

/// Records the commands of one frame. An encoder is made fresh for each frame
/// and bound to that frame's target; what it reads, it reads by reference.
#[derive(Debug)]
pub struct Encoder {
    target: FrameTarget,
    commands: Vec<Command>,
}

impl View for Encoder {
    type V = CommandsModel;

    closed spec fn view(&self) -> CommandsModel {
        CommandsModel { target: self.target, commands: self.commands@ }
    }
}

impl Encoder {
    /// An encoder bound to `target`, with nothing recorded.
    pub fn new(target: FrameTarget) -> (e: Encoder)
        ensures
            e@ == (CommandsModel { target, commands: Seq::empty() }),
    {
        Encoder { target, commands: Vec::new() }
    }

    /// Records a clear of the whole target to `values`.
    pub fn clear(&mut self, values: ClearValues)
        ensures
            final(self)@ == (CommandsModel {
                target: old(self)@.target,
                commands: old(self)@.commands.push(Command::Clear(values)),
            }),
    {
        self.commands.push(Command::Clear(values));
    }

    /// Records a draw of `vertices`, once for each of `instances`, through
    /// `pipeline`. The buffers are read through their slices, which lie within
    /// what was uploaded.
    pub fn draw(
        &mut self,
        pipeline: &PipelineState,
        vertices: &GeometryBuffer<Vertex>,
        instances: &GeometryBuffer<Instance>,
    )
        ensures
            final(self)@ == (CommandsModel {
                target: old(self)@.target,
                commands: old(self)@.commands.push(
                    Command::Draw(
                        DrawCall {
                            pipeline: *pipeline,
                            vertices: vertices@.range(),
                            instances: instances@.range(),
                        },
                    ),
                ),
            }),
            vertices@.in_bounds(),
            instances@.in_bounds(),
    {
        let call = DrawCall {
            pipeline: *pipeline,
            vertices: vertices.range(),
            instances: instances.range(),
        };
        self.commands.push(Command::Draw(call));
    }

    /// Ends the recording. The buffer holds what was recorded, in order, and
    /// can no longer be written.
    pub fn finish(self) -> (buffer: CommandBuffer)
        ensures
            buffer@ == self@,
    {
        CommandBuffer { target: self.target, commands: self.commands }
    }
}

/// A finished, write-once sequence of commands, bound to one frame target.
#[derive(Debug, PartialEq, Eq)]
pub struct CommandBuffer {
    target: FrameTarget,
    commands: Vec<Command>,
}

impl View for CommandBuffer {
    type V = CommandsModel;

    closed spec fn view(&self) -> CommandsModel {
        CommandsModel { target: self.target, commands: self.commands@ }
    }
}

impl CommandBuffer {
    /// The target the commands are bound to.
    pub fn target(&self) -> (t: FrameTarget)
        ensures
            t == self@.target,
    {
        self.target
    }

    /// The commands, in the order they were recorded.
    pub fn commands(&self) -> (c: &[Command])
        ensures
            c@ == self@.commands,
    {
        self.commands.as_slice()
    }

    /// Whether every draw of this buffer comes after a clear: `false` exactly
    /// when some draw would go into a target that nothing has cleared.
    pub fn clear_precedes_draw(&self) -> (r: bool)
        ensures
            r == clear_precedes_draw(self@.commands),
    {
        let mut cleared = false;
        let mut k: usize = 0;
        while k < self.commands.len()
            invariant
                k <= self.commands@.len(),
                cleared <==> exists|i: int| 0 <= i < k && #[trigger] self.commands@[i] is Clear,
                forall|j: int|
                    0 <= j < k && #[trigger] self.commands@[j] is Draw ==> exists|i: int|
                        0 <= i < j && #[trigger] self.commands@[i] is Clear,
            decreases self.commands@.len() - k,
        {
            match self.commands[k] {
                Command::Clear(_) => {
                    cleared = true;
                },
                Command::Draw(_) => {
                    if !cleared {
                        return false;
                    }
                },
            }
            k += 1;
        }
        true
    }

    /// What the target holds just before the command at `index` executes; for
    /// `index` equal to the number of commands, what it holds in the end.
    pub fn state_before(&self, index: usize) -> (s: TargetState)
        ensures
            s == state_before(self@.commands, index as int),
    {
        if index > self.commands.len() {
            return TargetState::Undefined;
        }
        let mut state = TargetState::Undefined;
        let mut k: usize = 0;
        while k < index
            invariant
                k <= index <= self.commands@.len(),
                state == state_before(self.commands@, k as int),
            decreases index - k,
        {
            state = match self.commands[k] {
                Command::Clear(values) => TargetState::Cleared(values),
                Command::Draw(_) => TargetState::Drawn,
            };
            k += 1;
        }
        state
    }
}

} // verus!
