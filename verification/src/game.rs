//! The frame loop controller: the state machine that takes one frame after
//! another through acquire, encode, submit and present.
//!
//! The controller decides; it performs no outside work itself. Whoever drives
//! it performs the pending [`Action`] on the window system or the device and
//! reports the outcome as a [`FrameEvent`]; [`Game::step`] then says what
//! comes next. The pipeline and the geometry buffers are read every frame and
//! never change; the frame target and the command buffer belong to one frame.

use vstd::prelude::*;
use crate::command::{
    clear_precedes_draw, execute, state_before, Command, CommandBuffer, CommandsModel, DrawCall,
    Encoder, TargetState,
};
use crate::config::{FrameTarget, Surface, SurfaceModel, WindowConfig};
use crate::error::RenderError;
use crate::geometry::{BufferModel, GeometryBuffer, Instance, Vertex};
use crate::pipeline::{built_as, lemma_built_alike, PipelineBundle, PipelineState};

verus! {

/// Where the controller stands in the life of a frame.
#[derive(Clone, Copy, Debug, PartialEq, Eq)]
pub enum Phase {
    /// No frame is under way and none has been shown since the start or since
    /// the last recoverable failure.
    Idle,
    /// This frame's target has been obtained.
    TargetAcquired(FrameTarget),
    /// This frame's commands have been recorded for its target.
    Encoding(FrameTarget),
    /// The device has taken this frame's commands.
    Submitted(FrameTarget),
    /// The frame has been shown; the next one may begin.
    Presented,
    /// The device was lost. Nothing leads out of this phase: a new device, and
    /// with it a new controller, has to be made.
    Halted,
}

/// The outcome of the outside work that the driver performed.
#[derive(Clone, Copy, Debug, PartialEq, Eq)]
pub enum FrameEvent {
    /// The surface handed out the target of the next frame.
    TargetAcquired(FrameTarget),
    /// The surface was invalidated and has no target to hand out.
    TargetLost,
    /// The frame's commands have been recorded.
    Encoded,
    /// The device took the recorded commands.
    Submitted,
    /// The device was lost while taking the commands.
    DeviceLost,
    /// The surface showed the frame.
    Presented,
    /// The surface was lost or occluded and could not show the frame.
    SurfaceLost,
}

/// The outside work that the controller asks for next.
#[derive(Debug, PartialEq, Eq)]
pub enum Action {
    /// Obtain the current presentable target from the surface.
    AcquireTarget,
    /// Record these commands, in this order, for the target they are bound to.
    Encode(CommandBuffer),
    /// Hand the commands recorded for this target to the device.
    Submit(FrameTarget),
    /// Show this target.
    Present(FrameTarget),
}

/// What an [`Action`] is.
pub enum ActionModel {
    AcquireTarget,
    Encode(CommandsModel),
    Submit(FrameTarget),
    Present(FrameTarget),
}

impl View for Action {
    type V = ActionModel;

    open spec fn view(&self) -> ActionModel {
        match *self {
            Action::AcquireTarget => ActionModel::AcquireTarget,
            Action::Encode(buffer) => ActionModel::Encode(buffer@),
            Action::Submit(target) => ActionModel::Submit(target),
            Action::Present(target) => ActionModel::Present(target),
        }
    }
}

/// That `answer` is the controller's answer `model`: the same error, or an
/// action that is the same but for being executable.
pub open spec fn answers(
    answer: Result<Action, RenderError>,
    model: Result<ActionModel, RenderError>,
) -> bool {
    match model {
        Ok(action) => answer is Ok && answer->Ok_0@ == action,
        Err(error) => answer is Err && answer->Err_0 == error,
    }
}

impl Phase {
    /// No frame is under way: the next one may begin, or the loop may end.
    pub open spec fn between_frames(self) -> bool {
        self is Idle || self is Presented
    }

    /// The target of the frame under way, if one is.
    pub open spec fn target(self) -> Option<FrameTarget> {
        match self {
            Phase::TargetAcquired(target) => Some(target),
            Phase::Encoding(target) => Some(target),
            Phase::Submitted(target) => Some(target),
            _ => None,
        }
    }

    /// The failure that `event` amounts to in this phase, if it is one.
    ///
    /// A lost target fails the acquisition it answers, a lost device the
    /// submission and a lost surface the presentation. Once halted, every
    /// event is answered with the failure that halted the controller.
    pub open spec fn failure(self, event: FrameEvent) -> Option<RenderError> {
        match (self, event) {
            (Phase::Halted, _) => Some(RenderError::Submission),
            (Phase::Idle, FrameEvent::TargetLost) => Some(RenderError::TargetUnavailable),
            (Phase::Presented, FrameEvent::TargetLost) => Some(RenderError::TargetUnavailable),
            (Phase::Encoding(_), FrameEvent::DeviceLost) => Some(RenderError::Submission),
            (Phase::Submitted(_), FrameEvent::SurfaceLost) => Some(RenderError::Presentation),
            _ => None,
        }
    }

    /// The phase that follows this one on `event`.
    ///
    /// An event moves the controller only where it is the outcome of the work
    /// that this phase waits for; any other event leaves the phase as it is.
    pub open spec fn next(self, event: FrameEvent) -> Phase {
        match (self, event) {
            (Phase::Idle, FrameEvent::TargetAcquired(target)) => Phase::TargetAcquired(target),
            (Phase::Presented, FrameEvent::TargetAcquired(target)) => Phase::TargetAcquired(target),
            (Phase::Idle, FrameEvent::TargetLost) => Phase::Idle,
            (Phase::Presented, FrameEvent::TargetLost) => Phase::Idle,
            (Phase::TargetAcquired(target), FrameEvent::Encoded) => Phase::Encoding(target),
            (Phase::Encoding(target), FrameEvent::Submitted) => Phase::Submitted(target),
            (Phase::Encoding(_), FrameEvent::DeviceLost) => Phase::Halted,
            (Phase::Submitted(_), FrameEvent::Presented) => Phase::Presented,
            (Phase::Submitted(_), FrameEvent::SurfaceLost) => Phase::Idle,
            _ => self,
        }
    }

    /// Decides [`Phase::between_frames`].
    pub fn is_between_frames(&self) -> (r: bool)
        ensures
            r == self.between_frames(),
    {
        match self {
            Phase::Idle | Phase::Presented => true,
            _ => false,
        }
    }

    /// Computes [`Phase::failure`].
    pub fn failure_on(&self, event: FrameEvent) -> (r: Option<RenderError>)
        ensures
            r == self.failure(event),
    {
        match (*self, event) {
            (Phase::Halted, _) => Some(RenderError::Submission),
            (Phase::Idle, FrameEvent::TargetLost) => Some(RenderError::TargetUnavailable),
            (Phase::Presented, FrameEvent::TargetLost) => Some(RenderError::TargetUnavailable),
            (Phase::Encoding(_), FrameEvent::DeviceLost) => Some(RenderError::Submission),
            (Phase::Submitted(_), FrameEvent::SurfaceLost) => Some(RenderError::Presentation),
            _ => None,
        }
    }

    /// Computes [`Phase::next`].
    pub fn advance(&self, event: FrameEvent) -> (r: Phase)
        ensures
            r == self.next(event),
    {
        match (*self, event) {
            (Phase::Idle, FrameEvent::TargetAcquired(target)) => Phase::TargetAcquired(target),
            (Phase::Presented, FrameEvent::TargetAcquired(target)) => Phase::TargetAcquired(target),
            (Phase::Idle, FrameEvent::TargetLost) => Phase::Idle,
            (Phase::Presented, FrameEvent::TargetLost) => Phase::Idle,
            (Phase::TargetAcquired(target), FrameEvent::Encoded) => Phase::Encoding(target),
            (Phase::Encoding(target), FrameEvent::Submitted) => Phase::Submitted(target),
            (Phase::Encoding(_), FrameEvent::DeviceLost) => Phase::Halted,
            (Phase::Submitted(_), FrameEvent::Presented) => Phase::Presented,
            (Phase::Submitted(_), FrameEvent::SurfaceLost) => Phase::Idle,
            (phase, _) => phase,
        }
    }
}

/// What every frame reads and no frame changes.
pub struct Resources {
    pub surface: SurfaceModel,
    pub pipeline: PipelineState,
    pub vertices: BufferModel,
    pub instances: BufferModel,
}

impl Resources {
    /// The configuration is valid, and neither buffer's slice references more
    /// elements than were uploaded.
    pub open spec fn well_formed(self) -> bool {
        &&& self.surface.config.valid()
        &&& self.vertices.in_bounds()
        &&& self.instances.in_bounds()
    }

    /// The commands of one frame drawn into `target`: a clear to the
    /// configured values, then one draw of the vertex buffer's slice for the
    /// instance buffer's slice through the pipeline.
    pub open spec fn frame_commands(self, target: FrameTarget) -> CommandsModel {
        CommandsModel {
            target,
            commands: seq![
                Command::Clear(self.surface.config.clear),
                Command::Draw(
                    DrawCall {
                        pipeline: self.pipeline,
                        vertices: self.vertices.range(),
                        instances: self.instances.range(),
                    },
                ),
            ],
        }
    }
}

/// What a controller is: its resources and its phase.
pub struct GameModel {
    pub resources: Resources,
    pub phase: Phase,
}

impl GameModel {
    /// The work the controller waits for: what the driver has to do next. A
    /// halted controller waits for nothing and reports why it halted.
    pub open spec fn pending(self) -> Result<ActionModel, RenderError> {
        match self.phase {
            Phase::Idle => Ok(ActionModel::AcquireTarget),
            Phase::Presented => Ok(ActionModel::AcquireTarget),
            Phase::TargetAcquired(target) => Ok(
                ActionModel::Encode(self.resources.frame_commands(target)),
            ),
            Phase::Encoding(target) => Ok(ActionModel::Submit(target)),
            Phase::Submitted(target) => Ok(ActionModel::Present(target)),
            Phase::Halted => Err(RenderError::Submission),
        }
    }

    /// The controller after `event`: the resources as they were, in the phase
    /// that follows.
    pub open spec fn step(self, event: FrameEvent) -> GameModel {
        GameModel { resources: self.resources, phase: self.phase.next(event) }
    }

    /// The controller's answer to `event`: the failure, if the event is one,
    /// and otherwise the work that is pending after it.
    pub open spec fn answer(self, event: FrameEvent) -> Result<ActionModel, RenderError> {
        match self.phase.failure(event) {
            Some(error) => Err(error),
            None => self.step(event).pending(),
        }
    }

    /// The controller after all of `events`, in order.
    pub open spec fn run(self, events: Seq<FrameEvent>) -> GameModel
        decreases events.len(),
    {
        if events.len() == 0 {
            self
        } else {
            self.step(events[0]).run(events.subrange(1, events.len() as int))
        }
    }
}

/// The frame loop controller. It owns the surface's configuration, the
/// pipeline and both geometry buffers from construction on.
#[derive(Debug)]
pub struct Game {
    surface: Surface,
    pipeline: PipelineState,
    vertices: GeometryBuffer<Vertex>,
    instances: GeometryBuffer<Instance>,
    phase: Phase,
}

impl View for Game {
    type V = GameModel;

    closed spec fn view(&self) -> GameModel {
        GameModel {
            resources: Resources {
                surface: self.surface@,
                pipeline: self.pipeline,
                vertices: self.vertices@,
                instances: self.instances@,
            },
            phase: self.phase,
        }
    }
}

impl Game {
    /// The controller over an opened surface, the two uploaded buffers and
    /// the built pipeline. It starts idle.
    ///
    /// Each argument exists only if the step that makes it succeeded, so no
    /// controller can be made of a startup that failed part-way.
    pub fn new(
        surface: Surface,
        vertices: GeometryBuffer<Vertex>,
        instances: GeometryBuffer<Instance>,
        pipeline: PipelineState,
    ) -> (game: Game)
        ensures
            game@ == (GameModel {
                resources: Resources {
                    surface: surface@,
                    pipeline,
                    vertices: vertices@,
                    instances: instances@,
                },
                phase: Phase::Idle,
            }),
            game@.resources.well_formed(),
    {
        // The accessors state what every value of these types guarantees.
        let _ = surface.config();
        let _ = vertices.range();
        let _ = instances.range();
        Game { surface, pipeline, vertices, instances, phase: Phase::Idle }
    }

    /// The phase the controller is in.
    pub fn phase(&self) -> (p: Phase)
        ensures
            p == self@.phase,
    {
        self.phase
    }

    /// The configuration the controller was constructed with; always valid.
    pub fn config(&self) -> (c: &WindowConfig)
        ensures
            c@ == self@.resources.surface.config,
            c@.valid(),
    {
        self.surface.config()
    }

    /// The pipeline that every frame is drawn through.
    pub fn pipeline(&self) -> (p: &PipelineState)
        ensures
            *p == self@.resources.pipeline,
    {
        &self.pipeline
    }

    /// The buffer of vertices that every frame draws.
    pub fn vertex_buffer(&self) -> (b: &GeometryBuffer<Vertex>)
        ensures
            b@ == self@.resources.vertices,
    {
        &self.vertices
    }

    /// The buffer of instances that every frame draws.
    pub fn instance_buffer(&self) -> (b: &GeometryBuffer<Instance>)
        ensures
            b@ == self@.resources.instances,
    {
        &self.instances
    }

    /// Whether the loop may end here: between two frames, never within one.
    pub fn may_stop(&self) -> (r: bool)
        ensures
            r == (self@.phase.between_frames() || self@.phase is Halted),
    {
        match self.phase {
            Phase::Halted => true,
            phase => phase.is_between_frames(),
        }
    }

    /// Records this frame's commands for `target` with a fresh encoder: the
    /// clear first, then the draw.
    fn encode(&self, target: FrameTarget) -> (buffer: CommandBuffer)
        ensures
            buffer@ == self@.resources.frame_commands(target),
    {
        let mut encoder = Encoder::new(target);
        encoder.clear(self.surface.config().clear());
        encoder.draw(&self.pipeline, &self.vertices, &self.instances);
        let buffer = encoder.finish();
        assert(buffer@.commands =~= self@.resources.frame_commands(target).commands);
        buffer
    }

    /// The work the controller waits for, or the failure that halted it.
    pub fn pending(&self) -> (r: Result<Action, RenderError>)
        ensures
            answers(r, self@.pending()),
    {
        match self.phase {
            Phase::Idle => Ok(Action::AcquireTarget),
            Phase::Presented => Ok(Action::AcquireTarget),
            Phase::TargetAcquired(target) => Ok(Action::Encode(self.encode(target))),
            Phase::Encoding(target) => Ok(Action::Submit(target)),
            Phase::Submitted(target) => Ok(Action::Present(target)),
            Phase::Halted => Err(RenderError::Submission),
        }
    }

    /// Takes the outcome of the driver's work and says what comes next.
    ///
    /// The controller moves to the phase that follows on `event` and keeps its
    /// resources. The answer is the failure that the event amounts to, or else
    /// the work that is pending in the new phase.
    pub fn step(&mut self, event: FrameEvent) -> (r: Result<Action, RenderError>)
        ensures
            final(self)@ == old(self)@.step(event),
            answers(r, old(self)@.answer(event)),
    {
        let failure = self.phase.failure_on(event);
        self.phase = self.phase.advance(event);
        match failure {
            Some(error) => Err(error),
            None => self.pending(),
        }
    }
}

/// Within one frame's command buffer the clear precedes the draw.
///
/// The commands of a frame are exactly two: the clear to the configured
/// values, then the draw. So every draw comes after a clear, and when the draw
/// executes the target holds the configured clear values and nothing else.
/// With well-formed resources the clear values are valid and the draw reads
/// only elements that were uploaded.
pub proof fn lemma_frame_clears_before_it_draws(resources: Resources, target: FrameTarget)
    ensures
        resources.frame_commands(target).target == target,
        resources.frame_commands(target).commands.len() == 2,
        resources.frame_commands(target).commands[0] == Command::Clear(resources.surface.config.clear),
        resources.frame_commands(target).commands[1] is Draw,
        clear_precedes_draw(resources.frame_commands(target).commands),
        state_before(resources.frame_commands(target).commands, 1) == TargetState::Cleared(
            resources.surface.config.clear,
        ),
        resources.well_formed() ==> resources.surface.config.clear.valid() && {
            let call = resources.frame_commands(target).commands[1]->Draw_0;
            &&& call.vertices.slice.offset + call.vertices.slice.count <= resources.vertices.len
            &&& call.instances.slice.offset + call.instances.slice.count <= resources.instances.len
        },
{
    let commands = resources.frame_commands(target).commands;
    assert(commands[0] is Clear);
    assert(state_before(commands, 0) == TargetState::Undefined);
    assert(state_before(commands, 1) == execute(state_before(commands, 0), commands[0]));
}

/// Whatever the phase and whatever the event, a command buffer that the
/// controller hands out is the frame's commands for the target that was just
/// acquired: bound to that target, the clear before the draw.
pub proof fn lemma_encoded_buffers_are_ordered(game: GameModel, event: FrameEvent)
    requires
        game.answer(event) matches Ok(ActionModel::Encode(_)),
    ensures
        game.answer(event) matches Ok(ActionModel::Encode(buffer)) && {
            &&& game.step(event).phase == Phase::TargetAcquired(buffer.target)
            &&& buffer == game.resources.frame_commands(buffer.target)
            &&& clear_precedes_draw(buffer.commands)
        },
{
    match game.step(event).phase {
        Phase::TargetAcquired(target) => {
            lemma_frame_clears_before_it_draws(game.resources, target);
        },
        _ => {},
    }
}

/// A frame whose outside work succeeds goes through every phase in order and
/// ends presented: the target is acquired, the commands for that target are
/// recorded, submitted, and the same target is shown.
pub proof fn lemma_frame_runs_to_presentation(game: GameModel, target: FrameTarget)
    requires
        game.phase.between_frames(),
    ensures
        game.pending() == Ok::<ActionModel, RenderError>(ActionModel::AcquireTarget),
        game.answer(FrameEvent::TargetAcquired(target)) == Ok::<ActionModel, RenderError>(
            ActionModel::Encode(game.resources.frame_commands(target)),
        ),
        game.step(FrameEvent::TargetAcquired(target)).phase == Phase::TargetAcquired(target),
        game.step(FrameEvent::TargetAcquired(target)).answer(FrameEvent::Encoded) == Ok::<
            ActionModel,
            RenderError,
        >(ActionModel::Submit(target)),
        game.run(seq![FrameEvent::TargetAcquired(target), FrameEvent::Encoded]).phase
            == Phase::Encoding(target),
        game.run(seq![FrameEvent::TargetAcquired(target), FrameEvent::Encoded]).answer(
            FrameEvent::Submitted,
        ) == Ok::<ActionModel, RenderError>(ActionModel::Present(target)),
        game.run(
            seq![FrameEvent::TargetAcquired(target), FrameEvent::Encoded, FrameEvent::Submitted],
        ).phase == Phase::Submitted(target),
        game.run(
            seq![FrameEvent::TargetAcquired(target), FrameEvent::Encoded, FrameEvent::Submitted],
        ).answer(FrameEvent::Presented) == Ok::<ActionModel, RenderError>(ActionModel::AcquireTarget),
        game.run(
            seq![
                FrameEvent::TargetAcquired(target),
                FrameEvent::Encoded,
                FrameEvent::Submitted,
                FrameEvent::Presented,
            ],
        ) == (GameModel { resources: game.resources, phase: Phase::Presented }),
{
    let e1 = FrameEvent::TargetAcquired(target);
    let e2 = FrameEvent::Encoded;
    let e3 = FrameEvent::Submitted;
    let e4 = FrameEvent::Presented;
    lemma_run_one_more(game, Seq::empty(), e1);
    assert(Seq::<FrameEvent>::empty().push(e1) =~= seq![e1]);
    lemma_run_one_more(game, seq![e1], e2);
    assert(seq![e1].push(e2) =~= seq![e1, e2]);
    lemma_run_one_more(game, seq![e1, e2], e3);
    assert(seq![e1, e2].push(e3) =~= seq![e1, e2, e3]);
    lemma_run_one_more(game, seq![e1, e2, e3], e4);
    assert(seq![e1, e2, e3].push(e4) =~= seq![e1, e2, e3, e4]);
}

/// Running one more event is a step from where the earlier events led.
pub proof fn lemma_run_one_more(game: GameModel, events: Seq<FrameEvent>, event: FrameEvent)
    ensures
        game.run(events.push(event)) == game.run(events).step(event),
    decreases events.len(),
{
    if events.len() == 0 {
        assert(events.push(event).subrange(1, 1) =~= Seq::<FrameEvent>::empty());
        assert(game.step(event).run(Seq::<FrameEvent>::empty()) == game.step(event));
    } else {
        let rest = events.subrange(1, events.len() as int);
        assert(events.push(event).subrange(1, events.len() as int + 1) =~= rest.push(event));
        lemma_run_one_more(game.step(events[0]), rest, event);
    }
}

/// A frame target belongs to one frame. The controller holds a target only
/// while a frame is under way, and the target it holds is the one acquired
/// for that frame: an event either keeps it, drops it, or is the acquisition
/// that begins the frame.
pub proof fn lemma_target_belongs_to_one_frame(game: GameModel, event: FrameEvent)
    ensures
        game.phase.between_frames() || game.phase is Halted <==> game.phase.target() is None,
        game.step(event).phase.target() is Some ==> game.step(event).phase.target()
            == game.phase.target() || (game.phase.between_frames() && event
            == FrameEvent::TargetAcquired(game.step(event).phase.target()->Some_0)),
        game.pending() matches Ok(ActionModel::Encode(buffer)) ==> game.phase.target() == Some(
            buffer.target,
        ),
        game.pending() matches Ok(ActionModel::Submit(target)) ==> game.phase.target() == Some(target),
        game.pending() matches Ok(ActionModel::Present(target)) ==> game.phase.target() == Some(
            target,
        ),
{
}

/// No sequence of events, however long, changes what the frames read: the
/// configuration, the pipeline and both buffers stay as they were constructed,
/// so the configuration stays valid and the buffers' slices stay within what
/// was uploaded.
pub proof fn lemma_resources_never_change(game: GameModel, events: Seq<FrameEvent>)
    ensures
        game.run(events).resources == game.resources,
        game.resources.well_formed() ==> game.run(events).resources.well_formed(),
    decreases events.len(),
{
    if events.len() > 0 {
        lemma_resources_never_change(game.step(events[0]), events.subrange(1, events.len() as int));
    }
}

/// A lost target or a lost surface does not corrupt the controller.
///
/// After a recoverable failure the controller is idle with its resources
/// untouched, exactly as it was when constructed, and the next acquisition
/// that succeeds starts a frame with the commands that any other frame has.
pub proof fn lemma_recoverable_failure_leaves_controller_usable(
    game: GameModel,
    event: FrameEvent,
    target: FrameTarget,
)
    requires
        game.answer(event) is Err,
        game.answer(event)->Err_0.recoverable(),
    ensures
        game.step(event) == (GameModel { resources: game.resources, phase: Phase::Idle }),
        game.step(event).pending() == Ok::<ActionModel, RenderError>(ActionModel::AcquireTarget),
        game.step(event).step(FrameEvent::TargetAcquired(target)).phase == Phase::TargetAcquired(target),
        game.step(event).answer(FrameEvent::TargetAcquired(target)) == Ok::<ActionModel, RenderError>(
            ActionModel::Encode(game.resources.frame_commands(target)),
        ),
{
}

/// A target lost at acquisition is reported and the frame is not begun: no
/// commands are encoded, nothing is submitted and nothing is presented until
/// a later acquisition succeeds.
pub proof fn lemma_lost_target_skips_the_frame(game: GameModel, later: Seq<FrameEvent>)
    requires
        game.phase.between_frames(),
        forall|i: int| 0 <= i < later.len() ==> !(#[trigger] later[i] is TargetAcquired),
    ensures
        game.answer(FrameEvent::TargetLost) == Err::<ActionModel, RenderError>(
            RenderError::TargetUnavailable,
        ),
        game.step(FrameEvent::TargetLost).run(later).phase == Phase::Idle,
        game.step(FrameEvent::TargetLost).run(later).pending() == Ok::<ActionModel, RenderError>(
            ActionModel::AcquireTarget,
        ),
    decreases later.len(),
{
    if later.len() > 0 {
        let idle = game.step(FrameEvent::TargetLost);
        let rest = later.subrange(1, later.len() as int);
        assert(!(later[0] is TargetAcquired));
        assert(idle.step(later[0]) == idle);
        assert(idle == idle.step(FrameEvent::TargetLost));
        assert forall|i: int| 0 <= i < rest.len() implies !(#[trigger] rest[i] is TargetAcquired) by {
            assert(rest[i] == later[i + 1]);
        }
        lemma_lost_target_skips_the_frame(idle, rest);
    }
}

/// The device is reported lost exactly when the controller halts or has
/// halted, and a halted controller stays halted: whatever events follow, it
/// remains as it is and answers each of them with the submission failure.
pub proof fn lemma_device_loss_halts(game: GameModel, event: FrameEvent, later: Seq<FrameEvent>)
    ensures
        game.answer(event) == Err::<ActionModel, RenderError>(RenderError::Submission)
            <==> game.step(event).phase is Halted,
        game.step(event).phase is Halted ==> game.step(event).run(later) == game.step(event),
        game.step(event).phase is Halted ==> forall|e: FrameEvent|
            #[trigger] game.step(event).run(later).answer(e) == Err::<ActionModel, RenderError>(
                RenderError::Submission,
            ),
    decreases later.len(),
{
    let halted = game.step(event);
    if halted.phase is Halted && later.len() > 0 {
        assert(halted.step(later[0]) == halted);
        assert(halted.step(event) == halted);
        lemma_device_loss_halts(halted, event, later.subrange(1, later.len() as int));
    }
}

/// The only failures a step reports are those of a running frame loop, each
/// for the step it belongs to: an unavailable target when acquiring, a lost
/// device when submitting or once halted, a lost surface when presenting.
pub proof fn lemma_step_failures(game: GameModel, event: FrameEvent)
    requires
        game.answer(event) is Err,
    ensures
        game.answer(event)->Err_0.per_frame(),
        game.answer(event)->Err_0 == RenderError::TargetUnavailable ==> game.phase.between_frames()
            && event is TargetLost,
        game.answer(event)->Err_0 == RenderError::Submission ==> game.phase is Halted || (game.phase
            is Encoding && event is DeviceLost),
        game.answer(event)->Err_0 == RenderError::Presentation ==> game.phase is Submitted && event
            is SurfaceLost,
{
}

/// Pipelines built from identical inputs draw identically: two controllers
/// that differ only in which of the two constructions made their pipeline
/// encode the same commands for the same target.
pub proof fn lemma_same_inputs_same_draw(
    outcome: Result<PipelineBundle, RenderError>,
    first: Result<PipelineState, RenderError>,
    second: Result<PipelineState, RenderError>,
    surface: SurfaceModel,
    vertices: BufferModel,
    instances: BufferModel,
    target: FrameTarget,
)
    requires
        built_as(first, outcome),
        built_as(second, outcome),
        first is Ok,
    ensures
        second is Ok,
        (Resources { surface, pipeline: first->Ok_0, vertices, instances }).frame_commands(target)
            == (Resources { surface, pipeline: second->Ok_0, vertices, instances }).frame_commands(
            target,
        ),
{
    lemma_built_alike(outcome, first, second);
}

} // verus!
