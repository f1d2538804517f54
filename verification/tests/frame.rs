use frame_loop::command::{Command, DrawCall, TargetState};
use frame_loop::config::{initialize, ClearValues, FrameTarget, WindowConfig};
use frame_loop::error::RenderError;
use frame_loop::game::{Action, FrameEvent, Game, Phase};
use frame_loop::geometry::{create_buffer, triangle, BufferRange, Instance, Slice};
use frame_loop::pipeline::{create_pipeline, BlendDesc, DepthDesc, PipelineState, RasterizerDesc, Topology};

const T1: FrameTarget = FrameTarget { color: 31, depth: 32 };

const T2: FrameTarget = FrameTarget { color: 41, depth: 42 };

const ALL_EVENTS: [FrameEvent; 8] = [
    FrameEvent::TargetAcquired(T1),
    FrameEvent::TargetAcquired(T2),
    FrameEvent::TargetLost,
    FrameEvent::Encoded,
    FrameEvent::Submitted,
    FrameEvent::DeviceLost,
    FrameEvent::Presented,
    FrameEvent::SurfaceLost,
];

fn pipeline() -> PipelineState {
    create_pipeline(
        &[7, 7, 7],
        Topology::TriangleList,
        RasterizerDesc::fill(),
        &BlendDesc::opaque(),
        DepthDesc::less_equal_write(),
        Ok(()),
    )
    .unwrap()
}

fn game_with(clear: ClearValues) -> Game {
    let config =
        WindowConfig::new(800, 600, "T".to_string(), clear, DepthDesc::less_equal_write()).unwrap();
    let surface = initialize(config, Ok(FrameTarget { color: 1, depth: 2 })).unwrap();
    let vertices = create_buffer(&triangle(), Ok(100)).unwrap();
    let instances = create_buffer(&[Instance::identity()], Ok(200)).unwrap();
    Game::new(surface, vertices, instances, pipeline())
}

fn game() -> Game {
    game_with(ClearValues::standard())
}

fn game_in(phase: Phase) -> Game {
    let mut game = game();
    let events: Vec<FrameEvent> = match phase {
        Phase::Idle => vec![],
        Phase::TargetAcquired(t) => vec![FrameEvent::TargetAcquired(t)],
        Phase::Encoding(t) => vec![FrameEvent::TargetAcquired(t), FrameEvent::Encoded],
        Phase::Submitted(t) => {
            vec![FrameEvent::TargetAcquired(t), FrameEvent::Encoded, FrameEvent::Submitted]
        }
        Phase::Presented => vec![
            FrameEvent::TargetAcquired(T1),
            FrameEvent::Encoded,
            FrameEvent::Submitted,
            FrameEvent::Presented,
        ],
        Phase::Halted => {
            vec![FrameEvent::TargetAcquired(T1), FrameEvent::Encoded, FrameEvent::DeviceLost]
        }
    };
    for event in events {
        let _ = game.step(event);
    }
    assert_eq!(game.phase(), phase);
    game
}

fn draw_of(game: &Game) -> Command {
    Command::Draw(DrawCall {
        pipeline: *game.pipeline(),
        vertices: BufferRange { handle: 100, slice: Slice { offset: 0, count: 3 } },
        instances: BufferRange { handle: 200, slice: Slice { offset: 0, count: 1 } },
    })
}

fn assert_resources_untouched(game: &Game) {
    assert_eq!(game.config().width(), 800);
    assert_eq!(game.config().height(), 600);
    assert_eq!(game.config().title(), "T");
    assert_eq!(game.config().clear(), ClearValues::standard());
    assert_eq!(*game.pipeline(), pipeline());
    assert_eq!(game.vertex_buffer().range(), BufferRange { handle: 100, slice: Slice { offset: 0, count: 3 } });
    assert_eq!(game.vertex_buffer().len(), 3);
    assert_eq!(game.instance_buffer().range(), BufferRange { handle: 200, slice: Slice { offset: 0, count: 1 } });
    assert_eq!(game.instance_buffer().len(), 1);
}

#[test]
fn one_iteration_clears_to_the_colour_before_the_draw() {
    let color = [0.1f32.to_bits(), 0.2f32.to_bits(), 0.3f32.to_bits(), 1.0f32.to_bits()];
    let clear = ClearValues::new(color, 1.0f32.to_bits()).unwrap();
    assert_eq!(clear.stencil, 0);
    let mut game = game_with(clear);

    assert_eq!(game.pending(), Ok(Action::AcquireTarget));
    let buffer = match game.step(FrameEvent::TargetAcquired(T1)) {
        Ok(Action::Encode(buffer)) => buffer,
        other => panic!("expected the frame's commands, got {:?}", other),
    };
    assert_eq!(game.phase(), Phase::TargetAcquired(T1));
    assert_eq!(buffer.target(), T1);
    assert_eq!(buffer.commands().len(), 2);
    assert_eq!(
        buffer.commands()[0],
        Command::Clear(ClearValues { color, depth: 1.0f32.to_bits(), stencil: 0 })
    );
    assert_eq!(buffer.commands()[1], draw_of(&game));
    assert!(buffer.clear_precedes_draw());
    assert_eq!(buffer.state_before(0), TargetState::Undefined);
    assert_eq!(
        buffer.state_before(1),
        TargetState::Cleared(ClearValues { color, depth: 1.0f32.to_bits(), stencil: 0 })
    );
    assert_eq!(buffer.state_before(2), TargetState::Drawn);

    assert_eq!(game.step(FrameEvent::Encoded), Ok(Action::Submit(T1)));
    assert_eq!(game.phase(), Phase::Encoding(T1));
    assert_eq!(game.step(FrameEvent::Submitted), Ok(Action::Present(T1)));
    assert_eq!(game.phase(), Phase::Submitted(T1));
    assert_eq!(game.step(FrameEvent::Presented), Ok(Action::AcquireTarget));
    assert_eq!(game.phase(), Phase::Presented);
    assert!(game.may_stop());
}

#[test]
fn lost_surface_during_acquire_is_reported_and_the_frame_is_not_begun() {
    let mut game = game();
    assert_eq!(game.step(FrameEvent::TargetLost), Err(RenderError::TargetUnavailable));
    assert_eq!(game.phase(), Phase::Idle);
    assert_eq!(game.pending(), Ok(Action::AcquireTarget));
    for event in [FrameEvent::Encoded, FrameEvent::Submitted, FrameEvent::Presented] {
        assert_eq!(game.step(event), Ok(Action::AcquireTarget));
        assert_eq!(game.phase(), Phase::Idle);
    }
    assert_resources_untouched(&game);
}

#[test]
fn device_loss_during_submit_halts_until_a_new_controller_is_made() {
    let mut game = game_in(Phase::Encoding(T1));
    assert_eq!(game.step(FrameEvent::DeviceLost), Err(RenderError::Submission));
    assert_eq!(game.phase(), Phase::Halted);
    assert_eq!(game.pending(), Err(RenderError::Submission));
    for _ in 0..3 {
        for event in ALL_EVENTS {
            assert_eq!(game.step(event), Err(RenderError::Submission));
            assert_eq!(game.phase(), Phase::Halted);
        }
    }
    assert!(game.may_stop());

    let mut again = game_with(ClearValues::standard());
    assert_eq!(again.phase(), Phase::Idle);
    assert!(matches!(again.step(FrameEvent::TargetAcquired(T2)), Ok(Action::Encode(_))));
}

#[test]
fn lost_target_after_a_presented_frame_returns_to_idle() {
    let mut game = game_in(Phase::Presented);
    assert_eq!(game.step(FrameEvent::TargetLost), Err(RenderError::TargetUnavailable));
    assert_eq!(game.phase(), Phase::Idle);
}

#[test]
fn lost_surface_during_present_is_reported_and_recoverable() {
    let mut game = game_in(Phase::Submitted(T1));
    let error = game.step(FrameEvent::SurfaceLost).unwrap_err();
    assert_eq!(error, RenderError::Presentation);
    assert!(error.is_recoverable());
    assert_eq!(game.phase(), Phase::Idle);
    assert_resources_untouched(&game);
}

#[test]
fn reacquisition_after_a_recoverable_failure_succeeds_cleanly() {
    let mut fresh = game();
    let expected = match fresh.step(FrameEvent::TargetAcquired(T2)) {
        Ok(Action::Encode(buffer)) => buffer,
        other => panic!("expected the frame's commands, got {:?}", other),
    };

    let mut after_lost_target = game();
    assert_eq!(after_lost_target.step(FrameEvent::TargetLost), Err(RenderError::TargetUnavailable));
    let mut after_lost_surface = game_in(Phase::Submitted(T1));
    assert_eq!(after_lost_surface.step(FrameEvent::SurfaceLost), Err(RenderError::Presentation));

    for mut game in [after_lost_target, after_lost_surface] {
        assert_eq!(game.phase(), Phase::Idle);
        let buffer = match game.step(FrameEvent::TargetAcquired(T2)) {
            Ok(Action::Encode(buffer)) => buffer,
            other => panic!("expected the frame's commands, got {:?}", other),
        };
        assert_eq!(buffer, expected);
        assert_eq!(game.step(FrameEvent::Encoded), Ok(Action::Submit(T2)));
        assert_eq!(game.step(FrameEvent::Submitted), Ok(Action::Present(T2)));
        assert_eq!(game.step(FrameEvent::Presented), Ok(Action::AcquireTarget));
        assert_eq!(game.phase(), Phase::Presented);
        assert_resources_untouched(&game);
    }
}

#[test]
fn many_frames_reuse_the_same_resources() {
    let mut game = game();
    for frame in 0..50u64 {
        let target = FrameTarget { color: 2 * frame, depth: 2 * frame + 1 };
        let buffer = match game.step(FrameEvent::TargetAcquired(target)) {
            Ok(Action::Encode(buffer)) => buffer,
            other => panic!("expected the frame's commands, got {:?}", other),
        };
        assert_eq!(buffer.target(), target);
        assert_eq!(buffer.commands(), &[Command::Clear(ClearValues::standard()), draw_of(&game)]);
        assert_eq!(game.step(FrameEvent::Encoded), Ok(Action::Submit(target)));
        assert_eq!(game.step(FrameEvent::Submitted), Ok(Action::Present(target)));
        assert_eq!(game.step(FrameEvent::Presented), Ok(Action::AcquireTarget));
        assert_resources_untouched(&game);
    }
}

#[test]
fn every_encoded_buffer_clears_before_it_draws() {
    for phase in [Phase::Idle, Phase::Presented] {
        for target in [T1, T2] {
            let mut game = game_in(phase);
            match game.step(FrameEvent::TargetAcquired(target)) {
                Ok(Action::Encode(buffer)) => {
                    assert!(buffer.clear_precedes_draw());
                    assert!(matches!(buffer.commands()[0], Command::Clear(_)));
                    assert!(matches!(buffer.commands()[1], Command::Draw(_)));
                    assert_eq!(buffer.target(), target);
                }
                other => panic!("expected the frame's commands, got {:?}", other),
            }
        }
    }
}

#[test]
fn an_event_that_answers_nothing_changes_nothing() {
    let cases: [(Phase, Vec<FrameEvent>); 5] = [
        (
            Phase::Idle,
            vec![
                FrameEvent::Encoded,
                FrameEvent::Submitted,
                FrameEvent::DeviceLost,
                FrameEvent::Presented,
                FrameEvent::SurfaceLost,
            ],
        ),
        (
            Phase::Presented,
            vec![
                FrameEvent::Encoded,
                FrameEvent::Submitted,
                FrameEvent::DeviceLost,
                FrameEvent::Presented,
                FrameEvent::SurfaceLost,
            ],
        ),
        (
            Phase::TargetAcquired(T1),
            vec![
                FrameEvent::TargetAcquired(T2),
                FrameEvent::TargetLost,
                FrameEvent::Submitted,
                FrameEvent::DeviceLost,
                FrameEvent::Presented,
                FrameEvent::SurfaceLost,
            ],
        ),
        (
            Phase::Encoding(T1),
            vec![
                FrameEvent::TargetAcquired(T2),
                FrameEvent::TargetLost,
                FrameEvent::Encoded,
                FrameEvent::Presented,
                FrameEvent::SurfaceLost,
            ],
        ),
        (
            Phase::Submitted(T1),
            vec![
                FrameEvent::TargetAcquired(T2),
                FrameEvent::TargetLost,
                FrameEvent::Encoded,
                FrameEvent::Submitted,
                FrameEvent::DeviceLost,
            ],
        ),
    ];
    for (phase, events) in cases {
        for event in events {
            let mut game = game_in(phase);
            let pending = game.pending();
            assert!(pending.is_ok());
            assert_eq!(game.step(event), pending, "{:?} on {:?}", phase, event);
            assert_eq!(game.phase(), phase);
            assert_resources_untouched(&game);
        }
    }
}

#[test]
fn pending_names_the_work_of_each_phase() {
    assert_eq!(game_in(Phase::Idle).pending(), Ok(Action::AcquireTarget));
    assert_eq!(game_in(Phase::Presented).pending(), Ok(Action::AcquireTarget));
    assert_eq!(game_in(Phase::Encoding(T2)).pending(), Ok(Action::Submit(T2)));
    assert_eq!(game_in(Phase::Submitted(T2)).pending(), Ok(Action::Present(T2)));
    assert_eq!(game_in(Phase::Halted).pending(), Err(RenderError::Submission));
    let game = game_in(Phase::TargetAcquired(T2));
    match game.pending() {
        Ok(Action::Encode(buffer)) => {
            assert_eq!(buffer.target(), T2);
            assert_eq!(buffer.commands(), &[Command::Clear(ClearValues::standard()), draw_of(&game)]);
        }
        other => panic!("expected the frame's commands, got {:?}", other),
    }
}

#[test]
fn phase_transition_table() {
    let table: [(Phase, FrameEvent, Phase, Option<RenderError>); 11] = [
        (Phase::Idle, FrameEvent::TargetAcquired(T1), Phase::TargetAcquired(T1), None),
        (Phase::Presented, FrameEvent::TargetAcquired(T2), Phase::TargetAcquired(T2), None),
        (Phase::Idle, FrameEvent::TargetLost, Phase::Idle, Some(RenderError::TargetUnavailable)),
        (Phase::Presented, FrameEvent::TargetLost, Phase::Idle, Some(RenderError::TargetUnavailable)),
        (Phase::TargetAcquired(T1), FrameEvent::Encoded, Phase::Encoding(T1), None),
        (Phase::Encoding(T1), FrameEvent::Submitted, Phase::Submitted(T1), None),
        (Phase::Encoding(T1), FrameEvent::DeviceLost, Phase::Halted, Some(RenderError::Submission)),
        (Phase::Submitted(T1), FrameEvent::Presented, Phase::Presented, None),
        (Phase::Submitted(T1), FrameEvent::SurfaceLost, Phase::Idle, Some(RenderError::Presentation)),
        (Phase::Halted, FrameEvent::TargetAcquired(T1), Phase::Halted, Some(RenderError::Submission)),
        (Phase::Halted, FrameEvent::Presented, Phase::Halted, Some(RenderError::Submission)),
    ];
    for (from, event, to, failure) in table {
        assert_eq!(from.advance(event), to, "{:?} on {:?}", from, event);
        assert_eq!(from.failure_on(event), failure, "{:?} on {:?}", from, event);
    }
}

#[test]
fn a_target_is_held_only_while_a_frame_is_under_way() {
    let mut game = game();
    for target in [T1, T2] {
        assert!(matches!(game.phase(), Phase::Idle | Phase::Presented));
        let _ = game.step(FrameEvent::TargetAcquired(target));
        assert_eq!(game.phase(), Phase::TargetAcquired(target));
        let _ = game.step(FrameEvent::Encoded);
        assert_eq!(game.phase(), Phase::Encoding(target));
        let _ = game.step(FrameEvent::Submitted);
        assert_eq!(game.phase(), Phase::Submitted(target));
        let _ = game.step(FrameEvent::Presented);
    }
    assert_eq!(game.phase(), Phase::Presented);
}

#[test]
fn the_loop_may_end_only_between_frames() {
    assert!(game_in(Phase::Idle).may_stop());
    assert!(game_in(Phase::Presented).may_stop());
    assert!(game_in(Phase::Halted).may_stop());
    assert!(!game_in(Phase::TargetAcquired(T1)).may_stop());
    assert!(!game_in(Phase::Encoding(T1)).may_stop());
    assert!(!game_in(Phase::Submitted(T1)).may_stop());
    assert!(Phase::Idle.is_between_frames());
    assert!(Phase::Presented.is_between_frames());
    assert!(!Phase::Halted.is_between_frames());
    assert!(!Phase::Encoding(T1).is_between_frames());
}

#[test]
fn pipelines_from_the_same_inputs_draw_the_same() {
    let make = || {
        let config = WindowConfig::new(
            800,
            600,
            "T".to_string(),
            ClearValues::standard(),
            DepthDesc::less_equal_write(),
        )
        .unwrap();
        let surface = initialize(config, Ok(T1)).unwrap();
        let vertices = create_buffer(&triangle(), Ok(100)).unwrap();
        let instances = create_buffer(&[Instance::identity()], Ok(200)).unwrap();
        Game::new(surface, vertices, instances, pipeline())
    };
    let mut first = make();
    let mut second = make();
    assert_eq!(first.step(FrameEvent::TargetAcquired(T2)), second.step(FrameEvent::TargetAcquired(T2)));
}
