use shader_canvas::frame::{FrameEvent, FrameStage};
use shader_canvas::state::SurfaceError;

const STAGES: [FrameStage; 5] = [
    FrameStage::Idle,
    FrameStage::Acquiring,
    FrameStage::Encoding,
    FrameStage::Submitted,
    FrameStage::Presented,
];

const ERRORS: [SurfaceError; 4] = [
    SurfaceError::Timeout,
    SurfaceError::Outdated,
    SurfaceError::Lost,
    SurfaceError::OutOfMemory,
];

#[test]
fn a_frame_runs_from_idle_to_presented() {
    let mut stage = FrameStage::Idle;
    let expected = [
        (FrameEvent::Begin, FrameStage::Acquiring),
        (FrameEvent::Acquired, FrameStage::Encoding),
        (FrameEvent::Submitted, FrameStage::Submitted),
        (FrameEvent::Presented, FrameStage::Presented),
        (FrameEvent::Begin, FrameStage::Acquiring),
    ];
    for (event, after) in expected {
        stage = stage.next(event).unwrap();
        assert_eq!(stage, after);
    }
}

#[test]
fn a_failed_frame_is_dropped() {
    for error in ERRORS {
        let stage = FrameStage::Idle.next(FrameEvent::Begin).unwrap();
        let stage = stage.next(FrameEvent::Failed(error)).unwrap();
        assert_eq!(stage, FrameStage::Idle);
        assert_eq!(stage.next(FrameEvent::Submitted), None);
        assert_eq!(stage.next(FrameEvent::Presented), None);
        assert_eq!(stage.next(FrameEvent::Acquired), None);
        assert_eq!(stage.next(FrameEvent::Begin), Some(FrameStage::Acquiring));
    }
}

#[test]
fn events_out_of_turn_have_no_place() {
    let events = [
        FrameEvent::Begin,
        FrameEvent::Acquired,
        FrameEvent::Failed(SurfaceError::Lost),
        FrameEvent::Submitted,
        FrameEvent::Presented,
    ];
    let mut accepted = 0;
    for stage in STAGES {
        for event in events {
            if stage.next(event).is_some() {
                accepted += 1;
            }
        }
    }
    assert_eq!(accepted, 6);
    assert_eq!(FrameStage::Encoding.next(FrameEvent::Failed(SurfaceError::Lost)), None);
    assert_eq!(FrameStage::Acquiring.next(FrameEvent::Submitted), None);
    assert_eq!(FrameStage::Submitted.next(FrameEvent::Begin), None);
}
