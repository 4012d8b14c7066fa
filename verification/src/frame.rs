//! The stages a frame goes through.
//!
//! A frame is asked of the surface, encoded, submitted and presented. Only
//! the asking can fail in the course of normal work; a frame that could not
//! be had is dropped, and the next redraw asks again.

use vstd::prelude::*;
use crate::state::SurfaceError;

verus! {

/// How far the current frame has come.
#[derive(Clone, Copy, Debug, PartialEq, Eq, Structural)]
pub enum FrameStage {
    /// No frame is under way.
    Idle,
    /// The surface has been asked for its next texture.
    Acquiring,
    /// The texture is there and the commands are being encoded.
    Encoding,
    /// The commands are with the queue.
    Submitted,
    /// The frame is on its way to the screen.
    Presented,
}

/// What happens to a frame.
#[derive(Clone, Copy, Debug, PartialEq, Eq, Structural)]
pub enum FrameEvent {
    /// A redraw asks for a new frame.
    Begin,
    /// The surface gave its next texture.
    Acquired,
    /// The surface gave no texture.
    Failed(SurfaceError),
    /// The encoded commands were handed to the queue.
    Submitted,
    /// The texture was handed over for presentation.
    Presented,
}

impl FrameStage {
    /// The stage after an event; `None` where the event has no place at
    /// this stage.
    pub open spec fn spec_next(self, event: FrameEvent) -> Option<FrameStage> {
        match (self, event) {
            (FrameStage::Idle, FrameEvent::Begin) => Some(FrameStage::Acquiring),
            (FrameStage::Presented, FrameEvent::Begin) => Some(FrameStage::Acquiring),
            (FrameStage::Acquiring, FrameEvent::Acquired) => Some(FrameStage::Encoding),
            (FrameStage::Acquiring, FrameEvent::Failed(_)) => Some(FrameStage::Idle),
            (FrameStage::Encoding, FrameEvent::Submitted) => Some(FrameStage::Submitted),
            (FrameStage::Submitted, FrameEvent::Presented) => Some(FrameStage::Presented),
            _ => None,
        }
    }

    /// The stage after an event. A new frame begins when none is under
    /// way; a frame that could not be had leaves none under way. `None`
    /// tells the caller that it reported an event out of turn.
    #[verifier::when_used_as_spec(spec_next)]
    pub fn next(self, event: FrameEvent) -> (stage: Option<FrameStage>)
        ensures
            stage == self.spec_next(event),
    {
        match (self, event) {
            (FrameStage::Idle, FrameEvent::Begin) => Some(FrameStage::Acquiring),
            (FrameStage::Presented, FrameEvent::Begin) => Some(FrameStage::Acquiring),
            (FrameStage::Acquiring, FrameEvent::Acquired) => Some(FrameStage::Encoding),
            (FrameStage::Acquiring, FrameEvent::Failed(_)) => Some(FrameStage::Idle),
            (FrameStage::Encoding, FrameEvent::Submitted) => Some(FrameStage::Submitted),
            (FrameStage::Submitted, FrameEvent::Presented) => Some(FrameStage::Presented),
            _ => None,
        }
    }

    /// The stage after a run of events, oldest first; `None` as soon as one
    /// of them has no place.
    pub open spec fn after(self, events: Seq<FrameEvent>) -> Option<FrameStage>
        decreases events.len(),
    {
        if events.len() == 0 {
            Some(self)
        } else {
            match self.after(events.drop_last()) {
                Some(stage) => stage.spec_next(events.last()),
                None => None,
            }
        }
    }
}

/// A failure has its place only while the surface is being asked, and it
/// ends the frame: whatever the error, no frame is under way afterwards, and
/// nothing can follow but the beginning of another frame. The failed frame
/// is therefore never submitted.
pub proof fn lemma_failed_frame_is_dropped(
    stage: FrameStage,
    error: SurfaceError,
    following: FrameEvent,
)
    ensures
        stage.spec_next(FrameEvent::Failed(error)) is Some <==> stage == FrameStage::Acquiring,
        FrameStage::Acquiring.spec_next(FrameEvent::Failed(error)) == Some(FrameStage::Idle),
        FrameStage::Idle.spec_next(following) is Some ==> following == FrameEvent::Begin,
        FrameStage::Idle.spec_next(following) != Some(FrameStage::Submitted),
{
}

/// A frame that the surface gives runs through to presentation; a frame
/// that it does not give ends where it began, whatever the error.
pub proof fn lemma_frame_runs(error: SurfaceError)
    ensures
        FrameStage::Idle.after(
            seq![
                FrameEvent::Begin,
                FrameEvent::Acquired,
                FrameEvent::Submitted,
                FrameEvent::Presented,
            ],
        ) == Some(FrameStage::Presented),
        FrameStage::Idle.after(seq![FrameEvent::Begin, FrameEvent::Failed(error)]) == Some(
            FrameStage::Idle,
        ),
        FrameStage::Presented.after(seq![FrameEvent::Begin, FrameEvent::Failed(error)]) == Some(
            FrameStage::Idle,
        ),
{
    let drawn = seq![
        FrameEvent::Begin,
        FrameEvent::Acquired,
        FrameEvent::Submitted,
        FrameEvent::Presented,
    ];
    let dropped = seq![FrameEvent::Begin, FrameEvent::Failed(error)];
    reveal_with_fuel(FrameStage::after, 5);
    assert(drawn.drop_last() =~= seq![
        FrameEvent::Begin,
        FrameEvent::Acquired,
        FrameEvent::Submitted,
    ]);
    assert(drawn.drop_last().drop_last() =~= seq![FrameEvent::Begin, FrameEvent::Acquired]);
    assert(drawn.drop_last().drop_last().drop_last() =~= seq![FrameEvent::Begin]);
    assert(dropped.drop_last() =~= seq![FrameEvent::Begin]);
    assert(seq![FrameEvent::Begin].drop_last() =~= Seq::<FrameEvent>::empty());
}

/// A frame is submitted only after it was acquired: the stage `Submitted`
/// is entered from `Encoding` alone, and `Encoding` from an acquisition that
/// succeeded.
pub proof fn lemma_submitted_after_acquired(stage: FrameStage, event: FrameEvent)
    ensures
        stage.spec_next(event) == Some(FrameStage::Submitted) ==> stage == FrameStage::Encoding
            && event == FrameEvent::Submitted,
        stage.spec_next(event) == Some(FrameStage::Encoding) ==> stage == FrameStage::Acquiring
            && event == FrameEvent::Acquired,
{
}

} // verus!
