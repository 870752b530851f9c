//! The forwarding loop: what it does with each event of the connection, and
//! what a consumer sees of a run of frames.

use vstd::prelude::*;
use crate::decode::{decode_frame, frame_outcome, FrameOutcome, OutcomeView};
use crate::error::RisError;
use crate::schema::{ResponseView, RisResponse};

verus! {

/// One event of the connection's read half.
#[derive(Debug, Clone)]
pub enum StreamEvent {
    /// A frame arrived, with this text.
    Frame(String),
    /// Reading the next frame failed.
    ReadError,
    /// The peer closed the connection.
    Closed,
}

/// What the loop does next.
#[derive(Debug, Clone)]
pub enum StreamAction {
    /// Wait for the next event.
    Continue,
    /// Put this response into the queue, then report whether it was taken.
    Forward(RisResponse),
    /// End the loop and close the queue, with the cause if there is one.
    Stop(Option<RisError>),
}

/// The mathematical value of a `StreamAction`.
pub enum ActionView {
    Continue,
    Forward(ResponseView),
    Stop(Option<RisError>),
}

impl View for StreamAction {
    type V = ActionView;

    open spec fn view(&self) -> ActionView {
        match *self {
            StreamAction::Continue => ActionView::Continue,
            StreamAction::Forward(r) => ActionView::Forward(r@),
            StreamAction::Stop(cause) => ActionView::Stop(cause),
        }
    }
}

/// The action that answers an event.
pub open spec fn action_for(event: StreamEvent) -> ActionView {
    match event {
        StreamEvent::Frame(text) => match frame_outcome(text@) {
            OutcomeView::Skip => ActionView::Continue,
            OutcomeView::Record(r) => ActionView::Forward(r),
            OutcomeView::Fatal(e) => ActionView::Stop(Some(e)),
        },
        StreamEvent::ReadError => ActionView::Stop(Some(RisError::Transport)),
        StreamEvent::Closed => ActionView::Stop(None),
    }
}

/// Decides what the loop does with an event: a blank frame is passed over, a
/// response is forwarded, and the loop ends on a frame that does not decode,
/// on a failed read and when the peer closes.
pub fn on_event(event: &StreamEvent) -> (action: StreamAction)
    ensures
        action@ == action_for(*event),
{
    match event {
        StreamEvent::Frame(text) => match decode_frame(text.as_str()) {
            FrameOutcome::Skip => StreamAction::Continue,
            FrameOutcome::Record(r) => StreamAction::Forward(r),
            FrameOutcome::Fatal(e) => StreamAction::Stop(Some(e)),
        },
        StreamEvent::ReadError => StreamAction::Stop(Some(RisError::Transport)),
        StreamEvent::Closed => StreamAction::Stop(None),
    }
}

/// Decides what the loop does once a response was handed to the queue: it
/// goes on where the queue took it, and ends where the consumer is gone.
pub fn on_delivery(delivered: bool) -> (action: StreamAction)
    ensures
        action@ == if delivered {
            ActionView::Continue
        } else {
            ActionView::Stop(Some(RisError::QueueClosed))
        },
{
    if delivered {
        StreamAction::Continue
    } else {
        StreamAction::Stop(Some(RisError::QueueClosed))
    }
}

/// The first fatal outcome among the frames, if there is one.
pub open spec fn first_fatal(frames: Seq<Seq<char>>) -> Option<RisError>
    decreases frames.len(),
{
    if frames.len() == 0 {
        None
    } else if first_fatal(frames.drop_last()) is Some {
        first_fatal(frames.drop_last())
    } else {
        match frame_outcome(frames.last()) {
            OutcomeView::Fatal(e) => Some(e),
            _ => None,
        }
    }
}

/// The responses that reach the consumer from a run of frames: one for each
/// frame that holds one, in the order of the frames, up to the first frame
/// that is fatal.
pub open spec fn forwarded_records(frames: Seq<Seq<char>>) -> Seq<ResponseView>
    decreases frames.len(),
{
    if frames.len() == 0 {
        Seq::empty()
    } else if first_fatal(frames.drop_last()) is Some {
        forwarded_records(frames.drop_last())
    } else {
        match frame_outcome(frames.last()) {
            OutcomeView::Record(r) => forwarded_records(frames.drop_last()).push(r),
            _ => forwarded_records(frames.drop_last()),
        }
    }
}

/// The texts of a list of frames.
pub open spec fn frame_texts(frames: Seq<String>) -> Seq<Seq<char>> {
    Seq::new(frames.len(), |i: int| frames[i]@)
}

/// The values of a list of responses.
pub open spec fn record_views(records: Seq<RisResponse>) -> Seq<ResponseView> {
    Seq::new(records.len(), |i: int| records[i]@)
}

/// What a consumer sees of a connection that delivered a run of frames and
/// then closed.
#[derive(Debug, Clone)]
pub struct Forwarded {
    /// The responses, in the order in which they were queued.
    pub records: Vec<RisResponse>,
    /// Why the loop ended before the connection closed, if it did.
    pub error: Option<RisError>,
}

/// Runs the loop over frames that arrive in the given order, with a consumer
/// that takes every response: the responses of the frames up to the first
/// fatal one, in order, and that frame's error.
pub fn forward_frames(frames: &Vec<String>) -> (out: Forwarded)
    ensures
        record_views(out.records@) == forwarded_records(frame_texts(frames@)),
        out.error == first_fatal(frame_texts(frames@)),
{
    let ghost texts = frame_texts(frames@);
    let mut records: Vec<RisResponse> = Vec::new();
    let mut i: usize = 0;
    proof {
        assert(texts.take(0) =~= Seq::<Seq<char>>::empty());
        assert(record_views(records@) =~= forwarded_records(texts.take(0)));
    }
    while i < frames.len()
        invariant
            i <= frames.len(),
            texts == frame_texts(frames@),
            record_views(records@) == forwarded_records(texts.take(i as int)),
            first_fatal(texts.take(i as int)) is None,
        decreases frames.len() - i,
    {
        let ghost before = records@;
        proof {
            assert(texts.take(i + 1).drop_last() =~= texts.take(i as int));
            assert(texts.take(i + 1).last() == frames@[i as int]@);
        }
        match decode_frame(frames[i].as_str()) {
            FrameOutcome::Skip => {},
            FrameOutcome::Record(r) => {
                records.push(r);
                proof {
                    assert(record_views(records@) =~= record_views(before).push(r@));
                }
            },
            FrameOutcome::Fatal(e) => {
                proof {
                    lemma_fatal_ends(texts, i + 1);
                }
                return Forwarded { records, error: Some(e) };
            },
        }
        i += 1;
    }
    proof {
        assert(texts.take(i as int) =~= texts);
    }
    Forwarded { records, error: None }
}

/// Frames behind the first fatal one change nothing.
proof fn lemma_fatal_ends(frames: Seq<Seq<char>>, n: int)
    requires
        0 <= n <= frames.len(),
        first_fatal(frames.take(n)) is Some,
    ensures
        first_fatal(frames) == first_fatal(frames.take(n)),
        forwarded_records(frames) == forwarded_records(frames.take(n)),
    decreases frames.len(),
{
    if n == frames.len() {
        assert(frames.take(n) =~= frames);
    } else {
        assert(frames.drop_last().take(n) =~= frames.take(n));
        lemma_fatal_ends(frames.drop_last(), n);
    }
}

/// Frames that each hold a response reach the consumer all, once each and in
/// the order in which they arrived.
pub proof fn lemma_order_preserved(frames: Seq<Seq<char>>)
    requires
        forall|i: int| 0 <= i < frames.len() ==> (#[trigger] frame_outcome(frames[i])) is Record,
    ensures
        first_fatal(frames) is None,
        forwarded_records(frames).len() == frames.len(),
        forall|i: int|
            0 <= i < frames.len() ==> frame_outcome(frames[i]) == OutcomeView::Record(
                #[trigger] forwarded_records(frames)[i],
            ),
    decreases frames.len(),
{
    if frames.len() > 0 {
        let front = frames.drop_last();
        assert forall|i: int| 0 <= i < front.len() implies (#[trigger] frame_outcome(
            front[i],
        )) is Record by {
            assert(front[i] == frames[i]);
        }
        lemma_order_preserved(front);
        assert(frame_outcome(frames[frames.len() - 1]) is Record);
        assert forall|i: int| 0 <= i < frames.len() implies frame_outcome(frames[i])
            == OutcomeView::Record(#[trigger] forwarded_records(frames)[i]) by {
            if i < front.len() {
                assert(front[i] == frames[i]);
                assert(forwarded_records(frames)[i] == forwarded_records(front)[i]);
            }
        }
    }
}

/// Blank frames reach the consumer as nothing: with a blank frame put behind
/// a run of frames, the consumer sees what it saw without it.
pub proof fn lemma_blank_frame_forwards_nothing(frames: Seq<Seq<char>>, blank: Seq<char>)
    requires
        crate::decode::is_blank(blank),
    ensures
        forwarded_records(frames.push(blank)) == forwarded_records(frames),
        first_fatal(frames.push(blank)) == first_fatal(frames),
{
    assert(frames.push(blank).drop_last() =~= frames);
}

} // verus!
