use crate::error::CaptureError;
use crate::session::initial;
use crate::session::next;
use crate::session::outcome;
use crate::session::Action;
use crate::session::Event;
use crate::session::Session;
use crate::session::Stage;
use crate::session::Step;
use vstd::prelude::*;

verus! {

/// The actions a session asks for while it takes `events` in turn.
pub open spec fn run(s: Session, events: Seq<Event>) -> Seq<Action>
    decreases events.len(),
{
    if events.len() == 0 {
        seq![]
    } else {
        seq![next(s, events[0]).1] + run(next(s, events[0]).0, events.drop_first())
    }
}

/// The session after it took `events` in turn.
pub open spec fn after(s: Session, events: Seq<Event>) -> Session
    decreases events.len(),
{
    if events.len() == 0 {
        s
    } else {
        after(next(s, events[0]).0, events.drop_first())
    }
}

/// What a session holds in each stage: the stream is started exactly while
/// it streams or is being stopped, and the format is held from the moment
/// it is read until it is freed.
pub open spec fn consistent(s: Session) -> bool {
    match s.stage {
        Stage::Created | Stage::DeviceOpened => !s.started && s.format is None,
        Stage::FormatNegotiated | Stage::ClientInitialized => !s.started && s.format is Some,
        Stage::Streaming(_) | Stage::Stopping => s.started && s.format is Some,
        Stage::Stopped => s.format is Some,
        Stage::Released => s.format is None,
    }
}

/// Each packet of a drain pass: its size, the frames taken, the write and
/// the hand-back both done; then an empty queue.
pub open spec fn drain_events(frames: Seq<u32>) -> Seq<Event>
    decreases frames.len(),
{
    if frames.len() == 0 {
        seq![Event::NextPacketSize(0)]
    } else {
        seq![
            Event::NextPacketSize(frames[0]),
            Event::PacketFrames(frames[0]),
            Event::Done,
            Event::Done,
        ] + drain_events(frames.drop_first())
    }
}

/// Each packet taken, written whole, handed back, and the queue asked
/// again; then the stop request read.
pub open spec fn drain_actions(frames: Seq<u32>, block_align: u16) -> Seq<Action>
    decreases frames.len(),
{
    if frames.len() == 0 {
        seq![Action::CheckTermination]
    } else {
        seq![
            Action::ReadPacket,
            Action::WritePacket { bytes: (frames[0] * block_align) as u64 },
            Action::ReleasePacket { frames: frames[0] },
            Action::QueryPacket,
        ] + drain_actions(frames.drop_first(), block_align)
    }
}

proof fn lemma_run_append(s: Session, a: Seq<Event>, b: Seq<Event>)
    ensures
        run(s, a + b) == run(s, a) + run(after(s, a), b),
        after(s, a + b) == after(after(s, a), b),
    decreases a.len(),
{
    if a.len() == 0 {
        assert(a + b =~= b);
        assert(run(s, a) =~= seq![]);
        assert(run(s, a) + run(s, b) =~= run(s, b));
    } else {
        let t = next(s, a[0]).0;
        assert((a + b).drop_first() =~= a.drop_first() + b);
        assert((a + b)[0] == a[0]);
        lemma_run_append(t, a.drop_first(), b);
        assert(seq![next(s, a[0]).1] + (run(t, a.drop_first()) + run(after(t, a.drop_first()), b))
            =~= (seq![next(s, a[0]).1] + run(t, a.drop_first())) + run(
            after(t, a.drop_first()),
            b,
        ));
    }
}

proof fn lemma_run_one(s: Session, e: Event, rest: Seq<Event>)
    ensures
        run(s, seq![e] + rest) == seq![next(s, e).1] + run(next(s, e).0, rest),
        after(s, seq![e] + rest) == after(next(s, e).0, rest),
{
    assert((seq![e] + rest).drop_first() =~= rest);
    assert((seq![e] + rest)[0] == e);
}

/// A new session is consistent.
pub proof fn lemma_initial_consistent()
    ensures
        consistent(initial().0),
{
}

/// Every transition keeps a session consistent.
pub proof fn lemma_next_consistent(s: Session, e: Event)
    requires
        consistent(s),
    ensures
        consistent(next(s, e).0),
{
}

/// A drain pass copies every queued packet to the sink exactly once, in the
/// order the packets come, each as `frames × block_align` bytes, each write
/// before that packet is handed back; then the stop request is read again.
pub proof fn lemma_drain_pass(s: Session, frames: Seq<u32>)
    requires
        s.stage == Stage::Streaming(Step::Query),
        forall|i: int| 0 <= i < frames.len() ==> frames[i] > 0,
    ensures
        run(s, drain_events(frames)) == drain_actions(frames, s.block_align),
        after(s, drain_events(frames)) == (Session { stage: Stage::Streaming(Step::Check), ..s }),
    decreases frames.len(),
{
    if frames.len() == 0 {
        lemma_run_one(s, Event::NextPacketSize(0), seq![]);
        assert(run(s, drain_events(frames)) =~= drain_actions(frames, s.block_align));
    } else {
        let f = frames[0];
        let rest = frames.drop_first();
        let packet = seq![
            Event::NextPacketSize(f),
            Event::PacketFrames(f),
            Event::Done,
            Event::Done,
        ];
        assert(forall|i: int| 0 <= i < rest.len() ==> rest[i] == frames[i + 1]);
        lemma_run_append(s, packet, drain_events(rest));
        let s1 = next(s, Event::NextPacketSize(f)).0;
        let s2 = next(s1, Event::PacketFrames(f)).0;
        let s3 = next(s2, Event::Done).0;
        let s4 = next(s3, Event::Done).0;
        assert(packet =~= seq![Event::NextPacketSize(f)] + (seq![Event::PacketFrames(f)] + (seq![
            Event::Done,
        ] + (seq![Event::Done] + seq![]))));
        lemma_run_one(
            s,
            Event::NextPacketSize(f),
            seq![Event::PacketFrames(f)] + (seq![Event::Done] + (seq![Event::Done] + seq![])),
        );
        lemma_run_one(s1, Event::PacketFrames(f), seq![Event::Done] + (seq![Event::Done] + seq![]));
        lemma_run_one(s2, Event::Done, seq![Event::Done] + seq![]);
        lemma_run_one(s3, Event::Done, seq![]);
        assert(s4 == s);
        lemma_drain_pass(s, rest);
        assert(run(s, drain_events(frames)) =~= drain_actions(frames, s.block_align));
    }
}

/// A finished session stays finished: whatever comes, it only reports its
/// outcome again.
pub proof fn lemma_released_stays(s: Session, events: Seq<Event>)
    requires
        s.stage == Stage::Released,
    ensures
        forall|i: int|
            0 <= i < run(s, events).len() ==> run(s, events)[i] == Action::Finish(
                outcome(s.error),
            ),
        run(s, events).len() == events.len(),
    decreases events.len(),
{
    if events.len() > 0 {
        lemma_released_stays(s, events.drop_first());
    }
}

/// Once a streaming session reads a stop request, it stops the stream, frees
/// the format, and is finished two events later, whatever they are.
pub proof fn lemma_stop_request_ends_session(s: Session, e1: Event, e2: Event, rest: Seq<Event>)
    requires
        consistent(s),
        s.stage == Stage::Streaming(Step::Check),
    ensures
        ({
            let acts = run(s, seq![Event::StopRequested(true), e1, e2] + rest);
            &&& acts.len() == rest.len() + 3
            &&& acts[0] == Action::StopStream
            &&& acts[1] == Action::FreeFormat
            &&& forall|i: int| 2 <= i < acts.len() ==> acts[i] is Finish
            &&& e1 == Event::Done && s.error is None ==> acts[2] == Action::Finish(Ok(()))
        }),
{
    let s1 = next(s, Event::StopRequested(true)).0;
    let s2 = next(s1, e1).0;
    let s3 = next(s2, e2).0;
    assert(seq![Event::StopRequested(true), e1, e2] + rest =~= seq![Event::StopRequested(true)]
        + (seq![e1] + (seq![e2] + rest)));
    lemma_run_one(s, Event::StopRequested(true), seq![e1] + (seq![e2] + rest));
    lemma_run_one(s1, e1, seq![e2] + rest);
    lemma_run_one(s2, e2, rest);
    lemma_released_stays(s3, rest);
    let acts = run(s, seq![Event::StopRequested(true), e1, e2] + rest);
    assert(acts =~= seq![Action::StopStream, Action::FreeFormat, next(s2, e2).1] + run(s3, rest));
}

/// A session whose client fails to initialize frees the mix format exactly
/// once, reports `InitializationFailed` where nothing failed before, and
/// never touches the stream.
pub proof fn lemma_init_failure_frees_once(s: Session, e: Event, rest: Seq<Event>)
    requires
        consistent(s),
        s.stage == Stage::FormatNegotiated,
        !(e is BufferFrames),
    ensures
        ({
            let acts = run(s, seq![e] + rest);
            &&& acts[0] == Action::FreeFormat
            &&& forall|i: int| 1 <= i < acts.len() ==> acts[i] != Action::FreeFormat
            &&& forall|i: int| 0 <= i < acts.len() ==> acts[i] != Action::StopStream
            &&& s.error is None && rest.len() > 0 ==> acts[1] == Action::Finish(
                Err(CaptureError::InitializationFailed),
            )
        }),
{
    let s1 = next(s, e).0;
    lemma_run_one(s, e, rest);
    if rest.len() > 0 {
        let s2 = next(s1, rest[0]).0;
        assert(rest =~= seq![rest[0]] + rest.drop_first());
        lemma_run_one(s1, rest[0], rest.drop_first());
        lemma_released_stays(s2, rest.drop_first());
    }
}

} // verus!
