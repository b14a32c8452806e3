use vstd::prelude::*;
use vstd::utf8::*;

verus! {

/// The text that lossy UTF-8 decoding makes of `bytes`.
pub uninterp spec fn lossy_text(bytes: Seq<u8>) -> Seq<char>;

/// Relies on `String::from_utf8_lossy`: it never fails, keeps valid UTF-8 as it
/// is, and replaces each invalid sequence with U+FFFD.
#[verifier::external_body]
fn decode_lossy(bytes: &[u8]) -> (r: String)
    ensures
        r@ == lossy_text(bytes@),
        valid_utf8(bytes@) ==> encode_utf8(r@) == bytes@,
{
    String::from_utf8_lossy(bytes).into_owned()
}

/// Where the receive loop of one connection stands.
#[derive(Clone, Copy, Debug, PartialEq, Eq)]
pub enum ReceiveState {
    /// Waiting for the next read.
    Reading,
    /// The peer closed the stream; the loop has ended normally.
    Closed,
    /// A read failed; the loop has ended.
    Errored,
}

/// What one read of the socket gave: the bytes read (none at end of stream),
/// or the text of an I/O error.
#[derive(Clone, Debug, PartialEq, Eq)]
pub enum ReadOutcome {
    Data(Vec<u8>),
    Failed(String),
}

/// Inbound text for the event sink, addressed by session name.
#[derive(Clone, Debug, PartialEq, Eq)]
pub struct DataEvent {
    pub session: String,
    pub data: String,
}

/// What the caller of the loop does after a read.
#[derive(Clone, Debug, PartialEq, Eq)]
pub enum ReceiveAction {
    /// Hand this event to the sink and read again.
    Deliver(DataEvent),
    /// The peer closed the stream: stop, reporting no error.
    PeerClosed,
    /// The read failed: report this text and stop.
    Failed(String),
    /// The loop had already ended: do nothing.
    Stopped,
}

/// The state after a read with outcome `o` in state `s`.
pub open spec fn next_state(s: ReceiveState, o: ReadOutcome) -> ReceiveState {
    match s {
        ReceiveState::Reading => match o {
            ReadOutcome::Data(b) => if b@.len() == 0 {
                ReceiveState::Closed
            } else {
                ReceiveState::Reading
            },
            ReadOutcome::Failed(_) => ReceiveState::Errored,
        },
        _ => s,
    }
}

/// The text delivered to the sink by a read with outcome `o` in state `s`, if any.
pub open spec fn delivered(s: ReceiveState, o: ReadOutcome) -> Option<Seq<char>> {
    match o {
        ReadOutcome::Data(b) => if s == ReceiveState::Reading && b@.len() > 0 {
            Some(lossy_text(b@))
        } else {
            None
        },
        ReadOutcome::Failed(_) => None,
    }
}

/// The state after the reads `outs`, in order, starting from `s`.
pub open spec fn run_state(s: ReceiveState, outs: Seq<ReadOutcome>) -> ReceiveState
    decreases outs.len(),
{
    if outs.len() == 0 {
        s
    } else {
        run_state(next_state(s, outs[0]), outs.drop_first())
    }
}

/// The texts delivered to the sink, in order, by the reads `outs` from `s`.
pub open spec fn run_deliveries(s: ReceiveState, outs: Seq<ReadOutcome>) -> Seq<Seq<char>>
    decreases outs.len(),
{
    if outs.len() == 0 {
        Seq::empty()
    } else {
        let first = match delivered(s, outs[0]) {
            Some(t) => seq![t],
            None => Seq::empty(),
        };
        first + run_deliveries(next_state(s, outs[0]), outs.drop_first())
    }
}

/// True when `o` is a read of at least one byte.
pub open spec fn is_payload(o: ReadOutcome) -> bool {
    o is Data && o->Data_0@.len() > 0
}

/// The receive loop of one session: it owns the session's name and its state.
pub struct ReceiveLoop {
    pub name: String,
    pub state: ReceiveState,
}

impl ReceiveLoop {
    /// A loop for the session `name`, ready to read.
    pub fn new(name: String) -> (r: Self)
        ensures
            r.name == name,
            r.state == ReceiveState::Reading,
    {
        ReceiveLoop { name, state: ReceiveState::Reading }
    }

    /// Whether the loop still reads.
    pub fn is_running(&self) -> (r: bool)
        ensures
            r == (self.state == ReceiveState::Reading),
    {
        match self.state {
            ReceiveState::Reading => true,
            _ => false,
        }
    }

    /// Takes the outcome of one read and says what to do with it.
    ///
    /// A read of zero bytes ends the loop quietly; a read of some bytes is
    /// decoded leniently and delivered under the session's name; a failed read
    /// ends the loop with its error. Once ended, the loop delivers nothing.
    pub fn on_read(&mut self, outcome: ReadOutcome) -> (r: ReceiveAction)
        ensures
            final(self).name == old(self).name,
            final(self).state == next_state(old(self).state, outcome),
            old(self).state != ReceiveState::Reading ==> r == ReceiveAction::Stopped,
            old(self).state == ReceiveState::Reading ==> match outcome {
                ReadOutcome::Data(b) => if b@.len() == 0 {
                    r == ReceiveAction::PeerClosed
                } else {
                    r is Deliver && r->Deliver_0.session == old(self).name
                        && r->Deliver_0.data@ == lossy_text(b@)
                },
                ReadOutcome::Failed(why) => r == ReceiveAction::Failed(why),
            },
            delivered(old(self).state, outcome) == (if r is Deliver {
                Some(r->Deliver_0.data@)
            } else {
                None::<Seq<char>>
            }),
    {
        if !self.is_running() {
            return ReceiveAction::Stopped;
        }
        match outcome {
            ReadOutcome::Data(bytes) => {
                if bytes.len() == 0 {
                    self.state = ReceiveState::Closed;
                    ReceiveAction::PeerClosed
                } else {
                    let data = decode_lossy(bytes.as_slice());
                    ReceiveAction::Deliver(DataEvent { session: self.name.clone(), data })
                }
            },
            ReadOutcome::Failed(why) => {
                self.state = ReceiveState::Errored;
                ReceiveAction::Failed(why)
            },
        }
    }
}

/// A loop that has ended stays ended and delivers nothing, whatever it is
/// handed afterwards.
pub proof fn lemma_ended_loop_is_silent(s: ReceiveState, outs: Seq<ReadOutcome>)
    requires
        s != ReceiveState::Reading,
    ensures
        run_state(s, outs) == s,
        run_deliveries(s, outs) == Seq::<Seq<char>>::empty(),
    decreases outs.len(),
{
    if outs.len() > 0 {
        lemma_ended_loop_is_silent(s, outs.drop_first());
        assert(run_deliveries(s, outs) =~= Seq::<Seq<char>>::empty() + run_deliveries(
            s,
            outs.drop_first(),
        ));
    }
}

/// When the peer closes the stream (a read of zero bytes), the loop ends
/// without an error and delivers no further data, whatever reads follow.
pub proof fn lemma_end_of_stream_ends_loop(outs: Seq<ReadOutcome>)
    requires
        outs.len() > 0,
        outs[0] is Data,
        outs[0]->Data_0@.len() == 0,
    ensures
        run_state(ReceiveState::Reading, outs) == ReceiveState::Closed,
        run_deliveries(ReceiveState::Reading, outs) == Seq::<Seq<char>>::empty(),
{
    lemma_ended_loop_is_silent(ReceiveState::Closed, outs.drop_first());
    assert(run_deliveries(ReceiveState::Reading, outs) =~= Seq::<Seq<char>>::empty()
        + run_deliveries(ReceiveState::Closed, outs.drop_first()));
}

/// Reads that each bring some bytes are delivered one event per read, in the
/// order they were read, and the loop keeps reading.
pub proof fn lemma_payloads_delivered_in_order(outs: Seq<ReadOutcome>)
    requires
        forall|i: int| 0 <= i < outs.len() ==> #[trigger] is_payload(outs[i]),
    ensures
        run_state(ReceiveState::Reading, outs) == ReceiveState::Reading,
        run_deliveries(ReceiveState::Reading, outs) == outs.map_values(
            |o: ReadOutcome| lossy_text(o->Data_0@),
        ),
    decreases outs.len(),
{
    if outs.len() > 0 {
        let rest = outs.drop_first();
        assert forall|i: int| 0 <= i < rest.len() implies #[trigger] is_payload(rest[i]) by {
            assert(rest[i] == outs[i + 1]);
            assert(is_payload(outs[i + 1]));
        }
        assert(is_payload(outs[0]));
        lemma_payloads_delivered_in_order(rest);
        assert(run_deliveries(ReceiveState::Reading, outs) =~= outs.map_values(
            |o: ReadOutcome| lossy_text(o->Data_0@),
        ));
    }
}

} // verus!
