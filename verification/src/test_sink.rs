//! Capture sink for emitted OSC sequences, so that integration tests can drive the real emission
//! path and assert the wire output without a terminal.

use vstd::prelude::*;

use crate::payload;
use crate::warp_agent;
use crate::warp_agent::EmitterState;

verus! {

/// The captured sequences while capture is active.
#[derive(Debug)]
pub struct TestSink {
    pub captured: Option<Vec<String>>,
}

/// The texts behind captured sequences.
pub open spec fn captured_texts(captured: Option<Vec<String>>) -> Option<Seq<Seq<char>>> {
    match captured {
        Some(sequences) => Some(sequences.deep_view()),
        None => None,
    }
}

impl View for TestSink {
    type V = Option<Seq<Seq<char>>>;

    open spec fn view(&self) -> Option<Seq<Seq<char>>> {
        captured_texts(self.captured)
    }
}

/// What opens every sequence.
pub open spec fn opening() -> Seq<char> {
    "\x1b]777;notify;warp://cli-agent;"@
}

/// The body of a sequence with that opening, without the closing BEL.
pub open spec fn body_of(sequence: Seq<char>) -> Option<Seq<char>> {
    if opening().len() <= sequence.len() && sequence.take(opening().len() as int) == opening() {
        let rest = sequence.skip(opening().len() as int);
        if rest.len() > 0 && rest.last() == '\x07' {
            Some(rest.drop_last())
        } else {
            Some(rest)
        }
    } else {
        None
    }
}

/// The `(event, agent)` that a sequence tells. A sequence without an event tells nothing, and one
/// without an agent tells an empty one.
pub open spec fn event_of(sequence: Seq<char>) -> Option<(Seq<char>, Seq<char>)> {
    match body_of(sequence) {
        Some(json) => match payload::text_in(payload::json_member(json, "event"@)) {
            Some(event) => Some(
                (
                    event,
                    match payload::text_in(payload::json_member(json, "agent"@)) {
                        Some(agent) => agent,
                        None => ""@,
                    },
                ),
            ),
            None => None,
        },
        None => None,
    }
}

/// The `(event, agent)` pairs that sequences tell, in order.
pub open spec fn events_of(sequences: Seq<Seq<char>>) -> Seq<(Seq<char>, Seq<char>)>
    decreases sequences.len(),
{
    if sequences.len() == 0 {
        seq![]
    } else {
        match event_of(sequences.last()) {
            Some(pair) => events_of(sequences.drop_last()).push(pair),
            None => events_of(sequences.drop_last()),
        }
    }
}

/// The body of a sequence.
fn body(sequence: &str) -> (json: Option<&str>)
    ensures
        payload::text_of(json) == body_of(sequence@),
{
    let opening = "\x1b]777;notify;warp://cli-agent;";
    let start: usize = opening.unicode_len();
    let len: usize = sequence.unicode_len();
    if len < start {
        return None;
    }
    let head = sequence.substring_char(0, start).to_owned();
    assert(head@ =~= sequence@.take(start as int));
    if !(head == opening.to_owned()) {
        return None;
    }
    let ghost rest = sequence@.skip(start as int);
    let end: usize = if len > start && sequence.get_char(len - 1) == '\x07' {
        len - 1
    } else {
        len
    };
    let json = sequence.substring_char(start, end);
    assert(json@ =~= if rest.len() > 0 && rest.last() == '\x07' {
        rest.drop_last()
    } else {
        rest
    });
    Some(json)
}

/// What a sequence tells.
fn event(sequence: &str) -> (pair: Option<(String, String)>)
    ensures
        match pair {
            Some((event, agent)) => event_of(sequence@) == Some((event@, agent@)),
            None => event_of(sequence@) is None,
        },
{
    let json = match body(sequence) {
        Some(json) => json,
        None => {
            return None;
        },
    };
    let event = match payload::read_text_member(json, "event") {
        Some(event) => event,
        None => {
            return None;
        },
    };
    let agent = match payload::read_text_member(json, "agent") {
        Some(agent) => agent,
        None => "".to_owned(),
    };
    Some((event, agent))
}

impl TestSink {
    /// A sink that captures nothing yet.
    pub fn new() -> (sink: Self)
        ensures
            sink@ is None,
    {
        TestSink { captured: None }
    }

    /// Begin capturing emitted sequences into memory. Also resets the emitter's transition state so
    /// a test starts from a clean slate.
    pub fn start(&mut self, emitter: &mut EmitterState)
        ensures
            final(self)@ == Some(Seq::<Seq<char>>::empty()),
            final(emitter)@ == warp_agent::fresh_emitter(),
    {
        let none: Vec<String> = Vec::new();
        assert(none.deep_view() =~= Seq::<Seq<char>>::empty());
        self.captured = Some(none);
        warp_agent::reset_for_tests(emitter);
    }

    /// Stop capturing and return everything captured so far.
    pub fn take(&mut self) -> (sequences: Vec<String>)
        ensures
            final(self)@ is None,
            sequences.deep_view() == match old(self)@ {
                Some(captured) => captured,
                None => Seq::empty(),
            },
    {
        match self.captured.take() {
            Some(sequences) => sequences,
            None => {
                let none: Vec<String> = Vec::new();
                assert(none.deep_view() =~= Seq::<Seq<char>>::empty());
                none
            },
        }
    }

    /// Record a sequence if capture is active. Returns true when captured (so the caller skips the
    /// real terminal write).
    pub fn capture(&mut self, sequence: &str) -> (captured: bool)
        ensures
            captured == (old(self)@ is Some),
            final(self)@ == match old(self)@ {
                Some(before) => Some(before.push(sequence@)),
                None => None,
            },
    {
        let ghost before = self@;
        match self.captured.take() {
            Some(mut sequences) => {
                sequences.push(sequence.to_owned());
                assert(sequences.deep_view() =~= before->0.push(sequence@));
                self.captured = Some(sequences);
                true
            },
            None => false,
        }
    }

    /// Stop capturing and parse the captured sequences into `(event, agent)` pairs for assertions.
    pub fn events(&mut self) -> (events: Vec<(String, String)>)
        ensures
            final(self)@ is None,
            events.deep_view() == match old(self)@ {
                Some(captured) => events_of(captured),
                None => Seq::empty(),
            },
    {
        let sequences = self.take();
        let mut events: Vec<(String, String)> = Vec::new();
        assert(events.deep_view() =~= Seq::empty());
        let mut at: usize = 0;
        assert(sequences.deep_view().take(0) =~= Seq::empty());
        while at < sequences.len()
            invariant
                at <= sequences@.len(),
                events.deep_view() == events_of(sequences.deep_view().take(at as int)),
            decreases sequences@.len() - at,
        {
            let ghost done = sequences.deep_view().take(at as int);
            let ghost so_far = events.deep_view();
            let ghost next = sequences.deep_view().take(at + 1);
            assert(next.drop_last() =~= done);
            assert(next.last() == sequences@[at as int]@);
            if let Some(pair) = event(sequences[at].as_str()) {
                let ghost told = (pair.0@, pair.1@);
                events.push(pair);
                assert(events.deep_view() =~= so_far.push(told));
            }
            at += 1;
        }
        assert(sequences.deep_view().take(at as int) =~= sequences.deep_view());
        events
    }
}

/// What is emitted reads back: the sequences that carry notifications tell their events and agents,
/// one for one and in order.
pub proof fn law_emitted_events_read_back(
    sequences: Seq<Seq<char>>,
    notes: Seq<payload::NotificationView>,
)
    requires
        warp_agent::carries(sequences, notes),
    ensures
        events_of(sequences) == notes.map_values(
            |note: payload::NotificationView| (note.event, note.agent),
        ),
    decreases sequences.len(),
{
    let told = |note: payload::NotificationView| (note.event, note.agent);
    if sequences.len() == 0 {
        assert(events_of(sequences) =~= notes.map_values(told));
    } else {
        let last = notes.len() - 1;
        assert(payload::is_one_sequence(sequences[last]));
        let json = payload::payload_text(notes[last]);
        payload::law_payload_reads_back(json, notes[last]);
        assert(sequences.last() == payload::framed(json));
        lemma_body_of_framed(json);
        assert(warp_agent::carries(sequences.drop_last(), notes.drop_last())) by {
            assert(sequences.drop_last() =~= payload::sequences_of(notes.drop_last()));
            assert forall|i: int| 0 <= i < sequences.len() - 1 implies payload::is_one_sequence(
                #[trigger] sequences.drop_last()[i],
            ) && payload::reads_as(
                payload::payload_text(notes.drop_last()[i]),
                notes.drop_last()[i],
            ) by {
                assert(payload::is_one_sequence(sequences[i]));
            }
        }
        law_emitted_events_read_back(sequences.drop_last(), notes.drop_last());
        assert(events_of(sequences) =~= notes.map_values(told));
    }
}

/// A framed body is found again.
proof fn lemma_body_of_framed(json: Seq<char>)
    ensures
        body_of(payload::framed(json)) == Some(json),
{
    reveal_strlit("\x07");
    let sequence = payload::framed(json);
    let start = opening().len() as int;
    assert(sequence.take(start) =~= opening());
    assert(sequence.skip(start) =~= json + "\x07"@);
    assert(sequence.skip(start).drop_last() =~= json);
}

} // verus!
