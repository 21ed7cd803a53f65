//! What stands on the wire for the notifications of the Warp integration, and what the capture sink
//! reads from it.

use vstd::prelude::*;

use crate::payload;
use crate::payload::WarpNotification;
use crate::test_sink;
use crate::warp_agent;

verus! {

/// A notification says what its fields hold.
pub proof fn law_notification_says_what_it_holds(note: WarpNotification<'_>)
    ensures
        note@.v == note.v,
        note@.agent == note.agent@,
        note@.event == note.event@,
        note@.session_id == match note.session_id {
            Some(id) => Some(id@),
            None => None,
        },
        note@.cwd == match note.cwd {
            Some(path) => Some(path@),
            None => None,
        },
        note@.project == match note.project {
            Some(project) => Some(project@),
            None => None,
        },
        note@.query == match note.query {
            Some(query) => Some(query@),
            None => None,
        },
        note@.response == match note.response {
            Some(response) => Some(response@),
            None => None,
        },
        note@.summary == match note.summary {
            Some(summary) => Some(summary@),
            None => None,
        },
        note@.plugin_version == match note.plugin_version {
            Some(version) => Some(version@),
            None => None,
        },
        note@.error_type == match note.error_type {
            Some(error) => Some(error@),
            None => None,
        },
{
}

/// A frame is `ESC ] 777 ; notify ; warp://cli-agent ;`, the body, and `BEL`.
pub proof fn law_frame_opens_and_closes(json: Seq<char>)
    ensures
        payload::framed(json) == seq![
            '\x1b', ']', '7', '7', '7', ';', 'n', 'o', 't', 'i', 'f', 'y', ';', 'w', 'a', 'r', 'p',
            ':', '/', '/', 'c', 'l', 'i', '-', 'a', 'g', 'e', 'n', 't', ';',
        ] + json + seq!['\x07'],
{
    reveal_strlit("\x1b]777;notify;warp://cli-agent;");
    reveal_strlit("\x07");
    assert("\x1b]777;notify;warp://cli-agent;"@ =~= seq![
        '\x1b', ']', '7', '7', '7', ';', 'n', 'o', 't', 'i', 'f', 'y', ';', 'w', 'a', 'r', 'p', ':',
        '/', '/', 'c', 'l', 'i', '-', 'a', 'g', 'e', 'n', 't', ';',
    ]);
    assert("\x07"@ =~= seq!['\x07']);
}

/// The members of a notification in which every field has a value, in the order of the wire.
#[verifier::spinoff_prover]
#[verifier::rlimit(60)]
pub proof fn law_members_stand_in_order(
    note: payload::NotificationView,
    session_id: Seq<char>,
    cwd: Seq<char>,
    project: Seq<char>,
    query: Seq<char>,
    response: Seq<char>,
    summary: Seq<char>,
    plugin_version: Seq<char>,
    error_type: Seq<char>,
)
    requires
        note.session_id == Some(session_id),
        note.cwd == Some(cwd),
        note.project == Some(project),
        note.query == Some(query),
        note.response == Some(response),
        note.summary == Some(summary),
        note.plugin_version == Some(plugin_version),
        note.error_type == Some(error_type),
    ensures
        payload::number_members(note) == seq![("v"@, note.v)],
        payload::text_members(note) == seq![
            ("agent"@, note.agent),
            ("event"@, note.event),
            ("session_id"@, session_id),
            ("cwd"@, cwd),
            ("project"@, project),
            ("query"@, query),
            ("response"@, response),
            ("summary"@, summary),
            ("plugin_version"@, plugin_version),
            ("error_type"@, error_type),
        ],
{
    assert(payload::text_members(note) =~= seq![
        ("agent"@, note.agent),
        ("event"@, note.event),
        ("session_id"@, session_id),
        ("cwd"@, cwd),
        ("project"@, project),
        ("query"@, query),
        ("response"@, response),
        ("summary"@, summary),
        ("plugin_version"@, plugin_version),
        ("error_type"@, error_type),
    ]);
}

/// A field without a value takes its member out of the list and leaves the others in their order:
/// a notification with nothing but an agent and an event lists those two.
pub proof fn law_bare_notification_has_two_members(note: payload::NotificationView)
    requires
        note.session_id is None,
        note.cwd is None,
        note.project is None,
        note.query is None,
        note.response is None,
        note.summary is None,
        note.plugin_version is None,
        note.error_type is None,
    ensures
        payload::text_members(note) == seq![("agent"@, note.agent), ("event"@, note.event)],
{
    assert(payload::text_members(note) =~= seq![("agent"@, note.agent), ("event"@, note.event)]);
}

/// What is written for notifications: one sequence each, in order, from ESC to BEL with no control
/// character between, and a body in which every field reads back and the missing ones are missing.
#[verifier::spinoff_prover]
#[verifier::rlimit(60)]
pub proof fn law_wire_carries_every_field(
    sequences: Seq<Seq<char>>,
    notes: Seq<payload::NotificationView>,
    i: int,
) -> (json: Seq<char>)
    requires
        warp_agent::carries(sequences, notes),
        0 <= i < notes.len(),
    ensures
        sequences.len() == notes.len(),
        sequences[i] == payload::framed(json),
        forall|k: int| 0 <= k < json.len() ==> #[trigger] json[k] >= ' ',
        json == payload::json_object_text(
            payload::number_members(notes[i]),
            payload::text_members(notes[i]),
        ),
        payload::json_member(json, "v"@) == Some(payload::JsonValue::Number(notes[i].v as int)),
        payload::json_member(json, "agent"@) == Some(payload::JsonValue::Text(notes[i].agent)),
        payload::json_member(json, "event"@) == Some(payload::JsonValue::Text(notes[i].event)),
        notes[i].session_id matches Some(text) ==> payload::json_member(json, "session_id"@)
            == Some(payload::JsonValue::Text(text)),
        notes[i].session_id is None ==> payload::json_member(json, "session_id"@) is None,
        notes[i].cwd matches Some(text) ==> payload::json_member(json, "cwd"@) == Some(
            payload::JsonValue::Text(text),
        ),
        notes[i].cwd is None ==> payload::json_member(json, "cwd"@) is None,
        notes[i].project matches Some(text) ==> payload::json_member(json, "project"@) == Some(
            payload::JsonValue::Text(text),
        ),
        notes[i].project is None ==> payload::json_member(json, "project"@) is None,
        notes[i].query matches Some(text) ==> payload::json_member(json, "query"@) == Some(
            payload::JsonValue::Text(text),
        ),
        notes[i].query is None ==> payload::json_member(json, "query"@) is None,
        notes[i].response matches Some(text) ==> payload::json_member(json, "response"@) == Some(
            payload::JsonValue::Text(text),
        ),
        notes[i].response is None ==> payload::json_member(json, "response"@) is None,
        notes[i].summary matches Some(text) ==> payload::json_member(json, "summary"@) == Some(
            payload::JsonValue::Text(text),
        ),
        notes[i].summary is None ==> payload::json_member(json, "summary"@) is None,
        notes[i].plugin_version matches Some(text) ==> payload::json_member(
            json,
            "plugin_version"@,
        ) == Some(payload::JsonValue::Text(text)),
        notes[i].plugin_version is None ==> payload::json_member(json, "plugin_version"@) is None,
        notes[i].error_type matches Some(text) ==> payload::json_member(json, "error_type"@)
            == Some(payload::JsonValue::Text(text)),
        notes[i].error_type is None ==> payload::json_member(json, "error_type"@) is None,
{
    let json = payload::payload_text(notes[i]);
    assert(payload::is_one_sequence(sequences[i]));
    payload::law_payload_reads_back(json, notes[i]);
    law_frame_opens_and_closes(json);
    assert forall|k: int| 0 <= k < json.len() implies #[trigger] json[k] >= ' ' by {
        assert(sequences[i][30 + k] == json[k]);
        assert(!payload::is_control(sequences[i][30 + k]));
    }
    json
}

// ---------------------------------------------------------------------------
// The sink
// ---------------------------------------------------------------------------

/// The sink reads the events of a row of sequences one after the other: no sequence changes what
/// another tells.
pub proof fn law_sink_reads_one_by_one(front: Seq<Seq<char>>, sequence: Seq<char>)
    ensures
        test_sink::events_of(seq![]) == Seq::<(Seq<char>, Seq<char>)>::empty(),
        test_sink::events_of(front.push(sequence)) == match test_sink::event_of(sequence) {
            Some(pair) => test_sink::events_of(front).push(pair),
            None => test_sink::events_of(front),
        },
{
    assert(front.push(sequence).drop_last() =~= front);
}

/// A frame, with or without its BEL, tells the body's event and agent: nothing without an event, and
/// an empty agent without one. A body that itself ends in BEL loses that one.
#[verifier::spinoff_prover]
#[verifier::rlimit(60)]
pub proof fn law_sink_reads_event_and_agent(json: Seq<char>, bel: bool)
    requires
        json.len() == 0 || json.last() != '\x07',
    ensures
        ({
            let sequence = seq![
                '\x1b', ']', '7', '7', '7', ';', 'n', 'o', 't', 'i', 'f', 'y', ';', 'w', 'a', 'r',
                'p', ':', '/', '/', 'c', 'l', 'i', '-', 'a', 'g', 'e', 'n', 't', ';',
            ] + json + if bel {
                seq!['\x07']
            } else {
                seq![]
            };
            test_sink::event_of(sequence) == match payload::json_member(json, "event"@) {
                Some(payload::JsonValue::Text(event)) => Some(
                    (
                        event,
                        match payload::json_member(json, "agent"@) {
                            Some(payload::JsonValue::Text(agent)) => agent,
                            _ => seq![],
                        },
                    ),
                ),
                _ => None,
            }
        }),
{
    let opening = seq![
        '\x1b', ']', '7', '7', '7', ';', 'n', 'o', 't', 'i', 'f', 'y', ';', 'w', 'a', 'r', 'p', ':',
        '/', '/', 'c', 'l', 'i', '-', 'a', 'g', 'e', 'n', 't', ';',
    ];
    let end: Seq<char> = if bel {
        seq!['\x07']
    } else {
        seq![]
    };
    let sequence = opening + json + end;
    reveal_strlit("\x1b]777;notify;warp://cli-agent;");
    reveal_strlit("");
    assert(""@ =~= seq![]);
    assert(test_sink::opening() =~= opening);
    assert(sequence.take(30) =~= opening);
    assert(sequence.skip(30) =~= json + end);
    if bel {
        assert(sequence.skip(30).drop_last() =~= json);
    } else {
        assert(sequence.skip(30) =~= json);
    }
}

/// A sequence that opens in any other way tells nothing.
pub proof fn law_sink_skips_other_sequences(sequence: Seq<char>)
    requires
        sequence.len() < 30 || sequence.take(30) != seq![
            '\x1b', ']', '7', '7', '7', ';', 'n', 'o', 't', 'i', 'f', 'y', ';', 'w', 'a', 'r', 'p',
            ':', '/', '/', 'c', 'l', 'i', '-', 'a', 'g', 'e', 'n', 't', ';',
        ],
    ensures
        test_sink::event_of(sequence) is None,
{
    reveal_strlit("\x1b]777;notify;warp://cli-agent;");
    assert(test_sink::opening() =~= seq![
        '\x1b', ']', '7', '7', '7', ';', 'n', 'o', 't', 'i', 'f', 'y', ';', 'w', 'a', 'r', 'p', ':',
        '/', '/', 'c', 'l', 'i', '-', 'a', 'g', 'e', 'n', 't', ';',
    ]);
}

} // verus!
