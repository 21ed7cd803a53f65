//! The notification that Warp's CLI-agent protocol carries, and its form on the wire.
//!
//! A notification rides the terminal as one OSC 777 escape sequence with a JSON body under the
//! sentinel title `warp://cli-agent`:
//!
//! ```text
//! ESC ] 777 ; notify ; warp://cli-agent ; {"v":1,"agent":"pi","event":"stop",...} BEL
//! ```

use vstd::prelude::*;

verus! {

/// Schema version of the payload (matches Warp's `CLI_AGENT_PROTOCOL_VERSION`).
pub const PROTOCOL_VERSION: u32 = 1;

/// The text behind a borrowed optional string.
pub open spec fn text_of(text: Option<&str>) -> Option<Seq<char>> {
    match text {
        Some(text) => Some(text@),
        None => None,
    }
}

/// The text behind an owned optional string.
pub open spec fn owned_text_of(text: Option<String>) -> Option<Seq<char>> {
    match text {
        Some(text) => Some(text@),
        None => None,
    }
}

/// Wire representation of a Warp CLI-agent notification. A field without a value is left out of
/// the payload altogether.
#[derive(Debug, Clone)]
pub struct WarpNotification<'a> {
    pub v: u32,
    pub agent: &'a str,
    pub event: &'a str,
    pub session_id: Option<&'a str>,
    pub cwd: Option<String>,
    pub project: Option<String>,
    pub query: Option<String>,
    pub response: Option<String>,
    pub summary: Option<String>,
    pub plugin_version: Option<&'a str>,
    pub error_type: Option<&'a str>,
}

/// What a notification says.
#[verifier::ext_equal]
pub struct NotificationView {
    pub v: u32,
    pub agent: Seq<char>,
    pub event: Seq<char>,
    pub session_id: Option<Seq<char>>,
    pub cwd: Option<Seq<char>>,
    pub project: Option<Seq<char>>,
    pub query: Option<Seq<char>>,
    pub response: Option<Seq<char>>,
    pub summary: Option<Seq<char>>,
    pub plugin_version: Option<Seq<char>>,
    pub error_type: Option<Seq<char>>,
}

impl<'a> View for WarpNotification<'a> {
    type V = NotificationView;

    open spec fn view(&self) -> NotificationView {
        NotificationView {
            v: self.v,
            agent: self.agent@,
            event: self.event@,
            session_id: text_of(self.session_id),
            cwd: owned_text_of(self.cwd),
            project: owned_text_of(self.project),
            query: owned_text_of(self.query),
            response: owned_text_of(self.response),
            summary: owned_text_of(self.summary),
            plugin_version: text_of(self.plugin_version),
            error_type: text_of(self.error_type),
        }
    }
}

// ---------------------------------------------------------------------------
// Members
// ---------------------------------------------------------------------------

/// A member of the payload where there is a value, and nothing where there is none.
pub open spec fn member(key: Seq<char>, value: Option<Seq<char>>) -> Seq<(Seq<char>, Seq<char>)> {
    match value {
        Some(value) => seq![(key, value)],
        None => seq![],
    }
}

/// The payload's only numeric member, its schema version.
pub open spec fn number_members(note: NotificationView) -> Seq<(Seq<char>, u32)> {
    seq![("v"@, note.v)]
}

/// The payload's text members in wire order, those without a value left out.
pub open spec fn text_members(note: NotificationView) -> Seq<(Seq<char>, Seq<char>)> {
    seq![("agent"@, note.agent)] + seq![("event"@, note.event)] + member(
        "session_id"@,
        note.session_id,
    ) + member("cwd"@, note.cwd) + member("project"@, note.project) + member("query"@, note.query)
        + member("response"@, note.response) + member("summary"@, note.summary) + member(
        "plugin_version"@,
        note.plugin_version,
    ) + member("error_type"@, note.error_type)
}

/// Appends a member where there is a value.
fn push_member(members: &mut Vec<(String, String)>, key: &str, value: Option<&str>)
    ensures
        final(members).deep_view() == old(members).deep_view() + member(key@, text_of(value)),
{
    let ghost before = members.deep_view();
    if let Some(value) = value {
        let ghost pair = (key@, value@);
        members.push((key.to_owned(), value.to_owned()));
        assert(members.deep_view() =~= before.push(pair));
        assert(members.deep_view() =~= before + seq![pair]);
    } else {
        assert(members.deep_view() =~= before + member(key@, None));
    }
}

/// The borrowed form of an owned optional string.
pub(crate) fn borrowed(text: &Option<String>) -> (borrowed: Option<&str>)
    ensures
        text_of(borrowed) == owned_text_of(*text),
{
    match text {
        Some(text) => Some(text.as_str()),
        None => None,
    }
}

/// Lists the text members of a notification's payload in wire order.
pub fn payload_members(note: &WarpNotification<'_>) -> (members: Vec<(String, String)>)
    ensures
        members.deep_view() == text_members(note@),
{
    let mut members: Vec<(String, String)> = Vec::new();
    assert(members.deep_view() =~= seq![]);
    push_member(&mut members, "agent", Some(note.agent));
    assert(members.deep_view() =~= seq![("agent"@, note.agent@)]);
    push_member(&mut members, "event", Some(note.event));
    push_member(&mut members, "session_id", note.session_id);
    push_member(&mut members, "cwd", borrowed(&note.cwd));
    push_member(&mut members, "project", borrowed(&note.project));
    push_member(&mut members, "query", borrowed(&note.query));
    push_member(&mut members, "response", borrowed(&note.response));
    push_member(&mut members, "summary", borrowed(&note.summary));
    push_member(&mut members, "plugin_version", note.plugin_version);
    push_member(&mut members, "error_type", note.error_type);
    members
}

// ---------------------------------------------------------------------------
// JSON
// ---------------------------------------------------------------------------

/// The compact text that `serde_json` writes for an object of these numeric members and, behind
/// them, these text members.
pub uninterp spec fn json_object_text(
    numbers: Seq<(Seq<char>, u32)>,
    texts: Seq<(Seq<char>, Seq<char>)>,
) -> Seq<char>;

/// What a member of a JSON object holds, as far as payloads go.
pub ghost enum JsonValue {
    /// An integer that `u64` can hold.
    Number(int),
    /// A text.
    Text(Seq<char>),
    /// Anything else.
    Other,
}

/// What `serde_json` reads from `json` under that key. `None` where `json` is not the text of an
/// object or the object has no such member.
pub uninterp spec fn json_member(json: Seq<char>, key: Seq<char>) -> Option<JsonValue>;

/// The text that a member holds, where it holds one.
pub open spec fn text_in(value: Option<JsonValue>) -> Option<Seq<char>> {
    match value {
        Some(JsonValue::Text(text)) => Some(text),
        _ => None,
    }
}

/// A member that holds a text, where there is one.
pub open spec fn text_value(text: Option<Seq<char>>) -> Option<JsonValue> {
    match text {
        Some(text) => Some(JsonValue::Text(text)),
        None => None,
    }
}

/// The value of a key among members, the last one where there are several.
pub open spec fn value_among<V>(members: Seq<(Seq<char>, V)>, key: Seq<char>) -> Option<V>
    decreases members.len(),
{
    if members.len() == 0 {
        None
    } else if members.last().0 == key {
        Some(members.last().1)
    } else {
        value_among(members.drop_last(), key)
    }
}

/// What an object of these numeric members and, behind them, these text members holds under a key.
pub open spec fn member_value(
    numbers: Seq<(Seq<char>, u32)>,
    texts: Seq<(Seq<char>, Seq<char>)>,
    key: Seq<char>,
) -> Option<JsonValue> {
    match value_among(texts, key) {
        Some(text) => Some(JsonValue::Text(text)),
        None => match value_among(numbers, key) {
            Some(number) => Some(JsonValue::Number(number as int)),
            None => None,
        },
    }
}

/// A character below the space: what a terminal takes as control.
pub open spec fn is_control(c: char) -> bool {
    c < ' '
}

/// `serde_json::to_string` of a `serde_json::Map` that keeps the order of its members.
///
/// Trusted: the text depends on the members alone (`json_object_text` names it). The call fails
/// only on keys that are no strings and on values that refuse to be written, and there are none of
/// either here. Every control character of a key or a value is escaped, so that none stands in the
/// text. Reading the text gives the members back, and no others.
#[verifier::external_body]
fn write_json_object(numbers: &Vec<(String, u32)>, texts: &Vec<(String, String)>) -> (json: Option<
    String,
>)
    ensures
        json is Some,
        json->0@ == json_object_text(numbers.deep_view(), texts.deep_view()),
        forall|i: int| 0 <= i < json->0@.len() ==> !is_control(#[trigger] json->0@[i]),
        forall|key: Seq<char>| #[trigger]
            json_member(json->0@, key) == member_value(
                numbers.deep_view(),
                texts.deep_view(),
                key,
            ),
{
    let mut object = serde_json::Map::new();
    object.extend(numbers.iter().map(|(key, n)| (key.clone(), serde_json::Value::from(*n))));
    object.extend(texts.iter().map(|(key, t)| (key.clone(), serde_json::Value::from(t.as_str()))));
    serde_json::to_string(&object).ok()
}

/// `serde_json::from_str` into a `serde_json::Value`, then `Value::get` and `Value::as_str`.
///
/// Trusted: what is read depends on the text and the key alone; `json_member` names it, and the text
/// comes out where that is one.
#[verifier::external_body]
pub(crate) fn read_text_member(json: &str, key: &str) -> (value: Option<String>)
    ensures
        owned_text_of(value) == text_in(json_member(json@, key@)),
{
    let object: serde_json::Value = serde_json::from_str(json).ok()?;
    Some(object.get(key)?.as_str()?.to_owned())
}

/// The JSON payload of a notification.
pub open spec fn payload_text(note: NotificationView) -> Seq<char> {
    json_object_text(number_members(note), text_members(note))
}

/// Reading `json` gives the members of a notification, and no others.
pub open spec fn reads_as(json: Seq<char>, note: NotificationView) -> bool {
    forall|key: Seq<char>| #[trigger]
        json_member(json, key) == member_value(number_members(note), text_members(note), key)
}

/// A member behind others takes precedence under its own key and leaves the other keys alone.
proof fn lemma_member_behind(
    members: Seq<(Seq<char>, Seq<char>)>,
    key: Seq<char>,
    value: Option<Seq<char>>,
    wanted: Seq<char>,
)
    ensures
        value_among(members + member(key, value), wanted) == if wanted == key && value is Some {
            value
        } else {
            value_among(members, wanted)
        },
{
    match value {
        Some(text) => {
            assert((members + seq![(key, text)]).drop_last() =~= members);
        },
        None => {
            assert(members + member(key, value) =~= members);
        },
    }
}

/// The value of a key among a notification's members, field by field from the last.
proof fn lemma_text_member(note: NotificationView, wanted: Seq<char>)
    ensures
        value_among(text_members(note), wanted) == if wanted == "error_type"@ && note.error_type
            is Some {
            note.error_type
        } else if wanted == "plugin_version"@ && note.plugin_version is Some {
            note.plugin_version
        } else if wanted == "summary"@ && note.summary is Some {
            note.summary
        } else if wanted == "response"@ && note.response is Some {
            note.response
        } else if wanted == "query"@ && note.query is Some {
            note.query
        } else if wanted == "project"@ && note.project is Some {
            note.project
        } else if wanted == "cwd"@ && note.cwd is Some {
            note.cwd
        } else if wanted == "session_id"@ && note.session_id is Some {
            note.session_id
        } else if wanted == "event"@ {
            Some(note.event)
        } else if wanted == "agent"@ {
            Some(note.agent)
        } else {
            None
        },
{
    let m0 = seq![("agent"@, note.agent)];
    let m1 = m0 + seq![("event"@, note.event)];
    let m2 = m1 + member("session_id"@, note.session_id);
    let m3 = m2 + member("cwd"@, note.cwd);
    let m4 = m3 + member("project"@, note.project);
    let m5 = m4 + member("query"@, note.query);
    let m6 = m5 + member("response"@, note.response);
    let m7 = m6 + member("summary"@, note.summary);
    let m8 = m7 + member("plugin_version"@, note.plugin_version);
    lemma_member_behind(seq![], "agent"@, Some(note.agent), wanted);
    assert(seq![] + member("agent"@, Some(note.agent)) =~= m0);
    lemma_member_behind(m0, "event"@, Some(note.event), wanted);
    lemma_member_behind(m1, "session_id"@, note.session_id, wanted);
    lemma_member_behind(m2, "cwd"@, note.cwd, wanted);
    lemma_member_behind(m3, "project"@, note.project, wanted);
    lemma_member_behind(m4, "query"@, note.query, wanted);
    lemma_member_behind(m5, "response"@, note.response, wanted);
    lemma_member_behind(m6, "summary"@, note.summary, wanted);
    lemma_member_behind(m7, "plugin_version"@, note.plugin_version, wanted);
    lemma_member_behind(m8, "error_type"@, note.error_type, wanted);
}

/// The keys are told apart by their length and, where that is not enough, their first character.
proof fn lemma_keys()
    ensures
        "v"@.len() == 1,
        "agent"@.len() == 5 && "agent"@[0] == 'a',
        "event"@.len() == 5 && "event"@[0] == 'e',
        "query"@.len() == 5 && "query"@[0] == 'q',
        "project"@.len() == 7 && "project"@[0] == 'p',
        "summary"@.len() == 7 && "summary"@[0] == 's',
        "session_id"@.len() == 10 && "session_id"@[0] == 's',
        "error_type"@.len() == 10 && "error_type"@[0] == 'e',
        "cwd"@.len() == 3,
        "response"@.len() == 8,
        "plugin_version"@.len() == 14,
{
    reveal_strlit("v");
    reveal_strlit("agent");
    reveal_strlit("event");
    reveal_strlit("session_id");
    reveal_strlit("cwd");
    reveal_strlit("project");
    reveal_strlit("query");
    reveal_strlit("response");
    reveal_strlit("summary");
    reveal_strlit("plugin_version");
    reveal_strlit("error_type");
}

/// The only numeric member is the schema version.
proof fn lemma_number_member(note: NotificationView)
    ensures
        forall|wanted: Seq<char>| #[trigger]
            value_among(number_members(note), wanted) == if wanted == "v"@ {
                Some(note.v)
            } else {
                None
            },
{
    assert forall|wanted: Seq<char>| #[trigger]
        value_among(number_members(note), wanted) == if wanted == "v"@ {
            Some(note.v)
        } else {
            None
        } by {
        assert(number_members(note).drop_last() =~= seq![]);
        assert(value_among::<u32>(seq![], wanted) is None);
    }
}

/// A payload matches the schema: each field reads back as what it was written with, and a field
/// without a value is not there.
pub proof fn law_payload_reads_back(json: Seq<char>, note: NotificationView)
    requires
        reads_as(json, note),
    ensures
        json_member(json, "v"@) == Some(JsonValue::Number(note.v as int)),
        json_member(json, "agent"@) == Some(JsonValue::Text(note.agent)),
        json_member(json, "event"@) == Some(JsonValue::Text(note.event)),
        json_member(json, "session_id"@) == text_value(note.session_id),
        json_member(json, "cwd"@) == text_value(note.cwd),
        json_member(json, "project"@) == text_value(note.project),
        json_member(json, "query"@) == text_value(note.query),
        json_member(json, "response"@) == text_value(note.response),
        json_member(json, "summary"@) == text_value(note.summary),
        json_member(json, "plugin_version"@) == text_value(note.plugin_version),
        json_member(json, "error_type"@) == text_value(note.error_type),
{
    lemma_keys();
    lemma_number_member(note);
    lemma_text_member(note, "v"@);
    lemma_text_member(note, "agent"@);
    lemma_text_member(note, "event"@);
    lemma_text_member(note, "session_id"@);
    lemma_text_member(note, "cwd"@);
    lemma_text_member(note, "project"@);
    lemma_text_member(note, "query"@);
    lemma_text_member(note, "response"@);
    lemma_text_member(note, "summary"@);
    lemma_text_member(note, "plugin_version"@);
    lemma_text_member(note, "error_type"@);
}

// ---------------------------------------------------------------------------
// The escape sequence
// ---------------------------------------------------------------------------

/// A JSON body inside its OSC 777 sequence.
pub open spec fn framed(json: Seq<char>) -> Seq<char> {
    "\x1b]777;notify;warp://cli-agent;"@ + json + "\x07"@
}

/// The escape sequence that carries a notification.
pub open spec fn sequence_of(note: NotificationView) -> Seq<char> {
    framed(payload_text(note))
}

/// A single complete escape sequence: it opens with ESC, closes with BEL, and no control character
/// in between can end it early or start another.
pub open spec fn is_one_sequence(sequence: Seq<char>) -> bool {
    &&& sequence.len() >= 2
    &&& sequence[0] == '\x1b'
    &&& sequence.last() == '\x07'
    &&& forall|i: int| 0 < i < sequence.len() - 1 ==> !is_control(#[trigger] sequence[i])
}

/// A body free of control characters makes a single complete sequence.
pub proof fn law_framed_is_one_sequence(json: Seq<char>)
    requires
        forall|i: int| 0 <= i < json.len() ==> !is_control(#[trigger] json[i]),
    ensures
        is_one_sequence(framed(json)),
{
    reveal_strlit("\x1b]777;notify;warp://cli-agent;");
    reveal_strlit("\x07");
    let opening = "\x1b]777;notify;warp://cli-agent;"@;
    let sequence = framed(json);
    assert forall|i: int| 0 < i < sequence.len() - 1 implies !is_control(
        #[trigger] sequence[i],
    ) by {
        if i < opening.len() {
            assert(sequence[i] == opening[i]);
        } else {
            assert(sequence[i] == json[i - opening.len()]);
        }
    }
}

/// The body of a sequence can be told from the sequence: two bodies never share one.
pub proof fn law_framed_keeps_the_body(json: Seq<char>, other: Seq<char>)
    ensures
        framed(json) == framed(other) ==> json == other,
{
    let opening = "\x1b]777;notify;warp://cli-agent;"@;
    let closing = "\x07"@;
    if framed(json) == framed(other) {
        let from = opening.len() as int;
        assert(framed(json).len() == from + json.len() + closing.len());
        assert(framed(other).len() == from + other.len() + closing.len());
        assert(framed(json).subrange(from, from + json.len()) =~= json);
        assert(framed(other).subrange(from, from + other.len()) =~= other);
    }
}

/// Wraps a JSON body into its OSC 777 sequence.
pub fn osc_sequence(json: &str) -> (sequence: String)
    ensures
        sequence@ == framed(json@),
{
    "\x1b]777;notify;warp://cli-agent;".to_owned().concat(json).concat("\x07")
}

/// The sequences that carry `notes`, in the same order.
pub open spec fn sequences_of(notes: Seq<NotificationView>) -> Seq<Seq<char>> {
    notes.map_values(|note: NotificationView| sequence_of(note))
}

/// Serializes a notification and appends its OSC 777 sequence to those that await the terminal.
pub fn emit(sequences: &mut Vec<String>, note: &WarpNotification<'_>)
    ensures
        final(sequences).deep_view() == old(sequences).deep_view().push(sequence_of(note@)),
        is_one_sequence(sequence_of(note@)),
        reads_as(payload_text(note@), note@),
{
    let ghost before = sequences.deep_view();
    let mut numbers: Vec<(String, u32)> = Vec::new();
    numbers.push(("v".to_owned(), note.v));
    assert(numbers.deep_view() =~= number_members(note@));
    let texts = payload_members(note);
    if let Some(json) = write_json_object(&numbers, &texts) {
        proof {
            law_framed_is_one_sequence(json@);
        }
        sequences.push(osc_sequence(json.as_str()));
        assert(sequences.deep_view() =~= before.push(sequence_of(note@)));
    }
}

} // verus!
