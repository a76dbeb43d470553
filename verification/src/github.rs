//! Webhook deliveries of a source-control host: the event a delivery
//! announces, and how one is read from its headers and its JSON body.

use crate::text::{digit_runs_within, has_digit_runs_within, str_eq};
use vstd::prelude::*;

verus! {

/// `json::JsonValue`, a parsed JSON document. Nothing of its inside is
/// known here but through `string_members` and `u64_members`.
#[verifier::external_type_specification]
#[verifier::external_body]
pub struct ExJsonValue(json::JsonValue);

/// `json::Error`, what `json::parse` reports of a text that is no JSON.
#[verifier::external_type_specification]
#[verifier::external_body]
pub struct ExJsonError(json::Error);

/// The document that `json::parse` reads from a text; `None` where it
/// reports an error.
pub uninterp spec fn parsed(text: Seq<char>) -> Option<json::JsonValue>;

/// The members of a JSON object that hold a string, by key. A document that
/// is no object has none.
pub uninterp spec fn string_members(doc: json::JsonValue) -> Map<Seq<char>, Seq<char>>;

/// The members of a JSON object that hold a number which
/// `JsonValue::as_u64` accepts, by key. A document that is no object has
/// none.
pub uninterp spec fn u64_members(doc: json::JsonValue) -> Map<Seq<char>, u64>;

/// The most decimal digits that may stand in a row in a text that is handed
/// to the JSON reader. The reader counts the digits of a fraction in sixteen
/// bits and does not guard the count.
pub const MAX_DIGIT_RUN: usize = 32767;

/// A text that the JSON reader can be trusted with.
pub open spec fn readable(text: Seq<char>) -> bool {
    digit_runs_within(text, MAX_DIGIT_RUN as nat)
}

/// `json::parse`, on a text without overlong runs of digits. Unproved: the
/// result is the document named by `parsed`, and an error comes exactly
/// where `parsed` names none.
#[verifier::external_body]
fn parse(text: &str) -> (r: Result<json::JsonValue, json::Error>)
    requires
        readable(text@),
    ensures
        match r {
            Ok(doc) => parsed(text@) == Some(doc),
            Err(_) => parsed(text@) is None,
        },
{
    json::parse(text)
}

/// `JsonValue::take_string` on the member at `key`, reached by mutable
/// indexing. Unproved: the string is handed out exactly where the member
/// holds one, and then leaves the document; a missing member is created
/// empty; no other member changes.
#[verifier::external_body]
fn take_string(doc: &mut json::JsonValue, key: &str) -> (r: Option<String>)
    ensures
        r is Some <==> string_members(*old(doc)).contains_key(key@),
        r matches Some(s) ==> s@ == string_members(*old(doc))[key@],
        string_members(*final(doc)) == string_members(*old(doc)).remove(key@),
        u64_members(*final(doc)) == u64_members(*old(doc)),
{
    doc[key].take_string()
}

/// `JsonValue::as_u64` on the member at `key`, reached by indexing.
/// Unproved: the number is returned exactly where `u64_members` holds the
/// key.
#[verifier::external_body]
fn as_u64(doc: &json::JsonValue, key: &str) -> (r: Option<u64>)
    ensures
        r is Some <==> u64_members(*doc).contains_key(key@),
        r matches Some(n) ==> n == u64_members(*doc)[key@],
{
    doc[key].as_u64()
}

/// What can be wrong with a delivery.
#[derive(Debug, Clone, Copy, PartialEq, Eq, Structural)]
pub enum EventError {
    /// The delivery or the event type header is missing.
    MissingHeaders,
    /// The body holds more decimal digits in a row than the JSON reader can
    /// be trusted with.
    OverlongNumber,
    /// The body is no JSON document.
    InvalidJson,
    /// A push without a `ref` member.
    MissingRef,
    /// A push with neither a `head` nor an `after` member.
    MissingSha,
    /// A ping without a `zen` member.
    MissingZen,
    /// A ping without a `hook_id` member.
    MissingHookId,
}

/// The status of the answer to a delivery that is refused. A sender whose
/// headers, JSON or commit are missing or unreadable is told so. A push without a ref and
/// a ping without its members have no status of their own: the host sends
/// none such, and the caller treats them as a fault of the server.
pub open spec fn status_of(error: EventError) -> Option<u16> {
    match error {
        EventError::MissingHeaders => Some(400u16),
        EventError::OverlongNumber => Some(400u16),
        EventError::InvalidJson => Some(400u16),
        EventError::MissingSha => Some(400u16),
        _ => None,
    }
}

/// What is said of a delivery that is refused.
pub open spec fn message_of(error: EventError) -> Seq<char> {
    match error {
        EventError::MissingHeaders => "missing delivery or event type headers"@,
        EventError::OverlongNumber => "body holds a number of too many digits"@,
        EventError::InvalidJson => "body is not valid JSON"@,
        EventError::MissingRef => "'push' event missing 'ref' field"@,
        EventError::MissingSha => "push event missing 'head' and 'after' fields"@,
        EventError::MissingZen => "'ping' event missing 'zen' field"@,
        EventError::MissingHookId => "'ping' event missing 'hook_id' field"@,
    }
}

impl EventError {
    /// The status to answer with, where the delivery is answered.
    pub fn status(&self) -> (status: Option<u16>)
        ensures
            status == status_of(*self),
    {
        match self {
            EventError::MissingHeaders => Some(400),
            EventError::OverlongNumber => Some(400),
            EventError::InvalidJson => Some(400),
            EventError::MissingSha => Some(400),
            _ => None,
        }
    }

    /// What to say of the delivery.
    pub fn message(&self) -> (message: &'static str)
        ensures
            message@ == message_of(*self),
    {
        match self {
            EventError::MissingHeaders => "missing delivery or event type headers",
            EventError::OverlongNumber => "body holds a number of too many digits",
            EventError::InvalidJson => "body is not valid JSON",
            EventError::MissingRef => "'push' event missing 'ref' field",
            EventError::MissingSha => "push event missing 'head' and 'after' fields",
            EventError::MissingZen => "'ping' event missing 'zen' field",
            EventError::MissingHookId => "'ping' event missing 'hook_id' field",
        }
    }
}

/// The most that is read of a delivery's body, in bytes: the host sends no
/// more than five mebibytes.
pub fn body_limit() -> (limit: u64)
    ensures
        limit == 5 * 1024 * 1024,
{
    5 * 1024 * 1024
}

/// The members of a delivery's body that an event is built from.
#[derive(Debug, Clone, PartialEq, Eq)]
pub struct Payload {
    /// `ref`
    pub full_ref: Option<String>,
    /// `head`
    pub head: Option<String>,
    /// `after`
    pub after: Option<String>,
    /// `zen`
    pub zen: Option<String>,
    /// `hook_id`
    pub hook_id: Option<usize>,
}

/// A `Payload` as plain text and numbers.
pub struct PayloadView {
    pub full_ref: Option<Seq<char>>,
    pub head: Option<Seq<char>>,
    pub after: Option<Seq<char>>,
    pub zen: Option<Seq<char>>,
    pub hook_id: Option<usize>,
}

impl View for Payload {
    type V = PayloadView;

    open spec fn view(&self) -> PayloadView {
        PayloadView {
            full_ref: self.full_ref.deep_view(),
            head: self.head.deep_view(),
            after: self.after.deep_view(),
            zen: self.zen.deep_view(),
            hook_id: self.hook_id,
        }
    }
}

/// The value of a map at a key, where it has one.
pub open spec fn member<V>(m: Map<Seq<char>, V>, key: Seq<char>) -> Option<V> {
    if m.contains_key(key) {
        Some(m[key])
    } else {
        None
    }
}

/// A number as an index of this machine, where it is small enough for one.
pub open spec fn as_index(n: Option<u64>) -> Option<usize> {
    match n {
        Some(n) => if n <= usize::MAX {
            Some(n as usize)
        } else {
            None
        },
        None => None,
    }
}

/// The payload that a JSON document carries.
pub open spec fn payload_of(doc: json::JsonValue) -> PayloadView {
    PayloadView {
        full_ref: member(string_members(doc), "ref"@),
        head: member(string_members(doc), "head"@),
        after: member(string_members(doc), "after"@),
        zen: member(string_members(doc), "zen"@),
        hook_id: as_index(member(u64_members(doc), "hook_id"@)),
    }
}

/// The keys of the four strings of a payload are four different texts, so
/// that taking one string out of a document leaves the others in it.
proof fn lemma_keys_differ()
    ensures
        "ref"@ != "head"@,
        "ref"@ != "after"@,
        "ref"@ != "zen"@,
        "head"@ != "after"@,
        "head"@ != "zen"@,
        "after"@ != "zen"@,
{
    reveal_strlit("ref");
    reveal_strlit("head");
    reveal_strlit("after");
    reveal_strlit("zen");
    assert("ref"@.len() == 3 && "head"@.len() == 4 && "after"@.len() == 5 && "zen"@.len() == 3);
    assert("ref"@[0] != "zen"@[0]);
}

/// The payload in a delivery's body. A body with an overlong run of digits
/// is refused unread; one that is no JSON document has no payload.
pub open spec fn payload_in(body: Seq<char>) -> Result<PayloadView, EventError> {
    if !readable(body) {
        Err(EventError::OverlongNumber)
    } else {
        match parsed(body) {
            Some(doc) => Ok(payload_of(doc)),
            None => Err(EventError::InvalidJson),
        }
    }
}

/// Reads the payload out of a delivery's body.
pub fn read_payload(body: &str) -> (r: Result<Payload, EventError>)
    ensures
        match payload_in(body@) {
            Ok(payload) => r is Ok && r->Ok_0@ == payload,
            Err(e) => r == Err::<Payload, EventError>(e),
        },
{
    if !has_digit_runs_within(body, MAX_DIGIT_RUN) {
        return Err(EventError::OverlongNumber);
    }
    match parse(body) {
        Err(_) => Err(EventError::InvalidJson),
        Ok(doc) => {
            let mut doc = doc;
            proof {
                lemma_keys_differ();
            }
            let full_ref = take_string(&mut doc, "ref");
            let head = take_string(&mut doc, "head");
            let after = take_string(&mut doc, "after");
            let zen = take_string(&mut doc, "zen");
            let hook_id = match as_u64(&doc, "hook_id") {
                Some(n) => if n <= usize::MAX as u64 {
                    Some(n as usize)
                } else {
                    None
                },
                None => None,
            };
            Ok(Payload { full_ref, head, after, zen, hook_id })
        },
    }
}

/// One webhook delivery. The fields for a kind of event are present only on
/// events of that kind.
#[derive(Debug, Clone, PartialEq, Eq)]
pub struct GitHubEvent {
    pub event_type: String,
    pub delivery: String,
    /// `push`: the full name of the ref that was pushed to.
    pub full_ref: Option<String>,
    /// `push`: the commit the ref points at after the push.
    pub new_sha: Option<String>,
    /// `ping`: the host's motto of the day.
    pub zen: Option<String>,
    /// `ping`: the hook that was pinged.
    pub hook_id: Option<usize>,
}

/// A `GitHubEvent` as plain text and numbers.
pub struct GitHubEventView {
    pub event_type: Seq<char>,
    pub delivery: Seq<char>,
    pub full_ref: Option<Seq<char>>,
    pub new_sha: Option<Seq<char>>,
    pub zen: Option<Seq<char>>,
    pub hook_id: Option<usize>,
}

impl View for GitHubEvent {
    type V = GitHubEventView;

    open spec fn view(&self) -> GitHubEventView {
        GitHubEventView {
            event_type: self.event_type@,
            delivery: self.delivery@,
            full_ref: self.full_ref.deep_view(),
            new_sha: self.new_sha.deep_view(),
            zen: self.zen.deep_view(),
            hook_id: self.hook_id,
        }
    }
}

/// The event of a kind that carries no fields of its own.
pub open spec fn plain_event(event_type: Seq<char>, delivery: Seq<char>) -> GitHubEventView {
    GitHubEventView {
        event_type,
        delivery,
        full_ref: None,
        new_sha: None,
        zen: None,
        hook_id: None,
    }
}

/// The event that announces a push of `new_sha` to `full_ref`.
pub open spec fn push_event(
    event_type: Seq<char>,
    delivery: Seq<char>,
    full_ref: Seq<char>,
    new_sha: Seq<char>,
) -> GitHubEventView {
    GitHubEventView {
        event_type,
        delivery,
        full_ref: Some(full_ref),
        new_sha: Some(new_sha),
        zen: None,
        hook_id: None,
    }
}

/// The event that announces a ping of the hook `hook_id`.
pub open spec fn ping_event(
    event_type: Seq<char>,
    delivery: Seq<char>,
    zen: Seq<char>,
    hook_id: usize,
) -> GitHubEventView {
    GitHubEventView {
        event_type,
        delivery,
        full_ref: None,
        new_sha: None,
        zen: Some(zen),
        hook_id: Some(hook_id),
    }
}

/// Whether events of this type are built from the delivery's body.
pub open spec fn carries_payload(event_type: Seq<char>) -> bool {
    event_type == "ping"@ || event_type == "push"@
}

/// The event that a delivery of a given type announces, from the payload of
/// its body. A push names its ref and a commit, `head` before `after`; a
/// ping names its motto and its hook; any other type yields an event without
/// fields, whatever the payload holds.
pub open spec fn event_of(event_type: Seq<char>, delivery: Seq<char>, payload: PayloadView) -> Result<
    GitHubEventView,
    EventError,
> {
    if event_type == "push"@ {
        if payload.full_ref is None {
            Err(EventError::MissingRef)
        } else if payload.head is Some {
            Ok(push_event(event_type, delivery, payload.full_ref->0, payload.head->0))
        } else if payload.after is Some {
            Ok(push_event(event_type, delivery, payload.full_ref->0, payload.after->0))
        } else {
            Err(EventError::MissingSha)
        }
    } else if event_type == "ping"@ {
        if payload.zen is None {
            Err(EventError::MissingZen)
        } else if payload.hook_id is None {
            Err(EventError::MissingHookId)
        } else {
            Ok(ping_event(event_type, delivery, payload.zen->0, payload.hook_id->0))
        }
    } else {
        Ok(plain_event(event_type, delivery))
    }
}

/// The event that a delivery announces, from its two headers and its body.
/// Without both headers there is none. The body is read only for the types
/// that carry a payload; where it cannot be read, the delivery is refused
/// for that.
pub open spec fn delivered(
    event_type: Option<Seq<char>>,
    delivery: Option<Seq<char>>,
    body: Seq<char>,
) -> Result<GitHubEventView, EventError> {
    if event_type is None || delivery is None {
        Err(EventError::MissingHeaders)
    } else if !carries_payload(event_type->0) {
        Ok(plain_event(event_type->0, delivery->0))
    } else {
        match payload_in(body) {
            Ok(payload) => event_of(event_type->0, delivery->0, payload),
            Err(e) => Err(e),
        }
    }
}

/// An event and the view it is to have agree, error for error.
pub open spec fn agrees(
    r: Result<GitHubEvent, EventError>,
    expected: Result<GitHubEventView, EventError>,
) -> bool {
    match r {
        Ok(event) => expected == Ok::<GitHubEventView, EventError>(event@),
        Err(e) => expected == Err::<GitHubEventView, EventError>(e),
    }
}

impl GitHubEvent {
    /// Whether a delivery with these headers needs its body read before
    /// `from_data` can build the event.
    pub fn reads_body(event_type: Option<&str>, delivery: Option<&str>) -> (r: bool)
        ensures
            r == (event_type is Some && delivery is Some && carries_payload(event_type->0@)),
    {
        match (event_type, delivery) {
            (Some(t), Some(_)) => str_eq(t, "ping") || str_eq(t, "push"),
            _ => false,
        }
    }

    /// Builds the event of a delivery from its headers and its body.
    pub fn from_data(event_type: Option<&str>, delivery: Option<&str>, body: &str) -> (r: Result<
        GitHubEvent,
        EventError,
    >)
        ensures
            agrees(r, delivered(event_type.deep_view(), delivery.deep_view(), body@)),
    {
        let (event_type, delivery) = match (event_type, delivery) {
            (Some(t), Some(d)) => (t, d),
            _ => { return Err(EventError::MissingHeaders); },
        };
        if !str_eq(event_type, "ping") && !str_eq(event_type, "push") {
            return Ok(GitHubEvent::new(event_type.to_owned(), delivery.to_owned()));
        }
        match read_payload(body) {
            Err(e) => Err(e),
            Ok(payload) => GitHubEvent::from_payload(event_type, delivery, payload),
        }
    }

    /// Builds the event of a delivery of a given type from the payload of
    /// its body.
    pub fn from_payload(event_type: &str, delivery: &str, payload: Payload) -> (r: Result<
        GitHubEvent,
        EventError,
    >)
        ensures
            agrees(r, event_of(event_type@, delivery@, payload@)),
    {
        if str_eq(event_type, "push") {
            let full_ref = match payload.full_ref {
                Some(full_ref) => full_ref,
                None => { return Err(EventError::MissingRef); },
            };
            let sha = match payload.head {
                Some(head) => head,
                None => match payload.after {
                    Some(after) => after,
                    None => { return Err(EventError::MissingSha); },
                },
            };
            Ok(GitHubEvent::push(event_type.to_owned(), delivery.to_owned(), full_ref, sha))
        } else if str_eq(event_type, "ping") {
            let zen = match payload.zen {
                Some(zen) => zen,
                None => { return Err(EventError::MissingZen); },
            };
            let hook_id = match payload.hook_id {
                Some(hook_id) => hook_id,
                None => { return Err(EventError::MissingHookId); },
            };
            Ok(GitHubEvent::ping(event_type.to_owned(), delivery.to_owned(), zen, hook_id))
        } else {
            Ok(GitHubEvent::new(event_type.to_owned(), delivery.to_owned()))
        }
    }

    pub fn new(event_type: String, delivery: String) -> (event: GitHubEvent)
        ensures
            event@ == plain_event(event_type@, delivery@),
    {
        GitHubEvent {
            event_type: event_type,
            delivery: delivery,
            full_ref: None,
            new_sha: None,
            zen: None,
            hook_id: None,
        }
    }

    pub fn push(event_type: String, delivery: String, full_ref: String, new_sha: String) -> (event:
        GitHubEvent)
        ensures
            event@ == push_event(event_type@, delivery@, full_ref@, new_sha@),
    {
        GitHubEvent {
            event_type: event_type,
            delivery: delivery,
            full_ref: Some(full_ref),
            new_sha: Some(new_sha),
            zen: None,
            hook_id: None,
        }
    }

    pub fn ping(event_type: String, delivery: String, zen: String, hook_id: usize) -> (event:
        GitHubEvent)
        ensures
            event@ == ping_event(event_type@, delivery@, zen@, hook_id),
    {
        GitHubEvent {
            event_type: event_type,
            delivery: delivery,
            full_ref: None,
            new_sha: None,
            zen: Some(zen),
            hook_id: Some(hook_id),
        }
    }
}

} // verus!
