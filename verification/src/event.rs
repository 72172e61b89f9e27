//! The event that announces a new session.
//!
//! The event's identifier is drawn with `rand`, and its payload is rendered
//! by `serde_json`.

use rand::Rng;
use vstd::prelude::*;

verus! {

/// Event identifiers are drawn from the numbers below this bound.
pub const EVENT_ID_BOUND: u32 = 10_000_000;

/// The compact text that `serde_json` renders for a JSON object of four
/// members: `name_a`, `name_c` and `name_d` with strings for values,
/// `name_b` with a number.
pub uninterp spec fn json_object_text(
    name_a: Seq<char>,
    text_a: Seq<char>,
    name_b: Seq<char>,
    number_b: u32,
    name_c: Seq<char>,
    text_c: Seq<char>,
    name_d: Seq<char>,
    text_d: Seq<char>,
) -> Seq<char>;

/// Renders a JSON object of four members with `serde_json`: the members
/// are put into a `serde_json::Map` with `insert`, in the order given, and
/// the `Value::Object` of that map is written out with `to_string`.
///
/// The contract names the text. It rests on the rendering being a function
/// of the names and values alone.
#[verifier::external_body]
fn render_json_object(
    name_a: &str,
    text_a: &str,
    name_b: &str,
    number_b: u32,
    name_c: &str,
    text_c: &str,
    name_d: &str,
    text_d: &str,
) -> (text: String)
    ensures
        text@ == json_object_text(
            name_a@,
            text_a@,
            name_b@,
            number_b,
            name_c@,
            text_c@,
            name_d@,
            text_d@,
        ),
{
    let mut object = serde_json::Map::new();
    object.insert(name_a.to_string(), serde_json::Value::from(text_a));
    object.insert(name_b.to_string(), serde_json::Value::from(number_b));
    object.insert(name_c.to_string(), serde_json::Value::from(text_c));
    object.insert(name_d.to_string(), serde_json::Value::from(text_d));
    serde_json::Value::Object(object).to_string()
}

/// Draws a number with `rand::thread_rng().gen_range(0..bound)`.
///
/// `gen_range` panics on an empty range, so `bound` must not be zero. The
/// contract claims only that the number lies in the range, which holds of
/// every draw.
#[verifier::external_body]
fn random_below(bound: u32) -> (n: u32)
    requires
        bound > 0,
    ensures
        n < bound,
{
    rand::thread_rng().gen_range(0..bound)
}

/// A fresh identifier for an event, below [`EVENT_ID_BOUND`].
pub fn fresh_event_id() -> (id: u32)
    ensures
        id < EVENT_ID_BOUND,
{
    random_below(EVENT_ID_BOUND)
}

/// Who signed in.
#[derive(Debug, Clone)]
pub struct UserProfile {
    pub username: String,
    pub email: String,
}

/// What a [`SessionEvent`] holds.
pub struct SessionEventView {
    pub event_type: Seq<char>,
    pub id: u32,
    pub username: Seq<char>,
    pub email: Seq<char>,
}

/// The record that is published once per established session.
#[derive(Debug, Clone)]
pub struct SessionEvent {
    pub event_type: String,
    pub id: u32,
    pub username: String,
    pub email: String,
}

impl View for SessionEvent {
    type V = SessionEventView;

    open spec fn view(&self) -> SessionEventView {
        SessionEventView {
            event_type: self.event_type@,
            id: self.id,
            username: self.username@,
            email: self.email@,
        }
    }
}

/// The event that tells of the user `username` with the address `email`.
pub open spec fn create_user_event(id: u32, username: Seq<char>, email: Seq<char>) -> SessionEventView {
    SessionEventView { event_type: "create_user"@, id, username, email }
}

/// The payload of `event`: the JSON object with the members `event_type`,
/// `id`, `username` and `email`.
pub open spec fn payload_text(event: SessionEventView) -> Seq<char> {
    json_object_text(
        "event_type"@,
        event.event_type,
        "id"@,
        event.id,
        "username"@,
        event.username,
        "email"@,
        event.email,
    )
}

impl SessionEvent {
    /// The `create_user` event with the given identifier for the given user.
    pub fn create_user(id: u32, username: &str, email: &str) -> (event: SessionEvent)
        ensures
            event@ == create_user_event(id, username@, email@),
    {
        SessionEvent {
            event_type: "create_user".to_owned(),
            id,
            username: username.to_owned(),
            email: email.to_owned(),
        }
    }

    /// The event as the JSON text that goes out on the message channel.
    pub fn payload(&self) -> (text: String)
        ensures
            text@ == payload_text(self@),
    {
        render_json_object(
            "event_type",
            self.event_type.as_str(),
            "id",
            self.id,
            "username",
            self.username.as_str(),
            "email",
            self.email.as_str(),
        )
    }
}

} // verus!
