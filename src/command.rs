//! Control envelopes carried in text frames.
use vstd::prelude::*;
use vstd::string::StringExecFns;

verus! {

/// The string stored under `key` in the JSON object that `text` encodes;
/// `None` where `text` is not a JSON object, lacks `key`, or holds another
/// kind of value there.
pub uninterp spec fn json_string_field(text: Seq<char>, key: Seq<char>) -> Option<Seq<char>>;

pub open spec fn opt_view(o: Option<String>) -> Option<Seq<char>> {
    match o {
        Some(s) => Some(s@),
        None => None,
    }
}

/// Relies on serde_json::from_str into a `Value`, then `Value::get` and
/// `Value::as_str`: the top-level string field `key` of the JSON text.
#[verifier::external_body]
fn string_field(text: &str, key: &str) -> (r: Option<String>)
    ensures
        opt_view(r) == json_string_field(text@, key@),
{
    let value: serde_json::Value = serde_json::from_str(text).ok()?;
    let field = value.get(key)?.as_str()?;
    Some(field.to_string())
}

/// A decoded control envelope.
#[derive(Clone, Debug, PartialEq, Eq)]
pub enum Command {
    /// `{"type":"register","connectionId":id}`
    Register(String),
    /// `{"type":"check-recipient","connectionId":id}`
    CheckRecipient(String),
    /// `{"type":"receiver-ready","senderId":id}`
    ReceiverReady(String),
    /// Any other object with a string `target_id`.
    Relay(String),
    /// Not JSON, or none of the shapes above.
    Unrecognized,
}

pub enum CommandView {
    Register(Seq<char>),
    CheckRecipient(Seq<char>),
    ReceiverReady(Seq<char>),
    Relay(Seq<char>),
    Unrecognized,
}

impl View for Command {
    type V = CommandView;

    open spec fn view(&self) -> CommandView {
        match self {
            Command::Register(s) => CommandView::Register(s@),
            Command::CheckRecipient(s) => CommandView::CheckRecipient(s@),
            Command::ReceiverReady(s) => CommandView::ReceiverReady(s@),
            Command::Relay(s) => CommandView::Relay(s@),
            Command::Unrecognized => CommandView::Unrecognized,
        }
    }
}

/// The command given by an envelope's `type`, `connectionId`, `senderId`
/// and `target_id` string fields. A known `type` whose identifier field is
/// missing is unrecognized; it never falls through to a relay.
pub open spec fn command_of(
    kind: Option<Seq<char>>,
    connection_id: Option<Seq<char>>,
    sender_id: Option<Seq<char>>,
    target_id: Option<Seq<char>>,
) -> CommandView {
    if kind == Some("register"@) {
        match connection_id {
            Some(id) => CommandView::Register(id),
            None => CommandView::Unrecognized,
        }
    } else if kind == Some("check-recipient"@) {
        match connection_id {
            Some(id) => CommandView::CheckRecipient(id),
            None => CommandView::Unrecognized,
        }
    } else if kind == Some("receiver-ready"@) {
        match sender_id {
            Some(id) => CommandView::ReceiverReady(id),
            None => CommandView::Unrecognized,
        }
    } else {
        match target_id {
            Some(id) => CommandView::Relay(id),
            None => CommandView::Unrecognized,
        }
    }
}

/// The command that the text frame `text` carries.
pub open spec fn decoded(text: Seq<char>) -> CommandView {
    command_of(
        json_string_field(text, "type"@),
        json_string_field(text, "connectionId"@),
        json_string_field(text, "senderId"@),
        json_string_field(text, "target_id"@),
    )
}

fn is_kind(kind: &Option<String>, name: &str) -> (r: bool)
    ensures
        r == (opt_view(*kind) == Some(name@)),
{
    match kind {
        Some(k) => *k == String::from_str(name),
        None => false,
    }
}

impl Command {
    /// Classifies an envelope from its string fields.
    pub fn classify(
        kind: Option<String>,
        connection_id: Option<String>,
        sender_id: Option<String>,
        target_id: Option<String>,
    ) -> (r: Command)
        ensures
            r@ == command_of(opt_view(kind), opt_view(connection_id), opt_view(sender_id), opt_view(target_id)),
    {
        if is_kind(&kind, "register") {
            match connection_id {
                Some(id) => Command::Register(id),
                None => Command::Unrecognized,
            }
        } else if is_kind(&kind, "check-recipient") {
            match connection_id {
                Some(id) => Command::CheckRecipient(id),
                None => Command::Unrecognized,
            }
        } else if is_kind(&kind, "receiver-ready") {
            match sender_id {
                Some(id) => Command::ReceiverReady(id),
                None => Command::Unrecognized,
            }
        } else {
            match target_id {
                Some(id) => Command::Relay(id),
                None => Command::Unrecognized,
            }
        }
    }

    /// Decodes the envelope in a text frame.
    pub fn decode(text: &str) -> (r: Command)
        ensures
            r@ == decoded(text@),
    {
        let kind = string_field(text, "type");
        let connection_id = string_field(text, "connectionId");
        let sender_id = string_field(text, "senderId");
        let target_id = string_field(text, "target_id");
        Command::classify(kind, connection_id, sender_id, target_id)
    }
}

} // verus!
