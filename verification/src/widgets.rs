//! The small rules of the chat's widgets: which key does what, which class a
//! message bubble has, what a label says.

use vstd::prelude::*;
use vstd::string::StringExecFns;
use crate::text::{decimal_digits, is_text, push_decimal, text_of};

verus! {

/// The port of the chat's websocket.
pub const WEBSOCKET_PORT: u16 = 9797;

/// What a key pressed in the message input does.
#[derive(Clone, Copy, Debug, PartialEq, Eq, Structural)]
pub enum KeyAction {
    /// Send the message, or update the one that is edited.
    Send,
    /// Give up editing.
    CancelEdit,
    /// Go to the user's previous message.
    PreviousOwn,
    /// Go to the user's next message.
    NextOwn,
    /// Nothing: the key is typed.
    Type,
}

/// What a key does in the message input: Enter without Shift sends; Escape
/// gives up an edit; the up arrow with Command or Control goes to the
/// previous own message, and the down arrow with either, during an edit, to
/// the next one.
pub open spec fn action_of(
    key: Seq<char>,
    shift: bool,
    command: bool,
    editing: bool,
) -> KeyAction {
    if key == "Enter"@ && !shift {
        KeyAction::Send
    } else if key == "Escape"@ && editing {
        KeyAction::CancelEdit
    } else if key == "ArrowUp"@ && command {
        KeyAction::PreviousOwn
    } else if key == "ArrowDown"@ && command && editing {
        KeyAction::NextOwn
    } else {
        KeyAction::Type
    }
}

/// What a key pressed in the message input does. `shift` says whether Shift
/// is held, `command` whether Command or Control is, and `editing` whether
/// a message is being edited.
pub fn key_action(key: &str, shift: bool, command: bool, editing: bool) -> (action: KeyAction)
    ensures
        action == action_of(key@, shift, command, editing),
{
    if is_text(key, "Enter") && !shift {
        KeyAction::Send
    } else if is_text(key, "Escape") && editing {
        KeyAction::CancelEdit
    } else if is_text(key, "ArrowUp") && command {
        KeyAction::PreviousOwn
    } else if is_text(key, "ArrowDown") && command && editing {
        KeyAction::NextOwn
    } else {
        KeyAction::Type
    }
}

/// What `str::trim` makes of a text: the text without the white space at its
/// start and at its end.
pub uninterp spec fn trimmed(text: Seq<char>) -> Seq<char>;

/// Calls `str::trim`, which returns the slice of `text` that is left when
/// leading and trailing white space, as Unicode defines it, is taken off.
/// The contract claims only that the outcome is the one named `trimmed`.
#[verifier::external_body]
fn trim(text: &str) -> (kept: &str)
    ensures
        kept@ == trimmed(text@),
{
    text.trim()
}

/// The text that is entered, given what trimming left of it: the text
/// itself, or nothing where it is empty.
pub fn entered(kept: &str) -> (text: Option<String>)
    ensures
        match text {
            Some(t) => kept@.len() > 0 && t@ == kept@,
            None => kept@.len() == 0,
        },
{
    if kept.is_empty() {
        None
    } else {
        Some(kept.to_owned())
    }
}

/// The text that an input holds for sending: what it shows without the
/// white space around it, or `None` where nothing else is in it.
pub fn entered_text(input: &str) -> (text: Option<String>)
    ensures
        match text {
            Some(t) => trimmed(input@).len() > 0 && t@ == trimmed(input@),
            None => trimmed(input@).len() == 0,
        },
{
    entered(trim(input))
}

/// Whether the send button is enabled: the input holds a text to send, and
/// the client is connected.
pub fn can_send(input: &str, connected: bool) -> (enabled: bool)
    ensures
        enabled == (trimmed(input@).len() > 0 && connected),
{
    !trim(input).is_empty() && connected
}

/// Whether a message by `author` is the current user's own: some user is
/// known, and the author is that user.
pub fn is_own_message(current_user: &Option<String>, author: &String) -> (own: bool)
    ensures
        own == (text_of(*current_user) == Some(author@)),
{
    match current_user {
        Some(user) => *user == *author,
        None => false,
    }
}

/// The style classes of a message bubble.
pub open spec fn bubble_classes(editing: bool, own: bool) -> Seq<char> {
    if editing && own {
        "messageBubble editing ownMessage"@
    } else if editing {
        "messageBubble editing"@
    } else if own {
        "messageBubble ownMessage"@
    } else {
        "messageBubble"@
    }
}

/// The style classes of a message bubble: the common class, then `editing`
/// for the message that is being edited, then `ownMessage` for a message of
/// the current user.
pub fn bubble_class(editing: bool, own: bool) -> (class: &'static str)
    ensures
        class@ == bubble_classes(editing, own),
{
    if editing && own {
        "messageBubble editing ownMessage"
    } else if editing {
        "messageBubble editing"
    } else if own {
        "messageBubble ownMessage"
    } else {
        "messageBubble"
    }
}

/// The style classes of the connection status: connected exactly for the
/// status `Connected`.
pub fn connection_class(status: &str) -> (class: &'static str)
    ensures
        class@ == if status@ == "Connected"@ {
            "connectionStatus connected"@
        } else {
            "connectionStatus disconnected"@
        },
{
    if is_text(status, "Connected") {
        "connectionStatus connected"
    } else {
        "connectionStatus disconnected"
    }
}

/// The text of the connection status: the status, or `Disconnected` where
/// it is empty.
pub fn connection_label(status: String) -> (label: String)
    ensures
        label@ == if status@.len() == 0 {
            "Disconnected"@
        } else {
            status@
        },
{
    if status.as_str().is_empty() {
        String::from_str("Disconnected")
    } else {
        status
    }
}

/// The text that an editable field shows while it is not edited: its value,
/// or the placeholder where the value is empty.
pub fn display_text(value: String, placeholder: String) -> (shown: String)
    ensures
        shown@ == if value@.len() == 0 {
            placeholder@
        } else {
            value@
        },
{
    if value.as_str().is_empty() {
        placeholder
    } else {
        value
    }
}

/// The label of the send button: `Update` during an edit, `Send` otherwise.
pub fn send_label(editing: bool) -> (label: &'static str)
    ensures
        label@ == if editing {
            "Update"@
        } else {
            "Send"@
        },
{
    if editing {
        "Update"
    } else {
        "Send"
    }
}

/// The address of the chat's websocket on `host`.
pub open spec fn websocket_address(host: Seq<char>) -> Seq<char> {
    "ws://"@ + host + ":"@ + decimal_digits(WEBSOCKET_PORT as nat)
}

/// The address of the chat's websocket: on the host that served the page,
/// or on this machine where that host is not known.
pub fn websocket_url(host: Option<String>) -> (url: String)
    ensures
        url@ == websocket_address(
            match host {
                Some(name) => name@,
                None => "127.0.0.1"@,
            },
        ),
{
    let mut url = String::from_str("ws://");
    match host {
        Some(name) => url.append(name.as_str()),
        None => url.append("127.0.0.1"),
    }
    url.append(":");
    push_decimal(&mut url, WEBSOCKET_PORT as u64);
    url
}

/// The display name of a new user: `User-` and the number drawn for it.
pub fn guest_name(number: u32) -> (name: String)
    ensures
        name@ == "User-"@ + decimal_digits(number as nat),
{
    let mut name = String::from_str("User-");
    push_decimal(&mut name, number as u64);
    name
}

} // verus!
