//! The update dispatcher and the two handlers.
//!
//! Each inbound update is classified once and routed to exactly one
//! handler: a text message to the message handler, a button-press
//! callback to the callback handler; any other shape is dropped in
//! silence.  A handler reads or mutates the counter store and yields at
//! most one outbound action for the transport to perform.
//!
//! Outbound actions may be performed out of order by the transport when
//! handlers overlap; the counter store is authoritative, and each action
//! carries the value snapshotted at its own increment or reset.

use vstd::prelude::*;
use vstd::string::StringExecFns;
use crate::command::Command;
use crate::command::ParseError;
use crate::command::parse;
use crate::command::spec_parse;
use crate::counter::Counter;
use crate::counter::next_value;
use crate::keyboard::KeyboardDescriptor;
use crate::keyboard::add_payload;
use crate::keyboard::is_add_keyboard;
use crate::keyboard::make_keyboard;
use crate::render::render_counter;
use crate::render::rendered;

verus! {

/// Where a button-press callback can be addressed for an edit.
pub enum CallbackOrigin {
    /// The press came from an ordinary chat message.
    Chat { chat_id: i64, message_id: i64 },
    /// The press came from an inline message.
    Inline { inline_message_id: String },
    /// The transport supplied nothing to edit.
    Absent,
}

/// One inbound update, as the dispatcher consumes it.
pub enum InboundUpdate {
    /// A plain text message in a chat.
    TextMessage { chat_id: i64, text: String },
    /// A button-press callback; `data` is the pressed button's payload,
    /// absent when the transport delivered none.
    CallbackEvent { data: Option<String>, origin: CallbackOrigin },
    /// Any other update shape.
    Unrecognized,
}

/// One outbound action against the transport.
pub enum Action {
    /// Send a new message to a chat.
    SendMessage { chat_id: i64, text: String, keyboard: Option<KeyboardDescriptor> },
    /// Edit the text (and keyboard) of an existing chat message.
    EditMessage { chat_id: i64, message_id: i64, text: String, keyboard: KeyboardDescriptor },
    /// Edit the text (and keyboard) of an inline message.
    EditInline { inline_message_id: String, text: String, keyboard: KeyboardDescriptor },
}

/// The static help text: every recognized command with its description.
pub open spec fn spec_help_text() -> Seq<char> {
    "These commands are supported:\n/help — Display this text\n/start — Start"@
}

/// The reply to text that names no recognized command.
pub open spec fn not_found_text() -> Seq<char> {
    "Command not found!"@
}

/// `a` sends plain text `text` to chat `chat`, with no keyboard.
pub open spec fn is_send(a: Action, chat: i64, text: Seq<char>) -> bool {
    &&& a matches Action::SendMessage { chat_id, text: t, keyboard }
    &&& chat_id == chat
    &&& t@ == text
    &&& keyboard is None
}

/// `a` sends text `text` to chat `chat` with the "Add" keyboard attached.
pub open spec fn is_send_with_keyboard(a: Action, chat: i64, text: Seq<char>) -> bool {
    &&& a matches Action::SendMessage { chat_id, text: t, keyboard }
    &&& chat_id == chat
    &&& t@ == text
    &&& keyboard matches Some(k)
    &&& is_add_keyboard(k)
}

/// `a` edits chat message `mid` in chat `chat` to `text`, reattaching the
/// "Add" keyboard.
pub open spec fn is_edit(a: Action, chat: i64, mid: i64, text: Seq<char>) -> bool {
    &&& a matches Action::EditMessage { chat_id, message_id, text: t, keyboard }
    &&& chat_id == chat
    &&& message_id == mid
    &&& t@ == text
    &&& is_add_keyboard(keyboard)
}

/// `a` edits the inline message `imid` to `text`, reattaching the "Add"
/// keyboard.
pub open spec fn is_edit_inline(a: Action, imid: Seq<char>, text: Seq<char>) -> bool {
    &&& a matches Action::EditInline { inline_message_id, text: t, keyboard }
    &&& inline_message_id@ == imid
    &&& t@ == text
    &&& is_add_keyboard(keyboard)
}

/// Whether an update is a button press of the "Add" button.
pub open spec fn is_add_callback(u: InboundUpdate) -> bool {
    &&& u matches InboundUpdate::CallbackEvent { data, .. }
    &&& data matches Some(d)
    &&& d@ == add_payload()
}

/// The counter value after one update is dispatched: a `/start` message
/// resets it, an "Add" button press advances it, everything else leaves
/// it alone.
pub open spec fn counter_after_update(v: u64, u: InboundUpdate) -> u64 {
    match u {
        InboundUpdate::TextMessage { text, .. } => if spec_parse(text@) == Ok::<Command, ParseError>(
            Command::Start,
        ) {
            0
        } else {
            v
        },
        InboundUpdate::CallbackEvent { .. } => if is_add_callback(u) {
            next_value(v)
        } else {
            v
        },
        InboundUpdate::Unrecognized => v,
    }
}

/// The counter value after a whole sequence of updates is dispatched in
/// order.
pub open spec fn counter_after_updates(v: u64, us: Seq<InboundUpdate>) -> u64
    decreases us.len(),
{
    if us.len() == 0 {
        v
    } else {
        counter_after_updates(counter_after_update(v, us[0]), us.drop_first())
    }
}

/// The static help text, as sent to the user.
pub fn help_text() -> (r: String)
    ensures
        r@ == spec_help_text(),
{
    String::from_str("These commands are supported:\n/help — Display this text\n/start — Start")
}

/// Handle one inbound text message: reply with the help text, or reset
/// the counter and send the initial render with the keyboard, or report
/// an unrecognized command.  Exactly one send per message.
pub fn message_handler(counter: &mut Counter, chat: i64, text: &str) -> (a: Action)
    ensures
        spec_parse(text@) == Ok::<Command, ParseError>(Command::Help) ==> final (counter).value()
            == old(counter).value() && is_send(a, chat, spec_help_text()),
        spec_parse(text@) == Ok::<Command, ParseError>(Command::Start) ==> final (counter).value()
            == 0 && is_send_with_keyboard(a, chat, rendered(0)),
        spec_parse(text@) is Err ==> final (counter).value() == old(counter).value() && is_send(
            a,
            chat,
            not_found_text(),
        ),
        final (counter).value() == if spec_parse(text@) == Ok::<Command, ParseError>(
            Command::Start,
        ) {
            0u64
        } else {
            old(counter).value()
        },
{
    match parse(text) {
        Ok(Command::Help) => Action::SendMessage {
            chat_id: chat,
            text: help_text(),
            keyboard: Option::None,
        },
        Ok(Command::Start) => {
            counter.reset();
            Action::SendMessage {
                chat_id: chat,
                text: render_counter(0),
                keyboard: Option::Some(make_keyboard()),
            }
        },
        Err(_) => Action::SendMessage {
            chat_id: chat,
            text: String::from_str("Command not found!"),
            keyboard: Option::None,
        },
    }
}

/// Handle one button-press callback.  A press of the "Add" button
/// advances the counter and, where the callback carries an address,
/// edits that message to the new render; the increment stands even when
/// there is nothing to edit.  A callback without data, or with any other
/// payload, is a no-op (the policy here: an unrecognized payload is
/// ignored, never rendered).
pub fn callback_handler(counter: &mut Counter, data: &Option<String>, origin: &CallbackOrigin) -> (a:
    Option<Action>)
    ensures
        (data matches Some(d) && d@ == add_payload()) ==> {
            &&& final (counter).value() == next_value(old(counter).value())
            &&& match *origin {
                CallbackOrigin::Chat { chat_id, message_id } => a matches Some(act) && is_edit(
                    act,
                    chat_id,
                    message_id,
                    rendered(next_value(old(counter).value()) as int),
                ),
                CallbackOrigin::Inline { inline_message_id } => a matches Some(act)
                    && is_edit_inline(
                    act,
                    inline_message_id@,
                    rendered(next_value(old(counter).value()) as int),
                ),
                CallbackOrigin::Absent => a is None,
            }
        },
        !(data matches Some(d) && d@ == add_payload()) ==> final (counter).value() == old(
            counter,
        ).value() && a is None,
{
    proof {
        reveal_strlit("Add");
        assert("Add"@ =~= add_payload());
    }
    match data {
        Option::Some(d) => {
            let add = String::from_str("Add");
            if *d == add {
                let value = counter.increment_and_get();
                let text = render_counter(value);
                match origin {
                    CallbackOrigin::Chat { chat_id, message_id } => Option::Some(
                        Action::EditMessage {
                            chat_id: *chat_id,
                            message_id: *message_id,
                            text,
                            keyboard: make_keyboard(),
                        },
                    ),
                    CallbackOrigin::Inline { inline_message_id } => Option::Some(
                        Action::EditInline {
                            inline_message_id: inline_message_id.clone(),
                            text,
                            keyboard: make_keyboard(),
                        },
                    ),
                    CallbackOrigin::Absent => Option::None,
                }
            } else {
                Option::None
            }
        },
        Option::None => Option::None,
    }
}

/// Dispatch one inbound update: classify it once, route it to exactly
/// one handler, and hand back that handler's action, if any.  An
/// unrecognized update shape is dropped with no side effect.
pub fn dispatch(counter: &mut Counter, update: &InboundUpdate) -> (a: Option<Action>)
    ensures
        final (counter).value() == counter_after_update(old(counter).value(), *update),
        *update matches InboundUpdate::TextMessage { chat_id, text } ==> (a matches Some(act) && {
            &&& spec_parse(text@) == Ok::<Command, ParseError>(Command::Help) ==> is_send(
                act,
                chat_id,
                spec_help_text(),
            )
            &&& spec_parse(text@) == Ok::<Command, ParseError>(Command::Start)
                ==> is_send_with_keyboard(act, chat_id, rendered(0))
            &&& spec_parse(text@) is Err ==> is_send(act, chat_id, not_found_text())
        }),
        *update matches InboundUpdate::CallbackEvent { data, origin } ==> {
            &&& (data matches Some(d) && d@ == add_payload()) ==> match origin {
                CallbackOrigin::Chat { chat_id, message_id } => a matches Some(act) && is_edit(
                    act,
                    chat_id,
                    message_id,
                    rendered(next_value(old(counter).value()) as int),
                ),
                CallbackOrigin::Inline { inline_message_id } => a matches Some(act)
                    && is_edit_inline(
                    act,
                    inline_message_id@,
                    rendered(next_value(old(counter).value()) as int),
                ),
                CallbackOrigin::Absent => a is None,
            }
            &&& !(data matches Some(d) && d@ == add_payload()) ==> a is None
        },
        *update is Unrecognized ==> a is None,
{
    match update {
        InboundUpdate::TextMessage { chat_id, text } => Option::Some(
            message_handler(counter, *chat_id, text.as_str()),
        ),
        InboundUpdate::CallbackEvent { data, origin } => callback_handler(counter, data, origin),
        InboundUpdate::Unrecognized => Option::None,
    }
}

/// Atomicity of the increment: a run of "Add" button presses with no
/// `/start` in between advances the counter by exactly its length.  Every
/// concurrent execution of the store's atomic operations is some
/// serialization of them, so the law is stated over the serialized
/// sequence; it holds wherever the sum stays in the counter's range (at
/// the top of the range the counter wraps instead).
pub proof fn lemma_adds_accumulate(v: u64, us: Seq<InboundUpdate>)
    requires
        forall|i: int| 0 <= i < us.len() ==> is_add_callback(#[trigger] us[i]),
        v + us.len() <= u64::MAX,
    ensures
        counter_after_updates(v, us) == v + us.len(),
    decreases us.len(),
{
    if us.len() > 0 {
        assert(is_add_callback(us[0]));
        assert(counter_after_update(v, us[0]) == (v + 1) as u64);
        assert forall|i: int| 0 <= i < us.drop_first().len() implies is_add_callback(
            #[trigger] us.drop_first()[i],
        ) by {
            assert(us.drop_first()[i] == us[i + 1]);
        }
        lemma_adds_accumulate((v + 1) as u64, us.drop_first());
    }
}

/// A `/start` message resets the counter to 0, whatever it held, and the
/// render of that value is exactly "0000".
pub proof fn lemma_start_resets(v: u64, u: InboundUpdate)
    requires
        u matches InboundUpdate::TextMessage { text, .. } && spec_parse(text@) == Ok::<
            Command,
            ParseError,
        >(Command::Start),
    ensures
        counter_after_update(v, u) == 0,
        rendered(counter_after_update(v, u) as int) == "0000"@,
{
    reveal_strlit("0000");
    assert(rendered(0) =~= "0000"@);
}

} // verus!
