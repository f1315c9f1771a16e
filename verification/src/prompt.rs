//! The request that is sent to the model: a fixed instruction and the action,
//! wrapped in tags.

use crate::text::{trim, trimmed};
use vstd::prelude::*;

verus! {

/// The model that answers.
pub const MODEL: &'static str = "gpt-4o-2024-08-06";

/// The most tokens that a reply may have.
pub const MAX_TOKENS: u32 = 1024;

/// The instruction that every request starts with. It fixes the format of
/// the exchange and shows one worked example.
pub const SYSTEM_MESSAGE: &'static str = "
You are an expert Unix system operator. You have intimate and detailed knowledge of CLI tools, both old and new.

When the user asks for a command that accomplishes a high-level action, you respond with a CLI command that accomplishes that action.

Example input:
<action>
go to my home directory
</action>

Example output:
<command>
cd ~
</command>

If the action cannot be accomplished via the CLI, you must respond with:
<no_command/>
";

/// Who speaks in a message.
#[derive(Clone, Copy, Debug, PartialEq, Eq, Structural)]
pub enum Role {
    System,
    User,
}

/// One message of a request.
#[derive(Debug, PartialEq, Eq)]
pub struct Message {
    pub role: Role,
    pub content: String,
}

/// A whole request: the model, the bound on the reply's length, and the
/// messages in the order in which they are sent.
#[derive(Debug, PartialEq, Eq)]
pub struct Prompt {
    pub model: String,
    pub max_tokens: u32,
    pub messages: Vec<Message>,
}

/// What goes in front of the action: `<action>` and a line break.
pub open spec fn action_head() -> Seq<char> {
    seq!['<', 'a', 'c', 't', 'i', 'o', 'n', '>', '\n']
}

/// What goes behind the action: a line break and `</action>`.
pub open spec fn action_tail() -> Seq<char> {
    seq!['\n', '<', '/', 'a', 'c', 't', 'i', 'o', 'n', '>']
}

/// The text of the user message for `action`: the action, trimmed, on a
/// line of its own between `<action>` and `</action>`.
pub open spec fn action_block(action: Seq<char>) -> Seq<char> {
    action_head() + trimmed(action) + action_tail()
}

/// The messages of the request for `action`: the instruction, then the
/// action.
pub open spec fn is_prompt_for(p: Prompt, action: Seq<char>) -> bool {
    &&& p.model@ == MODEL@
    &&& p.max_tokens == MAX_TOKENS
    &&& p.messages@.len() == 2
    &&& p.messages@[0].role == Role::System
    &&& p.messages@[0].content@ == SYSTEM_MESSAGE@
    &&& p.messages@[1].role == Role::User
    &&& p.messages@[1].content@ == action_block(action)
}

/// The instruction, as the first message of a request.
pub fn system_message() -> (m: Message)
    ensures
        m.role == Role::System,
        m.content@ == SYSTEM_MESSAGE@,
{
    Message { role: Role::System, content: SYSTEM_MESSAGE.to_owned() }
}

/// The message that carries `action`. Nothing of the action is checked: it
/// is trimmed and wrapped, whatever it holds.
pub fn user_message(action: &str) -> (m: Message)
    ensures
        m.role == Role::User,
        m.content@ == action_block(action@),
{
    let mut content = "<action>\n".to_owned();
    let core = trim(action);
    content.append(core.as_str());
    content.append("\n</action>");
    proof {
        reveal_strlit("<action>\n");
        reveal_strlit("\n</action>");
        assert("<action>\n"@ =~= action_head());
        assert("\n</action>"@ =~= action_tail());
    }
    Message { role: Role::User, content }
}

/// The request for `action`.
pub fn build_prompt(action: &str) -> (p: Prompt)
    ensures
        is_prompt_for(p, action@),
{
    let mut messages: Vec<Message> = Vec::new();
    messages.push(system_message());
    messages.push(user_message(action));
    Prompt { model: MODEL.to_owned(), max_tokens: MAX_TOKENS, messages }
}

} // verus!
