use vstd::prelude::*;

verus! {

/// Instruction given to the model as its system prompt.
pub const SYSTEM_PROMPT: &'static str = "You are a multilingual academic writing assistant. Rewrite the user text in the same language as the input. Do not translate unless the input asks for translation. Preserve citations, terms, numbers, and meaning. Return only the rewritten text. /no_think";

/// Chat template used when the model file carries none of its own.
pub const FALLBACK_CHAT_TEMPLATE: &'static str = "chatml";

/// Text placed between the style instruction and the text to rewrite.
pub const TEXT_HEADER: &'static str = "\n\nText to rewrite:\n";

/// Role name of the system message.
pub const SYSTEM_ROLE: &'static str = "system";

/// Role name of the user message.
pub const USER_ROLE: &'static str = "user";

/// The rewrite styles the user can pick.
#[derive(Clone, Copy, Debug, PartialEq, Eq, Structural)]
pub enum RewriteStyle {
    Academic,
    Concise,
    Professional,
}

/// The style named `name`: `Concise` and `Professional` by those exact
/// names, `Academic` for every other name.
pub open spec fn spec_style_from_name(name: Seq<char>) -> RewriteStyle {
    if name == "Concise"@ {
        RewriteStyle::Concise
    } else if name == "Professional"@ {
        RewriteStyle::Professional
    } else {
        RewriteStyle::Academic
    }
}

/// The instruction that asks the model for a style.
pub open spec fn spec_style_instruction(style: RewriteStyle) -> Seq<char> {
    match style {
        RewriteStyle::Concise => "Make the writing concise, remove redundancy, and preserve all key meaning."@,
        RewriteStyle::Professional => "Use a professional tone with clear structure, precise wording, and polished flow."@,
        RewriteStyle::Academic => "Use a formal academic tone with improved clarity, cohesion, and scholarly wording."@,
    }
}

impl RewriteStyle {
    /// The style that the user interface names `name`.
    pub fn from_name(name: &str) -> (style: RewriteStyle)
        ensures
            style == spec_style_from_name(name@),
    {
        let name = String::from_str(name);
        if name == String::from_str("Concise") {
            RewriteStyle::Concise
        } else if name == String::from_str("Professional") {
            RewriteStyle::Professional
        } else {
            RewriteStyle::Academic
        }
    }

    /// The instruction that asks the model for this style.
    pub fn instruction(&self) -> (text: &'static str)
        ensures
            text@ == spec_style_instruction(*self),
    {
        match self {
            RewriteStyle::Concise => "Make the writing concise, remove redundancy, and preserve all key meaning.",
            RewriteStyle::Professional => "Use a professional tone with clear structure, precise wording, and polished flow.",
            RewriteStyle::Academic => "Use a formal academic tone with improved clarity, cohesion, and scholarly wording.",
        }
    }
}

/// The user message: the style instruction, a header, then the text.
pub open spec fn spec_user_message(style: RewriteStyle, text: Seq<char>) -> Seq<char> {
    spec_style_instruction(style) + TEXT_HEADER@ + text
}

/// The text to rewrite reaches the model unchanged, at the end of the user
/// message, after the style instruction and the header.
pub proof fn lemma_text_reaches_model_unchanged(style: RewriteStyle, text: Seq<char>)
    ensures
        spec_user_message(style, text).len() == spec_style_instruction(style).len() + TEXT_HEADER@.len()
            + text.len(),
        spec_user_message(style, text).subrange(
            spec_user_message(style, text).len() - text.len(),
            spec_user_message(style, text).len() as int,
        ) == text,
        spec_user_message(style, text).subrange(0, spec_style_instruction(style).len() as int)
            == spec_style_instruction(style),
{
    let m = spec_user_message(style, text);
    assert(m.subrange(m.len() - text.len(), m.len() as int) =~= text);
    assert(m.subrange(0, spec_style_instruction(style).len() as int) =~= spec_style_instruction(style));
}

/// One message of the chat handed to the model's chat template.
#[derive(Clone, Debug, PartialEq, Eq)]
pub struct ChatMessage {
    pub role: String,
    pub content: String,
}

/// The chat sent to the model to rewrite `text` in the style named
/// `style_name`: the system prompt, then the user message.
pub open spec fn spec_rewrite_chat(text: Seq<char>, style_name: Seq<char>) -> Seq<(Seq<char>, Seq<char>)> {
    seq![
        (SYSTEM_ROLE@, SYSTEM_PROMPT@),
        (USER_ROLE@, spec_user_message(spec_style_from_name(style_name), text)),
    ]
}

/// The chat asks for the style the user named: the system message is the
/// fixed system prompt, and the user message is the named style's
/// instruction (Concise and Professional by their exact names, the Academic
/// one for every other name), a blank line, a header line, then the text.
pub proof fn lemma_chat_follows_style_name(text: Seq<char>, name: Seq<char>)
    ensures
        spec_rewrite_chat(text, name).len() == 2,
        spec_rewrite_chat(text, name)[0] == ("system"@, SYSTEM_PROMPT@),
        spec_rewrite_chat(text, name)[1].0 == "user"@,
        name == "Concise"@ ==> spec_rewrite_chat(text, name)[1].1
            == "Make the writing concise, remove redundancy, and preserve all key meaning."@
            + "\n\nText to rewrite:\n"@ + text,
        name == "Professional"@ ==> spec_rewrite_chat(text, name)[1].1
            == "Use a professional tone with clear structure, precise wording, and polished flow."@
            + "\n\nText to rewrite:\n"@ + text,
        name != "Concise"@ && name != "Professional"@ ==> spec_rewrite_chat(text, name)[1].1
            == "Use a formal academic tone with improved clarity, cohesion, and scholarly wording."@
            + "\n\nText to rewrite:\n"@ + text,
{
    reveal_strlit("Concise");
    reveal_strlit("Professional");
    assert("Concise"@.len() != "Professional"@.len());
}

/// Builds the user message that asks for `style` and carries `text`.
pub fn user_message(style: RewriteStyle, text: &str) -> (message: String)
    ensures
        message@ == spec_user_message(style, text@),
{
    let mut message = String::from_str(style.instruction());
    message.append(TEXT_HEADER);
    message.append(text);
    message
}

/// Builds the chat sent to the model to rewrite `text` in the style named
/// `style_name`.
pub fn rewrite_chat(text: &str, style_name: &str) -> (chat: Vec<ChatMessage>)
    ensures
        chat@.map_values(|m: ChatMessage| (m.role@, m.content@)) == spec_rewrite_chat(text@, style_name@),
{
    let style = RewriteStyle::from_name(style_name);
    let mut chat: Vec<ChatMessage> = Vec::new();
    chat.push(ChatMessage { role: String::from_str(SYSTEM_ROLE), content: String::from_str(SYSTEM_PROMPT) });
    chat.push(ChatMessage { role: String::from_str(USER_ROLE), content: user_message(style, text) });
    assert(chat@.map_values(|m: ChatMessage| (m.role@, m.content@)) =~= spec_rewrite_chat(text@, style_name@));
    chat
}

} // verus!
