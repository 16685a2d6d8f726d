//! Chat requests and how a legacy formatter turns them into a prompt: system
//! messages set the system message, user and assistant messages keep their
//! order, and the assistant opening comes last.
use vstd::prelude::*;
use crate::formatter::LegacyFormatter;
use crate::template::{
    content_total, pairs_view, rendered, result_view, style_named, LegacySpecView, Style,
    TemplateError, TemplateErrorView,
};

verus! {

/// A part of a system message; system messages hold text only.
pub enum SystemPart {
    Text(String),
}

/// The content of a system message.
pub enum SystemContent {
    Text(String),
    Array(Vec<SystemPart>),
}

/// A part of a user message: text, or media (image, audio, video or any
/// other part that is not text).
pub enum UserPart {
    Text(String),
    Media,
}

/// The content of a user message.
pub enum UserContent {
    Text(String),
    Array(Vec<UserPart>),
}

/// A part of an assistant message.
pub enum AssistantPart {
    Text(String),
    Refusal(String),
}

/// The content of an assistant message.
pub enum AssistantContent {
    Text(String),
    Array(Vec<AssistantPart>),
}

/// A message of a chat request, with what rendering reads of it.
pub enum ChatMessage {
    Developer,
    System(SystemContent),
    User(UserContent),
    Assistant(Option<AssistantContent>),
    Tool,
    Function,
}

/// A chat request: its messages, in order.
pub struct ChatRequest {
    pub messages: Vec<ChatMessage>,
}

/// The text of a system message: its text, or its only part.
pub open spec fn system_text(c: SystemContent) -> Option<Seq<char>> {
    match c {
        SystemContent::Text(t) => Some(t@),
        SystemContent::Array(parts) => if parts@.len() == 1 {
            match parts@[0] {
                SystemPart::Text(t) => Some(t@),
            }
        } else {
            None
        },
    }
}

/// The text of an assistant message: its text, or its only part when that
/// part is text; any other list of parts (refusals among them) has none.
pub open spec fn assistant_text(c: AssistantContent) -> Option<Seq<char>> {
    match c {
        AssistantContent::Text(t) => Some(t@),
        AssistantContent::Array(parts) => if parts@.len() == 1 {
            match parts@[0] {
                AssistantPart::Text(t) => Some(t@),
                AssistantPart::Refusal(_) => None,
            }
        } else {
            None
        },
    }
}

/// The text of user parts, joined; none when a part is media.
pub open spec fn user_text(parts: Seq<UserPart>) -> Option<Seq<char>>
    decreases parts.len(),
{
    if parts.len() == 0 {
        Some(Seq::empty())
    } else {
        match user_text(parts.drop_last()) {
            None => None,
            Some(prev) => match parts.last() {
                UserPart::Text(t) => Some(prev + t@),
                UserPart::Media => None,
            },
        }
    }
}

/// The system message and the `(role, content)` messages that a request's
/// messages give under template `t`, or the error of the first message that
/// cannot be rendered.
pub open spec fn collected(t: LegacySpecView, msgs: Seq<ChatMessage>) -> Result<
    (Seq<char>, Seq<(Seq<char>, Seq<char>)>),
    TemplateErrorView,
>
    decreases msgs.len(),
{
    if msgs.len() == 0 {
        Ok((t.system_message, Seq::empty()))
    } else {
        match collected(t, msgs.drop_last()) {
            Err(e) => Err(e),
            Ok((sm, pairs)) => match msgs.last() {
                ChatMessage::System(c) => match system_text(c) {
                    Some(s) => Ok((s, pairs)),
                    None => Err(TemplateErrorView::NonTextContent { role: "system"@ }),
                },
                ChatMessage::User(UserContent::Text(x)) => Ok((sm, pairs.push((t.user_role, x@)))),
                ChatMessage::User(UserContent::Array(parts)) => match user_text(parts@) {
                    Some(x) => Ok((sm, pairs.push((t.user_role, x)))),
                    None => Err(TemplateErrorView::MediaContent { role: "user"@ }),
                },
                ChatMessage::Assistant(None) => Ok(
                    (sm, pairs.push((t.assistant_role, Seq::empty()))),
                ),
                ChatMessage::Assistant(Some(c)) => match assistant_text(c) {
                    Some(x) => Ok((sm, pairs.push((t.assistant_role, x)))),
                    None => Err(TemplateErrorView::NonTextContent { role: "assistant"@ }),
                },
                ChatMessage::Developer => Err(
                    TemplateErrorView::UnsupportedRole { role: "developer"@ },
                ),
                ChatMessage::Tool => Err(TemplateErrorView::UnsupportedRole { role: "tool"@ }),
                ChatMessage::Function => Err(
                    TemplateErrorView::UnsupportedRole { role: "function"@ },
                ),
            },
        }
    }
}

/// The prompt that template `t` renders for a request's messages: the
/// collected messages followed by an empty assistant message, the opening
/// that the model continues.
pub open spec fn rendered_request(t: LegacySpecView, msgs: Seq<ChatMessage>) -> Result<
    Seq<char>,
    TemplateErrorView,
> {
    match collected(t, msgs) {
        Err(e) => Err(e),
        Ok((sm, pairs)) => rendered(t, sm, pairs.push((t.assistant_role, Seq::empty()))),
    }
}

/// The number of characters in the text parts of user parts.
pub open spec fn user_chars(parts: Seq<UserPart>) -> nat
    decreases parts.len(),
{
    if parts.len() == 0 {
        0
    } else {
        user_chars(parts.drop_last()) + match parts.last() {
            UserPart::Text(t) => t@.len(),
            UserPart::Media => 0,
        }
    }
}

/// The number of characters in the text parts of assistant parts.
pub open spec fn assistant_chars(parts: Seq<AssistantPart>) -> nat
    decreases parts.len(),
{
    if parts.len() == 0 {
        0
    } else {
        assistant_chars(parts.drop_last()) + match parts.last() {
            AssistantPart::Text(t) => t@.len(),
            AssistantPart::Refusal(_) => 0,
        }
    }
}

/// The number of characters of user and assistant text in a message.
pub open spec fn message_chars(m: ChatMessage) -> nat {
    match m {
        ChatMessage::User(UserContent::Text(x)) => x@.len(),
        ChatMessage::User(UserContent::Array(parts)) => user_chars(parts@),
        ChatMessage::Assistant(Some(AssistantContent::Text(x))) => x@.len(),
        ChatMessage::Assistant(Some(AssistantContent::Array(parts))) => assistant_chars(parts@),
        _ => 0,
    }
}

/// The number of characters of user and assistant text in a request.
pub open spec fn request_chars(msgs: Seq<ChatMessage>) -> nat
    decreases msgs.len(),
{
    if msgs.len() == 0 {
        0
    } else {
        request_chars(msgs.drop_last()) + message_chars(msgs.last())
    }
}

/// Once a media part has come, the user text stays undefined.
proof fn lemma_user_text_none(parts: Seq<UserPart>, i: int)
    requires
        0 <= i <= parts.len(),
        user_text(parts.take(i)) is None,
    ensures
        user_text(parts) is None,
    decreases parts.len() - i,
{
    if i < parts.len() {
        assert(parts.take(i + 1).drop_last() =~= parts.take(i));
        lemma_user_text_none(parts, i + 1);
    } else {
        assert(parts.take(i) =~= parts);
    }
}

/// The joined user text is as long as its parts together.
pub proof fn lemma_user_text_len(parts: Seq<UserPart>)
    requires
        user_text(parts) is Some,
    ensures
        user_text(parts)->0.len() == user_chars(parts),
    decreases parts.len(),
{
    if parts.len() > 0 {
        lemma_user_text_len(parts.drop_last());
    }
}

/// The text of an assistant message is as long as its text parts together.
pub proof fn lemma_assistant_text_len(parts: Vec<AssistantPart>)
    requires
        assistant_text(AssistantContent::Array(parts)) is Some,
    ensures
        assistant_text(AssistantContent::Array(parts))->0.len() == assistant_chars(parts@),
{
    assert(parts@.drop_last() =~= Seq::<AssistantPart>::empty());
    assert(parts@.last() == parts@[0]);
    assert(assistant_chars(parts@.drop_last()) == 0);
}

/// The text of a system message: the plain text, or the text of its only
/// part.
pub fn extract_system_text(content: &SystemContent) -> (r: Result<String, TemplateError>)
    ensures
        match system_text(*content) {
            Some(s) => r matches Ok(x) && x@ == s,
            None => r matches Err(e) && e@ == TemplateErrorView::NonTextContent {
                role: "system"@,
            },
        },
{
    match content {
        SystemContent::Text(text) => Ok(text.clone()),
        SystemContent::Array(parts) => {
            if parts.len() == 1 {
                match &parts[0] {
                    SystemPart::Text(text) => Ok(text.clone()),
                }
            } else {
                Err(TemplateError::NonTextContent { role: "system" })
            }
        },
    }
}

/// The text of an assistant message: the plain text, or the text of an
/// array with exactly one text part (refusal parts are rejected).
pub fn extract_assistant_text(content: &AssistantContent) -> (r: Result<String, TemplateError>)
    ensures
        match assistant_text(*content) {
            Some(s) => r matches Ok(x) && x@ == s,
            None => r matches Err(e) && e@ == TemplateErrorView::NonTextContent {
                role: "assistant"@,
            },
        },
{
    match content {
        AssistantContent::Text(text) => Ok(text.clone()),
        AssistantContent::Array(parts) => {
            if parts.len() == 1 {
                match &parts[0] {
                    AssistantPart::Text(text) => Ok(text.clone()),
                    AssistantPart::Refusal(_) => Err(
                        TemplateError::NonTextContent { role: "assistant" },
                    ),
                }
            } else {
                Err(TemplateError::NonTextContent { role: "assistant" })
            }
        },
    }
}

/// The text of a user message whose content is a list of parts: the text
/// parts joined, or an error for a media part.
fn extract_user_parts(parts: &Vec<UserPart>) -> (r: Result<String, TemplateError>)
    ensures
        match user_text(parts@) {
            Some(s) => r matches Ok(x) && x@ == s,
            None => r matches Err(e) && e@ == TemplateErrorView::MediaContent { role: "user"@ },
        },
{
    let mut text = String::new();
    let mut i: usize = 0;
    assert(parts@.take(0) =~= Seq::<UserPart>::empty());
    while i < parts.len()
        invariant
            i <= parts@.len(),
            user_text(parts@.take(i as int)) == Some(text@),
        decreases parts@.len() - i,
    {
        assert(parts@.take(i + 1).drop_last() =~= parts@.take(i as int));
        match &parts[i] {
            UserPart::Text(part) => {
                text.append(part.as_str());
            },
            UserPart::Media => {
                proof {
                    lemma_user_text_none(parts@, i + 1);
                }
                return Err(TemplateError::MediaContent { role: "user" });
            },
        }
        i = i + 1;
    }
    assert(parts@.take(i as int) =~= parts@);
    Ok(text)
}

impl LegacyFormatter {
    /// Renders a chat request: system messages replace the template's system
    /// message (the last one counts), user and assistant messages keep their
    /// order, and an empty assistant message is appended for the model to
    /// continue.
    pub fn render(&self, request: &ChatRequest) -> (r: Result<String, TemplateError>)
        requires
            style_named(self.spec.style@) == Some(Style::Qwen2Audio) ==> request_chars(
                request.messages@,
            ) < usize::MAX,
        ensures
            result_view(r) == rendered_request(self.spec@, request.messages@),
    {
        let ghost t = self.spec@;
        let ghost msgs = request.messages@;
        let mut system_message = self.spec.system_message.clone();
        let mut messages: Vec<(String, String)> = Vec::new();
        let mut i: usize = 0;
        assert(msgs.take(0) =~= Seq::<ChatMessage>::empty());
        assert(pairs_view(messages@) =~= Seq::<(Seq<char>, Seq<char>)>::empty());
        while i < request.messages.len()
            invariant
                t == self.spec@,
                msgs == request.messages@,
                i <= msgs.len(),
                style_named(t.style) == Some(Style::Qwen2Audio) ==> request_chars(msgs)
                    < usize::MAX,
                collected(t, msgs.take(i as int)) == Ok::<_, TemplateErrorView>(
                    (system_message@, pairs_view(messages@)),
                ),
                content_total(pairs_view(messages@)) <= request_chars(msgs.take(i as int)),
            decreases msgs.len() - i,
        {
            let ghost prefix = msgs.take(i as int);
            let ghost before = pairs_view(messages@);
            assert(msgs.take(i + 1).drop_last() =~= prefix);
            assert(msgs.take(i + 1).last() == msgs[i as int]);
            proof {
                lemma_request_chars_prefix(msgs, i + 1);
                lemma_collected_error_stays(t, msgs, i + 1);
            }
            match &request.messages[i] {
                ChatMessage::System(content) => {
                    match extract_system_text(content) {
                        Ok(text) => {
                            system_message = text;
                        },
                        Err(e) => {
                            return Err(e);
                        },
                    }
                },
                ChatMessage::User(content) => {
                    let text = match content {
                        UserContent::Text(text) => text.clone(),
                        UserContent::Array(parts) => {
                            proof {
                                if user_text(parts@) is Some {
                                    lemma_user_text_len(parts@);
                                }
                            }
                            match extract_user_parts(parts) {
                                Ok(text) => text,
                                Err(e) => {
                                    return Err(e);
                                },
                            }
                        },
                    };
                    messages.push((self.spec.roles.0.clone(), text));
                    assert(pairs_view(messages@) =~= before.push((t.user_role, text@)));
                    assert(pairs_view(messages@).drop_last() =~= before);
                },
                ChatMessage::Assistant(content) => {
                    let text = match content {
                        Some(c) => {
                            proof {
                                if let AssistantContent::Array(parts) = c {
                                    if assistant_text(*c) is Some {
                                        lemma_assistant_text_len(*parts);
                                    }
                                }
                            }
                            match extract_assistant_text(c) {
                                Ok(text) => text,
                                Err(e) => {
                                    return Err(e);
                                },
                            }
                        },
                        None => String::new(),
                    };
                    messages.push((self.spec.roles.1.clone(), text));
                    assert(pairs_view(messages@) =~= before.push((t.assistant_role, text@)));
                    assert(pairs_view(messages@).drop_last() =~= before);
                },
                ChatMessage::Developer => {
                    return Err(TemplateError::UnsupportedRole { role: "developer" });
                },
                ChatMessage::Tool => {
                    return Err(TemplateError::UnsupportedRole { role: "tool" });
                },
                ChatMessage::Function => {
                    return Err(TemplateError::UnsupportedRole { role: "function" });
                },
            }
            i = i + 1;
        }
        assert(msgs.take(i as int) =~= msgs);
        let ghost pairs = pairs_view(messages@);
        messages.push((self.spec.roles.1.clone(), String::new()));
        assert(pairs_view(messages@) =~= pairs.push((t.assistant_role, Seq::empty())));
        assert(content_total(pairs_view(messages@)) == content_total(pairs)) by {
            assert(pairs_view(messages@).drop_last() =~= pairs);
        }
        self.render_prompt(system_message.as_str(), messages.as_slice())
    }
}

/// The character count of a prefix of the messages is at most that of all.
proof fn lemma_request_chars_prefix(msgs: Seq<ChatMessage>, i: int)
    requires
        0 <= i <= msgs.len(),
    ensures
        request_chars(msgs.take(i)) <= request_chars(msgs),
    decreases msgs.len(),
{
    if i < msgs.len() {
        lemma_request_chars_prefix(msgs.drop_last(), i);
        assert(msgs.drop_last().take(i) =~= msgs.take(i));
    } else {
        assert(msgs.take(i) =~= msgs);
    }
}

/// An error in a prefix of the messages is the error of the whole request.
proof fn lemma_collected_error_stays(t: LegacySpecView, msgs: Seq<ChatMessage>, i: int)
    requires
        0 <= i <= msgs.len(),
    ensures
        collected(t, msgs.take(i)) is Err ==> collected(t, msgs) == collected(t, msgs.take(i)),
    decreases msgs.len(),
{
    if i < msgs.len() {
        lemma_collected_error_stays(t, msgs.drop_last(), i);
        assert(msgs.drop_last().take(i) =~= msgs.take(i));
    } else {
        assert(msgs.take(i) =~= msgs);
    }
}

/// The messages of a request that are not system messages, in order.
pub open spec fn dialogue(msgs: Seq<ChatMessage>) -> Seq<ChatMessage>
    decreases msgs.len(),
{
    if msgs.len() == 0 {
        Seq::empty()
    } else if msgs.last() is System {
        dialogue(msgs.drop_last())
    } else {
        dialogue(msgs.drop_last()).push(msgs.last())
    }
}

/// Every system message of a request is text.
pub open spec fn systems_have_text(msgs: Seq<ChatMessage>) -> bool
    decreases msgs.len(),
{
    if msgs.len() == 0 {
        true
    } else {
        systems_have_text(msgs.drop_last()) && match msgs.last() {
            ChatMessage::System(c) => system_text(c) is Some,
            _ => true,
        }
    }
}

/// The text of the last system message of a request, or the template's
/// system message when there is none.
pub open spec fn last_system_text(t: LegacySpecView, msgs: Seq<ChatMessage>) -> Seq<char>
    decreases msgs.len(),
{
    if msgs.len() == 0 {
        t.system_message
    } else {
        match msgs.last() {
            ChatMessage::System(c) => match system_text(c) {
                Some(s) => s,
                None => Seq::empty(),
            },
            _ => last_system_text(t, msgs.drop_last()),
        }
    }
}

/// A request collects exactly when its system messages are text and its
/// other messages collect; it then gives the last system text and the
/// messages of its dialogue.
pub proof fn lemma_collected_by_parts(t: LegacySpecView, msgs: Seq<ChatMessage>)
    ensures
        collected(t, msgs) is Ok <==> (systems_have_text(msgs) && collected(t, dialogue(msgs))
            is Ok),
        collected(t, msgs) is Ok ==> collected(t, msgs) == Ok::<_, TemplateErrorView>(
            (last_system_text(t, msgs), collected(t, dialogue(msgs))->Ok_0.1),
        ),
        collected(t, dialogue(msgs)) is Ok ==> collected(t, dialogue(msgs))->Ok_0.0
            == t.system_message,
    decreases msgs.len(),
{
    if msgs.len() > 0 {
        let prev = msgs.drop_last();
        lemma_collected_by_parts(t, prev);
        if !(msgs.last() is System) {
            let d = dialogue(prev).push(msgs.last());
            assert(d.drop_last() =~= dialogue(prev));
        }
    }
}

/// The characters of the collected messages are at most those of the
/// request's user and assistant text.
pub proof fn lemma_collected_size(t: LegacySpecView, msgs: Seq<ChatMessage>)
    ensures
        collected(t, msgs) matches Ok((_, pairs)) ==> content_total(pairs) <= request_chars(msgs),
    decreases msgs.len(),
{
    if msgs.len() > 0 {
        lemma_collected_size(t, msgs.drop_last());
        if let Ok((sm, pairs)) = collected(t, msgs.drop_last()) {
            match msgs.last() {
                ChatMessage::User(UserContent::Array(parts)) => {
                    if user_text(parts@) is Some {
                        lemma_user_text_len(parts@);
                        let x = user_text(parts@)->0;
                        assert(pairs.push((t.user_role, x)).drop_last() =~= pairs);
                    }
                },
                ChatMessage::User(UserContent::Text(x)) => {
                    assert(pairs.push((t.user_role, x@)).drop_last() =~= pairs);
                },
                ChatMessage::Assistant(Some(c)) => {
                    if let AssistantContent::Array(parts) = c {
                        if assistant_text(c) is Some {
                            lemma_assistant_text_len(parts);
                        }
                    }
                    if assistant_text(c) is Some {
                        assert(pairs.push((t.assistant_role, assistant_text(c)->0)).drop_last()
                            =~= pairs);
                    }
                },
                ChatMessage::Assistant(None) => {
                    assert(pairs.push((t.assistant_role, Seq::empty())).drop_last() =~= pairs);
                },
                _ => {},
            }
        }
    }
}

} // verus!
