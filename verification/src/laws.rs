//! Properties that hold of every template and every request.
use vstd::prelude::*;
use crate::audio::{idx_placeholder, numbered_audio, numbered_token};
use crate::request::{
    collected, dialogue, last_system_text, lemma_collected_by_parts, lemma_collected_size,
    rendered_request, request_chars, system_text, systems_have_text, user_text,
    AssistantContent, ChatMessage, SystemContent, UserContent, UserPart,
};
use crate::template::{
    body, content_total, fragment, needs_sep2, rendered, step, style_named, trailer,
    LegacySpecView, StopView, Style, TemplateErrorView,
};
use crate::text::{
    count_char, decimal, has_substring, lemma_decimal_no_brace, lemma_replaced_braces,
};

verus! {

/// `s` ends with `suffix`.
pub open spec fn ends_with(s: Seq<char>, suffix: Seq<char>) -> bool {
    suffix.len() <= s.len() && s.subrange(s.len() - suffix.len(), s.len() as int) == suffix
}

/// `s` starts with `prefix`.
pub open spec fn starts_with(s: Seq<char>, prefix: Seq<char>) -> bool {
    prefix.len() <= s.len() && s.subrange(0, prefix.len() as int) == prefix
}

/// A rendered request always ends with the assistant opening: the text of
/// an empty assistant message after all collected messages, followed by the
/// style's trailer.
pub proof fn law_render_ends_with_assistant_opening(t: LegacySpecView, msgs: Seq<ChatMessage>)
    ensures
        collected(t, msgs) matches Ok((sm, pairs)) ==> style_named(t.style) matches Some(style)
            ==> rendered_request(t, msgs) matches Ok(p) ==> ends_with(
            p,
            fragment(style, t, pairs.len() as int, t.assistant_role, Seq::empty()) + trailer(
                style,
                t,
            ),
        ),
{
    if let Ok((sm, pairs)) = collected(t, msgs) {
        if let Some(style) = style_named(t.style) {
            if let Ok(p) = rendered_request(t, msgs) {
                let all = pairs.push((t.assistant_role, Seq::<char>::empty()));
                assert(all.drop_last() =~= pairs);
                let opening = fragment(style, t, pairs.len() as int, t.assistant_role, Seq::empty())
                    + trailer(style, t);
                assert(step(
                    style,
                    t,
                    pairs.len() as int,
                    t.assistant_role,
                    Seq::empty(),
                    body(style, t, pairs).1,
                ).0 == fragment(style, t, pairs.len() as int, t.assistant_role, Seq::empty()));
                assert(p.subrange(p.len() - opening.len(), p.len() as int) =~= opening);
            }
        }
    }
}

/// A system message replaces the system message and adds no message: the
/// last system message of a request is the one rendered.
pub proof fn law_system_message_replaces(
    t: LegacySpecView,
    msgs: Seq<ChatMessage>,
    content: SystemContent,
)
    requires
        system_text(content) is Some,
    ensures
        collected(t, msgs) matches Ok((sm, pairs)) ==> collected(
            t,
            msgs.push(ChatMessage::System(content)),
        ) == Ok::<_, TemplateErrorView>((system_text(content)->0, pairs)),
{
    assert(msgs.push(ChatMessage::System(content)).drop_last() =~= msgs);
}

/// A request without system messages renders the template's own system
/// message.
pub proof fn law_template_system_message_by_default(t: LegacySpecView, msgs: Seq<ChatMessage>)
    requires
        forall|i: int| 0 <= i < msgs.len() ==> !(msgs[i] is System),
    ensures
        collected(t, msgs) matches Ok((sm, _)) ==> sm == t.system_message,
    decreases msgs.len(),
{
    if msgs.len() > 0 {
        law_template_system_message_by_default(t, msgs.drop_last());
    }
}

/// User and assistant messages are kept, in order, with the template's
/// roles: a text message adds exactly one `(role, text)` pair at the end.
pub proof fn law_messages_keep_order(t: LegacySpecView, msgs: Seq<ChatMessage>, text: String)
    ensures
        collected(t, msgs) matches Ok((sm, pairs)) ==> {
            &&& collected(t, msgs.push(ChatMessage::User(UserContent::Text(text)))) == Ok::<
                _,
                TemplateErrorView,
            >((sm, pairs.push((t.user_role, text@))))
            &&& collected(
                t,
                msgs.push(ChatMessage::Assistant(Some(AssistantContent::Text(text)))),
            ) == Ok::<_, TemplateErrorView>((sm, pairs.push((t.assistant_role, text@))))
            &&& collected(t, msgs.push(ChatMessage::Assistant(None))) == Ok::<
                _,
                TemplateErrorView,
            >((sm, pairs.push((t.assistant_role, Seq::empty()))))
        },
{
    assert(msgs.push(ChatMessage::User(UserContent::Text(text))).drop_last() =~= msgs);
    assert(msgs.push(ChatMessage::Assistant(Some(AssistantContent::Text(text)))).drop_last()
        =~= msgs);
    assert(msgs.push(ChatMessage::Assistant(None)).drop_last() =~= msgs);
}

/// Developer, tool and function messages are refused, whatever follows.
pub proof fn law_unsupported_roles_refused(
    t: LegacySpecView,
    msgs: Seq<ChatMessage>,
    m: ChatMessage,
    more: Seq<ChatMessage>,
)
    requires
        collected(t, msgs) is Ok,
        m is Developer || m is Tool || m is Function,
    ensures
        collected(t, msgs.push(m) + more) is Err,
        collected(t, msgs.push(m) + more) == collected(t, msgs.push(m)),
    decreases more.len(),
{
    assert(msgs.push(m).drop_last() =~= msgs);
    if more.len() == 0 {
        assert(msgs.push(m) + more =~= msgs.push(m));
    } else {
        law_unsupported_roles_refused(t, msgs, m, more.drop_last());
        assert((msgs.push(m) + more).drop_last() =~= msgs.push(m) + more.drop_last());
    }
}

/// A known style renders whenever the template has the second separator and
/// the stop string that the style needs; an unknown style is refused by
/// name.
pub proof fn law_when_rendering_succeeds(
    t: LegacySpecView,
    system_message: Seq<char>,
    msgs: Seq<(Seq<char>, Seq<char>)>,
)
    ensures
        rendered(t, system_message, msgs) is Ok <==> (style_named(t.style) matches Some(style)
            && (needs_sep2(style) ==> t.sep2 is Some) && (style == Style::Qwen2VlEmbed
            ==> t.stop_str matches Some(StopView::One(_)))),
        style_named(t.style) is None ==> rendered(t, system_message, msgs) == Err::<
            Seq<char>,
            _,
        >(TemplateErrorView::InvalidStyle { style: t.style }),
{
}

/// Later messages never change how earlier ones render: the text of a list
/// of messages begins with the text of each of its prefixes.
pub proof fn law_earlier_messages_unchanged(
    style: Style,
    t: LegacySpecView,
    msgs: Seq<(Seq<char>, Seq<char>)>,
    more: Seq<(Seq<char>, Seq<char>)>,
)
    ensures
        starts_with(body(style, t, msgs + more).0, body(style, t, msgs).0),
    decreases more.len(),
{
    if more.len() == 0 {
        assert(msgs + more =~= msgs);
        assert(body(style, t, msgs).0.subrange(0, body(style, t, msgs).0.len() as int) =~= body(
            style,
            t,
            msgs,
        ).0);
    } else {
        law_earlier_messages_unchanged(style, t, msgs, more.drop_last());
        assert((msgs + more).drop_last() =~= msgs + more.drop_last());
        let shorter = body(style, t, msgs + more.drop_last()).0;
        let longer = body(style, t, msgs + more).0;
        let base = body(style, t, msgs).0;
        assert(longer.subrange(0, base.len() as int) =~= shorter.subrange(0, base.len() as int));
    }
}

/// An audio token without `{idx}` leaves every message as it is and uses no
/// number: numbering stops at once instead of repeating forever.
pub proof fn law_audio_token_without_idx_is_kept(message: Seq<char>, token: Seq<char>, counter: nat)
    requires
        !has_substring(token, idx_placeholder()),
    ensures
        numbered_audio(message, token, counter) == (message, counter),
{
    lemma_decimal_no_brace(counter);
    lemma_replaced_braces(token, idx_placeholder(), decimal(counter));
    assert(numbered_token(token, counter) == token);
}

/// Numbering audio tokens always ends, after at most as many numbers as the
/// message holds `{` characters.
pub proof fn law_audio_numbering_bounded(message: Seq<char>, token: Seq<char>, counter: nat)
    ensures
        counter <= numbered_audio(message, token, counter).1 <= counter + count_char(
            message,
            '{',
        ),
{
    crate::audio::lemma_numbered_audio_counter(message, token, counter);
}

/// The styles whose message text does not depend on the message's index.
pub open spec fn index_free(style: Style) -> bool {
    matches!(
        style,
        Style::AddColonSingle | Style::AddColonSpaceSingle | Style::AddNewLineSingle
            | Style::NoColonSingle | Style::Rwkv | Style::Llama4 | Style::Llama3 | Style::ChatMl
            | Style::ChatGlm3 | Style::Phoenix | Style::Robin | Style::FalconChat | Style::Mpt
            | Style::PaddleOcr
    )
}

/// The styles whose message text depends on the index only through its
/// parity.
pub open spec fn parity_only(style: Style) -> bool {
    matches!(
        style,
        Style::AddColonTwo | Style::NoColonTwo | Style::ChatIntern | Style::Dolly
            | Style::MetaMath | Style::DeepSeekChat | Style::DeepSeekVl2 | Style::UnlimitedOcr
    )
}

/// The text of a message is the same at two indices that the style cannot
/// tell apart.
proof fn lemma_fragment_index(
    style: Style,
    t: LegacySpecView,
    i: int,
    j: int,
    r: Seq<char>,
    c: Seq<char>,
)
    requires
        i >= 0,
        j >= 0,
        index_free(style) || (parity_only(style) && i % 2 == j % 2),
    ensures
        fragment(style, t, i, r, c) == fragment(style, t, j, r, c),
{
}

/// For styles that ignore the index, or look only at its parity after an
/// even number of messages, the text of `a ++ b` is the text of `a`
/// followed by the text of `b`.
pub proof fn law_body_splits(
    style: Style,
    t: LegacySpecView,
    a: Seq<(Seq<char>, Seq<char>)>,
    b: Seq<(Seq<char>, Seq<char>)>,
)
    requires
        index_free(style) || (parity_only(style) && a.len() % 2 == 0),
    ensures
        body(style, t, a + b).0 == body(style, t, a).0 + body(style, t, b).0,
    decreases b.len(),
{
    if b.len() == 0 {
        assert(a + b =~= a);
    } else {
        let prev = b.drop_last();
        law_body_splits(style, t, a, prev);
        assert((a + b).drop_last() =~= a + prev);
        assert((a + b).last() == b.last());
        lemma_fragment_index(
            style,
            t,
            (a + b).len() - 1,
            b.len() - 1,
            b.last().0,
            b.last().1,
        );
    }
}

/// A prompt of `a ++ b` is the prompt of `a` followed by what the prompt of
/// `b` adds to the header, for the styles of [`law_body_splits`] (with their
/// second separator where they need one).
pub proof fn law_render_prompt_splits(
    t: LegacySpecView,
    system_message: Seq<char>,
    a: Seq<(Seq<char>, Seq<char>)>,
    b: Seq<(Seq<char>, Seq<char>)>,
)
    requires
        style_named(t.style) matches Some(style) && (index_free(style) || (parity_only(style)
            && t.sep2 is Some && a.len() % 2 == 0)),
    ensures
        rendered(t, system_message, a + b) is Ok,
        rendered(t, system_message, a) is Ok,
        rendered(t, system_message, b) is Ok,
        rendered(t, system_message, Seq::empty()) is Ok,
        rendered(t, system_message, a + b)->Ok_0 == rendered(t, system_message, a)->Ok_0
            + rendered(t, system_message, b)->Ok_0.skip(
            rendered(t, system_message, Seq::empty())->Ok_0.len() as int,
        ),
        starts_with(
            rendered(t, system_message, b)->Ok_0,
            rendered(t, system_message, Seq::empty())->Ok_0,
        ),
{
    let style = style_named(t.style)->0;
    law_body_splits(style, t, a, b);
    let h = rendered(t, system_message, Seq::empty())->Ok_0;
    let pb = rendered(t, system_message, b)->Ok_0;
    assert(h =~= h + body(style, t, Seq::empty()).0 + trailer(style, t));
    assert(pb.skip(h.len() as int) =~= body(style, t, b).0);
    assert(pb.subrange(0, h.len() as int) =~= h);
}

/// Where system messages stand does not matter: two requests with the same
/// other messages in the same order, whose system messages are text and
/// whose last system texts agree, collect and render alike.
pub proof fn law_system_position_irrelevant(
    t: LegacySpecView,
    first: Seq<ChatMessage>,
    second: Seq<ChatMessage>,
)
    requires
        collected(t, first) is Ok,
        systems_have_text(second),
        dialogue(first) == dialogue(second),
        last_system_text(t, first) == last_system_text(t, second),
    ensures
        collected(t, second) == collected(t, first),
        rendered_request(t, second) == rendered_request(t, first),
{
    lemma_collected_by_parts(t, first);
    lemma_collected_by_parts(t, second);
}

/// Replacing a user message whose text parts join to `text` by the plain
/// text `text`, anywhere in a request, changes neither what it collects nor
/// what it renders.
pub proof fn law_user_parts_join(
    t: LegacySpecView,
    before: Seq<ChatMessage>,
    parts: Vec<UserPart>,
    text: String,
    after: Seq<ChatMessage>,
)
    requires
        user_text(parts@) == Some(text@),
    ensures
        collected(t, before.push(ChatMessage::User(UserContent::Array(parts))) + after)
            == collected(t, before.push(ChatMessage::User(UserContent::Text(text))) + after),
        rendered_request(t, before.push(ChatMessage::User(UserContent::Array(parts))) + after)
            == rendered_request(t, before.push(ChatMessage::User(UserContent::Text(text))) + after),
    decreases after.len(),
{
    let joined = before.push(ChatMessage::User(UserContent::Array(parts)));
    let plain = before.push(ChatMessage::User(UserContent::Text(text)));
    if after.len() == 0 {
        assert(joined + after =~= joined);
        assert(plain + after =~= plain);
        assert(joined.drop_last() =~= before);
        assert(plain.drop_last() =~= before);
    } else {
        law_user_parts_join(t, before, parts, text, after.drop_last());
        assert((joined + after).drop_last() =~= joined + after.drop_last());
        assert((plain + after).drop_last() =~= plain + after.drop_last());
    }
}

/// Two text parts join with nothing between them.
pub proof fn law_two_text_parts_join(parts: Vec<UserPart>, a: String, b: String)
    requires
        parts@ == seq![UserPart::Text(a), UserPart::Text(b)],
    ensures
        user_text(parts@) == Some(a@ + b@),
{
    let p = parts@;
    let one = p.drop_last();
    assert(one =~= seq![UserPart::Text(a)]);
    assert(one.drop_last() =~= Seq::<UserPart>::empty());
    assert(user_text(one.drop_last()) == Some(Seq::<char>::empty()));
    assert(one.last() == UserPart::Text(a));
    assert(Seq::<char>::empty() + a@ =~= a@);
    assert(user_text(one) == Some(a@));
    assert(p.last() == UserPart::Text(b));
}

/// Rendering a request is rendering its collected messages followed by the
/// assistant opening, and those messages are no larger than the request's
/// text, so `render_prompt`'s size bound follows from `render`'s.
pub proof fn law_render_is_render_prompt_of_collected(t: LegacySpecView, msgs: Seq<ChatMessage>)
    ensures
        collected(t, msgs) matches Ok((sm, pairs)) ==> {
            &&& rendered_request(t, msgs) == rendered(
                t,
                sm,
                pairs.push((t.assistant_role, Seq::empty())),
            )
            &&& content_total(pairs.push((t.assistant_role, Seq::empty()))) <= request_chars(msgs)
        },
{
    lemma_collected_size(t, msgs);
    if let Ok((sm, pairs)) = collected(t, msgs) {
        assert(pairs.push((t.assistant_role, Seq::<char>::empty())).drop_last() =~= pairs);
    }
}

} // verus!
