//! What particular styles render, stated over the style names and the
//! texts that go in, and what requests with media render.
use vstd::prelude::*;
use crate::names::{
    lemma_named_add_colon_single, lemma_named_add_colon_two, lemma_named_add_colon_space_single,
    lemma_named_add_new_line_single, lemma_named_qwen2_vl_embed, lemma_named_no_colon_single,
    lemma_named_no_colon_two, lemma_named_rwkv, lemma_named_llama4, lemma_named_llama3,
    lemma_named_llama2, lemma_named_chatglm, lemma_named_chatml, lemma_named_chatglm3,
    lemma_named_chatintern, lemma_named_dolly, lemma_named_phoenix, lemma_named_robin,
    lemma_named_falcon_chat, lemma_named_metamath, lemma_named_deepseek_chat,
    lemma_named_deepseekvl2, lemma_named_gemma3, lemma_named_mpt, lemma_named_qwen2_audio,
    lemma_named_paddle_ocr, lemma_named_unlimited_ocr,
};
use crate::audio::{idx_placeholder, numbered_audio, numbered_token};
use crate::laws::ends_with;
use crate::request::{
    collected, rendered_request, user_text, AssistantContent, AssistantPart, ChatMessage,
    SystemContent, SystemPart, UserContent, UserPart,
};
use crate::template::{
    body, fragment, header, rendered, step, style_named, system_placeholder, system_prompt,
    LegacySpecView, StopView, Style, TemplateErrorView,
};
use crate::text::{
    decimal, first_replaced, has_substring, is_white, lemma_decimal_no_brace,
    lemma_has_substring_tail, lemma_replaced_braces, occurs_at, replaced, trimmed, trimmed_end,
    trimmed_start,
};

verus! {

/// The slot that the system template fills with the system message.
pub open spec fn message_slot() -> Seq<char> {
    "{system_message}"@
}

/// The system template with the system message filled in.
pub open spec fn filled(t: LegacySpecView, system_message: Seq<char>) -> Seq<char> {
    replaced(t.system_template, message_slot(), system_message)
}

proof fn lemma_slot()
    ensures
        system_placeholder() == message_slot(),
        message_slot().len() > 0,
{
    reveal_strlit("{system_message}");
    assert(system_placeholder() =~= message_slot());
}

/// Every style name denotes its style.
proof fn lemma_all_names()
    ensures
        style_named("ADD_COLON_SINGLE"@) == Some(Style::AddColonSingle),
        style_named("ADD_COLON_TWO"@) == Some(Style::AddColonTwo),
        style_named("ADD_COLON_SPACE_SINGLE"@) == Some(Style::AddColonSpaceSingle),
        style_named("ADD_NEW_LINE_SINGLE"@) == Some(Style::AddNewLineSingle),
        style_named("QWEN2_VL_EMBED"@) == Some(Style::Qwen2VlEmbed),
        style_named("NO_COLON_SINGLE"@) == Some(Style::NoColonSingle),
        style_named("NO_COLON_TWO"@) == Some(Style::NoColonTwo),
        style_named("RWKV"@) == Some(Style::Rwkv),
        style_named("LLAMA4"@) == Some(Style::Llama4),
        style_named("LLAMA3"@) == Some(Style::Llama3),
        style_named("LLAMA2"@) == Some(Style::Llama2),
        style_named("CHATGLM"@) == Some(Style::ChatGlm),
        style_named("CHATML"@) == Some(Style::ChatMl),
        style_named("CHATGLM3"@) == Some(Style::ChatGlm3),
        style_named("CHATINTERN"@) == Some(Style::ChatIntern),
        style_named("DOLLY"@) == Some(Style::Dolly),
        style_named("PHOENIX"@) == Some(Style::Phoenix),
        style_named("ROBIN"@) == Some(Style::Robin),
        style_named("FALCON_CHAT"@) == Some(Style::FalconChat),
        style_named("METAMATH"@) == Some(Style::MetaMath),
        style_named("DEEPSEEK_CHAT"@) == Some(Style::DeepSeekChat),
        style_named("DeepSeekVL2"@) == Some(Style::DeepSeekVl2),
        style_named("GEMMA3"@) == Some(Style::Gemma3),
        style_named("MPT"@) == Some(Style::Mpt),
        style_named("QWEN2_AUDIO"@) == Some(Style::Qwen2Audio),
        style_named("PADDLE_OCR"@) == Some(Style::PaddleOcr),
        style_named("UNLIMITED_OCR"@) == Some(Style::UnlimitedOcr),
{
    lemma_named_add_colon_single();
    lemma_named_add_colon_two();
    lemma_named_add_colon_space_single();
    lemma_named_add_new_line_single();
    lemma_named_qwen2_vl_embed();
    lemma_named_no_colon_single();
    lemma_named_no_colon_two();
    lemma_named_rwkv();
    lemma_named_llama4();
    lemma_named_llama3();
    lemma_named_llama2();
    lemma_named_chatglm();
    lemma_named_chatml();
    lemma_named_chatglm3();
    lemma_named_chatintern();
    lemma_named_dolly();
    lemma_named_phoenix();
    lemma_named_robin();
    lemma_named_falcon_chat();
    lemma_named_metamath();
    lemma_named_deepseek_chat();
    lemma_named_deepseekvl2();
    lemma_named_gemma3();
    lemma_named_mpt();
    lemma_named_qwen2_audio();
    lemma_named_paddle_ocr();
    lemma_named_unlimited_ocr();
}

/// The nine styles that alternate `sep` and `sep2`, by name.
pub open spec fn alternating_name(n: Seq<char>) -> bool {
    ||| n == "ADD_COLON_TWO"@
    ||| n == "NO_COLON_TWO"@
    ||| n == "LLAMA2"@
    ||| n == "CHATINTERN"@
    ||| n == "DOLLY"@
    ||| n == "METAMATH"@
    ||| n == "DEEPSEEK_CHAT"@
    ||| n == "DeepSeekVL2"@
    ||| n == "UNLIMITED_OCR"@
}

/// The eighteen other style names.
pub open spec fn single_sep_name(n: Seq<char>) -> bool {
    ||| n == "ADD_COLON_SINGLE"@
    ||| n == "ADD_COLON_SPACE_SINGLE"@
    ||| n == "ADD_NEW_LINE_SINGLE"@
    ||| n == "QWEN2_VL_EMBED"@
    ||| n == "NO_COLON_SINGLE"@
    ||| n == "RWKV"@
    ||| n == "LLAMA4"@
    ||| n == "LLAMA3"@
    ||| n == "CHATGLM"@
    ||| n == "CHATML"@
    ||| n == "CHATGLM3"@
    ||| n == "PHOENIX"@
    ||| n == "ROBIN"@
    ||| n == "FALCON_CHAT"@
    ||| n == "GEMMA3"@
    ||| n == "MPT"@
    ||| n == "QWEN2_AUDIO"@
    ||| n == "PADDLE_OCR"@
}

/// Only the nine alternating styles need a second separator: without one
/// they fail with `MissingSep2` naming the style, and every other style
/// renders (`QWEN2_VL_EMBED` given its single stop string).
pub proof fn law_sep2_needed_only_by_alternating_styles(
    t: LegacySpecView,
    system_message: Seq<char>,
    msgs: Seq<(Seq<char>, Seq<char>)>,
)
    requires
        alternating_name(t.style) || single_sep_name(t.style),
        t.sep2 is None,
        t.style == "QWEN2_VL_EMBED"@ ==> t.stop_str matches Some(StopView::One(_)),
    ensures
        alternating_name(t.style) ==> rendered(t, system_message, msgs) == Err::<Seq<char>, _>(
            TemplateErrorView::MissingSep2 { style: t.style },
        ),
        single_sep_name(t.style) ==> rendered(t, system_message, msgs) is Ok,
{
    lemma_all_names();
}

/// The prompt of messages followed by one more message is the prompt of the
/// messages with that message's text appended, in a style without trailer.
proof fn lemma_push_message(
    t: LegacySpecView,
    style: Style,
    system_message: Seq<char>,
    msgs: Seq<(Seq<char>, Seq<char>)>,
    m: (Seq<char>, Seq<char>),
)
    requires
        style_named(t.style) == Some(style),
        style != Style::Qwen2VlEmbed,
        rendered(t, system_message, msgs) is Ok,
    ensures
        rendered(t, system_message, msgs.push(m)) == Ok::<_, TemplateErrorView>(
            rendered(t, system_message, msgs)->Ok_0 + step(
                style,
                t,
                msgs.len() as int,
                m.0,
                m.1,
                body(style, t, msgs).1,
            ).0,
        ),
{
    assert(msgs.push(m).drop_last() =~= msgs);
    let h = header(style, t, system_message, system_prompt(t, system_message));
    let b = body(style, t, msgs).0;
    let f = step(style, t, msgs.len() as int, m.0, m.1, body(style, t, msgs).1).0;
    assert(h + (b + f) + Seq::<char>::empty() =~= (h + b + Seq::<char>::empty()) + f);
}

/// In `GEMMA3` the first message leaves out its role; every later message
/// with content is its role, its content and `sep`; a message without
/// content is its role alone.
pub proof fn law_gemma3_message_text(
    t: LegacySpecView,
    system_message: Seq<char>,
    msgs: Seq<(Seq<char>, Seq<char>)>,
    role: Seq<char>,
    content: Seq<char>,
)
    requires
        t.style == "GEMMA3"@,
    ensures
        rendered(t, system_message, msgs) is Ok,
        rendered(t, system_message, msgs.push((role, content))) == Ok::<_, TemplateErrorView>(
            rendered(t, system_message, msgs)->Ok_0 + if content.len() == 0 {
                role
            } else if msgs.len() == 0 {
                content + t.sep
            } else {
                role + content + t.sep
            },
        ),
{
    lemma_named_gemma3();
    lemma_push_message(t, Style::Gemma3, system_message, msgs, (role, content));
    let x = rendered(t, system_message, msgs)->Ok_0;
    assert(x + (role + content + t.sep) =~= x + role + content + t.sep);
    assert(x + (content + t.sep) =~= x + content + t.sep);
}

/// For `LLAMA3`, `LLAMA4` and `CHATGLM3` the prompt opens with the filled
/// system template exactly when the system message passed in is not
/// empty; `FALCON_CHAT` adds `sep` after it; `LLAMA2` opens with `[INST] `
/// instead when the message is empty; `ADD_NEW_LINE_SINGLE` also needs the
/// filled template to be non-empty. The template's own system message
/// plays no part.
pub proof fn law_system_prompt_by_message(t: LegacySpecView, system_message: Seq<char>)
    ensures
        (t.style == "LLAMA3"@ || t.style == "LLAMA4"@ || t.style == "CHATGLM3"@) ==> rendered(
            t,
            system_message,
            Seq::empty(),
        ) == Ok::<_, TemplateErrorView>(
            if system_message.len() > 0 {
                filled(t, system_message)
            } else {
                Seq::empty()
            },
        ),
        t.style == "FALCON_CHAT"@ ==> rendered(t, system_message, Seq::empty()) == Ok::<
            _,
            TemplateErrorView,
        >(
            if system_message.len() > 0 {
                filled(t, system_message) + t.sep
            } else {
                Seq::empty()
            },
        ),
        t.style == "LLAMA2"@ && t.sep2 is Some ==> rendered(t, system_message, Seq::empty())
            == Ok::<_, TemplateErrorView>(
            if system_message.len() > 0 {
                filled(t, system_message)
            } else {
                "[INST] "@
            },
        ),
        t.style == "ADD_NEW_LINE_SINGLE"@ ==> rendered(t, system_message, Seq::empty()) == Ok::<
            _,
            TemplateErrorView,
        >(
            if system_message.len() > 0 && filled(t, system_message).len() > 0 {
                filled(t, system_message) + t.sep
            } else {
                Seq::empty()
            },
        ),
{
    lemma_slot();
    lemma_all_names();
    if let Some(style) = style_named(t.style) {
        let h = header(
            style,
            t,
            system_message,
            filled(t, system_message),
        );
        assert(h + Seq::<char>::empty() + Seq::<char>::empty() =~= h);
    }
}

/// A template's own system message never reaches the prompt except through
/// the system message passed in: two templates that differ only there
/// render alike.
pub proof fn law_template_system_message_unused(
    t: LegacySpecView,
    other: Seq<char>,
    system_message: Seq<char>,
    msgs: Seq<(Seq<char>, Seq<char>)>,
)
    ensures
        rendered(LegacySpecView { system_message: other, ..t }, system_message, msgs) == rendered(
            t,
            system_message,
            msgs,
        ),
{
    let u = LegacySpecView { system_message: other, ..t };
    if let Some(style) = style_named(t.style) {
        lemma_body_ignores_system_message(style, t, u, msgs);
    }
}

proof fn lemma_body_ignores_system_message(
    style: Style,
    t: LegacySpecView,
    u: LegacySpecView,
    msgs: Seq<(Seq<char>, Seq<char>)>,
)
    requires
        u == (LegacySpecView { system_message: u.system_message, ..t }),
    ensures
        body(style, u, msgs) == body(style, t, msgs),
    decreases msgs.len(),
{
    if msgs.len() > 0 {
        lemma_body_ignores_system_message(style, t, u, msgs.drop_last());
    }
}

/// A `PADDLE_OCR` user message with content renders as the user role,
/// `": "`, the content with every image token followed by a newline
/// replaced by the bare token (when the content holds the token at all),
/// and a newline.
pub proof fn law_paddle_user_message(
    t: LegacySpecView,
    system_message: Seq<char>,
    msgs: Seq<(Seq<char>, Seq<char>)>,
    content: Seq<char>,
)
    requires
        t.style == "PADDLE_OCR"@,
        content.len() > 0,
    ensures
        rendered(t, system_message, msgs) is Ok,
        rendered(t, system_message, msgs.push((t.user_role, content))) == Ok::<
            _,
            TemplateErrorView,
        >(
            rendered(t, system_message, msgs)->Ok_0 + t.user_role + ": "@ + if has_substring(
                content,
                t.image_token,
            ) {
                replaced(content, t.image_token.push('\n'), t.image_token)
            } else {
                content
            } + "\n"@,
        ),
{
    lemma_named_paddle_ocr();
    lemma_push_message(t, Style::PaddleOcr, system_message, msgs, (t.user_role, content));
    let x = rendered(t, system_message, msgs)->Ok_0;
    let pc = crate::template::paddle_content(t, content);
    assert(x + (t.user_role + ": "@ + pc + "\n"@) =~= x + t.user_role + ": "@ + pc + "\n"@);
}

/// `replaced` replaces every occurrence: a text that starts with the
/// pattern gives the replacement followed by the rest replaced in turn, and
/// a text without the pattern stays as it is.
pub proof fn law_replaced_every_occurrence(s: Seq<char>, pat: Seq<char>, rep: Seq<char>)
    requires
        pat.len() > 0,
    ensures
        replaced(pat + s, pat, rep) == rep + replaced(s, pat, rep),
        !has_substring(s, pat) ==> replaced(s, pat, rep) == s,
{
    assert((pat + s).take(pat.len() as int) =~= pat);
    assert((pat + s).skip(pat.len() as int) =~= s);
    lemma_replaced_absent(s, pat, rep);
}

proof fn lemma_replaced_absent(s: Seq<char>, pat: Seq<char>, rep: Seq<char>)
    requires
        pat.len() > 0,
    ensures
        !has_substring(s, pat) ==> replaced(s, pat, rep) == s,
    decreases s.len(),
{
    if !has_substring(s, pat) && s.len() >= pat.len() {
        assert(s.subrange(0, pat.len() as int) =~= s.take(pat.len() as int));
        assert(!occurs_at(s, 0, pat));
        lemma_has_substring_tail(s, pat);
        lemma_replaced_absent(s.drop_first(), pat, rep);
        assert(seq![s[0]] + s.drop_first() =~= s);
    }
}

/// Some part of user content is media.
pub open spec fn has_media(parts: Seq<UserPart>) -> bool {
    exists|j: int| 0 <= j < parts.len() && parts[j] is Media
}

proof fn lemma_media_has_no_text(parts: Seq<UserPart>, j: int)
    requires
        0 <= j < parts.len(),
        parts[j] is Media,
    ensures
        user_text(parts) is None,
    decreases parts.len(),
{
    if j < parts.len() - 1 {
        lemma_media_has_no_text(parts.drop_last(), j);
    }
}

proof fn lemma_error_persists(t: LegacySpecView, msgs: Seq<ChatMessage>, more: Seq<ChatMessage>)
    requires
        collected(t, msgs) is Err,
    ensures
        collected(t, msgs + more) == collected(t, msgs),
    decreases more.len(),
{
    if more.len() == 0 {
        assert(msgs + more =~= msgs);
    } else {
        lemma_error_persists(t, msgs, more.drop_last());
        assert((msgs + more).drop_last() =~= msgs + more.drop_last());
    }
}

/// A user message with a media part anywhere among its parts makes the
/// request fail with `MediaContent` for the user role, whatever follows,
/// unless an earlier message already failed.
pub proof fn law_user_media_refused(
    t: LegacySpecView,
    msgs: Seq<ChatMessage>,
    parts: Vec<UserPart>,
    more: Seq<ChatMessage>,
)
    requires
        collected(t, msgs) is Ok,
        has_media(parts@),
    ensures
        collected(t, msgs.push(ChatMessage::User(UserContent::Array(parts))) + more) == Err::<
            (Seq<char>, Seq<(Seq<char>, Seq<char>)>),
            _,
        >(TemplateErrorView::MediaContent { role: "user"@ }),
        rendered_request(t, msgs.push(ChatMessage::User(UserContent::Array(parts))) + more)
            == Err::<Seq<char>, _>(TemplateErrorView::MediaContent { role: "user"@ }),
{
    let j = choose|j: int| 0 <= j < parts@.len() && parts@[j] is Media;
    lemma_media_has_no_text(parts@, j);
    let with = msgs.push(ChatMessage::User(UserContent::Array(parts)));
    assert(with.drop_last() =~= msgs);
    lemma_error_persists(t, with, more);
}


/// `sep` after an even message, `sep2` after an odd one.
pub open spec fn sep_at(t: LegacySpecView, i: int) -> Seq<char> {
    if i % 2 == 0 {
        t.sep
    } else {
        t.sep2->0
    }
}

/// `s` when `cond` holds, nothing otherwise.
pub open spec fn when(cond: bool, s: Seq<char>) -> Seq<char> {
    if cond {
        s
    } else {
        Seq::empty()
    }
}

/// The text that message `i` with role `r` and content `c` adds to the
/// prompt, for each style but `QWEN2_VL_EMBED` and `QWEN2_AUDIO`, written
/// out style by style.
pub open spec fn expected_message_text(
    t: LegacySpecView,
    i: int,
    r: Seq<char>,
    c: Seq<char>,
) -> Seq<char> {
    let e = c.len() == 0;
    match style_named(t.style) {
        Some(Style::AddColonSingle) | Some(Style::FalconChat) => if e {
            r + ":"@
        } else {
            r + ": "@ + c + t.sep
        },
        Some(Style::AddColonTwo) | Some(Style::DeepSeekChat) | Some(Style::DeepSeekVl2) => if e {
            r + ":"@
        } else {
            r + ": "@ + c + sep_at(t, i)
        },
        Some(Style::AddColonSpaceSingle) => r + ": "@ + when(!e, c + t.sep),
        Some(Style::AddNewLineSingle) => r + "\n"@ + when(!e, c + t.sep),
        Some(Style::NoColonSingle) | Some(Style::Mpt) => r + when(!e, c + t.sep),
        Some(Style::NoColonTwo) | Some(Style::UnlimitedOcr) => r + when(!e, c + sep_at(t, i)),
        Some(Style::Rwkv) => if e {
            r + ":"@
        } else {
            let once = replaced(c, seq!['\r', '\n'], seq!['\n']);
            r + ": "@ + replaced(once, seq!['\n', '\n'], seq!['\n']) + "\n\n"@
        },
        Some(Style::Llama4) => "<|header_start|>"@ + r + "<|header_end|>\n\n"@ + when(
            !e,
            trimmed(c) + "<|eot|>"@,
        ),
        Some(Style::Llama3) => "<|start_header_id|>"@ + r + "<|end_header_id|>\n\n"@ + when(
            !e,
            trimmed(c) + "<|eot_id|>"@,
        ),
        Some(Style::Llama2) => {
            let tag = if i % 2 == 0 {
                t.user_role
            } else {
                t.assistant_role
            };
            if e {
                tag
            } else if i == 0 {
                c + " "@
            } else {
                tag + " "@ + c + sep_at(t, i)
            }
        },
        Some(Style::ChatGlm) => {
            let first = if t.name == "chatglm2"@ {
                1nat
            } else {
                0nat
            };
            when(i % 2 == 0, "[Round "@ + decimal((i / 2) as nat + first) + "]"@ + t.sep) + r
                + "："@ + when(!e, c + t.sep)
        },
        Some(Style::ChatMl) => r + "\n"@ + when(!e, c + t.sep + "\n"@),
        Some(Style::ChatGlm3) => r + when(!e, "\n"@ + c),
        Some(Style::ChatIntern) => when(i % 2 == 0, "<s>"@) + r + ":"@ + when(
            !e,
            c + sep_at(t, i) + "\n"@,
        ),
        Some(Style::Dolly) => r + ":\n"@ + when(
            !e,
            c + sep_at(t, i) + when(i % 2 == 1, "\n\n"@),
        ),
        Some(Style::Phoenix) => r + ": <s>"@ + when(!e, c + "</s>"@),
        Some(Style::Robin) => r + ":\n"@ + when(!e, c + t.sep),
        Some(Style::MetaMath) => if i % 2 == 1 {
            r + ": "@ + t.sep2->0 + c
        } else {
            r + ":\n"@ + when(!e, c + t.sep)
        },
        Some(Style::Gemma3) => if e {
            r
        } else if i == 0 {
            c + t.sep
        } else {
            r + c + t.sep
        },
        Some(Style::PaddleOcr) => if e {
            r + ": "@
        } else if r == t.user_role {
            let image = t.image_token;
            let kept = if has_substring(c, image) {
                replaced(c, image.push('\n'), image)
            } else {
                c
            };
            r + ": "@ + kept + "\n"@
        } else {
            r + ": "@ + c + t.sep
        },
        _ => Seq::empty(),
    }
}

/// Each style's message text: appending a message to a list appends its
/// text to the prompt, as written out in [`expected_message_text`], for
/// every style but `QWEN2_VL_EMBED` (which ends with its stop string) and
/// `QWEN2_AUDIO` (which numbers audio tokens); the alternating styles given
/// their second separator.
pub proof fn law_message_text(
    t: LegacySpecView,
    system_message: Seq<char>,
    msgs: Seq<(Seq<char>, Seq<char>)>,
    r: Seq<char>,
    c: Seq<char>,
)
    requires
        alternating_name(t.style) ==> t.sep2 is Some,
        alternating_name(t.style) || single_sep_name(t.style),
        t.style != "QWEN2_VL_EMBED"@,
        t.style != "QWEN2_AUDIO"@,
    ensures
        rendered(t, system_message, msgs.push((r, c))) == Ok::<_, TemplateErrorView>(
            rendered(t, system_message, msgs)->Ok_0 + expected_message_text(
                t,
                msgs.len() as int,
                r,
                c,
            ),
        ),
{
    lemma_all_names();
    let style = style_named(t.style)->0;
    lemma_push_message(t, style, system_message, msgs, (r, c));
    lemma_expected_message_text(t, msgs.len() as int, r, c);
}

/// The written-out message text is the text that each style gives.
proof fn lemma_expected_message_text(t: LegacySpecView, i: int, r: Seq<char>, c: Seq<char>)
    requires
        i >= 0,
        style_named(t.style) is Some,
        style_named(t.style) != Some(Style::Qwen2VlEmbed),
        style_named(t.style) != Some(Style::Qwen2Audio),
        crate::template::needs_sep2(style_named(t.style)->0) ==> t.sep2 is Some,
    ensures
        fragment(style_named(t.style)->0, t, i, r, c) == expected_message_text(t, i, r, c),
{
    let style = style_named(t.style)->0;
    let want = expected_message_text(t, i, r, c);
    match style {
        Style::AddColonSingle => {
            assert(fragment(style, t, i, r, c) =~= want);
        },
        Style::AddColonTwo => {
            assert(fragment(style, t, i, r, c) =~= want);
        },
        Style::AddColonSpaceSingle => {
            assert(fragment(style, t, i, r, c) =~= want);
        },
        Style::AddNewLineSingle => {
            assert(fragment(style, t, i, r, c) =~= want);
        },
        Style::NoColonSingle => {
            assert(fragment(style, t, i, r, c) =~= want);
        },
        Style::NoColonTwo => {
            assert(fragment(style, t, i, r, c) =~= want);
        },
        Style::Rwkv => {
            assert(fragment(style, t, i, r, c) =~= want);
        },
        Style::Llama4 => {
            assert(fragment(style, t, i, r, c) =~= want);
        },
        Style::Llama3 => {
            assert(fragment(style, t, i, r, c) =~= want);
        },
        Style::Llama2 => {
            assert(fragment(style, t, i, r, c) =~= want);
        },
        Style::ChatGlm => {
            assert(fragment(style, t, i, r, c) =~= want);
        },
        Style::ChatMl => {
            assert(fragment(style, t, i, r, c) =~= want);
        },
        Style::ChatGlm3 => {
            assert(fragment(style, t, i, r, c) =~= want);
        },
        Style::ChatIntern => {
            assert(fragment(style, t, i, r, c) =~= want);
        },
        Style::Dolly => {
            assert(fragment(style, t, i, r, c) =~= want);
        },
        Style::Phoenix => {
            assert(fragment(style, t, i, r, c) =~= want);
        },
        Style::Robin => {
            assert(fragment(style, t, i, r, c) =~= want);
        },
        Style::FalconChat => {
            assert(fragment(style, t, i, r, c) =~= want);
        },
        Style::MetaMath => {
            assert(fragment(style, t, i, r, c) =~= want);
        },
        Style::DeepSeekChat => {
            assert(fragment(style, t, i, r, c) =~= want);
        },
        Style::DeepSeekVl2 => {
            assert(fragment(style, t, i, r, c) =~= want);
        },
        Style::Gemma3 => {
            assert(fragment(style, t, i, r, c) =~= want);
        },
        Style::Mpt => {
            assert(fragment(style, t, i, r, c) =~= want);
        },
        Style::PaddleOcr => {
            assert(fragment(style, t, i, r, c) =~= want);
        },
        _ => {},
    }
}

/// What each style puts before the first message, written out from the
/// style names: `sp` is the system template filled with the system message
/// passed in.
pub open spec fn expected_header(t: LegacySpecView, system_message: Seq<char>) -> Seq<char> {
    let sp = filled(t, system_message);
    let n = t.style;
    if n == "ADD_COLON_SINGLE"@ || n == "ADD_COLON_TWO"@ || n == "ADD_COLON_SPACE_SINGLE"@ || n
        == "ROBIN"@ || n == "MPT"@ {
        sp + t.sep
    } else if n == "NO_COLON_SINGLE"@ || n == "NO_COLON_TWO"@ || n == "RWKV"@ || n
        == "CHATINTERN"@ || n == "DOLLY"@ || n == "PHOENIX"@ || n == "DEEPSEEK_CHAT"@ || n
        == "GEMMA3"@ || n == "PADDLE_OCR"@ {
        sp
    } else if n == "CHATGLM"@ || n == "METAMATH"@ || n == "DeepSeekVL2"@ || n == "QWEN2_AUDIO"@
        || n == "UNLIMITED_OCR"@ {
        when(sp.len() > 0, sp + t.sep)
    } else if n == "CHATML"@ {
        when(sp.len() > 0, sp + t.sep + "\n"@)
    } else if n == "QWEN2_VL_EMBED"@ {
        when(sp.len() > 0, sp + t.sep) + match t.stop_str {
            Some(StopView::One(s)) => s,
            _ => Seq::empty(),
        }
    } else if n == "LLAMA3"@ || n == "LLAMA4"@ || n == "CHATGLM3"@ {
        when(system_message.len() > 0, sp)
    } else if n == "FALCON_CHAT"@ {
        when(system_message.len() > 0, sp + t.sep)
    } else if n == "LLAMA2"@ {
        if system_message.len() > 0 {
            sp
        } else {
            "[INST] "@
        }
    } else if n == "ADD_NEW_LINE_SINGLE"@ {
        when(system_message.len() > 0 && sp.len() > 0, sp + t.sep)
    } else {
        Seq::empty()
    }
}

/// The prompt of no messages, in every style, is what the style puts before
/// the first message (for `QWEN2_VL_EMBED` followed by its stop string).
pub proof fn law_header(t: LegacySpecView, system_message: Seq<char>)
    requires
        alternating_name(t.style) ==> t.sep2 is Some,
        alternating_name(t.style) || single_sep_name(t.style),
        t.style == "QWEN2_VL_EMBED"@ ==> t.stop_str matches Some(StopView::One(_)),
    ensures
        rendered(t, system_message, Seq::empty()) == Ok::<_, TemplateErrorView>(
            expected_header(t, system_message),
        ),
{
    lemma_slot();
    lemma_all_names();
    let style = style_named(t.style)->0;
    let h = header(style, t, system_message, filled(t, system_message));
    assert(h + Seq::<char>::empty() + crate::template::trailer(style, t) =~= expected_header(
        t,
        system_message,
    ));
}


/// A name that is none of the style names is refused by name.
pub proof fn law_unknown_style_refused(
    t: LegacySpecView,
    system_message: Seq<char>,
    msgs: Seq<(Seq<char>, Seq<char>)>,
)
    requires
        !alternating_name(t.style),
        !single_sep_name(t.style),
    ensures
        rendered(t, system_message, msgs) == Err::<Seq<char>, _>(
            TemplateErrorView::InvalidStyle { style: t.style },
        ),
{
}

/// `QWEN2_VL_EMBED` ends every prompt with its stop string, and a message
/// goes in just before it: its role, a newline, and its content followed
/// by `sep` when it has content.
pub proof fn law_qwen2_vl_embed_message(
    t: LegacySpecView,
    system_message: Seq<char>,
    msgs: Seq<(Seq<char>, Seq<char>)>,
    r: Seq<char>,
    c: Seq<char>,
    stop: Seq<char>,
)
    requires
        t.style == "QWEN2_VL_EMBED"@,
        t.stop_str == Some(StopView::One(stop)),
    ensures
        rendered(t, system_message, msgs) is Ok,
        ends_with(rendered(t, system_message, msgs)->Ok_0, stop),
        rendered(t, system_message, msgs.push((r, c))) == Ok::<_, TemplateErrorView>(
            rendered(t, system_message, msgs)->Ok_0.take(
                rendered(t, system_message, msgs)->Ok_0.len() - stop.len(),
            ) + (if c.len() == 0 {
                r + "\n"@
            } else {
                r + "\n"@ + c + t.sep
            }) + stop,
        ),
{
    lemma_named_qwen2_vl_embed();
    let style = Style::Qwen2VlEmbed;
    assert(msgs.push((r, c)).drop_last() =~= msgs);
    let h = header(style, t, system_message, system_prompt(t, system_message));
    let b = body(style, t, msgs).0;
    let p = rendered(t, system_message, msgs)->Ok_0;
    assert(p =~= h + b + stop);
    assert(p.take(p.len() - stop.len()) =~= h + b);
    assert(p.subrange(p.len() - stop.len(), p.len() as int) =~= stop);
    let f = fragment(style, t, msgs.len() as int, r, c);
    assert(h + (b + f) + stop =~= (h + b) + (if c.len() == 0 {
        r + "\n"@
    } else {
        r + "\n"@ + c + t.sep
    }) + stop);
}

/// The audio counter after a list of messages in `QWEN2_AUDIO`: it starts
/// at one and each message with content numbers its audio tokens from it.
pub open spec fn audio_counter(t: LegacySpecView, msgs: Seq<(Seq<char>, Seq<char>)>) -> nat
    decreases msgs.len(),
{
    if msgs.len() == 0 {
        1
    } else {
        let k = audio_counter(t, msgs.drop_last());
        if msgs.last().1.len() > 0 {
            numbered_audio(msgs.last().1, t.audio_token, k).1
        } else {
            k
        }
    }
}

proof fn lemma_audio_counter(t: LegacySpecView, msgs: Seq<(Seq<char>, Seq<char>)>)
    ensures
        body(Style::Qwen2Audio, t, msgs).1 == audio_counter(t, msgs),
    decreases msgs.len(),
{
    if msgs.len() > 0 {
        lemma_audio_counter(t, msgs.drop_last());
    }
}

/// In `QWEN2_AUDIO` a message adds its role and a newline, then, when it
/// has content, the content with its audio tokens numbered on from the
/// numbers the earlier messages used, and `sep`.
pub proof fn law_qwen2_audio_message(
    t: LegacySpecView,
    system_message: Seq<char>,
    msgs: Seq<(Seq<char>, Seq<char>)>,
    r: Seq<char>,
    c: Seq<char>,
)
    requires
        t.style == "QWEN2_AUDIO"@,
    ensures
        rendered(t, system_message, msgs) is Ok,
        rendered(t, system_message, msgs.push((r, c))) == Ok::<_, TemplateErrorView>(
            rendered(t, system_message, msgs)->Ok_0 + if c.len() == 0 {
                r + "\n"@
            } else {
                r + "\n"@ + numbered_audio(c, t.audio_token, audio_counter(t, msgs)).0 + t.sep
            },
        ),
{
    lemma_named_qwen2_audio();
    lemma_audio_counter(t, msgs);
    lemma_push_message(t, Style::Qwen2Audio, system_message, msgs, (r, c));
    let x = rendered(t, system_message, msgs)->Ok_0;
    let m = numbered_audio(c, t.audio_token, audio_counter(t, msgs)).0;
    assert(x + (r + "\n"@ + m + t.sep) =~= x + r + "\n"@ + m + t.sep);
}

/// One round of audio numbering: while the message holds the token and the
/// token holds `{idx}`, its first occurrence becomes the token with every
/// `{idx}` replaced by the counter, and numbering goes on from the next
/// number; a message without the token is left as it is.
pub proof fn law_audio_numbering_round(message: Seq<char>, token: Seq<char>, counter: nat)
    ensures
        !has_substring(message, token) ==> numbered_audio(message, token, counter) == (
            message,
            counter,
        ),
        has_substring(message, token) && has_substring(token, "{idx}"@) ==> numbered_audio(
            message,
            token,
            counter,
        ) == numbered_audio(
            first_replaced(message, token, replaced(token, "{idx}"@, decimal(counter))),
            token,
            counter + 1,
        ),
{
    reveal_strlit("{idx}");
    assert(idx_placeholder() =~= "{idx}"@);
    lemma_decimal_no_brace(counter);
    lemma_replaced_braces(token, idx_placeholder(), decimal(counter));
    if has_substring(token, idx_placeholder()) {
        assert(numbered_token(token, counter) != token);
    }
}

/// A system message sets the system message to its text, or to the text of
/// its only part; a list of any other number of parts is refused.
pub proof fn law_system_content(
    t: LegacySpecView,
    msgs: Seq<ChatMessage>,
    content: SystemContent,
)
    requires
        collected(t, msgs) is Ok,
    ensures
        ({
            let pairs = collected(t, msgs)->Ok_0.1;
            let after = collected(t, msgs.push(ChatMessage::System(content)));
            &&& content matches SystemContent::Text(x) ==> after == Ok::<_, TemplateErrorView>(
                (x@, pairs),
            )
            &&& content matches SystemContent::Array(parts) ==> (parts@.len() == 1 ==> (
            parts@[0] matches SystemPart::Text(x) && after == Ok::<_, TemplateErrorView>(
                (x@, pairs),
            )))
            &&& content matches SystemContent::Array(parts) ==> (parts@.len() != 1 ==> after
                == Err::<(Seq<char>, Seq<(Seq<char>, Seq<char>)>), _>(
                TemplateErrorView::NonTextContent { role: "system"@ },
            ))
        }),
{
    assert(msgs.push(ChatMessage::System(content)).drop_last() =~= msgs);
}

/// An assistant message adds its text, or the text of an array that is
/// exactly one text part, under the assistant role; any other array,
/// refusal parts included, is refused.
pub proof fn law_assistant_content(
    t: LegacySpecView,
    msgs: Seq<ChatMessage>,
    content: AssistantContent,
)
    requires
        collected(t, msgs) is Ok,
    ensures
        ({
            let (sm, pairs) = collected(t, msgs)->Ok_0;
            let after = collected(t, msgs.push(ChatMessage::Assistant(Some(content))));
            &&& content matches AssistantContent::Text(x) ==> after == Ok::<_, TemplateErrorView>(
                (sm, pairs.push((t.assistant_role, x@))),
            )
            &&& content matches AssistantContent::Array(parts) ==> ((parts@.len() == 1
                && parts@[0] is Text) ==> (parts@[0] matches AssistantPart::Text(x) && after
                == Ok::<_, TemplateErrorView>((sm, pairs.push((t.assistant_role, x@))))))
            &&& content matches AssistantContent::Array(parts) ==> (!(parts@.len() == 1
                && parts@[0] is Text) ==> after == Err::<
                (Seq<char>, Seq<(Seq<char>, Seq<char>)>),
                _,
            >(TemplateErrorView::NonTextContent { role: "assistant"@ }))
        }),
{
    assert(msgs.push(ChatMessage::Assistant(Some(content))).drop_last() =~= msgs);
}

/// The text of a user message made of text parts is the parts joined in
/// order.
pub open spec fn joined(parts: Seq<UserPart>) -> Seq<char>
    decreases parts.len(),
{
    if parts.len() == 0 {
        Seq::empty()
    } else {
        joined(parts.drop_last()) + match parts.last() {
            UserPart::Text(x) => x@,
            UserPart::Media => Seq::empty(),
        }
    }
}

proof fn lemma_joined(parts: Seq<UserPart>)
    requires
        !has_media(parts),
    ensures
        user_text(parts) == Some(joined(parts)),
    decreases parts.len(),
{
    if parts.len() > 0 {
        assert(!has_media(parts.drop_last())) by {
            if has_media(parts.drop_last()) {
                let j = choose|j: int|
                    0 <= j < parts.drop_last().len() && parts.drop_last()[j] is Media;
                assert(parts[j] is Media);
            }
        }
        lemma_joined(parts.drop_last());
        assert(!(parts[parts.len() - 1] is Media));
    }
}

/// A user message whose parts are all text adds the parts joined in order
/// under the user role.
pub proof fn law_user_text_parts(t: LegacySpecView, msgs: Seq<ChatMessage>, parts: Vec<UserPart>)
    requires
        collected(t, msgs) is Ok,
        !has_media(parts@),
    ensures
        ({
            let (sm, pairs) = collected(t, msgs)->Ok_0;
            collected(t, msgs.push(ChatMessage::User(UserContent::Array(parts)))) == Ok::<
                _,
                TemplateErrorView,
            >((sm, pairs.push((t.user_role, joined(parts@)))))
        }),
{
    lemma_joined(parts@);
    assert(msgs.push(ChatMessage::User(UserContent::Array(parts))).drop_last() =~= msgs);
}

/// The value of a string of decimal digits.
pub open spec fn digits_value(s: Seq<char>) -> int
    decreases s.len(),
{
    if s.len() == 0 {
        0
    } else {
        10 * digits_value(s.drop_last()) + (s.last() as int - '0' as int)
    }
}

/// `decimal(n)` is a string of digits whose value is `n`, without leading
/// zero unless `n` is zero.
pub proof fn law_decimal(n: nat)
    ensures
        forall|i: int| 0 <= i < decimal(n).len() ==> '0' <= #[trigger] decimal(n)[i] <= '9',
        digits_value(decimal(n)) == n,
        n > 0 ==> decimal(n)[0] != '0',
    decreases n,
{
    let d = (n % 10) as nat;
    assert(crate::text::digit_char(d) as int == 48 + d);
    if n >= 10 {
        law_decimal(n / 10);
        assert(decimal(n).drop_last() =~= decimal(n / 10));
        assert(decimal(n)[0] == decimal(n / 10)[0]);
        assert(decimal(n).last() == crate::text::digit_char(d));
        assert(digits_value(decimal(n)) == 10 * digits_value(decimal(n / 10)) + d);
        assert(n == 10 * (n / 10) + d);
    } else {
        let one = decimal(n);
        assert(one.drop_last() =~= Seq::<char>::empty());
        assert(digits_value(one.drop_last()) == 0);
        assert(one.last() == crate::text::digit_char(d));
        assert(d == n);
    }
}

/// Trimming leaves a middle part of the text: what it cuts off is all
/// whitespace, and what it keeps neither starts nor ends with whitespace.
pub proof fn law_trimmed(s: Seq<char>)
    ensures
        exists|a: int, b: int|
            #![trigger s.subrange(a, b)]
            0 <= a <= b <= s.len() && trimmed(s) == s.subrange(a, b) && (forall|k: int|
                0 <= k < a ==> is_white(#[trigger] s[k])) && (forall|k: int|
                b <= k < s.len() ==> is_white(#[trigger] s[k])),
        trimmed(s).len() > 0 ==> !is_white(trimmed(s)[0]) && !is_white(trimmed(s).last()),
{
    let a = lemma_trim_start(s);
    let front = s.skip(a);
    let b = lemma_trim_end(front);
    assert(trimmed(s) == front.take(b));
    assert(front.take(b) =~= s.subrange(a, a + b));
    assert forall|k: int| a + b <= k < s.len() implies is_white(s[k]) by {
        assert(s[k] == front[k - a]);
    }
}

proof fn lemma_trim_start(s: Seq<char>) -> (a: int)
    ensures
        0 <= a <= s.len(),
        trimmed_start(s) == s.skip(a),
        forall|k: int| 0 <= k < a ==> is_white(#[trigger] s[k]),
        a < s.len() ==> !is_white(s[a]),
    decreases s.len(),
{
    if s.len() > 0 && is_white(s[0]) {
        let a1 = lemma_trim_start(s.drop_first());
        assert(s.drop_first().skip(a1) =~= s.skip(a1 + 1));
        assert forall|k: int| 0 <= k < a1 + 1 implies is_white(#[trigger] s[k]) by {
            if k > 0 {
                assert(s[k] == s.drop_first()[k - 1]);
            }
        }
        a1 + 1
    } else {
        assert(s.skip(0) =~= s);
        0
    }
}

proof fn lemma_trim_end(s: Seq<char>) -> (b: int)
    ensures
        0 <= b <= s.len(),
        trimmed_end(s) == s.take(b),
        forall|k: int| b <= k < s.len() ==> is_white(#[trigger] s[k]),
        b > 0 ==> !is_white(s[b - 1]),
    decreases s.len(),
{
    if s.len() > 0 && is_white(s.last()) {
        let b1 = lemma_trim_end(s.drop_last());
        assert(s.drop_last().take(b1) =~= s.take(b1));
        assert forall|k: int| b1 <= k < s.len() implies is_white(#[trigger] s[k]) by {
            if k < s.len() - 1 {
                assert(s[k] == s.drop_last()[k]);
            }
        }
        b1
    } else {
        assert(s.take(s.len() as int) =~= s);
        s.len() as int
    }
}

} // verus!
