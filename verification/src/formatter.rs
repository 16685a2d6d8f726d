//! The legacy formatter: renders `(role, content)` messages with a
//! [`LegacySpec`] into one prompt string.
use vstd::prelude::*;
use crate::audio::{lemma_numbered_audio_counter, number_audio};
use crate::template::{
    body, content_total, fragment, header, needs_sep2, pairs_view, parity_sep, rendered,
    result_view, round_offset, sep2_or_empty, step, style_named, system_placeholder,
    system_prompt, trailer, LegacySpec, OneOrMany, Style, TemplateError,
    TemplateErrorView,
};
use crate::text::{
    chars_of, contains, lemma_count_le_len, push_chars, push_decimal, replace_all,
    trim,
};

verus! {

/// Renders conversations with a legacy template: the system message goes
/// into the system prompt, the messages follow in order, each in the form
/// that the template's separator style gives it.
pub struct LegacyFormatter {
    pub spec: LegacySpec,
}

impl Clone for LegacyFormatter {
    fn clone(&self) -> (r: Self)
        ensures
            r.spec@ == self.spec@,
    {
        LegacyFormatter { spec: self.spec.clone() }
    }
}

/// `cs` spells the literal `lit`.
fn spells(cs: &Vec<char>, lit: &str) -> (r: bool)
    ensures
        r == (cs@ == lit@),
{
    let n = lit.unicode_len();
    if n != cs.len() {
        return false;
    }
    let mut i: usize = 0;
    while i < n
        invariant
            n == lit@.len(),
            n == cs@.len(),
            i <= n,
            forall|j: int| 0 <= j < i ==> cs@[j] == lit@[j],
        decreases n - i,
    {
        if cs[i] != lit.get_char(i) {
            return false;
        }
        i = i + 1;
    }
    assert(cs@ =~= lit@);
    true
}

/// The style that `name` denotes, if any.
pub fn parse_style(name: &str) -> (r: Option<Style>)
    ensures
        r == style_named(name@),
{
    let cs = chars_of(name);
    if spells(&cs, "ADD_COLON_SINGLE") {
        Some(Style::AddColonSingle)
    } else if spells(&cs, "ADD_COLON_TWO") {
        Some(Style::AddColonTwo)
    } else if spells(&cs, "ADD_COLON_SPACE_SINGLE") {
        Some(Style::AddColonSpaceSingle)
    } else if spells(&cs, "ADD_NEW_LINE_SINGLE") {
        Some(Style::AddNewLineSingle)
    } else if spells(&cs, "QWEN2_VL_EMBED") {
        Some(Style::Qwen2VlEmbed)
    } else if spells(&cs, "NO_COLON_SINGLE") {
        Some(Style::NoColonSingle)
    } else if spells(&cs, "NO_COLON_TWO") {
        Some(Style::NoColonTwo)
    } else if spells(&cs, "RWKV") {
        Some(Style::Rwkv)
    } else if spells(&cs, "LLAMA4") {
        Some(Style::Llama4)
    } else if spells(&cs, "LLAMA3") {
        Some(Style::Llama3)
    } else if spells(&cs, "LLAMA2") {
        Some(Style::Llama2)
    } else if spells(&cs, "CHATGLM") {
        Some(Style::ChatGlm)
    } else if spells(&cs, "CHATML") {
        Some(Style::ChatMl)
    } else if spells(&cs, "CHATGLM3") {
        Some(Style::ChatGlm3)
    } else if spells(&cs, "CHATINTERN") {
        Some(Style::ChatIntern)
    } else if spells(&cs, "DOLLY") {
        Some(Style::Dolly)
    } else if spells(&cs, "PHOENIX") {
        Some(Style::Phoenix)
    } else if spells(&cs, "ROBIN") {
        Some(Style::Robin)
    } else if spells(&cs, "FALCON_CHAT") {
        Some(Style::FalconChat)
    } else if spells(&cs, "METAMATH") {
        Some(Style::MetaMath)
    } else if spells(&cs, "DEEPSEEK_CHAT") {
        Some(Style::DeepSeekChat)
    } else if spells(&cs, "DeepSeekVL2") {
        Some(Style::DeepSeekVl2)
    } else if spells(&cs, "GEMMA3") {
        Some(Style::Gemma3)
    } else if spells(&cs, "MPT") {
        Some(Style::Mpt)
    } else if spells(&cs, "QWEN2_AUDIO") {
        Some(Style::Qwen2Audio)
    } else if spells(&cs, "PADDLE_OCR") {
        Some(Style::PaddleOcr)
    } else if spells(&cs, "UNLIMITED_OCR") {
        Some(Style::UnlimitedOcr)
    } else {
        None
    }
}

impl Style {
    /// The style alternates `sep` and `sep2`.
    pub fn alternates_seps(self) -> (r: bool)
        ensures
            r == needs_sep2(self),
    {
        match self {
            Style::AddColonTwo | Style::NoColonTwo | Style::Llama2 | Style::ChatIntern
            | Style::Dolly | Style::MetaMath | Style::DeepSeekChat | Style::DeepSeekVl2
            | Style::UnlimitedOcr => true,
            _ => false,
        }
    }
}

/// `sep` for an even message index, `sep2` for an odd one.
pub fn sep_even_odd<'a>(spec: &'a LegacySpec, sep2: &'a str, index: usize) -> (r: &'a str)
    ensures
        r@ == if index % 2 == 0 {
            spec.sep@
        } else {
            sep2@
        },
{
    if index % 2 == 0 {
        spec.sep.as_str()
    } else {
        sep2
    }
}

/// The template's second separator, or the error that names `style` as the
/// style that needs it.
pub fn sep2<'a>(spec: &'a LegacySpec, style: &str) -> (r: Result<&'a str, TemplateError>)
    ensures
        match spec.sep2 {
            Some(s) => r matches Ok(x) && x@ == s@,
            None => r matches Err(e) && e@ == TemplateErrorView::MissingSep2 { style: style@ },
        },
{
    match &spec.sep2 {
        Some(s) => Ok(s.as_str()),
        None => Err(TemplateError::MissingSep2 { style: style.to_owned() }),
    }
}

/// The content-total of a prefix is at most that of the whole list.
proof fn lemma_content_total_prefix(msgs: Seq<(Seq<char>, Seq<char>)>, i: int)
    requires
        0 <= i <= msgs.len(),
    ensures
        content_total(msgs.take(i)) <= content_total(msgs),
    decreases msgs.len(),
{
    if i < msgs.len() {
        lemma_content_total_prefix(msgs.drop_last(), i);
        assert(msgs.drop_last().take(i) =~= msgs.take(i));
    } else {
        assert(msgs.take(i) =~= msgs);
    }
}

impl LegacyFormatter {
    /// Appends what the prompt holds before the first message.
    fn push_header(
        &self,
        ret: &mut String,
        style: Style,
        system_message: &str,
        sp: &str,
    )
        ensures
            final(ret)@ == old(ret)@ + header(style, self.spec@, system_message@, sp@),
    {
        let spec = &self.spec;
        let has_sp = !sp.is_empty();
        let has_sm = !system_message.is_empty();
        match style {
            Style::AddColonSingle | Style::AddColonTwo | Style::AddColonSpaceSingle
            | Style::Robin | Style::Mpt => {
                ret.append(sp);
                ret.append(spec.sep.as_str());
            },
            Style::NoColonSingle | Style::NoColonTwo | Style::Rwkv | Style::ChatIntern
            | Style::Dolly | Style::Phoenix | Style::DeepSeekChat | Style::Gemma3
            | Style::PaddleOcr => {
                ret.append(sp);
            },
            Style::Qwen2VlEmbed | Style::ChatGlm | Style::MetaMath | Style::DeepSeekVl2
            | Style::Qwen2Audio | Style::UnlimitedOcr => {
                if has_sp {
                    ret.append(sp);
                    ret.append(spec.sep.as_str());
                }
            },
            Style::ChatMl => {
                if has_sp {
                    ret.append(sp);
                    ret.append(spec.sep.as_str());
                    ret.append("\n");
                }
            },
            Style::AddNewLineSingle => {
                if has_sm && has_sp {
                    ret.append(sp);
                    ret.append(spec.sep.as_str());
                }
            },
            Style::Llama4 | Style::Llama3 | Style::ChatGlm3 => {
                if has_sm {
                    ret.append(sp);
                }
            },
            Style::FalconChat => {
                if has_sm {
                    ret.append(sp);
                    ret.append(spec.sep.as_str());
                }
            },
            Style::Llama2 => {
                if has_sm {
                    ret.append(sp);
                } else {
                    ret.append("[INST] ");
                }
            },
        }
    }

    /// Appends the text of message `index` and advances the audio counter.
    fn push_message(
        &self,
        ret: &mut String,
        style: Style,
        sep2: &str,
        index: usize,
        role: &String,
        content: &String,
        counter: &mut usize,
    )
        requires
            sep2@ == sep2_or_empty(self.spec@),
            style == Style::Qwen2Audio ==> *old(counter) + content@.len() <= usize::MAX,
        ensures
            final(ret)@ == old(ret)@ + step(
                style,
                self.spec@,
                index as int,
                role@,
                content@,
                *old(counter) as nat,
            ).0,
            *final(counter) as nat == step(
                style,
                self.spec@,
                index as int,
                role@,
                content@,
                *old(counter) as nat,
            ).1,
            *old(counter) <= *final(counter) <= *old(counter) + content@.len(),
    {
        let spec = &self.spec;
        let r = role.as_str();
        let c = content.as_str();
        let e = c.is_empty();
        if style == Style::Qwen2Audio && !e {
            let cs = chars_of(c);
            let token = chars_of(spec.audio_token.as_str());
            proof {
                lemma_count_le_len(cs@, '{');
                lemma_numbered_audio_counter(cs@, token@, *counter as nat);
            }
            let (numbered, next) = number_audio(&cs, &token, *counter);
            ret.append(r);
            ret.append("\n");
            push_chars(ret, &numbered);
            ret.append(spec.sep.as_str());
            *counter = next;
            return;
        }
        self.push_fragment(ret, style, sep2, index, role, content);
    }

    /// Appends the text of message `index` in every style but
    /// `QWEN2_AUDIO` with content.
    fn push_fragment(
        &self,
        ret: &mut String,
        style: Style,
        sep2: &str,
        index: usize,
        role: &String,
        content: &String,
    )
        requires
            sep2@ == sep2_or_empty(self.spec@),
        ensures
            final(ret)@ == old(ret)@ + fragment(style, self.spec@, index as int, role@, content@),
    {
        match style {
            Style::AddColonSingle | Style::FalconChat | Style::AddColonTwo | Style::DeepSeekChat
            | Style::DeepSeekVl2 | Style::AddColonSpaceSingle | Style::AddNewLineSingle
            | Style::Qwen2VlEmbed | Style::Qwen2Audio | Style::NoColonSingle | Style::Mpt
            | Style::NoColonTwo | Style::UnlimitedOcr => {
                self.push_simple(ret, style, sep2, index, role, content);
            },
            Style::Rwkv | Style::Llama4 | Style::Llama3 | Style::Llama2 | Style::ChatGlm => {
                self.push_rewriting(ret, style, sep2, index, role, content);
            },
            Style::ChatMl | Style::ChatGlm3 | Style::ChatIntern | Style::Dolly | Style::Phoenix => {
                self.push_remaining(ret, style, sep2, index, role, content);
            },
            Style::Robin | Style::MetaMath | Style::Gemma3 | Style::PaddleOcr => {
                self.push_role_dependent(ret, style, sep2, index, role, content);
            },
        }
    }

    /// Appends the text of message `index` for the plain separator styles.
    fn push_simple(
        &self,
        ret: &mut String,
        style: Style,
        sep2: &str,
        index: usize,
        role: &String,
        content: &String,
    )
        requires
            sep2@ == sep2_or_empty(self.spec@),
            matches!(
                style,
                Style::AddColonSingle | Style::FalconChat | Style::AddColonTwo
                    | Style::DeepSeekChat | Style::DeepSeekVl2 | Style::AddColonSpaceSingle
                    | Style::AddNewLineSingle | Style::Qwen2VlEmbed | Style::Qwen2Audio
                    | Style::NoColonSingle | Style::Mpt | Style::NoColonTwo | Style::UnlimitedOcr
            ),
        ensures
            final(ret)@ == old(ret)@ + fragment(style, self.spec@, index as int, role@, content@),
    {
        let spec = &self.spec;
        let r = role.as_str();
        let c = content.as_str();
        let e = c.is_empty();
        let ps = sep_even_odd(spec, sep2, index);
        assert(ps@ == parity_sep(spec@, index as int));
        match style {
            Style::AddColonSingle | Style::FalconChat => {
                ret.append(r);
                if e {
                    ret.append(":");
                } else {
                    ret.append(": ");
                    ret.append(c);
                    ret.append(spec.sep.as_str());
                }
            },
            Style::AddColonTwo | Style::DeepSeekChat | Style::DeepSeekVl2 => {
                ret.append(r);
                if e {
                    ret.append(":");
                } else {
                    ret.append(": ");
                    ret.append(c);
                    ret.append(ps);
                }
            },
            Style::AddColonSpaceSingle => {
                ret.append(r);
                if e {
                    ret.append(": ");
                } else {
                    ret.append(": ");
                    ret.append(c);
                    ret.append(spec.sep.as_str());
                }
            },
            Style::AddNewLineSingle | Style::Qwen2VlEmbed | Style::Qwen2Audio => {
                ret.append(r);
                ret.append("\n");
                if !e {
                    ret.append(c);
                    ret.append(spec.sep.as_str());
                }
            },
            Style::NoColonSingle | Style::Mpt => {
                ret.append(r);
                if !e {
                    ret.append(c);
                    ret.append(spec.sep.as_str());
                }
            },
            Style::NoColonTwo | Style::UnlimitedOcr => {
                ret.append(r);
                if !e {
                    ret.append(c);
                    ret.append(ps);
                }
            },
            _ => {},
        }
    }

    /// Appends the text of message `index` for the styles that rewrite the
    /// content, tag by parity or number rounds.
    fn push_rewriting(
        &self,
        ret: &mut String,
        style: Style,
        sep2: &str,
        index: usize,
        role: &String,
        content: &String,
    )
        requires
            sep2@ == sep2_or_empty(self.spec@),
            matches!(
                style,
                Style::Rwkv | Style::Llama4 | Style::Llama3 | Style::Llama2 | Style::ChatGlm
            ),
        ensures
            final(ret)@ == old(ret)@ + fragment(style, self.spec@, index as int, role@, content@),
    {
        let spec = &self.spec;
        let r = role.as_str();
        let c = content.as_str();
        let e = c.is_empty();
        let ps = sep_even_odd(spec, sep2, index);
        assert(ps@ == parity_sep(spec@, index as int));
        match style {
            Style::Rwkv => {
                ret.append(r);
                if e {
                    ret.append(":");
                } else {
                    ret.append(": ");
                    let cs = chars_of(c);
                    let crlf = vec!['\r', '\n'];
                    let lf = vec!['\n'];
                    let lflf = vec!['\n', '\n'];
                    assert(crlf@ =~= seq!['\r', '\n']);
                    assert(lf@ =~= seq!['\n']);
                    assert(lflf@ =~= seq!['\n', '\n']);
                    let once = replace_all(&cs, &crlf, &lf);
                    let twice = replace_all(&once, &lflf, &lf);
                    push_chars(ret, &twice);
                    ret.append("\n\n");
                }
            },
            Style::Llama4 => {
                ret.append("<|header_start|>");
                ret.append(r);
                ret.append("<|header_end|>\n\n");
                if !e {
                    let cs = chars_of(c);
                    push_chars(ret, &trim(&cs));
                    ret.append("<|eot|>");
                }
            },
            Style::Llama3 => {
                ret.append("<|start_header_id|>");
                ret.append(r);
                ret.append("<|end_header_id|>\n\n");
                if !e {
                    let cs = chars_of(c);
                    push_chars(ret, &trim(&cs));
                    ret.append("<|eot_id|>");
                }
            },
            Style::Llama2 => {
                let tag = if index % 2 == 0 {
                    spec.roles.0.as_str()
                } else {
                    spec.roles.1.as_str()
                };
                if e {
                    ret.append(tag);
                } else if index == 0 {
                    ret.append(c);
                    ret.append(" ");
                } else {
                    ret.append(tag);
                    ret.append(" ");
                    ret.append(c);
                    ret.append(ps);
                }
            },
            Style::ChatGlm => {
                if index % 2 == 0 {
                    let offset: usize = if spells(&chars_of(spec.name.as_str()), "chatglm2") {
                        1
                    } else {
                        0
                    };
                    assert(offset == round_offset(spec@));
                    let mut digits: Vec<char> = Vec::new();
                    push_decimal(&mut digits, index / 2 + offset);
                    ret.append("[Round ");
                    push_chars(ret, &digits);
                    ret.append("]");
                    ret.append(spec.sep.as_str());
                }
                ret.append(r);
                ret.append("：");
                if !e {
                    ret.append(c);
                    ret.append(spec.sep.as_str());
                }
            },
            _ => {},
        }
    }

    /// Appends the text of message `index` for the styles built from
    /// newlines and tags.
    fn push_remaining(
        &self,
        ret: &mut String,
        style: Style,
        sep2: &str,
        index: usize,
        role: &String,
        content: &String,
    )
        requires
            sep2@ == sep2_or_empty(self.spec@),
            matches!(
                style,
                Style::ChatMl | Style::ChatGlm3 | Style::ChatIntern | Style::Dolly
                    | Style::Phoenix
            ),
        ensures
            final(ret)@ == old(ret)@ + fragment(style, self.spec@, index as int, role@, content@),
    {
        let spec = &self.spec;
        let r = role.as_str();
        let c = content.as_str();
        let e = c.is_empty();
        let ps = sep_even_odd(spec, sep2, index);
        assert(ps@ == parity_sep(spec@, index as int));
        match style {
            Style::ChatMl => {
                ret.append(r);
                ret.append("\n");
                if !e {
                    ret.append(c);
                    ret.append(spec.sep.as_str());
                    ret.append("\n");
                }
            },
            Style::ChatGlm3 => {
                ret.append(r);
                if !e {
                    ret.append("\n");
                    ret.append(c);
                }
            },
            Style::ChatIntern => {
                if index % 2 == 0 {
                    ret.append("<s>");
                }
                ret.append(r);
                ret.append(":");
                if !e {
                    ret.append(c);
                    ret.append(ps);
                    ret.append("\n");
                }
            },
            Style::Dolly => {
                ret.append(r);
                ret.append(":\n");
                if !e {
                    ret.append(c);
                    ret.append(ps);
                    if index % 2 == 1 {
                        ret.append("\n\n");
                    }
                }
            },
            Style::Phoenix => {
                ret.append(r);
                ret.append(": <s>");
                if !e {
                    ret.append(c);
                    ret.append("</s>");
                }
            },
            _ => {},
        }
    }

    /// Appends the text of message `index` for the styles whose text depends
    /// on the message's position or role.
    fn push_role_dependent(
        &self,
        ret: &mut String,
        style: Style,
        sep2: &str,
        index: usize,
        role: &String,
        content: &String,
    )
        requires
            sep2@ == sep2_or_empty(self.spec@),
            matches!(
                style,
                Style::Robin | Style::MetaMath | Style::Gemma3 | Style::PaddleOcr
            ),
        ensures
            final(ret)@ == old(ret)@ + fragment(style, self.spec@, index as int, role@, content@),
    {
        let spec = &self.spec;
        let r = role.as_str();
        let c = content.as_str();
        let e = c.is_empty();
        let ps = sep_even_odd(spec, sep2, index);
        assert(ps@ == parity_sep(spec@, index as int));
        match style {
            Style::Robin => {
                ret.append(r);
                ret.append(":\n");
                if !e {
                    ret.append(c);
                    ret.append(spec.sep.as_str());
                }
            },
            Style::MetaMath => {
                ret.append(r);
                if index % 2 == 0 {
                    ret.append(":\n");
                    if !e {
                        ret.append(c);
                        ret.append(spec.sep.as_str());
                    }
                } else {
                    ret.append(": ");
                    ret.append(sep2);
                    if !e {
                        ret.append(c);
                    }
                }
            },
            Style::Gemma3 => {
                if e {
                    ret.append(r);
                } else if index == 0 {
                    ret.append(c);
                    ret.append(spec.sep.as_str());
                } else {
                    ret.append(r);
                    ret.append(c);
                    ret.append(spec.sep.as_str());
                }
            },
            Style::PaddleOcr => {
                ret.append(r);
                ret.append(": ");
                if !e {
                    if *role == spec.roles.0 {
                        let cs = chars_of(c);
                        let image = chars_of(spec.image_token.as_str());
                        if contains(&cs, &image) {
                            let mut with_newline = image.clone();
                            with_newline.push('\n');
                            push_chars(ret, &replace_all(&cs, &with_newline, &image));
                        } else {
                            ret.append(c);
                        }
                        ret.append("\n");
                    } else {
                        ret.append(c);
                        ret.append(spec.sep.as_str());
                    }
                }
            },
            _ => {},
        }
    }

    /// Renders `messages`, `(role, content)` pairs in order, with
    /// `system_message` in the system prompt.
    pub fn render_prompt(&self, system_message: &str, messages: &[(String, String)]) -> (r: Result<
        String,
        TemplateError,
    >)
        requires
            style_named(self.spec.style@) == Some(Style::Qwen2Audio) ==> content_total(
                pairs_view(messages@),
            ) < usize::MAX,
        ensures
            result_view(r) == rendered(self.spec@, system_message@, pairs_view(messages@)),
    {
        let spec = &self.spec;
        let ghost t = spec@;
        let style = match parse_style(spec.style.as_str()) {
            Some(s) => s,
            None => {
                return Err(TemplateError::InvalidStyle { style: spec.style.clone() });
            },
        };
        let sep2: &str = if style.alternates_seps() {
            match sep2(spec, spec.style.as_str()) {
                Ok(s) => s,
                Err(e) => {
                    return Err(e);
                },
            }
        } else {
            match &spec.sep2 {
                Some(s) => s.as_str(),
                None => {
                    proof {
                        reveal_strlit("");
                    }
                    ""
                },
            }
        };
        let stop: &str = if style == Style::Qwen2VlEmbed {
            match &spec.stop_str {
                Some(OneOrMany::One(s)) => s.as_str(),
                _ => {
                    return Err(TemplateError::InvalidStopString { style: spec.style.clone() });
                },
            }
        } else {
            proof {
                reveal_strlit("");
            }
            ""
        };
        assert(stop@ == trailer(style, t));
        let template = chars_of(spec.system_template.as_str());
        let placeholder = vec![
            '{',
            's',
            'y',
            's',
            't',
            'e',
            'm',
            '_',
            'm',
            'e',
            's',
            's',
            'a',
            'g',
            'e',
            '}',
        ];
        assert(placeholder@ =~= system_placeholder());
        let filled = replace_all(&template, &placeholder, &chars_of(system_message));
        let mut sp = String::new();
        push_chars(&mut sp, &filled);
        assert(sp@ == system_prompt(t, system_message@));
        let mut ret = String::new();
        self.push_header(&mut ret, style, system_message, sp.as_str());
        let ghost head = ret@;
        let ghost pv = pairs_view(messages@);
        let mut counter: usize = 1;
        let mut i: usize = 0;
        assert(pv.take(0) =~= Seq::<(Seq<char>, Seq<char>)>::empty());
        while i < messages.len()
            invariant
                spec == &self.spec,
                t == spec@,
                sep2@ == sep2_or_empty(t),
                pv == pairs_view(messages@),
                i <= messages@.len(),
                style == Style::Qwen2Audio ==> content_total(pv) < usize::MAX,
                ret@ == head + body(style, t, pv.take(i as int)).0,
                counter as nat == body(style, t, pv.take(i as int)).1,
                counter <= 1 + content_total(pv.take(i as int)),
            decreases messages@.len() - i,
        {
            let ghost before = ret@;
            let ghost prefix = pv.take(i as int);
            let ghost next = pv.take(i + 1);
            proof {
                assert(next.drop_last() =~= prefix);
                lemma_content_total_prefix(pv, i + 1);
            }
            let m = &messages[i];
            self.push_message(&mut ret, style, sep2, i, &m.0, &m.1, &mut counter);
            assert(ret@ =~= head + body(style, t, next).0);
            i = i + 1;
        }
        assert(pv.take(i as int) =~= pv);
        ret.append(stop);
        Ok(ret)
    }
}

} // verus!
