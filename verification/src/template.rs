//! Legacy conversation templates: their data, their separator styles, and
//! the specification of the prompt that each style renders.
use vstd::prelude::*;
use crate::audio::numbered_audio;
use crate::text::{decimal, has_substring, replaced, trimmed};

verus! {

/// A value given either once or as a list (`str | list[str]`).
#[derive(Debug, Clone, PartialEq)]
pub enum OneOrMany<T> {
    One(T),
    Many(Vec<T>),
}

/// A legacy conversation template: the fields of a `Conversation`.
#[derive(Debug)]
pub struct LegacySpec {
    /// The template's name; `chatglm2` shifts the `CHATGLM` round numbers.
    pub name: String,
    /// The system prompt, with `{system_message}` standing for the message.
    pub system_template: String,
    /// The system message used when the request brings none.
    pub system_message: String,
    /// `(user_role, assistant_role)`.
    pub roles: (String, String),
    /// The separator style, by name.
    pub style: String,
    pub sep: String,
    /// The second separator; styles that alternate separators need it.
    pub sep2: Option<String>,
    pub stop_str: Option<OneOrMany<String>>,
    pub image_token: String,
    pub audio_token: String,
}

/// The stop string of a template, as text.
pub enum StopView {
    One(Seq<char>),
    Many(Seq<Seq<char>>),
}

/// The mathematical view of a [`LegacySpec`]: every text as its characters.
pub struct LegacySpecView {
    pub name: Seq<char>,
    pub system_template: Seq<char>,
    pub system_message: Seq<char>,
    pub user_role: Seq<char>,
    pub assistant_role: Seq<char>,
    pub style: Seq<char>,
    pub sep: Seq<char>,
    pub sep2: Option<Seq<char>>,
    pub stop_str: Option<StopView>,
    pub image_token: Seq<char>,
    pub audio_token: Seq<char>,
}

/// The view of an optional stop string.
pub open spec fn stop_view(s: Option<OneOrMany<String>>) -> Option<StopView> {
    match s {
        None => None,
        Some(OneOrMany::One(x)) => Some(StopView::One(x@)),
        Some(OneOrMany::Many(xs)) => Some(StopView::Many(xs@.map_values(|x: String| x@))),
    }
}

/// The view of an optional string.
pub open spec fn opt_view(s: Option<String>) -> Option<Seq<char>> {
    match s {
        None => None,
        Some(x) => Some(x@),
    }
}

impl View for LegacySpec {
    type V = LegacySpecView;

    open spec fn view(&self) -> LegacySpecView {
        LegacySpecView {
            name: self.name@,
            system_template: self.system_template@,
            system_message: self.system_message@,
            user_role: self.roles.0@,
            assistant_role: self.roles.1@,
            style: self.style@,
            sep: self.sep@,
            sep2: opt_view(self.sep2),
            stop_str: stop_view(self.stop_str),
            image_token: self.image_token@,
            audio_token: self.audio_token@,
        }
    }
}

/// A copy of an optional stop string.
fn clone_stop(s: &Option<OneOrMany<String>>) -> (r: Option<OneOrMany<String>>)
    ensures
        stop_view(r) == stop_view(*s),
{
    match s {
        None => None,
        Some(OneOrMany::One(x)) => Some(OneOrMany::One(x.clone())),
        Some(OneOrMany::Many(xs)) => {
            let mut ys: Vec<String> = Vec::new();
            let mut i: usize = 0;
            while i < xs.len()
                invariant
                    i <= xs@.len(),
                    ys@ == xs@.take(i as int),
                decreases xs@.len() - i,
            {
                ys.push(xs[i].clone());
                assert(xs@.take((i + 1) as int) =~= xs@.take(i as int).push(xs@[i as int]));
                i = i + 1;
            }
            assert(xs@.take(i as int) =~= xs@);
            Some(OneOrMany::Many(ys))
        },
    }
}

impl Clone for LegacySpec {
    fn clone(&self) -> (r: Self)
        ensures
            r@ == self@,
    {
        LegacySpec {
            name: self.name.clone(),
            system_template: self.system_template.clone(),
            system_message: self.system_message.clone(),
            roles: (self.roles.0.clone(), self.roles.1.clone()),
            style: self.style.clone(),
            sep: self.sep.clone(),
            sep2: match &self.sep2 {
                Some(x) => Some(x.clone()),
                None => None,
            },
            stop_str: clone_stop(&self.stop_str),
            image_token: self.image_token.clone(),
            audio_token: self.audio_token.clone(),
        }
    }
}

impl Default for LegacySpec {
    fn default() -> (r: Self)
        ensures
            r.name@ == Seq::<char>::empty(),
            r.system_template@ == Seq::<char>::empty(),
            r.system_message@ == Seq::<char>::empty(),
            r.roles.0@ == Seq::<char>::empty(),
            r.roles.1@ == Seq::<char>::empty(),
            r.style@ == Seq::<char>::empty(),
            r.sep@ == Seq::<char>::empty(),
            r.sep2 is None,
            r.stop_str is None,
            r.image_token@ == "<image>"@,
            r.audio_token@ == "<audio>"@,
    {
        LegacySpec {
            name: String::new(),
            system_template: String::new(),
            system_message: String::new(),
            roles: (String::new(), String::new()),
            style: String::new(),
            sep: String::new(),
            sep2: None,
            stop_str: None,
            image_token: "<image>".to_owned(),
            audio_token: "<audio>".to_owned(),
        }
    }
}

/// Why a template could not render a request.
#[derive(Debug, Clone, PartialEq, Eq)]
pub enum TemplateError {
    /// A message of this role carries media where only text can stand.
    MediaContent { role: &'static str },
    /// Messages of this role have no place in a legacy template.
    UnsupportedRole { role: &'static str },
    /// A message of this role is not a single piece of text.
    NonTextContent { role: &'static str },
    /// The style appends a stop string, and the template has no single one.
    InvalidStopString { style: String },
    /// The style alternates separators, and the template has no second one.
    MissingSep2 { style: String },
    /// No style has this name.
    InvalidStyle { style: String },
}

/// A [`TemplateError`] with its texts as characters.
pub enum TemplateErrorView {
    MediaContent { role: Seq<char> },
    UnsupportedRole { role: Seq<char> },
    NonTextContent { role: Seq<char> },
    InvalidStopString { style: Seq<char> },
    MissingSep2 { style: Seq<char> },
    InvalidStyle { style: Seq<char> },
}

impl View for TemplateError {
    type V = TemplateErrorView;

    open spec fn view(&self) -> TemplateErrorView {
        match self {
            TemplateError::MediaContent { role } => TemplateErrorView::MediaContent { role: role@ },
            TemplateError::UnsupportedRole { role } => TemplateErrorView::UnsupportedRole {
                role: role@,
            },
            TemplateError::NonTextContent { role } => TemplateErrorView::NonTextContent {
                role: role@,
            },
            TemplateError::InvalidStopString { style } => TemplateErrorView::InvalidStopString {
                style: style@,
            },
            TemplateError::MissingSep2 { style } => TemplateErrorView::MissingSep2 {
                style: style@,
            },
            TemplateError::InvalidStyle { style } => TemplateErrorView::InvalidStyle {
                style: style@,
            },
        }
    }
}

/// The view of a rendering outcome.
pub open spec fn result_view(r: Result<String, TemplateError>) -> Result<
    Seq<char>,
    TemplateErrorView,
> {
    match r {
        Ok(s) => Ok(s@),
        Err(e) => Err(e@),
    }
}

/// The separator styles that a legacy template can name.
#[derive(Debug, Clone, Copy, PartialEq, Eq, Structural)]
pub enum Style {
    AddColonSingle,
    AddColonTwo,
    AddColonSpaceSingle,
    AddNewLineSingle,
    Qwen2VlEmbed,
    NoColonSingle,
    NoColonTwo,
    Rwkv,
    Llama4,
    Llama3,
    Llama2,
    ChatGlm,
    ChatMl,
    ChatGlm3,
    ChatIntern,
    Dolly,
    Phoenix,
    Robin,
    FalconChat,
    MetaMath,
    DeepSeekChat,
    DeepSeekVl2,
    Gemma3,
    Mpt,
    Qwen2Audio,
    PaddleOcr,
    UnlimitedOcr,
}

/// The style that a name denotes, if any.
pub open spec fn style_named(name: Seq<char>) -> Option<Style> {
    if name == "ADD_COLON_SINGLE"@ {
        Some(Style::AddColonSingle)
    } else if name == "ADD_COLON_TWO"@ {
        Some(Style::AddColonTwo)
    } else if name == "ADD_COLON_SPACE_SINGLE"@ {
        Some(Style::AddColonSpaceSingle)
    } else if name == "ADD_NEW_LINE_SINGLE"@ {
        Some(Style::AddNewLineSingle)
    } else if name == "QWEN2_VL_EMBED"@ {
        Some(Style::Qwen2VlEmbed)
    } else if name == "NO_COLON_SINGLE"@ {
        Some(Style::NoColonSingle)
    } else if name == "NO_COLON_TWO"@ {
        Some(Style::NoColonTwo)
    } else if name == "RWKV"@ {
        Some(Style::Rwkv)
    } else if name == "LLAMA4"@ {
        Some(Style::Llama4)
    } else if name == "LLAMA3"@ {
        Some(Style::Llama3)
    } else if name == "LLAMA2"@ {
        Some(Style::Llama2)
    } else if name == "CHATGLM"@ {
        Some(Style::ChatGlm)
    } else if name == "CHATML"@ {
        Some(Style::ChatMl)
    } else if name == "CHATGLM3"@ {
        Some(Style::ChatGlm3)
    } else if name == "CHATINTERN"@ {
        Some(Style::ChatIntern)
    } else if name == "DOLLY"@ {
        Some(Style::Dolly)
    } else if name == "PHOENIX"@ {
        Some(Style::Phoenix)
    } else if name == "ROBIN"@ {
        Some(Style::Robin)
    } else if name == "FALCON_CHAT"@ {
        Some(Style::FalconChat)
    } else if name == "METAMATH"@ {
        Some(Style::MetaMath)
    } else if name == "DEEPSEEK_CHAT"@ {
        Some(Style::DeepSeekChat)
    } else if name == "DeepSeekVL2"@ {
        Some(Style::DeepSeekVl2)
    } else if name == "GEMMA3"@ {
        Some(Style::Gemma3)
    } else if name == "MPT"@ {
        Some(Style::Mpt)
    } else if name == "QWEN2_AUDIO"@ {
        Some(Style::Qwen2Audio)
    } else if name == "PADDLE_OCR"@ {
        Some(Style::PaddleOcr)
    } else if name == "UNLIMITED_OCR"@ {
        Some(Style::UnlimitedOcr)
    } else {
        None
    }
}

/// The styles that alternate `sep` and `sep2` and so need a second separator.
pub open spec fn needs_sep2(style: Style) -> bool {
    match style {
        Style::AddColonTwo | Style::NoColonTwo | Style::Llama2 | Style::ChatIntern | Style::Dolly
        | Style::MetaMath | Style::DeepSeekChat | Style::DeepSeekVl2 | Style::UnlimitedOcr => true,
        _ => false,
    }
}

/// `{system_message}`, the slot of the system message in the system template.
pub open spec fn system_placeholder() -> Seq<char> {
    seq!['{', 's', 'y', 's', 't', 'e', 'm', '_', 'm', 'e', 's', 's', 'a', 'g', 'e', '}']
}

/// The system template with every `{system_message}` filled in.
pub open spec fn system_prompt(t: LegacySpecView, system_message: Seq<char>) -> Seq<char> {
    replaced(t.system_template, system_placeholder(), system_message)
}

/// The second separator, or nothing when the template has none.
pub open spec fn sep2_or_empty(t: LegacySpecView) -> Seq<char> {
    match t.sep2 {
        Some(s) => s,
        None => Seq::empty(),
    }
}

/// `sep` after even messages, `sep2` after odd ones.
pub open spec fn parity_sep(t: LegacySpecView, i: int) -> Seq<char> {
    if i % 2 == 0 {
        t.sep
    } else {
        sep2_or_empty(t)
    }
}

/// What the prompt holds before the first message.
pub open spec fn header(
    style: Style,
    t: LegacySpecView,
    system_message: Seq<char>,
    sp: Seq<char>,
) -> Seq<char> {
    match style {
        Style::AddColonSingle | Style::AddColonTwo | Style::AddColonSpaceSingle | Style::Robin
        | Style::Mpt => sp + t.sep,
        Style::NoColonSingle | Style::NoColonTwo | Style::Rwkv | Style::ChatIntern | Style::Dolly
        | Style::Phoenix | Style::DeepSeekChat | Style::Gemma3 | Style::PaddleOcr => sp,
        Style::Qwen2VlEmbed | Style::ChatGlm | Style::MetaMath | Style::DeepSeekVl2
        | Style::Qwen2Audio | Style::UnlimitedOcr => if sp.len() > 0 {
            sp + t.sep
        } else {
            Seq::empty()
        },
        Style::ChatMl => if sp.len() > 0 {
            sp + t.sep + "\n"@
        } else {
            Seq::empty()
        },
        Style::AddNewLineSingle => if system_message.len() > 0 && sp.len() > 0 {
            sp + t.sep
        } else {
            Seq::empty()
        },
        Style::Llama4 | Style::Llama3 | Style::ChatGlm3 => if system_message.len() > 0 {
            sp
        } else {
            Seq::empty()
        },
        Style::FalconChat => if system_message.len() > 0 {
            sp + t.sep
        } else {
            Seq::empty()
        },
        Style::Llama2 => if system_message.len() == 0 {
            "[INST] "@
        } else {
            sp
        },
    }
}

/// `RWKV` content: `\r\n` becomes `\n`, then `\n\n` becomes `\n`.
pub open spec fn rwkv_content(c: Seq<char>) -> Seq<char> {
    replaced(replaced(c, seq!['\r', '\n'], seq!['\n']), seq!['\n', '\n'], seq!['\n'])
}

/// `PADDLE_OCR` user content: when it holds the image token, the newline
/// after each image token goes.
pub open spec fn paddle_content(t: LegacySpecView, c: Seq<char>) -> Seq<char> {
    if has_substring(c, t.image_token) {
        replaced(c, t.image_token.push('\n'), t.image_token)
    } else {
        c
    }
}

/// `CHATGLM` numbers rounds from one for `chatglm2` and from zero otherwise.
pub open spec fn round_offset(t: LegacySpecView) -> nat {
    if t.name == "chatglm2"@ {
        1
    } else {
        0
    }
}

/// The text of message `i`, with role `r` and content `c`, in every style
/// but `QWEN2_AUDIO`. Empty content marks the opening that the model is to
/// continue.
pub open spec fn fragment(
    style: Style,
    t: LegacySpecView,
    i: int,
    r: Seq<char>,
    c: Seq<char>,
) -> Seq<char> {
    let e = c.len() == 0;
    match style {
        Style::AddColonSingle | Style::FalconChat => if e {
            r + ":"@
        } else {
            r + ": "@ + c + t.sep
        },
        Style::AddColonTwo | Style::DeepSeekChat | Style::DeepSeekVl2 => if e {
            r + ":"@
        } else {
            r + ": "@ + c + parity_sep(t, i)
        },
        Style::AddColonSpaceSingle => if e {
            r + ": "@
        } else {
            r + ": "@ + c + t.sep
        },
        Style::AddNewLineSingle | Style::Qwen2VlEmbed | Style::Qwen2Audio => if e {
            r + "\n"@
        } else {
            r + "\n"@ + c + t.sep
        },
        Style::NoColonSingle | Style::Mpt => if e {
            r
        } else {
            r + c + t.sep
        },
        Style::NoColonTwo | Style::UnlimitedOcr => if e {
            r
        } else {
            r + c + parity_sep(t, i)
        },
        Style::Rwkv => if e {
            r + ":"@
        } else {
            r + ": "@ + rwkv_content(c) + "\n\n"@
        },
        Style::Llama4 => if e {
            "<|header_start|>"@ + r + "<|header_end|>\n\n"@
        } else {
            "<|header_start|>"@ + r + "<|header_end|>\n\n"@ + trimmed(c) + "<|eot|>"@
        },
        Style::Llama3 => if e {
            "<|start_header_id|>"@ + r + "<|end_header_id|>\n\n"@
        } else {
            "<|start_header_id|>"@ + r + "<|end_header_id|>\n\n"@ + trimmed(c) + "<|eot_id|>"@
        },
        Style::Llama2 => {
            let tag = if i % 2 == 0 {
                t.user_role
            } else {
                t.assistant_role
            };
            if e {
                tag
            } else if i == 0 {
                c + " "@
            } else {
                tag + " "@ + c + parity_sep(t, i)
            }
        },
        Style::ChatGlm => {
            let round = if i % 2 == 0 {
                "[Round "@ + decimal((i / 2) as nat + round_offset(t)) + "]"@ + t.sep
            } else {
                Seq::empty()
            };
            if e {
                round + r + "："@
            } else {
                round + r + "："@ + c + t.sep
            }
        },
        Style::ChatMl => if e {
            r + "\n"@
        } else {
            r + "\n"@ + c + t.sep + "\n"@
        },
        Style::ChatGlm3 => if e {
            r
        } else {
            r + "\n"@ + c
        },
        Style::ChatIntern => {
            let open = if i % 2 == 0 {
                "<s>"@
            } else {
                Seq::empty()
            };
            if e {
                open + r + ":"@
            } else {
                open + r + ":"@ + c + parity_sep(t, i) + "\n"@
            }
        },
        Style::Dolly => if e {
            r + ":\n"@
        } else if i % 2 == 1 {
            r + ":\n"@ + c + parity_sep(t, i) + "\n\n"@
        } else {
            r + ":\n"@ + c + parity_sep(t, i)
        },
        Style::Phoenix => if e {
            r + ": <s>"@
        } else {
            r + ": <s>"@ + c + "</s>"@
        },
        Style::Robin => if e {
            r + ":\n"@
        } else {
            r + ":\n"@ + c + t.sep
        },
        Style::MetaMath => if i % 2 == 0 {
            if e {
                r + ":\n"@
            } else {
                r + ":\n"@ + c + t.sep
            }
        } else {
            if e {
                r + ": "@ + sep2_or_empty(t)
            } else {
                r + ": "@ + sep2_or_empty(t) + c
            }
        },
        Style::Gemma3 => if e {
            r
        } else if i == 0 {
            c + t.sep
        } else {
            r + c + t.sep
        },
        Style::PaddleOcr => if e {
            r + ": "@
        } else if r == t.user_role {
            r + ": "@ + paddle_content(t, c) + "\n"@
        } else {
            r + ": "@ + c + t.sep
        },
    }
}

/// The text of message `i` and the audio counter after it.
pub open spec fn step(
    style: Style,
    t: LegacySpecView,
    i: int,
    r: Seq<char>,
    c: Seq<char>,
    counter: nat,
) -> (Seq<char>, nat) {
    if style == Style::Qwen2Audio && c.len() > 0 {
        let (m, next) = numbered_audio(c, t.audio_token, counter);
        (r + "\n"@ + m + t.sep, next)
    } else {
        (fragment(style, t, i, r, c), counter)
    }
}

/// The texts of all messages, in order, and the audio counter after them;
/// the counter starts at one.
pub open spec fn body(style: Style, t: LegacySpecView, msgs: Seq<(Seq<char>, Seq<char>)>) -> (
    Seq<char>,
    nat,
)
    decreases msgs.len(),
{
    if msgs.len() == 0 {
        (Seq::empty(), 1)
    } else {
        let (prev, counter) = body(style, t, msgs.drop_last());
        let (text, next) = step(
            style,
            t,
            msgs.len() - 1,
            msgs.last().0,
            msgs.last().1,
            counter,
        );
        (prev + text, next)
    }
}

/// What the prompt holds after the last message: the stop string for
/// `QWEN2_VL_EMBED`, nothing otherwise.
pub open spec fn trailer(style: Style, t: LegacySpecView) -> Seq<char> {
    match (style, t.stop_str) {
        (Style::Qwen2VlEmbed, Some(StopView::One(s))) => s,
        _ => Seq::empty(),
    }
}

/// The prompt that template `t` renders for a system message and a list of
/// `(role, content)` messages, or the error it gives.
pub open spec fn rendered(
    t: LegacySpecView,
    system_message: Seq<char>,
    msgs: Seq<(Seq<char>, Seq<char>)>,
) -> Result<Seq<char>, TemplateErrorView> {
    match style_named(t.style) {
        None => Err(TemplateErrorView::InvalidStyle { style: t.style }),
        Some(style) => if needs_sep2(style) && t.sep2 is None {
            Err(TemplateErrorView::MissingSep2 { style: t.style })
        } else if style == Style::Qwen2VlEmbed && !(t.stop_str matches Some(StopView::One(_))) {
            Err(TemplateErrorView::InvalidStopString { style: t.style })
        } else {
            Ok(
                header(style, t, system_message, system_prompt(t, system_message)) + body(
                    style,
                    t,
                    msgs,
                ).0 + trailer(style, t),
            )
        },
    }
}

/// `(role, content)` pairs as characters.
pub open spec fn pairs_view(msgs: Seq<(String, String)>) -> Seq<(Seq<char>, Seq<char>)> {
    msgs.map_values(|m: (String, String)| (m.0@, m.1@))
}

/// The number of characters in all contents.
pub open spec fn content_total(msgs: Seq<(Seq<char>, Seq<char>)>) -> nat
    decreases msgs.len(),
{
    if msgs.len() == 0 {
        0
    } else {
        content_total(msgs.drop_last()) + msgs.last().1.len()
    }
}

} // verus!
