use legacy_template::audio::number_audio;
use legacy_template::{
    AssistantContent, ChatMessage, ChatRequest, LegacyFormatter, LegacySpec, OneOrMany,
    SystemContent, TemplateError, UserContent,
};

const STYLES: [&str; 27] = [
    "ADD_COLON_SINGLE",
    "ADD_COLON_TWO",
    "ADD_COLON_SPACE_SINGLE",
    "ADD_NEW_LINE_SINGLE",
    "QWEN2_VL_EMBED",
    "NO_COLON_SINGLE",
    "NO_COLON_TWO",
    "RWKV",
    "LLAMA4",
    "LLAMA3",
    "LLAMA2",
    "CHATGLM",
    "CHATML",
    "CHATGLM3",
    "CHATINTERN",
    "DOLLY",
    "PHOENIX",
    "ROBIN",
    "FALCON_CHAT",
    "METAMATH",
    "DEEPSEEK_CHAT",
    "DeepSeekVL2",
    "GEMMA3",
    "MPT",
    "QWEN2_AUDIO",
    "PADDLE_OCR",
    "UNLIMITED_OCR",
];

fn formatter(style: &str) -> LegacyFormatter {
    LegacyFormatter {
        spec: LegacySpec {
            system_template: "<sys>{system_message}</sys>".to_string(),
            system_message: "base".to_string(),
            roles: ("USER".to_string(), "BOT".to_string()),
            style: style.to_string(),
            sep: "\n###".to_string(),
            sep2: Some("</s>".to_string()),
            stop_str: Some(OneOrMany::One("<|endoftext|>".to_string())),
            ..Default::default()
        },
    }
}

fn text_request() -> ChatRequest {
    ChatRequest {
        messages: vec![
            ChatMessage::System(SystemContent::Text("be brief".to_string())),
            ChatMessage::User(UserContent::Text("one".to_string())),
            ChatMessage::Assistant(Some(AssistantContent::Text("two".to_string()))),
            ChatMessage::User(UserContent::Text("three".to_string())),
        ],
    }
}

#[test]
fn every_style_ends_with_the_assistant_opening() {
    let msgs: Vec<(String, String)> = vec![
        ("USER".to_string(), "one".to_string()),
        ("BOT".to_string(), "two".to_string()),
        ("USER".to_string(), "three".to_string()),
    ];
    for style in STYLES {
        let f = formatter(style);
        let rendered = f.render(&text_request()).unwrap();
        let mut with_opening = msgs.clone();
        with_opening.push(("BOT".to_string(), String::new()));
        let direct = f.render_prompt("be brief", &with_opening).unwrap();
        assert_eq!(rendered, direct, "{style}");
        let opening_only = f.render_prompt("", &[("BOT".to_string(), String::new())]).unwrap();
        let header_only = f.render_prompt("", &[]).unwrap();
        let opening = &opening_only[header_only.len()..];
        // the opening is message 3 here and message 0 there; styles that
        // number or tag by index differ, the others must agree
        if !["LLAMA2", "CHATGLM", "CHATINTERN", "METAMATH", "GEMMA3"].contains(&style) {
            assert!(rendered.ends_with(opening), "{style}: {rendered:?} / {opening:?}");
        }
    }
}

#[test]
fn later_messages_leave_earlier_text_unchanged() {
    let short: Vec<(String, String)> = vec![("USER".to_string(), "a".to_string())];
    let mut long = short.clone();
    long.push(("BOT".to_string(), "b".to_string()));
    long.push(("USER".to_string(), String::new()));
    for style in STYLES {
        if style == "QWEN2_VL_EMBED" {
            continue;
        }
        let f = formatter(style);
        let a = f.render_prompt("s", &short).unwrap();
        let b = f.render_prompt("s", &long).unwrap();
        assert!(b.starts_with(&a), "{style}");
    }
}

#[test]
fn system_message_replaces_the_template_one() {
    let f = formatter("NO_COLON_SINGLE");
    let out = f.render(&text_request()).unwrap();
    assert!(out.starts_with("<sys>be brief</sys>"));
    let none = ChatRequest { messages: vec![ChatMessage::User(UserContent::Text("x".to_string()))] };
    assert!(f.render(&none).unwrap().starts_with("<sys>base</sys>"));
}

#[test]
fn success_is_owed_to_known_styles() {
    for style in STYLES {
        assert!(formatter(style).render(&text_request()).is_ok(), "{style}");
    }
    let mut f = formatter("CHATML");
    f.spec.style = "CHAT_ML".to_string();
    assert_eq!(
        f.render(&text_request()),
        Err(TemplateError::InvalidStyle { style: "CHAT_ML".to_string() })
    );
}

#[test]
fn unsupported_role_refused_whatever_follows() {
    let mut request = text_request();
    request.messages.insert(2, ChatMessage::Developer);
    request.messages.push(ChatMessage::User(UserContent::Array(vec![])));
    assert_eq!(
        formatter("CHATML").render(&request),
        Err(TemplateError::UnsupportedRole { role: "developer" })
    );
}

#[test]
fn audio_token_without_idx_is_kept_and_numbering_is_bounded() {
    let m: Vec<char> = "<audio> x <audio>".chars().collect();
    let tok: Vec<char> = "<audio>".chars().collect();
    let (out, next) = number_audio(&m, &tok, 5);
    assert_eq!(out, m);
    assert_eq!(next, 5);
    let tok: Vec<char> = "{idx}".chars().collect();
    let m: Vec<char> = "{idx}{idx}{{idx}}".chars().collect();
    let (out, next) = number_audio(&m, &tok, 1);
    assert_eq!(out.iter().collect::<String>(), "12{3}");
    let braces = m.iter().filter(|c| **c == '{').count();
    assert!(next - 1 <= braces);
}

#[test]
fn rendering_splits_at_an_even_boundary() {
    let a: Vec<(String, String)> = vec![
        ("USER".to_string(), "one".to_string()),
        ("BOT".to_string(), "two".to_string()),
    ];
    let b: Vec<(String, String)> = vec![
        ("USER".to_string(), "three".to_string()),
        ("BOT".to_string(), String::new()),
    ];
    let both: Vec<(String, String)> = a.iter().chain(b.iter()).cloned().collect();
    for style in ["CHATML", "ADD_COLON_TWO", "DOLLY", "METAMATH", "PADDLE_OCR", "RWKV"] {
        let f = formatter(style);
        let header = f.render_prompt("s", &[]).unwrap();
        let pb = f.render_prompt("s", &b).unwrap();
        assert!(pb.starts_with(&header), "{style}");
        let expected = f.render_prompt("s", &a).unwrap() + &pb[header.len()..];
        assert_eq!(f.render_prompt("s", &both).unwrap(), expected, "{style}");
    }
}

#[test]
fn system_message_position_does_not_matter() {
    let f = formatter("CHATML");
    let first = ChatRequest {
        messages: vec![
            ChatMessage::System(SystemContent::Text("early".to_string())),
            ChatMessage::User(UserContent::Text("q".to_string())),
            ChatMessage::System(SystemContent::Text("last".to_string())),
        ],
    };
    let second = ChatRequest {
        messages: vec![
            ChatMessage::System(SystemContent::Text("last".to_string())),
            ChatMessage::User(UserContent::Text("q".to_string())),
        ],
    };
    assert_eq!(f.render(&first), f.render(&second));
}

#[test]
fn user_text_parts_join_without_separator() {
    let f = formatter("CHATML");
    let parts = ChatRequest {
        messages: vec![ChatMessage::User(UserContent::Array(vec![
            legacy_template::UserPart::Text("ab".to_string()),
            legacy_template::UserPart::Text("cd".to_string()),
        ]))],
    };
    let plain = ChatRequest {
        messages: vec![ChatMessage::User(UserContent::Text("abcd".to_string()))],
    };
    assert_eq!(f.render(&parts), f.render(&plain));
}

#[test]
fn assistant_refusal_part_is_rejected_in_requests() {
    let f = formatter("CHATML");
    let request = ChatRequest {
        messages: vec![ChatMessage::Assistant(Some(AssistantContent::Array(vec![
            legacy_template::AssistantPart::Text("a".to_string()),
            legacy_template::AssistantPart::Refusal("r".to_string()),
        ])))],
    };
    assert_eq!(f.render(&request), Err(TemplateError::NonTextContent { role: "assistant" }));
}
