use legacy_template::{
    extract_assistant_text, extract_system_text, AssistantContent, AssistantPart, ChatMessage,
    ChatRequest, LegacyFormatter, LegacySpec, SystemContent, SystemPart, TemplateError,
    UserContent, UserPart,
};

fn chatml() -> LegacyFormatter {
    LegacyFormatter {
        spec: LegacySpec {
            system_template: "<|im_start|>system\n{system_message}".to_string(),
            system_message: "You are a helpful assistant.".to_string(),
            roles: ("<|im_start|>user".to_string(), "<|im_start|>assistant".to_string()),
            style: "CHATML".to_string(),
            sep: "<|im_end|>".to_string(),
            ..Default::default()
        },
    }
}

fn user(text: &str) -> ChatMessage {
    ChatMessage::User(UserContent::Text(text.to_string()))
}

fn assistant(text: &str) -> ChatMessage {
    ChatMessage::Assistant(Some(AssistantContent::Text(text.to_string())))
}

fn system(text: &str) -> ChatMessage {
    ChatMessage::System(SystemContent::Text(text.to_string()))
}

#[test]
fn render_uses_template_system_message_by_default() {
    let request = ChatRequest { messages: vec![user("Hello")] };
    assert_eq!(
        chatml().render(&request).unwrap(),
        "<|im_start|>system\nYou are a helpful assistant.<|im_end|>\n<|im_start|>user\nHello<|im_end|>\n<|im_start|>assistant\n"
    );
}

#[test]
fn render_last_system_message_wins() {
    let request = ChatRequest {
        messages: vec![system("first"), user("Hi"), system("second"), assistant("Hey"), user("Bye")],
    };
    assert_eq!(
        chatml().render(&request).unwrap(),
        "<|im_start|>system\nsecond<|im_end|>\n<|im_start|>user\nHi<|im_end|>\n<|im_start|>assistant\nHey<|im_end|>\n<|im_start|>user\nBye<|im_end|>\n<|im_start|>assistant\n"
    );
}

#[test]
fn render_joins_user_text_parts() {
    let request = ChatRequest {
        messages: vec![ChatMessage::User(UserContent::Array(vec![
            UserPart::Text("a".to_string()),
            UserPart::Text("b".to_string()),
        ]))],
    };
    let out = chatml().render(&request).unwrap();
    assert!(out.contains("<|im_start|>user\nab<|im_end|>\n"));
}

#[test]
fn render_rejects_user_media() {
    let request = ChatRequest {
        messages: vec![ChatMessage::User(UserContent::Array(vec![
            UserPart::Text("a".to_string()),
            UserPart::Media,
        ]))],
    };
    assert_eq!(chatml().render(&request), Err(TemplateError::MediaContent { role: "user" }));
}

#[test]
fn render_rejects_unsupported_roles() {
    for (message, role) in [
        (ChatMessage::Developer, "developer"),
        (ChatMessage::Tool, "tool"),
        (ChatMessage::Function, "function"),
    ] {
        let request = ChatRequest { messages: vec![user("x"), message, user("y")] };
        assert_eq!(chatml().render(&request), Err(TemplateError::UnsupportedRole { role }));
    }
}

#[test]
fn render_reports_the_first_failing_message() {
    let request = ChatRequest {
        messages: vec![
            ChatMessage::System(SystemContent::Array(vec![])),
            ChatMessage::Tool,
        ],
    };
    assert_eq!(chatml().render(&request), Err(TemplateError::NonTextContent { role: "system" }));
}

#[test]
fn render_empty_assistant_message() {
    let request = ChatRequest { messages: vec![user("q"), ChatMessage::Assistant(None), user("r")] };
    let out = chatml().render(&request).unwrap();
    assert!(out.ends_with(
        "<|im_start|>user\nq<|im_end|>\n<|im_start|>assistant\n<|im_start|>user\nr<|im_end|>\n<|im_start|>assistant\n"
    ));
}

#[test]
fn render_passes_template_errors_on() {
    let mut f = chatml();
    f.spec.style = "UNKNOWN".to_string();
    let request = ChatRequest { messages: vec![user("q")] };
    assert_eq!(f.render(&request), Err(TemplateError::InvalidStyle { style: "UNKNOWN".to_string() }));
}

#[test]
fn system_text_extraction() {
    assert_eq!(extract_system_text(&SystemContent::Text("s".to_string())).unwrap(), "s");
    assert_eq!(
        extract_system_text(&SystemContent::Array(vec![SystemPart::Text("one".to_string())])).unwrap(),
        "one"
    );
    let two = SystemContent::Array(vec![
        SystemPart::Text("one".to_string()),
        SystemPart::Text("two".to_string()),
    ]);
    assert_eq!(extract_system_text(&two), Err(TemplateError::NonTextContent { role: "system" }));
    assert_eq!(
        extract_system_text(&SystemContent::Array(vec![])),
        Err(TemplateError::NonTextContent { role: "system" })
    );
}

#[test]
fn assistant_text_extraction() {
    assert_eq!(extract_assistant_text(&AssistantContent::Text("t".to_string())).unwrap(), "t");
    let one_text = AssistantContent::Array(vec![AssistantPart::Text("yes".to_string())]);
    assert_eq!(extract_assistant_text(&one_text).unwrap(), "yes");
    let with_refusal = AssistantContent::Array(vec![
        AssistantPart::Refusal("no".to_string()),
        AssistantPart::Text("yes".to_string()),
        AssistantPart::Refusal("no".to_string()),
    ]);
    assert_eq!(
        extract_assistant_text(&with_refusal),
        Err(TemplateError::NonTextContent { role: "assistant" })
    );
    let text_then_refusal = AssistantContent::Array(vec![
        AssistantPart::Text("a".to_string()),
        AssistantPart::Refusal("r".to_string()),
    ]);
    assert_eq!(
        extract_assistant_text(&text_then_refusal),
        Err(TemplateError::NonTextContent { role: "assistant" })
    );
    assert_eq!(
        extract_assistant_text(&AssistantContent::Array(vec![])),
        Err(TemplateError::NonTextContent { role: "assistant" })
    );
    let only_refusal = AssistantContent::Array(vec![AssistantPart::Refusal("no".to_string())]);
    assert_eq!(
        extract_assistant_text(&only_refusal),
        Err(TemplateError::NonTextContent { role: "assistant" })
    );
    let two = AssistantContent::Array(vec![
        AssistantPart::Text("a".to_string()),
        AssistantPart::Text("b".to_string()),
    ]);
    assert_eq!(extract_assistant_text(&two), Err(TemplateError::NonTextContent { role: "assistant" }));
}
