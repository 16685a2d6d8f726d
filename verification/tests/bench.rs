use legacy_template::{LegacyFormatter, LegacySpec};

#[test]
fn bench_legacy_template_render_production() {
    let shapes: [(&str, &str, usize, usize); 5] = [
        ("chatml_2_short", "CHATML", 2, 32),
        ("chatml_32_medium", "CHATML", 32, 256),
        ("llama3_32_medium", "LLAMA3", 32, 256),
        ("add_colon_two_128_medium", "ADD_COLON_TWO", 128, 256),
        ("chatml_8_long", "CHATML", 8, 4096),
    ];
    for (shape, style, message_count, content_bytes) in shapes {
        let (system_template, sep, sep2, roles) = match style {
            "CHATML" => (
                "<|im_start|>system\n{system_message}",
                "<|im_end|>",
                None,
                ("<|im_start|>user", "<|im_start|>assistant"),
            ),
            "LLAMA3" => (
                "<|start_header_id|>system<|end_header_id|>\n\n{system_message}<|eot_id|>",
                "",
                None,
                ("user", "assistant"),
            ),
            "ADD_COLON_TWO" => ("{system_message}", "\n###", Some("\n</s>"), ("USER", "ASSISTANT")),
            _ => unreachable!(),
        };
        let formatter = LegacyFormatter {
            spec: LegacySpec {
                system_template: system_template.into(),
                system_message: "You are a helpful assistant.".into(),
                roles: (roles.0.into(), roles.1.into()),
                style: style.into(),
                sep: sep.into(),
                sep2: sep2.map(str::to_owned),
                ..Default::default()
            },
        };
        let messages: Vec<(String, String)> = (0..message_count)
            .map(|index| {
                let role = if index % 2 == 0 {
                    formatter.spec.roles.0.clone()
                } else {
                    formatter.spec.roles.1.clone()
                };
                let prefix = format!("message-{index}-");
                let content = prefix.clone() + &"x".repeat(content_bytes - prefix.len());
                (role, content)
            })
            .chain(std::iter::once((formatter.spec.roles.1.clone(), String::new())))
            .collect();
        let output = formatter
            .render_prompt(&formatter.spec.system_message, &messages)
            .unwrap();
        let again = formatter
            .render_prompt(&formatter.spec.system_message, &messages)
            .unwrap();
        assert_eq!(output, again, "{shape}");
        let system_prompt = system_template.replace("{system_message}", "You are a helpful assistant.");
        assert!(output.starts_with(&system_prompt), "{shape}");
        for index in 0..message_count {
            assert!(output.contains(&format!("message-{index}-")), "{shape}");
        }
        let opening = match style {
            "CHATML" => "<|im_start|>assistant\n".to_string(),
            "LLAMA3" => "<|start_header_id|>assistant<|end_header_id|>\n\n".to_string(),
            _ => "ASSISTANT:".to_string(),
        };
        assert!(output.ends_with(&opening), "{shape}");
        let content_total: usize = messages.iter().map(|(_, c)| c.len()).sum();
        assert!(output.len() > content_total, "{shape}");
    }
}
