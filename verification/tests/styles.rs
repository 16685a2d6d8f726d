use legacy_template::{LegacyFormatter, LegacySpec, OneOrMany, TemplateError};

fn formatter(style: &str) -> LegacyFormatter {
    LegacyFormatter {
        spec: LegacySpec {
            system_template: "S:{system_message}".to_string(),
            system_message: "default".to_string(),
            roles: ("U".to_string(), "A".to_string()),
            style: style.to_string(),
            sep: "|".to_string(),
            sep2: Some("#".to_string()),
            ..Default::default()
        },
    }
}

fn pairs(items: &[(&str, &str)]) -> Vec<(String, String)> {
    items.iter().map(|(r, c)| (r.to_string(), c.to_string())).collect()
}

fn conversation() -> Vec<(String, String)> {
    pairs(&[("U", "hi"), ("A", "yo"), ("A", "")])
}

fn render(style: &str) -> Result<String, TemplateError> {
    formatter(style).render_prompt("sys", &conversation())
}

#[test]
fn add_colon_single() {
    assert_eq!(render("ADD_COLON_SINGLE").unwrap(), "S:sys|U: hi|A: yo|A:");
}

#[test]
fn add_colon_two() {
    assert_eq!(render("ADD_COLON_TWO").unwrap(), "S:sys|U: hi|A: yo#A:");
}

#[test]
fn add_colon_space_single() {
    assert_eq!(render("ADD_COLON_SPACE_SINGLE").unwrap(), "S:sys|U: hi|A: yo|A: ");
}

#[test]
fn add_new_line_single() {
    assert_eq!(render("ADD_NEW_LINE_SINGLE").unwrap(), "S:sys|U\nhi|A\nyo|A\n");
    let out = formatter("ADD_NEW_LINE_SINGLE").render_prompt("", &conversation()).unwrap();
    assert_eq!(out, "U\nhi|A\nyo|A\n");
}

#[test]
fn qwen2_vl_embed() {
    let mut f = formatter("QWEN2_VL_EMBED");
    f.spec.stop_str = Some(OneOrMany::One("<stop>".to_string()));
    assert_eq!(f.render_prompt("sys", &conversation()).unwrap(), "S:sys|U\nhi|A\nyo|A\n<stop>");
    f.spec.stop_str = Some(OneOrMany::Many(vec!["a".to_string()]));
    assert_eq!(
        f.render_prompt("sys", &conversation()),
        Err(TemplateError::InvalidStopString { style: "QWEN2_VL_EMBED".to_string() })
    );
    f.spec.stop_str = None;
    assert_eq!(
        f.render_prompt("sys", &conversation()),
        Err(TemplateError::InvalidStopString { style: "QWEN2_VL_EMBED".to_string() })
    );
}

#[test]
fn no_colon_single() {
    assert_eq!(render("NO_COLON_SINGLE").unwrap(), "S:sysUhi|Ayo|A");
}

#[test]
fn no_colon_two() {
    assert_eq!(render("NO_COLON_TWO").unwrap(), "S:sysUhi|Ayo#A");
}

#[test]
fn rwkv_collapses_newlines() {
    let f = formatter("RWKV");
    let out = f.render_prompt("sys", &pairs(&[("U", "a\r\n\r\nb\n\n\nc"), ("A", "")])).unwrap();
    assert_eq!(out, "S:sysU: a\nb\n\nc\n\nA:");
}

#[test]
fn llama4_trims_content() {
    let f = formatter("LLAMA4");
    let out = f.render_prompt("sys", &pairs(&[("U", " \t hi \n"), ("A", "")])).unwrap();
    assert_eq!(out, "S:sys<|header_start|>U<|header_end|>\n\nhi<|eot|><|header_start|>A<|header_end|>\n\n");
    let out = f.render_prompt("", &pairs(&[("A", "")])).unwrap();
    assert_eq!(out, "<|header_start|>A<|header_end|>\n\n");
}

#[test]
fn llama3_trims_unicode_whitespace() {
    let f = formatter("LLAMA3");
    let out = f.render_prompt("sys", &pairs(&[("U", "\u{3000}\u{a0}hi there\u{2029}"), ("A", "")])).unwrap();
    assert_eq!(
        out,
        "S:sys<|start_header_id|>U<|end_header_id|>\n\nhi there<|eot_id|><|start_header_id|>A<|end_header_id|>\n\n"
    );
}

#[test]
fn llama2_tags_by_parity() {
    assert_eq!(render("LLAMA2").unwrap(), "S:syshi A yo#U");
    let out = formatter("LLAMA2").render_prompt("", &conversation()).unwrap();
    assert_eq!(out, "[INST] hi A yo#U");
}

#[test]
fn chatglm_rounds() {
    let mut f = formatter("CHATGLM");
    f.spec.name = "chatglm2".to_string();
    assert_eq!(f.render_prompt("sys", &conversation()).unwrap(), "S:sys|[Round 1]|U：hi|A：yo|[Round 2]|A：");
    f.spec.name = "chatglm".to_string();
    assert_eq!(f.render_prompt("sys", &conversation()).unwrap(), "S:sys|[Round 0]|U：hi|A：yo|[Round 1]|A：");
}

#[test]
fn chatglm_round_numbers_past_nine() {
    let mut f = formatter("CHATGLM");
    f.spec.system_template = String::new();
    let mut msgs = Vec::new();
    for _ in 0..22 {
        msgs.push(("U".to_string(), String::new()));
    }
    let out = f.render_prompt("", &msgs).unwrap();
    assert!(out.starts_with("[Round 0]|U："));
    assert!(out.ends_with("[Round 10]|U：U："));
}

#[test]
fn chatml() {
    assert_eq!(render("CHATML").unwrap(), "S:sys|\nU\nhi|\nA\nyo|\nA\n");
}

#[test]
fn chatglm3() {
    assert_eq!(render("CHATGLM3").unwrap(), "S:sysU\nhiA\nyoA");
}

#[test]
fn chatintern() {
    assert_eq!(render("CHATINTERN").unwrap(), "S:sys<s>U:hi|\nA:yo#\n<s>A:");
}

#[test]
fn dolly() {
    assert_eq!(render("DOLLY").unwrap(), "S:sysU:\nhi|A:\nyo#\n\nA:\n");
}

#[test]
fn phoenix() {
    assert_eq!(render("PHOENIX").unwrap(), "S:sysU: <s>hi</s>A: <s>yo</s>A: <s>");
}

#[test]
fn robin() {
    assert_eq!(render("ROBIN").unwrap(), "S:sys|U:\nhi|A:\nyo|A:\n");
}

#[test]
fn falcon_chat() {
    assert_eq!(render("FALCON_CHAT").unwrap(), "S:sys|U: hi|A: yo|A:");
    let out = formatter("FALCON_CHAT").render_prompt("", &conversation()).unwrap();
    assert_eq!(out, "U: hi|A: yo|A:");
}

#[test]
fn metamath() {
    assert_eq!(render("METAMATH").unwrap(), "S:sys|U:\nhi|A: #yoA:\n");
    let out = formatter("METAMATH").render_prompt("sys", &pairs(&[("U", "q"), ("A", "")])).unwrap();
    assert_eq!(out, "S:sys|U:\nq|A: #");
}

#[test]
fn deepseek_chat() {
    assert_eq!(render("DEEPSEEK_CHAT").unwrap(), "S:sysU: hi|A: yo#A:");
}

#[test]
fn deepseek_vl2() {
    assert_eq!(render("DeepSeekVL2").unwrap(), "S:sys|U: hi|A: yo#A:");
}

#[test]
fn gemma3() {
    assert_eq!(render("GEMMA3").unwrap(), "S:syshi|Ayo|A");
}

#[test]
fn mpt() {
    assert_eq!(render("MPT").unwrap(), "S:sys|Uhi|Ayo|A");
}

#[test]
fn qwen2_audio_numbers_tokens_across_messages() {
    let mut f = formatter("QWEN2_AUDIO");
    f.spec.audio_token = "<audio{idx}>".to_string();
    let msgs = pairs(&[("U", "x<audio{idx}>y<audio{idx}>"), ("A", "<audio{idx}>"), ("A", "")]);
    assert_eq!(f.render_prompt("sys", &msgs).unwrap(), "S:sys|U\nx<audio1>y<audio2>|A\n<audio3>|A\n");
}

#[test]
fn qwen2_audio_token_without_idx_is_kept() {
    let f = formatter("QWEN2_AUDIO");
    let msgs = pairs(&[("U", "<audio><audio>"), ("A", "")]);
    assert_eq!(f.render_prompt("", &msgs).unwrap(), "S:|U\n<audio><audio>|A\n");
}

#[test]
fn paddle_ocr_drops_newline_after_image() {
    let f = formatter("PADDLE_OCR");
    let msgs = pairs(&[("U", "<image>\nwhat"), ("A", "yo"), ("A", "")]);
    assert_eq!(f.render_prompt("sys", &msgs).unwrap(), "S:sysU: <image>what\nA: yo|A: ");
    let msgs = pairs(&[("U", "plain\n"), ("A", "")]);
    assert_eq!(f.render_prompt("sys", &msgs).unwrap(), "S:sysU: plain\n\nA: ");
}

#[test]
fn unlimited_ocr() {
    assert_eq!(render("UNLIMITED_OCR").unwrap(), "S:sys|Uhi|Ayo#A");
}

#[test]
fn unknown_style_is_rejected() {
    assert_eq!(render("NOPE"), Err(TemplateError::InvalidStyle { style: "NOPE".to_string() }));
    assert_eq!(render("chatml"), Err(TemplateError::InvalidStyle { style: "chatml".to_string() }));
}

#[test]
fn missing_sep2_is_rejected() {
    for style in [
        "ADD_COLON_TWO",
        "NO_COLON_TWO",
        "LLAMA2",
        "CHATINTERN",
        "DOLLY",
        "METAMATH",
        "DEEPSEEK_CHAT",
        "DeepSeekVL2",
        "UNLIMITED_OCR",
    ] {
        let mut f = formatter(style);
        f.spec.sep2 = None;
        assert_eq!(
            f.render_prompt("sys", &conversation()),
            Err(TemplateError::MissingSep2 { style: style.to_string() })
        );
    }
    let mut f = formatter("CHATML");
    f.spec.sep2 = None;
    assert!(f.render_prompt("sys", &conversation()).is_ok());
}

#[test]
fn system_template_fills_every_slot() {
    let mut f = formatter("NO_COLON_SINGLE");
    f.spec.system_template = "[{system_message}]{system_message}{system_messag".to_string();
    let out = f.render_prompt("X", &pairs(&[("A", "")])).unwrap();
    assert_eq!(out, "[X]X{system_messagA");
}
