//! The style names, each with the style it denotes.
use vstd::prelude::*;
use crate::template::{style_named, Style};

verus! {

/// `ADD_COLON_SINGLE` names `Style::AddColonSingle`.
pub proof fn lemma_named_add_colon_single()
    ensures
        style_named("ADD_COLON_SINGLE"@) == Some(Style::AddColonSingle),
{
    reveal_strlit("ADD_COLON_SINGLE");
}

/// `ADD_COLON_TWO` names `Style::AddColonTwo`.
pub proof fn lemma_named_add_colon_two()
    ensures
        style_named("ADD_COLON_TWO"@) == Some(Style::AddColonTwo),
{
    reveal_strlit("ADD_COLON_TWO");
    reveal_strlit("ADD_COLON_SINGLE");
    assert("ADD_COLON_TWO"@.len() != "ADD_COLON_SINGLE"@.len());
}

/// `ADD_COLON_SPACE_SINGLE` names `Style::AddColonSpaceSingle`.
pub proof fn lemma_named_add_colon_space_single()
    ensures
        style_named("ADD_COLON_SPACE_SINGLE"@) == Some(Style::AddColonSpaceSingle),
{
    reveal_strlit("ADD_COLON_SPACE_SINGLE");
    reveal_strlit("ADD_COLON_SINGLE");
    assert("ADD_COLON_SPACE_SINGLE"@.len() != "ADD_COLON_SINGLE"@.len());
    reveal_strlit("ADD_COLON_TWO");
    assert("ADD_COLON_SPACE_SINGLE"@.len() != "ADD_COLON_TWO"@.len());
}

/// `ADD_NEW_LINE_SINGLE` names `Style::AddNewLineSingle`.
pub proof fn lemma_named_add_new_line_single()
    ensures
        style_named("ADD_NEW_LINE_SINGLE"@) == Some(Style::AddNewLineSingle),
{
    reveal_strlit("ADD_NEW_LINE_SINGLE");
    reveal_strlit("ADD_COLON_SINGLE");
    assert("ADD_NEW_LINE_SINGLE"@.len() != "ADD_COLON_SINGLE"@.len());
    reveal_strlit("ADD_COLON_TWO");
    assert("ADD_NEW_LINE_SINGLE"@.len() != "ADD_COLON_TWO"@.len());
    reveal_strlit("ADD_COLON_SPACE_SINGLE");
    assert("ADD_NEW_LINE_SINGLE"@.len() != "ADD_COLON_SPACE_SINGLE"@.len());
}

/// `QWEN2_VL_EMBED` names `Style::Qwen2VlEmbed`.
pub proof fn lemma_named_qwen2_vl_embed()
    ensures
        style_named("QWEN2_VL_EMBED"@) == Some(Style::Qwen2VlEmbed),
{
    reveal_strlit("QWEN2_VL_EMBED");
    reveal_strlit("ADD_COLON_SINGLE");
    assert("QWEN2_VL_EMBED"@.len() != "ADD_COLON_SINGLE"@.len());
    reveal_strlit("ADD_COLON_TWO");
    assert("QWEN2_VL_EMBED"@.len() != "ADD_COLON_TWO"@.len());
    reveal_strlit("ADD_COLON_SPACE_SINGLE");
    assert("QWEN2_VL_EMBED"@.len() != "ADD_COLON_SPACE_SINGLE"@.len());
    reveal_strlit("ADD_NEW_LINE_SINGLE");
    assert("QWEN2_VL_EMBED"@.len() != "ADD_NEW_LINE_SINGLE"@.len());
}

/// `NO_COLON_SINGLE` names `Style::NoColonSingle`.
pub proof fn lemma_named_no_colon_single()
    ensures
        style_named("NO_COLON_SINGLE"@) == Some(Style::NoColonSingle),
{
    reveal_strlit("NO_COLON_SINGLE");
    reveal_strlit("ADD_COLON_SINGLE");
    assert("NO_COLON_SINGLE"@.len() != "ADD_COLON_SINGLE"@.len());
    reveal_strlit("ADD_COLON_TWO");
    assert("NO_COLON_SINGLE"@.len() != "ADD_COLON_TWO"@.len());
    reveal_strlit("ADD_COLON_SPACE_SINGLE");
    assert("NO_COLON_SINGLE"@.len() != "ADD_COLON_SPACE_SINGLE"@.len());
    reveal_strlit("ADD_NEW_LINE_SINGLE");
    assert("NO_COLON_SINGLE"@.len() != "ADD_NEW_LINE_SINGLE"@.len());
    reveal_strlit("QWEN2_VL_EMBED");
    assert("NO_COLON_SINGLE"@.len() != "QWEN2_VL_EMBED"@.len());
}

/// `NO_COLON_TWO` names `Style::NoColonTwo`.
pub proof fn lemma_named_no_colon_two()
    ensures
        style_named("NO_COLON_TWO"@) == Some(Style::NoColonTwo),
{
    reveal_strlit("NO_COLON_TWO");
    reveal_strlit("ADD_COLON_SINGLE");
    assert("NO_COLON_TWO"@.len() != "ADD_COLON_SINGLE"@.len());
    reveal_strlit("ADD_COLON_TWO");
    assert("NO_COLON_TWO"@.len() != "ADD_COLON_TWO"@.len());
    reveal_strlit("ADD_COLON_SPACE_SINGLE");
    assert("NO_COLON_TWO"@.len() != "ADD_COLON_SPACE_SINGLE"@.len());
    reveal_strlit("ADD_NEW_LINE_SINGLE");
    assert("NO_COLON_TWO"@.len() != "ADD_NEW_LINE_SINGLE"@.len());
    reveal_strlit("QWEN2_VL_EMBED");
    assert("NO_COLON_TWO"@.len() != "QWEN2_VL_EMBED"@.len());
    reveal_strlit("NO_COLON_SINGLE");
    assert("NO_COLON_TWO"@.len() != "NO_COLON_SINGLE"@.len());
}

/// `RWKV` names `Style::Rwkv`.
pub proof fn lemma_named_rwkv()
    ensures
        style_named("RWKV"@) == Some(Style::Rwkv),
{
    reveal_strlit("RWKV");
    reveal_strlit("ADD_COLON_SINGLE");
    assert("RWKV"@.len() != "ADD_COLON_SINGLE"@.len());
    reveal_strlit("ADD_COLON_TWO");
    assert("RWKV"@.len() != "ADD_COLON_TWO"@.len());
    reveal_strlit("ADD_COLON_SPACE_SINGLE");
    assert("RWKV"@.len() != "ADD_COLON_SPACE_SINGLE"@.len());
    reveal_strlit("ADD_NEW_LINE_SINGLE");
    assert("RWKV"@.len() != "ADD_NEW_LINE_SINGLE"@.len());
    reveal_strlit("QWEN2_VL_EMBED");
    assert("RWKV"@.len() != "QWEN2_VL_EMBED"@.len());
    reveal_strlit("NO_COLON_SINGLE");
    assert("RWKV"@.len() != "NO_COLON_SINGLE"@.len());
    reveal_strlit("NO_COLON_TWO");
    assert("RWKV"@.len() != "NO_COLON_TWO"@.len());
}

/// `LLAMA4` names `Style::Llama4`.
pub proof fn lemma_named_llama4()
    ensures
        style_named("LLAMA4"@) == Some(Style::Llama4),
{
    reveal_strlit("LLAMA4");
    reveal_strlit("ADD_COLON_SINGLE");
    assert("LLAMA4"@.len() != "ADD_COLON_SINGLE"@.len());
    reveal_strlit("ADD_COLON_TWO");
    assert("LLAMA4"@.len() != "ADD_COLON_TWO"@.len());
    reveal_strlit("ADD_COLON_SPACE_SINGLE");
    assert("LLAMA4"@.len() != "ADD_COLON_SPACE_SINGLE"@.len());
    reveal_strlit("ADD_NEW_LINE_SINGLE");
    assert("LLAMA4"@.len() != "ADD_NEW_LINE_SINGLE"@.len());
    reveal_strlit("QWEN2_VL_EMBED");
    assert("LLAMA4"@.len() != "QWEN2_VL_EMBED"@.len());
    reveal_strlit("NO_COLON_SINGLE");
    assert("LLAMA4"@.len() != "NO_COLON_SINGLE"@.len());
    reveal_strlit("NO_COLON_TWO");
    assert("LLAMA4"@.len() != "NO_COLON_TWO"@.len());
    reveal_strlit("RWKV");
    assert("LLAMA4"@.len() != "RWKV"@.len());
}

/// `LLAMA3` names `Style::Llama3`.
pub proof fn lemma_named_llama3()
    ensures
        style_named("LLAMA3"@) == Some(Style::Llama3),
{
    reveal_strlit("LLAMA3");
    reveal_strlit("ADD_COLON_SINGLE");
    assert("LLAMA3"@.len() != "ADD_COLON_SINGLE"@.len());
    reveal_strlit("ADD_COLON_TWO");
    assert("LLAMA3"@.len() != "ADD_COLON_TWO"@.len());
    reveal_strlit("ADD_COLON_SPACE_SINGLE");
    assert("LLAMA3"@.len() != "ADD_COLON_SPACE_SINGLE"@.len());
    reveal_strlit("ADD_NEW_LINE_SINGLE");
    assert("LLAMA3"@.len() != "ADD_NEW_LINE_SINGLE"@.len());
    reveal_strlit("QWEN2_VL_EMBED");
    assert("LLAMA3"@.len() != "QWEN2_VL_EMBED"@.len());
    reveal_strlit("NO_COLON_SINGLE");
    assert("LLAMA3"@.len() != "NO_COLON_SINGLE"@.len());
    reveal_strlit("NO_COLON_TWO");
    assert("LLAMA3"@.len() != "NO_COLON_TWO"@.len());
    reveal_strlit("RWKV");
    assert("LLAMA3"@.len() != "RWKV"@.len());
    reveal_strlit("LLAMA4");
    assert("LLAMA3"@[5] != "LLAMA4"@[5]);
}

/// `LLAMA2` names `Style::Llama2`.
pub proof fn lemma_named_llama2()
    ensures
        style_named("LLAMA2"@) == Some(Style::Llama2),
{
    reveal_strlit("LLAMA2");
    reveal_strlit("ADD_COLON_SINGLE");
    assert("LLAMA2"@.len() != "ADD_COLON_SINGLE"@.len());
    reveal_strlit("ADD_COLON_TWO");
    assert("LLAMA2"@.len() != "ADD_COLON_TWO"@.len());
    reveal_strlit("ADD_COLON_SPACE_SINGLE");
    assert("LLAMA2"@.len() != "ADD_COLON_SPACE_SINGLE"@.len());
    reveal_strlit("ADD_NEW_LINE_SINGLE");
    assert("LLAMA2"@.len() != "ADD_NEW_LINE_SINGLE"@.len());
    reveal_strlit("QWEN2_VL_EMBED");
    assert("LLAMA2"@.len() != "QWEN2_VL_EMBED"@.len());
    reveal_strlit("NO_COLON_SINGLE");
    assert("LLAMA2"@.len() != "NO_COLON_SINGLE"@.len());
    reveal_strlit("NO_COLON_TWO");
    assert("LLAMA2"@.len() != "NO_COLON_TWO"@.len());
    reveal_strlit("RWKV");
    assert("LLAMA2"@.len() != "RWKV"@.len());
    reveal_strlit("LLAMA4");
    assert("LLAMA2"@[5] != "LLAMA4"@[5]);
    reveal_strlit("LLAMA3");
    assert("LLAMA2"@[5] != "LLAMA3"@[5]);
}

/// `CHATGLM` names `Style::ChatGlm`.
pub proof fn lemma_named_chatglm()
    ensures
        style_named("CHATGLM"@) == Some(Style::ChatGlm),
{
    reveal_strlit("CHATGLM");
    reveal_strlit("ADD_COLON_SINGLE");
    assert("CHATGLM"@.len() != "ADD_COLON_SINGLE"@.len());
    reveal_strlit("ADD_COLON_TWO");
    assert("CHATGLM"@.len() != "ADD_COLON_TWO"@.len());
    reveal_strlit("ADD_COLON_SPACE_SINGLE");
    assert("CHATGLM"@.len() != "ADD_COLON_SPACE_SINGLE"@.len());
    reveal_strlit("ADD_NEW_LINE_SINGLE");
    assert("CHATGLM"@.len() != "ADD_NEW_LINE_SINGLE"@.len());
    reveal_strlit("QWEN2_VL_EMBED");
    assert("CHATGLM"@.len() != "QWEN2_VL_EMBED"@.len());
    reveal_strlit("NO_COLON_SINGLE");
    assert("CHATGLM"@.len() != "NO_COLON_SINGLE"@.len());
    reveal_strlit("NO_COLON_TWO");
    assert("CHATGLM"@.len() != "NO_COLON_TWO"@.len());
    reveal_strlit("RWKV");
    assert("CHATGLM"@.len() != "RWKV"@.len());
    reveal_strlit("LLAMA4");
    assert("CHATGLM"@.len() != "LLAMA4"@.len());
    reveal_strlit("LLAMA3");
    assert("CHATGLM"@.len() != "LLAMA3"@.len());
    reveal_strlit("LLAMA2");
    assert("CHATGLM"@.len() != "LLAMA2"@.len());
}

/// `CHATML` names `Style::ChatMl`.
pub proof fn lemma_named_chatml()
    ensures
        style_named("CHATML"@) == Some(Style::ChatMl),
{
    reveal_strlit("CHATML");
    reveal_strlit("ADD_COLON_SINGLE");
    assert("CHATML"@.len() != "ADD_COLON_SINGLE"@.len());
    reveal_strlit("ADD_COLON_TWO");
    assert("CHATML"@.len() != "ADD_COLON_TWO"@.len());
    reveal_strlit("ADD_COLON_SPACE_SINGLE");
    assert("CHATML"@.len() != "ADD_COLON_SPACE_SINGLE"@.len());
    reveal_strlit("ADD_NEW_LINE_SINGLE");
    assert("CHATML"@.len() != "ADD_NEW_LINE_SINGLE"@.len());
    reveal_strlit("QWEN2_VL_EMBED");
    assert("CHATML"@.len() != "QWEN2_VL_EMBED"@.len());
    reveal_strlit("NO_COLON_SINGLE");
    assert("CHATML"@.len() != "NO_COLON_SINGLE"@.len());
    reveal_strlit("NO_COLON_TWO");
    assert("CHATML"@.len() != "NO_COLON_TWO"@.len());
    reveal_strlit("RWKV");
    assert("CHATML"@.len() != "RWKV"@.len());
    reveal_strlit("LLAMA4");
    assert("CHATML"@[0] != "LLAMA4"@[0]);
    reveal_strlit("LLAMA3");
    assert("CHATML"@[0] != "LLAMA3"@[0]);
    reveal_strlit("LLAMA2");
    assert("CHATML"@[0] != "LLAMA2"@[0]);
    reveal_strlit("CHATGLM");
    assert("CHATML"@.len() != "CHATGLM"@.len());
}

/// `CHATGLM3` names `Style::ChatGlm3`.
pub proof fn lemma_named_chatglm3()
    ensures
        style_named("CHATGLM3"@) == Some(Style::ChatGlm3),
{
    reveal_strlit("CHATGLM3");
    reveal_strlit("ADD_COLON_SINGLE");
    assert("CHATGLM3"@.len() != "ADD_COLON_SINGLE"@.len());
    reveal_strlit("ADD_COLON_TWO");
    assert("CHATGLM3"@.len() != "ADD_COLON_TWO"@.len());
    reveal_strlit("ADD_COLON_SPACE_SINGLE");
    assert("CHATGLM3"@.len() != "ADD_COLON_SPACE_SINGLE"@.len());
    reveal_strlit("ADD_NEW_LINE_SINGLE");
    assert("CHATGLM3"@.len() != "ADD_NEW_LINE_SINGLE"@.len());
    reveal_strlit("QWEN2_VL_EMBED");
    assert("CHATGLM3"@.len() != "QWEN2_VL_EMBED"@.len());
    reveal_strlit("NO_COLON_SINGLE");
    assert("CHATGLM3"@.len() != "NO_COLON_SINGLE"@.len());
    reveal_strlit("NO_COLON_TWO");
    assert("CHATGLM3"@.len() != "NO_COLON_TWO"@.len());
    reveal_strlit("RWKV");
    assert("CHATGLM3"@.len() != "RWKV"@.len());
    reveal_strlit("LLAMA4");
    assert("CHATGLM3"@.len() != "LLAMA4"@.len());
    reveal_strlit("LLAMA3");
    assert("CHATGLM3"@.len() != "LLAMA3"@.len());
    reveal_strlit("LLAMA2");
    assert("CHATGLM3"@.len() != "LLAMA2"@.len());
    reveal_strlit("CHATGLM");
    assert("CHATGLM3"@.len() != "CHATGLM"@.len());
    reveal_strlit("CHATML");
    assert("CHATGLM3"@.len() != "CHATML"@.len());
}

/// `CHATINTERN` names `Style::ChatIntern`.
pub proof fn lemma_named_chatintern()
    ensures
        style_named("CHATINTERN"@) == Some(Style::ChatIntern),
{
    reveal_strlit("CHATINTERN");
    reveal_strlit("ADD_COLON_SINGLE");
    assert("CHATINTERN"@.len() != "ADD_COLON_SINGLE"@.len());
    reveal_strlit("ADD_COLON_TWO");
    assert("CHATINTERN"@.len() != "ADD_COLON_TWO"@.len());
    reveal_strlit("ADD_COLON_SPACE_SINGLE");
    assert("CHATINTERN"@.len() != "ADD_COLON_SPACE_SINGLE"@.len());
    reveal_strlit("ADD_NEW_LINE_SINGLE");
    assert("CHATINTERN"@.len() != "ADD_NEW_LINE_SINGLE"@.len());
    reveal_strlit("QWEN2_VL_EMBED");
    assert("CHATINTERN"@.len() != "QWEN2_VL_EMBED"@.len());
    reveal_strlit("NO_COLON_SINGLE");
    assert("CHATINTERN"@.len() != "NO_COLON_SINGLE"@.len());
    reveal_strlit("NO_COLON_TWO");
    assert("CHATINTERN"@.len() != "NO_COLON_TWO"@.len());
    reveal_strlit("RWKV");
    assert("CHATINTERN"@.len() != "RWKV"@.len());
    reveal_strlit("LLAMA4");
    assert("CHATINTERN"@.len() != "LLAMA4"@.len());
    reveal_strlit("LLAMA3");
    assert("CHATINTERN"@.len() != "LLAMA3"@.len());
    reveal_strlit("LLAMA2");
    assert("CHATINTERN"@.len() != "LLAMA2"@.len());
    reveal_strlit("CHATGLM");
    assert("CHATINTERN"@.len() != "CHATGLM"@.len());
    reveal_strlit("CHATML");
    assert("CHATINTERN"@.len() != "CHATML"@.len());
    reveal_strlit("CHATGLM3");
    assert("CHATINTERN"@.len() != "CHATGLM3"@.len());
}

/// `DOLLY` names `Style::Dolly`.
pub proof fn lemma_named_dolly()
    ensures
        style_named("DOLLY"@) == Some(Style::Dolly),
{
    reveal_strlit("DOLLY");
    reveal_strlit("ADD_COLON_SINGLE");
    assert("DOLLY"@.len() != "ADD_COLON_SINGLE"@.len());
    reveal_strlit("ADD_COLON_TWO");
    assert("DOLLY"@.len() != "ADD_COLON_TWO"@.len());
    reveal_strlit("ADD_COLON_SPACE_SINGLE");
    assert("DOLLY"@.len() != "ADD_COLON_SPACE_SINGLE"@.len());
    reveal_strlit("ADD_NEW_LINE_SINGLE");
    assert("DOLLY"@.len() != "ADD_NEW_LINE_SINGLE"@.len());
    reveal_strlit("QWEN2_VL_EMBED");
    assert("DOLLY"@.len() != "QWEN2_VL_EMBED"@.len());
    reveal_strlit("NO_COLON_SINGLE");
    assert("DOLLY"@.len() != "NO_COLON_SINGLE"@.len());
    reveal_strlit("NO_COLON_TWO");
    assert("DOLLY"@.len() != "NO_COLON_TWO"@.len());
    reveal_strlit("RWKV");
    assert("DOLLY"@.len() != "RWKV"@.len());
    reveal_strlit("LLAMA4");
    assert("DOLLY"@.len() != "LLAMA4"@.len());
    reveal_strlit("LLAMA3");
    assert("DOLLY"@.len() != "LLAMA3"@.len());
    reveal_strlit("LLAMA2");
    assert("DOLLY"@.len() != "LLAMA2"@.len());
    reveal_strlit("CHATGLM");
    assert("DOLLY"@.len() != "CHATGLM"@.len());
    reveal_strlit("CHATML");
    assert("DOLLY"@.len() != "CHATML"@.len());
    reveal_strlit("CHATGLM3");
    assert("DOLLY"@.len() != "CHATGLM3"@.len());
    reveal_strlit("CHATINTERN");
    assert("DOLLY"@.len() != "CHATINTERN"@.len());
}

/// `PHOENIX` names `Style::Phoenix`.
pub proof fn lemma_named_phoenix()
    ensures
        style_named("PHOENIX"@) == Some(Style::Phoenix),
{
    reveal_strlit("PHOENIX");
    reveal_strlit("ADD_COLON_SINGLE");
    assert("PHOENIX"@.len() != "ADD_COLON_SINGLE"@.len());
    reveal_strlit("ADD_COLON_TWO");
    assert("PHOENIX"@.len() != "ADD_COLON_TWO"@.len());
    reveal_strlit("ADD_COLON_SPACE_SINGLE");
    assert("PHOENIX"@.len() != "ADD_COLON_SPACE_SINGLE"@.len());
    reveal_strlit("ADD_NEW_LINE_SINGLE");
    assert("PHOENIX"@.len() != "ADD_NEW_LINE_SINGLE"@.len());
    reveal_strlit("QWEN2_VL_EMBED");
    assert("PHOENIX"@.len() != "QWEN2_VL_EMBED"@.len());
    reveal_strlit("NO_COLON_SINGLE");
    assert("PHOENIX"@.len() != "NO_COLON_SINGLE"@.len());
    reveal_strlit("NO_COLON_TWO");
    assert("PHOENIX"@.len() != "NO_COLON_TWO"@.len());
    reveal_strlit("RWKV");
    assert("PHOENIX"@.len() != "RWKV"@.len());
    reveal_strlit("LLAMA4");
    assert("PHOENIX"@.len() != "LLAMA4"@.len());
    reveal_strlit("LLAMA3");
    assert("PHOENIX"@.len() != "LLAMA3"@.len());
    reveal_strlit("LLAMA2");
    assert("PHOENIX"@.len() != "LLAMA2"@.len());
    reveal_strlit("CHATGLM");
    assert("PHOENIX"@[0] != "CHATGLM"@[0]);
    reveal_strlit("CHATML");
    assert("PHOENIX"@.len() != "CHATML"@.len());
    reveal_strlit("CHATGLM3");
    assert("PHOENIX"@.len() != "CHATGLM3"@.len());
    reveal_strlit("CHATINTERN");
    assert("PHOENIX"@.len() != "CHATINTERN"@.len());
    reveal_strlit("DOLLY");
    assert("PHOENIX"@.len() != "DOLLY"@.len());
}

/// `ROBIN` names `Style::Robin`.
pub proof fn lemma_named_robin()
    ensures
        style_named("ROBIN"@) == Some(Style::Robin),
{
    reveal_strlit("ROBIN");
    reveal_strlit("ADD_COLON_SINGLE");
    assert("ROBIN"@.len() != "ADD_COLON_SINGLE"@.len());
    reveal_strlit("ADD_COLON_TWO");
    assert("ROBIN"@.len() != "ADD_COLON_TWO"@.len());
    reveal_strlit("ADD_COLON_SPACE_SINGLE");
    assert("ROBIN"@.len() != "ADD_COLON_SPACE_SINGLE"@.len());
    reveal_strlit("ADD_NEW_LINE_SINGLE");
    assert("ROBIN"@.len() != "ADD_NEW_LINE_SINGLE"@.len());
    reveal_strlit("QWEN2_VL_EMBED");
    assert("ROBIN"@.len() != "QWEN2_VL_EMBED"@.len());
    reveal_strlit("NO_COLON_SINGLE");
    assert("ROBIN"@.len() != "NO_COLON_SINGLE"@.len());
    reveal_strlit("NO_COLON_TWO");
    assert("ROBIN"@.len() != "NO_COLON_TWO"@.len());
    reveal_strlit("RWKV");
    assert("ROBIN"@.len() != "RWKV"@.len());
    reveal_strlit("LLAMA4");
    assert("ROBIN"@.len() != "LLAMA4"@.len());
    reveal_strlit("LLAMA3");
    assert("ROBIN"@.len() != "LLAMA3"@.len());
    reveal_strlit("LLAMA2");
    assert("ROBIN"@.len() != "LLAMA2"@.len());
    reveal_strlit("CHATGLM");
    assert("ROBIN"@.len() != "CHATGLM"@.len());
    reveal_strlit("CHATML");
    assert("ROBIN"@.len() != "CHATML"@.len());
    reveal_strlit("CHATGLM3");
    assert("ROBIN"@.len() != "CHATGLM3"@.len());
    reveal_strlit("CHATINTERN");
    assert("ROBIN"@.len() != "CHATINTERN"@.len());
    reveal_strlit("DOLLY");
    assert("ROBIN"@[0] != "DOLLY"@[0]);
    reveal_strlit("PHOENIX");
    assert("ROBIN"@.len() != "PHOENIX"@.len());
}

/// `FALCON_CHAT` names `Style::FalconChat`.
pub proof fn lemma_named_falcon_chat()
    ensures
        style_named("FALCON_CHAT"@) == Some(Style::FalconChat),
{
    reveal_strlit("FALCON_CHAT");
    reveal_strlit("ADD_COLON_SINGLE");
    assert("FALCON_CHAT"@.len() != "ADD_COLON_SINGLE"@.len());
    reveal_strlit("ADD_COLON_TWO");
    assert("FALCON_CHAT"@.len() != "ADD_COLON_TWO"@.len());
    reveal_strlit("ADD_COLON_SPACE_SINGLE");
    assert("FALCON_CHAT"@.len() != "ADD_COLON_SPACE_SINGLE"@.len());
    reveal_strlit("ADD_NEW_LINE_SINGLE");
    assert("FALCON_CHAT"@.len() != "ADD_NEW_LINE_SINGLE"@.len());
    reveal_strlit("QWEN2_VL_EMBED");
    assert("FALCON_CHAT"@.len() != "QWEN2_VL_EMBED"@.len());
    reveal_strlit("NO_COLON_SINGLE");
    assert("FALCON_CHAT"@.len() != "NO_COLON_SINGLE"@.len());
    reveal_strlit("NO_COLON_TWO");
    assert("FALCON_CHAT"@.len() != "NO_COLON_TWO"@.len());
    reveal_strlit("RWKV");
    assert("FALCON_CHAT"@.len() != "RWKV"@.len());
    reveal_strlit("LLAMA4");
    assert("FALCON_CHAT"@.len() != "LLAMA4"@.len());
    reveal_strlit("LLAMA3");
    assert("FALCON_CHAT"@.len() != "LLAMA3"@.len());
    reveal_strlit("LLAMA2");
    assert("FALCON_CHAT"@.len() != "LLAMA2"@.len());
    reveal_strlit("CHATGLM");
    assert("FALCON_CHAT"@.len() != "CHATGLM"@.len());
    reveal_strlit("CHATML");
    assert("FALCON_CHAT"@.len() != "CHATML"@.len());
    reveal_strlit("CHATGLM3");
    assert("FALCON_CHAT"@.len() != "CHATGLM3"@.len());
    reveal_strlit("CHATINTERN");
    assert("FALCON_CHAT"@.len() != "CHATINTERN"@.len());
    reveal_strlit("DOLLY");
    assert("FALCON_CHAT"@.len() != "DOLLY"@.len());
    reveal_strlit("PHOENIX");
    assert("FALCON_CHAT"@.len() != "PHOENIX"@.len());
    reveal_strlit("ROBIN");
    assert("FALCON_CHAT"@.len() != "ROBIN"@.len());
}

/// `METAMATH` names `Style::MetaMath`.
pub proof fn lemma_named_metamath()
    ensures
        style_named("METAMATH"@) == Some(Style::MetaMath),
{
    reveal_strlit("METAMATH");
    reveal_strlit("ADD_COLON_SINGLE");
    assert("METAMATH"@.len() != "ADD_COLON_SINGLE"@.len());
    reveal_strlit("ADD_COLON_TWO");
    assert("METAMATH"@.len() != "ADD_COLON_TWO"@.len());
    reveal_strlit("ADD_COLON_SPACE_SINGLE");
    assert("METAMATH"@.len() != "ADD_COLON_SPACE_SINGLE"@.len());
    reveal_strlit("ADD_NEW_LINE_SINGLE");
    assert("METAMATH"@.len() != "ADD_NEW_LINE_SINGLE"@.len());
    reveal_strlit("QWEN2_VL_EMBED");
    assert("METAMATH"@.len() != "QWEN2_VL_EMBED"@.len());
    reveal_strlit("NO_COLON_SINGLE");
    assert("METAMATH"@.len() != "NO_COLON_SINGLE"@.len());
    reveal_strlit("NO_COLON_TWO");
    assert("METAMATH"@.len() != "NO_COLON_TWO"@.len());
    reveal_strlit("RWKV");
    assert("METAMATH"@.len() != "RWKV"@.len());
    reveal_strlit("LLAMA4");
    assert("METAMATH"@.len() != "LLAMA4"@.len());
    reveal_strlit("LLAMA3");
    assert("METAMATH"@.len() != "LLAMA3"@.len());
    reveal_strlit("LLAMA2");
    assert("METAMATH"@.len() != "LLAMA2"@.len());
    reveal_strlit("CHATGLM");
    assert("METAMATH"@.len() != "CHATGLM"@.len());
    reveal_strlit("CHATML");
    assert("METAMATH"@.len() != "CHATML"@.len());
    reveal_strlit("CHATGLM3");
    assert("METAMATH"@[0] != "CHATGLM3"@[0]);
    reveal_strlit("CHATINTERN");
    assert("METAMATH"@.len() != "CHATINTERN"@.len());
    reveal_strlit("DOLLY");
    assert("METAMATH"@.len() != "DOLLY"@.len());
    reveal_strlit("PHOENIX");
    assert("METAMATH"@.len() != "PHOENIX"@.len());
    reveal_strlit("ROBIN");
    assert("METAMATH"@.len() != "ROBIN"@.len());
    reveal_strlit("FALCON_CHAT");
    assert("METAMATH"@.len() != "FALCON_CHAT"@.len());
}

/// `DEEPSEEK_CHAT` names `Style::DeepSeekChat`.
pub proof fn lemma_named_deepseek_chat()
    ensures
        style_named("DEEPSEEK_CHAT"@) == Some(Style::DeepSeekChat),
{
    reveal_strlit("DEEPSEEK_CHAT");
    reveal_strlit("ADD_COLON_SINGLE");
    assert("DEEPSEEK_CHAT"@.len() != "ADD_COLON_SINGLE"@.len());
    reveal_strlit("ADD_COLON_TWO");
    assert("DEEPSEEK_CHAT"@[0] != "ADD_COLON_TWO"@[0]);
    reveal_strlit("ADD_COLON_SPACE_SINGLE");
    assert("DEEPSEEK_CHAT"@.len() != "ADD_COLON_SPACE_SINGLE"@.len());
    reveal_strlit("ADD_NEW_LINE_SINGLE");
    assert("DEEPSEEK_CHAT"@.len() != "ADD_NEW_LINE_SINGLE"@.len());
    reveal_strlit("QWEN2_VL_EMBED");
    assert("DEEPSEEK_CHAT"@.len() != "QWEN2_VL_EMBED"@.len());
    reveal_strlit("NO_COLON_SINGLE");
    assert("DEEPSEEK_CHAT"@.len() != "NO_COLON_SINGLE"@.len());
    reveal_strlit("NO_COLON_TWO");
    assert("DEEPSEEK_CHAT"@.len() != "NO_COLON_TWO"@.len());
    reveal_strlit("RWKV");
    assert("DEEPSEEK_CHAT"@.len() != "RWKV"@.len());
    reveal_strlit("LLAMA4");
    assert("DEEPSEEK_CHAT"@.len() != "LLAMA4"@.len());
    reveal_strlit("LLAMA3");
    assert("DEEPSEEK_CHAT"@.len() != "LLAMA3"@.len());
    reveal_strlit("LLAMA2");
    assert("DEEPSEEK_CHAT"@.len() != "LLAMA2"@.len());
    reveal_strlit("CHATGLM");
    assert("DEEPSEEK_CHAT"@.len() != "CHATGLM"@.len());
    reveal_strlit("CHATML");
    assert("DEEPSEEK_CHAT"@.len() != "CHATML"@.len());
    reveal_strlit("CHATGLM3");
    assert("DEEPSEEK_CHAT"@.len() != "CHATGLM3"@.len());
    reveal_strlit("CHATINTERN");
    assert("DEEPSEEK_CHAT"@.len() != "CHATINTERN"@.len());
    reveal_strlit("DOLLY");
    assert("DEEPSEEK_CHAT"@.len() != "DOLLY"@.len());
    reveal_strlit("PHOENIX");
    assert("DEEPSEEK_CHAT"@.len() != "PHOENIX"@.len());
    reveal_strlit("ROBIN");
    assert("DEEPSEEK_CHAT"@.len() != "ROBIN"@.len());
    reveal_strlit("FALCON_CHAT");
    assert("DEEPSEEK_CHAT"@.len() != "FALCON_CHAT"@.len());
    reveal_strlit("METAMATH");
    assert("DEEPSEEK_CHAT"@.len() != "METAMATH"@.len());
}

/// `DeepSeekVL2` names `Style::DeepSeekVl2`.
pub proof fn lemma_named_deepseekvl2()
    ensures
        style_named("DeepSeekVL2"@) == Some(Style::DeepSeekVl2),
{
    reveal_strlit("DeepSeekVL2");
    reveal_strlit("ADD_COLON_SINGLE");
    assert("DeepSeekVL2"@.len() != "ADD_COLON_SINGLE"@.len());
    reveal_strlit("ADD_COLON_TWO");
    assert("DeepSeekVL2"@.len() != "ADD_COLON_TWO"@.len());
    reveal_strlit("ADD_COLON_SPACE_SINGLE");
    assert("DeepSeekVL2"@.len() != "ADD_COLON_SPACE_SINGLE"@.len());
    reveal_strlit("ADD_NEW_LINE_SINGLE");
    assert("DeepSeekVL2"@.len() != "ADD_NEW_LINE_SINGLE"@.len());
    reveal_strlit("QWEN2_VL_EMBED");
    assert("DeepSeekVL2"@.len() != "QWEN2_VL_EMBED"@.len());
    reveal_strlit("NO_COLON_SINGLE");
    assert("DeepSeekVL2"@.len() != "NO_COLON_SINGLE"@.len());
    reveal_strlit("NO_COLON_TWO");
    assert("DeepSeekVL2"@.len() != "NO_COLON_TWO"@.len());
    reveal_strlit("RWKV");
    assert("DeepSeekVL2"@.len() != "RWKV"@.len());
    reveal_strlit("LLAMA4");
    assert("DeepSeekVL2"@.len() != "LLAMA4"@.len());
    reveal_strlit("LLAMA3");
    assert("DeepSeekVL2"@.len() != "LLAMA3"@.len());
    reveal_strlit("LLAMA2");
    assert("DeepSeekVL2"@.len() != "LLAMA2"@.len());
    reveal_strlit("CHATGLM");
    assert("DeepSeekVL2"@.len() != "CHATGLM"@.len());
    reveal_strlit("CHATML");
    assert("DeepSeekVL2"@.len() != "CHATML"@.len());
    reveal_strlit("CHATGLM3");
    assert("DeepSeekVL2"@.len() != "CHATGLM3"@.len());
    reveal_strlit("CHATINTERN");
    assert("DeepSeekVL2"@.len() != "CHATINTERN"@.len());
    reveal_strlit("DOLLY");
    assert("DeepSeekVL2"@.len() != "DOLLY"@.len());
    reveal_strlit("PHOENIX");
    assert("DeepSeekVL2"@.len() != "PHOENIX"@.len());
    reveal_strlit("ROBIN");
    assert("DeepSeekVL2"@.len() != "ROBIN"@.len());
    reveal_strlit("FALCON_CHAT");
    assert("DeepSeekVL2"@[0] != "FALCON_CHAT"@[0]);
    reveal_strlit("METAMATH");
    assert("DeepSeekVL2"@.len() != "METAMATH"@.len());
    reveal_strlit("DEEPSEEK_CHAT");
    assert("DeepSeekVL2"@.len() != "DEEPSEEK_CHAT"@.len());
}

/// `GEMMA3` names `Style::Gemma3`.
pub proof fn lemma_named_gemma3()
    ensures
        style_named("GEMMA3"@) == Some(Style::Gemma3),
{
    reveal_strlit("GEMMA3");
    reveal_strlit("ADD_COLON_SINGLE");
    assert("GEMMA3"@.len() != "ADD_COLON_SINGLE"@.len());
    reveal_strlit("ADD_COLON_TWO");
    assert("GEMMA3"@.len() != "ADD_COLON_TWO"@.len());
    reveal_strlit("ADD_COLON_SPACE_SINGLE");
    assert("GEMMA3"@.len() != "ADD_COLON_SPACE_SINGLE"@.len());
    reveal_strlit("ADD_NEW_LINE_SINGLE");
    assert("GEMMA3"@.len() != "ADD_NEW_LINE_SINGLE"@.len());
    reveal_strlit("QWEN2_VL_EMBED");
    assert("GEMMA3"@.len() != "QWEN2_VL_EMBED"@.len());
    reveal_strlit("NO_COLON_SINGLE");
    assert("GEMMA3"@.len() != "NO_COLON_SINGLE"@.len());
    reveal_strlit("NO_COLON_TWO");
    assert("GEMMA3"@.len() != "NO_COLON_TWO"@.len());
    reveal_strlit("RWKV");
    assert("GEMMA3"@.len() != "RWKV"@.len());
    reveal_strlit("LLAMA4");
    assert("GEMMA3"@[0] != "LLAMA4"@[0]);
    reveal_strlit("LLAMA3");
    assert("GEMMA3"@[0] != "LLAMA3"@[0]);
    reveal_strlit("LLAMA2");
    assert("GEMMA3"@[0] != "LLAMA2"@[0]);
    reveal_strlit("CHATGLM");
    assert("GEMMA3"@.len() != "CHATGLM"@.len());
    reveal_strlit("CHATML");
    assert("GEMMA3"@[0] != "CHATML"@[0]);
    reveal_strlit("CHATGLM3");
    assert("GEMMA3"@.len() != "CHATGLM3"@.len());
    reveal_strlit("CHATINTERN");
    assert("GEMMA3"@.len() != "CHATINTERN"@.len());
    reveal_strlit("DOLLY");
    assert("GEMMA3"@.len() != "DOLLY"@.len());
    reveal_strlit("PHOENIX");
    assert("GEMMA3"@.len() != "PHOENIX"@.len());
    reveal_strlit("ROBIN");
    assert("GEMMA3"@.len() != "ROBIN"@.len());
    reveal_strlit("FALCON_CHAT");
    assert("GEMMA3"@.len() != "FALCON_CHAT"@.len());
    reveal_strlit("METAMATH");
    assert("GEMMA3"@.len() != "METAMATH"@.len());
    reveal_strlit("DEEPSEEK_CHAT");
    assert("GEMMA3"@.len() != "DEEPSEEK_CHAT"@.len());
    reveal_strlit("DeepSeekVL2");
    assert("GEMMA3"@.len() != "DeepSeekVL2"@.len());
}

/// `MPT` names `Style::Mpt`.
pub proof fn lemma_named_mpt()
    ensures
        style_named("MPT"@) == Some(Style::Mpt),
{
    reveal_strlit("MPT");
    reveal_strlit("ADD_COLON_SINGLE");
    assert("MPT"@.len() != "ADD_COLON_SINGLE"@.len());
    reveal_strlit("ADD_COLON_TWO");
    assert("MPT"@.len() != "ADD_COLON_TWO"@.len());
    reveal_strlit("ADD_COLON_SPACE_SINGLE");
    assert("MPT"@.len() != "ADD_COLON_SPACE_SINGLE"@.len());
    reveal_strlit("ADD_NEW_LINE_SINGLE");
    assert("MPT"@.len() != "ADD_NEW_LINE_SINGLE"@.len());
    reveal_strlit("QWEN2_VL_EMBED");
    assert("MPT"@.len() != "QWEN2_VL_EMBED"@.len());
    reveal_strlit("NO_COLON_SINGLE");
    assert("MPT"@.len() != "NO_COLON_SINGLE"@.len());
    reveal_strlit("NO_COLON_TWO");
    assert("MPT"@.len() != "NO_COLON_TWO"@.len());
    reveal_strlit("RWKV");
    assert("MPT"@.len() != "RWKV"@.len());
    reveal_strlit("LLAMA4");
    assert("MPT"@.len() != "LLAMA4"@.len());
    reveal_strlit("LLAMA3");
    assert("MPT"@.len() != "LLAMA3"@.len());
    reveal_strlit("LLAMA2");
    assert("MPT"@.len() != "LLAMA2"@.len());
    reveal_strlit("CHATGLM");
    assert("MPT"@.len() != "CHATGLM"@.len());
    reveal_strlit("CHATML");
    assert("MPT"@.len() != "CHATML"@.len());
    reveal_strlit("CHATGLM3");
    assert("MPT"@.len() != "CHATGLM3"@.len());
    reveal_strlit("CHATINTERN");
    assert("MPT"@.len() != "CHATINTERN"@.len());
    reveal_strlit("DOLLY");
    assert("MPT"@.len() != "DOLLY"@.len());
    reveal_strlit("PHOENIX");
    assert("MPT"@.len() != "PHOENIX"@.len());
    reveal_strlit("ROBIN");
    assert("MPT"@.len() != "ROBIN"@.len());
    reveal_strlit("FALCON_CHAT");
    assert("MPT"@.len() != "FALCON_CHAT"@.len());
    reveal_strlit("METAMATH");
    assert("MPT"@.len() != "METAMATH"@.len());
    reveal_strlit("DEEPSEEK_CHAT");
    assert("MPT"@.len() != "DEEPSEEK_CHAT"@.len());
    reveal_strlit("DeepSeekVL2");
    assert("MPT"@.len() != "DeepSeekVL2"@.len());
    reveal_strlit("GEMMA3");
    assert("MPT"@.len() != "GEMMA3"@.len());
}

/// `QWEN2_AUDIO` names `Style::Qwen2Audio`.
pub proof fn lemma_named_qwen2_audio()
    ensures
        style_named("QWEN2_AUDIO"@) == Some(Style::Qwen2Audio),
{
    reveal_strlit("QWEN2_AUDIO");
    reveal_strlit("ADD_COLON_SINGLE");
    assert("QWEN2_AUDIO"@.len() != "ADD_COLON_SINGLE"@.len());
    reveal_strlit("ADD_COLON_TWO");
    assert("QWEN2_AUDIO"@.len() != "ADD_COLON_TWO"@.len());
    reveal_strlit("ADD_COLON_SPACE_SINGLE");
    assert("QWEN2_AUDIO"@.len() != "ADD_COLON_SPACE_SINGLE"@.len());
    reveal_strlit("ADD_NEW_LINE_SINGLE");
    assert("QWEN2_AUDIO"@.len() != "ADD_NEW_LINE_SINGLE"@.len());
    reveal_strlit("QWEN2_VL_EMBED");
    assert("QWEN2_AUDIO"@.len() != "QWEN2_VL_EMBED"@.len());
    reveal_strlit("NO_COLON_SINGLE");
    assert("QWEN2_AUDIO"@.len() != "NO_COLON_SINGLE"@.len());
    reveal_strlit("NO_COLON_TWO");
    assert("QWEN2_AUDIO"@.len() != "NO_COLON_TWO"@.len());
    reveal_strlit("RWKV");
    assert("QWEN2_AUDIO"@.len() != "RWKV"@.len());
    reveal_strlit("LLAMA4");
    assert("QWEN2_AUDIO"@.len() != "LLAMA4"@.len());
    reveal_strlit("LLAMA3");
    assert("QWEN2_AUDIO"@.len() != "LLAMA3"@.len());
    reveal_strlit("LLAMA2");
    assert("QWEN2_AUDIO"@.len() != "LLAMA2"@.len());
    reveal_strlit("CHATGLM");
    assert("QWEN2_AUDIO"@.len() != "CHATGLM"@.len());
    reveal_strlit("CHATML");
    assert("QWEN2_AUDIO"@.len() != "CHATML"@.len());
    reveal_strlit("CHATGLM3");
    assert("QWEN2_AUDIO"@.len() != "CHATGLM3"@.len());
    reveal_strlit("CHATINTERN");
    assert("QWEN2_AUDIO"@.len() != "CHATINTERN"@.len());
    reveal_strlit("DOLLY");
    assert("QWEN2_AUDIO"@.len() != "DOLLY"@.len());
    reveal_strlit("PHOENIX");
    assert("QWEN2_AUDIO"@.len() != "PHOENIX"@.len());
    reveal_strlit("ROBIN");
    assert("QWEN2_AUDIO"@.len() != "ROBIN"@.len());
    reveal_strlit("FALCON_CHAT");
    assert("QWEN2_AUDIO"@[0] != "FALCON_CHAT"@[0]);
    reveal_strlit("METAMATH");
    assert("QWEN2_AUDIO"@.len() != "METAMATH"@.len());
    reveal_strlit("DEEPSEEK_CHAT");
    assert("QWEN2_AUDIO"@.len() != "DEEPSEEK_CHAT"@.len());
    reveal_strlit("DeepSeekVL2");
    assert("QWEN2_AUDIO"@[0] != "DeepSeekVL2"@[0]);
    reveal_strlit("GEMMA3");
    assert("QWEN2_AUDIO"@.len() != "GEMMA3"@.len());
    reveal_strlit("MPT");
    assert("QWEN2_AUDIO"@.len() != "MPT"@.len());
}

/// `PADDLE_OCR` names `Style::PaddleOcr`.
pub proof fn lemma_named_paddle_ocr()
    ensures
        style_named("PADDLE_OCR"@) == Some(Style::PaddleOcr),
{
    reveal_strlit("PADDLE_OCR");
    reveal_strlit("ADD_COLON_SINGLE");
    assert("PADDLE_OCR"@.len() != "ADD_COLON_SINGLE"@.len());
    reveal_strlit("ADD_COLON_TWO");
    assert("PADDLE_OCR"@.len() != "ADD_COLON_TWO"@.len());
    reveal_strlit("ADD_COLON_SPACE_SINGLE");
    assert("PADDLE_OCR"@.len() != "ADD_COLON_SPACE_SINGLE"@.len());
    reveal_strlit("ADD_NEW_LINE_SINGLE");
    assert("PADDLE_OCR"@.len() != "ADD_NEW_LINE_SINGLE"@.len());
    reveal_strlit("QWEN2_VL_EMBED");
    assert("PADDLE_OCR"@.len() != "QWEN2_VL_EMBED"@.len());
    reveal_strlit("NO_COLON_SINGLE");
    assert("PADDLE_OCR"@.len() != "NO_COLON_SINGLE"@.len());
    reveal_strlit("NO_COLON_TWO");
    assert("PADDLE_OCR"@.len() != "NO_COLON_TWO"@.len());
    reveal_strlit("RWKV");
    assert("PADDLE_OCR"@.len() != "RWKV"@.len());
    reveal_strlit("LLAMA4");
    assert("PADDLE_OCR"@.len() != "LLAMA4"@.len());
    reveal_strlit("LLAMA3");
    assert("PADDLE_OCR"@.len() != "LLAMA3"@.len());
    reveal_strlit("LLAMA2");
    assert("PADDLE_OCR"@.len() != "LLAMA2"@.len());
    reveal_strlit("CHATGLM");
    assert("PADDLE_OCR"@.len() != "CHATGLM"@.len());
    reveal_strlit("CHATML");
    assert("PADDLE_OCR"@.len() != "CHATML"@.len());
    reveal_strlit("CHATGLM3");
    assert("PADDLE_OCR"@.len() != "CHATGLM3"@.len());
    reveal_strlit("CHATINTERN");
    assert("PADDLE_OCR"@[0] != "CHATINTERN"@[0]);
    reveal_strlit("DOLLY");
    assert("PADDLE_OCR"@.len() != "DOLLY"@.len());
    reveal_strlit("PHOENIX");
    assert("PADDLE_OCR"@.len() != "PHOENIX"@.len());
    reveal_strlit("ROBIN");
    assert("PADDLE_OCR"@.len() != "ROBIN"@.len());
    reveal_strlit("FALCON_CHAT");
    assert("PADDLE_OCR"@.len() != "FALCON_CHAT"@.len());
    reveal_strlit("METAMATH");
    assert("PADDLE_OCR"@.len() != "METAMATH"@.len());
    reveal_strlit("DEEPSEEK_CHAT");
    assert("PADDLE_OCR"@.len() != "DEEPSEEK_CHAT"@.len());
    reveal_strlit("DeepSeekVL2");
    assert("PADDLE_OCR"@.len() != "DeepSeekVL2"@.len());
    reveal_strlit("GEMMA3");
    assert("PADDLE_OCR"@.len() != "GEMMA3"@.len());
    reveal_strlit("MPT");
    assert("PADDLE_OCR"@.len() != "MPT"@.len());
    reveal_strlit("QWEN2_AUDIO");
    assert("PADDLE_OCR"@.len() != "QWEN2_AUDIO"@.len());
}

/// `UNLIMITED_OCR` names `Style::UnlimitedOcr`.
pub proof fn lemma_named_unlimited_ocr()
    ensures
        style_named("UNLIMITED_OCR"@) == Some(Style::UnlimitedOcr),
{
    reveal_strlit("UNLIMITED_OCR");
    reveal_strlit("ADD_COLON_SINGLE");
    assert("UNLIMITED_OCR"@.len() != "ADD_COLON_SINGLE"@.len());
    reveal_strlit("ADD_COLON_TWO");
    assert("UNLIMITED_OCR"@[0] != "ADD_COLON_TWO"@[0]);
    reveal_strlit("ADD_COLON_SPACE_SINGLE");
    assert("UNLIMITED_OCR"@.len() != "ADD_COLON_SPACE_SINGLE"@.len());
    reveal_strlit("ADD_NEW_LINE_SINGLE");
    assert("UNLIMITED_OCR"@.len() != "ADD_NEW_LINE_SINGLE"@.len());
    reveal_strlit("QWEN2_VL_EMBED");
    assert("UNLIMITED_OCR"@.len() != "QWEN2_VL_EMBED"@.len());
    reveal_strlit("NO_COLON_SINGLE");
    assert("UNLIMITED_OCR"@.len() != "NO_COLON_SINGLE"@.len());
    reveal_strlit("NO_COLON_TWO");
    assert("UNLIMITED_OCR"@.len() != "NO_COLON_TWO"@.len());
    reveal_strlit("RWKV");
    assert("UNLIMITED_OCR"@.len() != "RWKV"@.len());
    reveal_strlit("LLAMA4");
    assert("UNLIMITED_OCR"@.len() != "LLAMA4"@.len());
    reveal_strlit("LLAMA3");
    assert("UNLIMITED_OCR"@.len() != "LLAMA3"@.len());
    reveal_strlit("LLAMA2");
    assert("UNLIMITED_OCR"@.len() != "LLAMA2"@.len());
    reveal_strlit("CHATGLM");
    assert("UNLIMITED_OCR"@.len() != "CHATGLM"@.len());
    reveal_strlit("CHATML");
    assert("UNLIMITED_OCR"@.len() != "CHATML"@.len());
    reveal_strlit("CHATGLM3");
    assert("UNLIMITED_OCR"@.len() != "CHATGLM3"@.len());
    reveal_strlit("CHATINTERN");
    assert("UNLIMITED_OCR"@.len() != "CHATINTERN"@.len());
    reveal_strlit("DOLLY");
    assert("UNLIMITED_OCR"@.len() != "DOLLY"@.len());
    reveal_strlit("PHOENIX");
    assert("UNLIMITED_OCR"@.len() != "PHOENIX"@.len());
    reveal_strlit("ROBIN");
    assert("UNLIMITED_OCR"@.len() != "ROBIN"@.len());
    reveal_strlit("FALCON_CHAT");
    assert("UNLIMITED_OCR"@.len() != "FALCON_CHAT"@.len());
    reveal_strlit("METAMATH");
    assert("UNLIMITED_OCR"@.len() != "METAMATH"@.len());
    reveal_strlit("DEEPSEEK_CHAT");
    assert("UNLIMITED_OCR"@[0] != "DEEPSEEK_CHAT"@[0]);
    reveal_strlit("DeepSeekVL2");
    assert("UNLIMITED_OCR"@.len() != "DeepSeekVL2"@.len());
    reveal_strlit("GEMMA3");
    assert("UNLIMITED_OCR"@.len() != "GEMMA3"@.len());
    reveal_strlit("MPT");
    assert("UNLIMITED_OCR"@.len() != "MPT"@.len());
    reveal_strlit("QWEN2_AUDIO");
    assert("UNLIMITED_OCR"@.len() != "QWEN2_AUDIO"@.len());
    reveal_strlit("PADDLE_OCR");
    assert("UNLIMITED_OCR"@.len() != "PADDLE_OCR"@.len());
}

} // verus!
