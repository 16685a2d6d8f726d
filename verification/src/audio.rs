//! Numbering of audio placeholders for the `QWEN2_AUDIO` style.
//!
//! While a message still holds the audio token, its first occurrence is
//! replaced by the token with `{idx}` filled in with a running counter.
//! A token without `{idx}` would be replaced by itself forever; the
//! numbering stops instead. Every replacement removes at least one `{`
//! from the message, which bounds the number of rounds.
use vstd::prelude::*;
use crate::text::{
    chars_eq, contains, count_char, decimal, first_replaced, has_substring, lemma_decimal_no_brace,
    lemma_first_replaced_count, lemma_replaced_braces, push_decimal, replace_all, replace_first,
    replaced,
};

verus! {

/// The placeholder that an audio token numbers: `{idx}`.
pub open spec fn idx_placeholder() -> Seq<char> {
    seq!['{', 'i', 'd', 'x', '}']
}

/// The audio token with every `{idx}` replaced by the counter in decimal.
pub open spec fn numbered_token(token: Seq<char>, counter: nat) -> Seq<char> {
    replaced(token, idx_placeholder(), decimal(counter))
}

/// A numbering round that changes the token strictly lowers the number of
/// `{` in the message.
pub proof fn lemma_numbering_progress(message: Seq<char>, token: Seq<char>, counter: nat)
    requires
        has_substring(message, token),
        numbered_token(token, counter) != token,
    ensures
        count_char(first_replaced(message, token, numbered_token(token, counter)), '{')
            < count_char(message, '{'),
{
    let indexed = numbered_token(token, counter);
    lemma_decimal_no_brace(counter);
    lemma_replaced_braces(token, idx_placeholder(), decimal(counter));
    lemma_first_replaced_count(message, token, indexed, '{');
}

/// The message after numbering its audio tokens from `counter` on, and the
/// counter after the last number used.
pub open spec fn numbered_audio(message: Seq<char>, token: Seq<char>, counter: nat) -> (Seq<
    char,
>, nat)
    decreases count_char(message, '{'),
{
    if has_substring(message, token) {
        let indexed = numbered_token(token, counter);
        if indexed == token {
            (message, counter)
        } else {
            proof {
                lemma_numbering_progress(message, token, counter);
            }
            numbered_audio(first_replaced(message, token, indexed), token, counter + 1)
        }
    } else {
        (message, counter)
    }
}

/// Numbering advances the counter by at most the number of `{` in the
/// message.
pub proof fn lemma_numbered_audio_counter(message: Seq<char>, token: Seq<char>, counter: nat)
    ensures
        counter <= numbered_audio(message, token, counter).1 <= counter + count_char(
            message,
            '{',
        ),
    decreases count_char(message, '{'),
{
    if has_substring(message, token) {
        let indexed = numbered_token(token, counter);
        if indexed != token {
            lemma_numbering_progress(message, token, counter);
            lemma_numbered_audio_counter(
                first_replaced(message, token, indexed),
                token,
                counter + 1,
            );
        }
    }
}

/// Numbers the audio tokens of `message` from `counter` on; returns the new
/// message and the next counter.
pub fn number_audio(message: &Vec<char>, token: &Vec<char>, counter: usize) -> (r: (
    Vec<char>,
    usize,
))
    requires
        counter + count_char(message@, '{') <= usize::MAX,
    ensures
        (r.0@, r.1 as nat) == numbered_audio(message@, token@, counter as nat),
{
    let mut placeholder: Vec<char> = Vec::new();
    placeholder.push('{');
    placeholder.push('i');
    placeholder.push('d');
    placeholder.push('x');
    placeholder.push('}');
    assert(placeholder@ =~= idx_placeholder());
    let mut current: Vec<char> = message.clone();
    assert(current@ == message@);
    let mut n: usize = counter;
    loop
        invariant
            placeholder@ == idx_placeholder(),
            numbered_audio(current@, token@, n as nat) == numbered_audio(
                message@,
                token@,
                counter as nat,
            ),
            n + count_char(current@, '{') <= usize::MAX,
        ensures
            numbered_audio(current@, token@, n as nat) == (current@, n as nat),
        decreases count_char(current@, '{'),
    {
        if !contains(&current, token) {
            break;
        }
        let mut digits: Vec<char> = Vec::new();
        push_decimal(&mut digits, n);
        assert(digits@ =~= decimal(n as nat));
        let indexed = replace_all(token, &placeholder, &digits);
        if chars_eq(&indexed, token) {
            break;
        }
        proof {
            lemma_numbering_progress(current@, token@, n as nat);
        }
        current = replace_first(&current, token, &indexed);
        n = n + 1;
    }
    (current, n)
}

} // verus!
