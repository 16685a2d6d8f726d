# legacy_template

Rendering of legacy conversation templates (the `Conversation` templates with
a separator style such as `CHATML`, `LLAMA3` or `ADD_COLON_TWO`) into one
prompt string, verified with Verus.

- `src/text.rs`: character-level operations (substring search, replacement,
  trimming, decimal digits) with their specifications.
- `src/audio.rs`: numbering of `{idx}` audio placeholders, with its
  termination argument.
- `src/template.rs`: the template data, its view, the styles and the
  specification `rendered` of the prompt each style produces.
- `src/formatter.rs`: `LegacyFormatter::render_prompt` and its helpers,
  proved to produce exactly `rendered`.
- `src/request.rs`: chat requests and `LegacyFormatter::render`.
- `src/laws.rs`: properties of every template and request.
- `app/lib.rs`: conversion from `dynamo_protocols` chat requests.
