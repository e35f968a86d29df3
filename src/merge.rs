use vstd::prelude::*;

use crate::error::ToolError;
use crate::json::{
    decode_program, decode_value, decoded_program, decoded_value, encode_program, encode_value,
    encoded_program, encoded_value, error_message, is_json_text, is_program_text,
};
use crate::layout::Layout;

verus! {

/// What a merged document opens with, up to the program.
pub open spec fn program_key() -> Seq<char> {
    "{\"program\":"@
}

/// What stands between the program and the input.
pub open spec fn input_key() -> Seq<char> {
    ",\"program_input\":"@
}

/// What stands between the input and the layout's name.
pub open spec fn layout_key() -> Seq<char> {
    ",\"layout\":\""@
}

/// What a merged document closes with, after the layout's name.
pub open spec fn closing() -> Seq<char> {
    "\"}"@
}

/// The compact JSON object with the keys program, program_input and layout,
/// in that order, around the encoded program, the encoded input and the
/// layout's name as a string.
pub open spec fn merged_text(program: Seq<char>, input: Seq<char>, layout: Layout) -> Seq<char> {
    program_key() + program + input_key() + input + layout_key() + layout.spec_name() + closing()
}

/// Frames an encoded program and an encoded input into one merged document.
pub fn frame_merged(program_json: &str, input_json: &str, layout: Layout) -> (r: String)
    ensures
        r@ == merged_text(program_json@, input_json@, layout),
{
    let mut r = String::from_str("{\"program\":");
    r.append(program_json);
    r.append(",\"program_input\":");
    r.append(input_json);
    r.append(",\"layout\":\"");
    let name = layout.name();
    r.append(name.as_str());
    r.append("\"}");
    r
}

/// The document that a merge gives for a program text and an input text that
/// both decode: the compact encodings of what they decode to, framed with the
/// chosen layout.
pub open spec fn merge_result(program_text: Seq<char>, input_text: Seq<char>, layout: Option<
    Layout,
>) -> Seq<char> {
    merged_text(
        encoded_program(decoded_program(program_text)->Some_0),
        encoded_value(decoded_value(input_text)->Some_0),
        Layout::chosen(layout),
    )
}

/// Decodes a program text against the program schema and an input text as
/// any JSON value, and frames their compact encodings with the chosen layout.
pub fn merge_documents(program_text: &str, input_text: &str, layout: Option<Layout>) -> (r: Result<
    String,
    ToolError,
>)
    ensures
        r matches Err(ToolError::InvalidProgram(_)) <==> !is_program_text(program_text@),
        r matches Err(ToolError::InvalidInput(_)) <==> is_program_text(program_text@)
            && !is_json_text(input_text@),
        r is Ok <==> is_program_text(program_text@) && is_json_text(input_text@),
        r matches Ok(doc) ==> doc@ == merge_result(program_text@, input_text@, layout),
        r is Ok ==> is_program_text(encoded_program(decoded_program(program_text@)->Some_0)),
{
    let program = match decode_program(program_text) {
        Ok(p) => p,
        Err(e) => return Err(ToolError::InvalidProgram(error_message(&e))),
    };
    let input = match decode_value(input_text) {
        Ok(v) => v,
        Err(e) => return Err(ToolError::InvalidInput(error_message(&e))),
    };
    // the encoders do not fail, so the two error arms below are never taken
    let program_json = match encode_program(&program) {
        Ok(s) => s,
        Err(e) => return Err(ToolError::InvalidProgram(error_message(&e))),
    };
    let input_json = match encode_value(&input) {
        Ok(s) => s,
        Err(e) => return Err(ToolError::InvalidInput(error_message(&e))),
    };
    Ok(frame_merged(program_json.as_str(), input_json.as_str(), Layout::or_default(layout)))
}

/// In a merged document the program's encoding and the input's encoding each
/// stand whole right after their key, and the layout's name stands whole just
/// before the closing quote and brace.
pub proof fn lemma_merged_fields(program: Seq<char>, input: Seq<char>, layout: Layout)
    ensures
        merged_text(program, input, layout).subrange(
            program_key().len() as int,
            (program_key().len() + program.len()) as int,
        ) == program,
        merged_text(program, input, layout).subrange(
            (program_key().len() + program.len() + input_key().len()) as int,
            (program_key().len() + program.len() + input_key().len() + input.len()) as int,
        ) == input,
        merged_text(program, input, layout).subrange(
            merged_text(program, input, layout).len() - closing().len() - layout.spec_name().len(),
            merged_text(program, input, layout).len() - closing().len(),
        ) == layout.spec_name(),
{
    let d = merged_text(program, input, layout);
    let a = program_key().len() as int;
    let b = a + program.len() + input_key().len();
    let c = d.len() - closing().len() - layout.spec_name().len();
    assert(d.subrange(a, a + program.len()) =~= program);
    assert(d.subrange(b, b + input.len()) =~= input);
    assert(d.subrange(c, c + layout.spec_name().len()) =~= layout.spec_name());
}

/// A merge with no layout asked for gives the same document as a merge that
/// asks for the recursive layout.
pub proof fn lemma_default_layout(program_text: Seq<char>, input_text: Seq<char>)
    ensures
        merge_result(program_text, input_text, None) == merge_result(
            program_text,
            input_text,
            Some(Layout::Recursive),
        ),
{
}

} // verus!
