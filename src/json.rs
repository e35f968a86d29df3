use vstd::prelude::*;

use cairo_lang_sierra::program::Program;

verus! {

#[verifier::external_type_specification]
#[verifier::external_body]
pub struct ExValue(serde_json::Value);

#[verifier::external_type_specification]
#[verifier::external_body]
pub struct ExJsonError(serde_json::Error);

#[verifier::external_type_specification]
#[verifier::external_body]
pub struct ExProgram(Program);

/// The JSON value that serde_json reads from a text, if it reads one.
pub uninterp spec fn decoded_value(s: Seq<char>) -> Option<serde_json::Value>;

/// The Sierra program that serde_json reads from a text, schema included, if
/// it reads one.
pub uninterp spec fn decoded_program(s: Seq<char>) -> Option<Program>;

/// The compact JSON text that serde_json writes for a value.
pub uninterp spec fn encoded_value(v: serde_json::Value) -> Seq<char>;

/// The compact JSON text that serde_json writes for a program.
pub uninterp spec fn encoded_program(p: Program) -> Seq<char>;

/// Whether serde_json accepts a text as one JSON value of any shape.
pub open spec fn is_json_text(s: Seq<char>) -> bool {
    decoded_value(s) is Some
}

/// Whether serde_json accepts a text as a Sierra program, schema included.
pub open spec fn is_program_text(s: Seq<char>) -> bool {
    decoded_program(s) is Some
}

/// Relies on serde_json::from_str::<serde_json::Value>: its outcome depends on
/// the text alone.
#[verifier::external_body]
pub(crate) fn decode_value(text: &str) -> (r: Result<serde_json::Value, serde_json::Error>)
    ensures
        r is Ok <==> decoded_value(text@) is Some,
        r matches Ok(v) ==> decoded_value(text@) == Some(v),
{
    serde_json::from_str(text)
}

/// Relies on serde_json::from_str::<Program>: it checks the text against the
/// program's derived schema, and its outcome depends on the text alone.
#[verifier::external_body]
pub(crate) fn decode_program(text: &str) -> (r: Result<Program, serde_json::Error>)
    ensures
        r is Ok <==> decoded_program(text@) is Some,
        r matches Ok(p) ==> decoded_program(text@) == Some(p),
{
    serde_json::from_str(text)
}

/// Relies on serde_json::to_string for a JSON value: it cannot fail, since a
/// value's maps have string keys and its Serialize impl never fails; the text
/// depends on the value alone.
#[verifier::external_body]
pub(crate) fn encode_value(value: &serde_json::Value) -> (r: Result<String, serde_json::Error>)
    ensures
        r is Ok,
        r matches Ok(s) ==> s@ == encoded_value(*value),
{
    serde_json::to_string(value)
}

/// Relies on serde_json::to_string for a program: the program's derived
/// Serialize impl never fails and holds no map, the text depends on the
/// program alone, and the derived Deserialize impl reads it back.
#[verifier::external_body]
pub(crate) fn encode_program(program: &Program) -> (r: Result<String, serde_json::Error>)
    ensures
        r is Ok,
        r matches Ok(s) ==> s@ == encoded_program(*program),
        r matches Ok(s) ==> decoded_program(s@) is Some,
{
    serde_json::to_string(program)
}

/// Relies on serde_json::Error's Display: a message for a person to read.
#[verifier::external_body]
pub(crate) fn error_message(e: &serde_json::Error) -> (r: String) {
    e.to_string()
}

} // verus!
