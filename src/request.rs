use vstd::prelude::*;
use vstd::string::StringExecFns;
use serde_json::Value;
use crate::connection::Connection;
use crate::error::{invalid_input, BridgeError};
use crate::payload::{blank, is_blank};

verus! {

#[verifier::external_type_specification]
#[verifier::external_body]
pub struct ExJsonValue(serde_json::Value);

#[verifier::external_type_specification]
#[verifier::external_body]
#[verifier::reject_recursive_types(K)]
#[verifier::reject_recursive_types(V)]
pub struct ExJsonMap<K, V>(serde_json::Map<K, V>);

/// A JSON object, as the remote protocol carries tool arguments.
pub type JsonObject = serde_json::Map<String, Value>;

/// The JSON object that `text` holds; `None` when `text` is not one JSON
/// object.
pub uninterp spec fn json_object_of(text: Seq<char>) -> Option<JsonObject>;

/// Relies on `serde_json::from_str` into a `serde_json::Map`: it succeeds
/// exactly on the text of one JSON object, and the map depends on the text
/// alone.
#[verifier::external_body]
fn parse_json_object(text: &str) -> (r: Option<JsonObject>)
    ensures
        r == json_object_of(text@),
{
    serde_json::from_str::<JsonObject>(text).ok()
}

/// What the arguments text of a tool call stands for: `Some(None)` for no
/// arguments (a blank text), `Some(Some(o))` for the JSON object `o`, `None`
/// when the text is neither.
pub open spec fn call_arguments(text: Seq<char>) -> Option<Option<JsonObject>> {
    if blank(text) {
        Some(None)
    } else {
        match json_object_of(text) {
            Some(o) => Some(Some(o)),
            None => None,
        }
    }
}

/// A JSON object given as the arguments of a tool call is what the call
/// carries to the server: the object exactly as it was parsed, with nothing
/// added, dropped or changed on the way.
pub proof fn lemma_arguments_pass_unchanged(text: Seq<char>)
    requires
        !blank(text),
        json_object_of(text) is Some,
    ensures
        call_arguments(text) == Some(json_object_of(text)),
{
}

/// A tool call as it goes to the remote server.
pub struct CallPlan {
    pub name: String,
    pub arguments: Option<JsonObject>,
}

/// Checks the inputs of a tool call: the name must not be empty, and the
/// arguments text must be blank or one JSON object, which then goes to the
/// server as it was parsed.
pub fn plan_call(name: &str, arguments: &str) -> (r: Result<CallPlan, BridgeError>)
    ensures
        name@.len() == 0 ==> invalid_input(r, "Tool name is empty"@),
        name@.len() > 0 && call_arguments(arguments@) is None ==> invalid_input(
            r,
            "Invalid JSON arguments"@,
        ),
        name@.len() > 0 && call_arguments(arguments@) is Some ==> r is Ok,
        r matches Ok(p) ==> p.name@ == name@ && Some(p.arguments) == call_arguments(arguments@),
{
    if name.unicode_len() == 0 {
        return Err(BridgeError::InvalidInput(String::from_str("Tool name is empty")));
    }
    let parsed = if is_blank(arguments) {
        None
    } else {
        match parse_json_object(arguments) {
            Some(o) => Some(o),
            None => {
                return Err(BridgeError::InvalidInput(String::from_str("Invalid JSON arguments")));
            },
        }
    };
    Ok(CallPlan { name: String::from_str(name), arguments: parsed })
}

/// Prepares a tool call on `conn`: `NotConnected` while no session is live,
/// whatever the inputs; else as `plan_call` says, with the live session.
pub fn prepare_call<'a, S>(conn: &'a Connection<S>, name: &str, arguments: &str) -> (r: Result<
    (&'a S, CallPlan),
    BridgeError,
>)
    ensures
        conn@ is None ==> r matches Err(BridgeError::NotConnected),
        conn@ is Some && name@.len() == 0 ==> invalid_input(r, "Tool name is empty"@),
        conn@ is Some && name@.len() > 0 && call_arguments(arguments@) is None ==> invalid_input(
            r,
            "Invalid JSON arguments"@,
        ),
        conn@ is Some && name@.len() > 0 && call_arguments(arguments@) is Some ==> r is Ok,
        r matches Ok((s, p)) ==> {
            &&& conn@ == Some(*s)
            &&& p.name@ == name@
            &&& Some(p.arguments) == call_arguments(arguments@)
        },
{
    let session = match conn.session() {
        Ok(s) => s,
        Err(e) => {
            return Err(e);
        },
    };
    match plan_call(name, arguments) {
        Ok(p) => Ok((session, p)),
        Err(e) => Err(e),
    }
}

} // verus!
