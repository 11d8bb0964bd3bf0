use vstd::prelude::*;
use vstd::string::StringExecFns;
use rmcp::model::{CallToolResult, ListToolsResult, Tool};
use rmcp::ServiceError;
use crate::error::BridgeError;
use crate::registry::{complete_sequence, Chunk};

verus! {

#[verifier::external_type_specification]
#[verifier::external_body]
pub struct ExTool(rmcp::model::Tool);

#[verifier::external_type_specification]
#[verifier::external_body]
pub struct ExListToolsResult(rmcp::model::ListToolsResult);

#[verifier::external_type_specification]
#[verifier::external_body]
pub struct ExCallToolResult(rmcp::model::CallToolResult);

#[verifier::external_type_specification]
#[verifier::external_body]
pub struct ExServiceError(rmcp::ServiceError);

/// The JSON text of a tool list, or the text of the encoding error.
pub uninterp spec fn tools_result_encoding(r: ListToolsResult) -> Result<Seq<char>, Seq<char>>;

/// The JSON text of a tool's result, or the text of the encoding error.
pub uninterp spec fn call_result_encoding(r: CallToolResult) -> Result<Seq<char>, Seq<char>>;

/// The JSON text of one tool description, or the text of the encoding error.
pub uninterp spec fn tool_encoding(t: Tool) -> Result<Seq<char>, Seq<char>>;

/// The tools of a tool list, in the order the server listed them.
pub uninterp spec fn listed_tools(r: ListToolsResult) -> Seq<Tool>;

/// For each content item of a tool's result, in order, its text when it is a
/// text item, else `None`.
pub uninterp spec fn content_text_items(r: CallToolResult) -> Seq<Option<Seq<char>>>;

/// A text outcome, seen as character sequences.
pub open spec fn text_result(r: Result<String, String>) -> Result<Seq<char>, Seq<char>> {
    match r {
        Ok(s) => Ok(s@),
        Err(m) => Err(m@),
    }
}

/// Text outcomes, seen as character sequences.
pub open spec fn text_results(v: Seq<Result<String, String>>) -> Seq<Result<Seq<char>, Seq<char>>> {
    v.map_values(|r: Result<String, String>| text_result(r))
}

/// Optional texts, seen as optional character sequences.
pub open spec fn option_texts(v: Seq<Option<String>>) -> Seq<Option<Seq<char>>> {
    v.map_values(
        |o: Option<String>|
            match o {
                Some(s) => Some(s@),
                None => None,
            },
    )
}

/// The request was answered, but with a reply of the wrong kind.
pub uninterp spec fn unexpected_reply(e: ServiceError) -> bool;

/// Relies on the variant `ServiceError::UnexpectedResponse`, which rmcp's typed
/// requests give when the server answers with a reply of another kind.
#[verifier::external_body]
fn is_unexpected_reply(e: &ServiceError) -> (r: bool)
    ensures
        r == unexpected_reply(*e),
{
    matches!(e, ServiceError::UnexpectedResponse)
}

/// Relies on the `Display` of `rmcp::ServiceError`: a description of the error.
#[verifier::external_body]
fn service_error_text(e: &ServiceError) -> String {
    e.to_string()
}

/// Relies on `serde_json::to_string` for `ListToolsResult`: its JSON text, or
/// the text of the encoding error; the outcome depends on the value alone.
#[verifier::external_body]
fn encode_tools_result(result: &ListToolsResult) -> (r: Result<String, String>)
    ensures
        text_result(r) == tools_result_encoding(*result),
{
    match serde_json::to_string(result) {
        Ok(s) => Ok(s),
        Err(e) => Err(e.to_string()),
    }
}

/// Relies on `serde_json::to_string` for `CallToolResult`: its JSON text, or
/// the text of the encoding error; the outcome depends on the value alone.
#[verifier::external_body]
fn encode_call_result(result: &CallToolResult) -> (r: Result<String, String>)
    ensures
        text_result(r) == call_result_encoding(*result),
{
    match serde_json::to_string(result) {
        Ok(s) => Ok(s),
        Err(e) => Err(e.to_string()),
    }
}

/// Relies on `serde_json::to_string` for `Tool`: its JSON text, or the text of
/// the encoding error; the outcome depends on the value alone.
#[verifier::external_body]
fn encode_tool(tool: &Tool) -> (r: Result<String, String>)
    ensures
        text_result(r) == tool_encoding(*tool),
{
    match serde_json::to_string(tool) {
        Ok(s) => Ok(s),
        Err(e) => Err(e.to_string()),
    }
}

/// Relies on the `tools` field of `ListToolsResult`: the tools, in the order
/// the server listed them.
#[verifier::external_body]
fn tools_of(result: ListToolsResult) -> (r: Vec<Tool>)
    ensures
        r@ == listed_tools(result),
{
    result.tools
}

/// Relies on `Content::as_text` of rmcp: for each content item of the result,
/// in order, its text when it is a text item, else `None`.
#[verifier::external_body]
fn content_texts(result: &CallToolResult) -> (r: Vec<Option<String>>)
    ensures
        option_texts(r@) == content_text_items(*result),
{
    result.content.iter().map(|c| c.as_text().map(|t| t.text.clone())).collect()
}

/// `t` begins with `prefix`.
pub open spec fn starts_with(t: Seq<char>, prefix: Seq<char>) -> bool {
    t.len() >= prefix.len() && t.take(prefix.len() as int) == prefix
}

/// `r` is a `Protocol` error whose text begins with `prefix`.
pub open spec fn protocol_error<T>(r: Result<T, BridgeError>, prefix: Seq<char>) -> bool {
    r matches Err(BridgeError::Protocol(m)) && starts_with(m@, prefix)
}

/// `r` is a `Serialization` error with the text `t`.
pub open spec fn serialization_message<T>(r: Result<T, BridgeError>, t: Seq<char>) -> bool {
    r matches Err(BridgeError::Serialization(m)) && m@ == t
}

/// `r` is a `Protocol` error with the text `t`.
pub open spec fn protocol_message<T>(r: Result<T, BridgeError>, t: Seq<char>) -> bool {
    r matches Err(BridgeError::Protocol(m)) && m@ == t
}

/// The reply to a failed request: `Unexpected response type` when the server
/// answered with a reply of the wrong kind, else a `Protocol` error whose text
/// begins with `prefix`.
pub open spec fn request_failure_for<T>(e: ServiceError, prefix: Seq<char>, r: Result<T, BridgeError>) -> bool {
    if unexpected_reply(e) {
        protocol_message(r, "Unexpected response type"@)
    } else {
        protocol_error(r, prefix)
    }
}

/// The error for a failed request: a reply of the wrong kind is reported as
/// such; any other failure as `prefix` followed by its description.
fn request_failure(e: &ServiceError, prefix: &str) -> (r: BridgeError)
    ensures
        request_failure_for(*e, prefix@, Err::<(), BridgeError>(r)),
{
    if is_unexpected_reply(e) {
        BridgeError::Protocol(String::from_str("Unexpected response type"))
    } else {
        let text = service_error_text(e);
        BridgeError::Protocol(prefixed(prefix, text.as_str()))
    }
}

/// `prefix` followed by `detail`.
fn prefixed(prefix: &str, detail: &str) -> (r: String)
    ensures
        r@ == prefix@ + detail@,
        starts_with(r@, prefix@),
{
    let r = String::from_str(prefix).concat(detail);
    proof {
        assert(r@.take(prefix@.len() as int) =~= prefix@);
    }
    r
}

/// The reply for a tool list encoded as `encoded`: the JSON text itself, or a
/// `Serialization` error carrying the encoder's message.
pub open spec fn tools_reply_for(encoded: Result<Seq<char>, Seq<char>>, r: Result<String, BridgeError>) -> bool {
    match encoded {
        Ok(t) => r matches Ok(x) && x@ == t,
        Err(m) => serialization_message(r, "Failed to serialize tools: "@ + m),
    }
}

/// The reply to a list of tools: the JSON text of the list (`{"tools":[...]}`),
/// or a `Protocol` error when the request failed (`Unexpected response type`
/// for a reply of the wrong kind).
pub fn list_tools_reply(outcome: Result<ListToolsResult, ServiceError>) -> (r: Result<
    String,
    BridgeError,
>)
    ensures
        outcome matches Err(e) ==> request_failure_for(e, "Failed to list tools: "@, r),
        outcome matches Ok(res) ==> tools_reply_for(tools_result_encoding(res), r),
{
    match outcome {
        Err(e) => Err(request_failure(&e, "Failed to list tools: ")),
        Ok(result) => tools_reply(encode_tools_result(&result)),
    }
}

/// The reply for a tool list once encoded: the JSON text itself, or a
/// `Serialization` error carrying the encoder's message.
pub fn tools_reply(encoded: Result<String, String>) -> (r: Result<String, BridgeError>)
    ensures
        tools_reply_for(text_result(encoded), r),
{
    match encoded {
        Ok(s) => Ok(s),
        Err(m) => Err(BridgeError::Serialization(prefixed("Failed to serialize tools: ", m.as_str()))),
    }
}

/// The reply `{"result":<result>}` around the JSON text of a tool's result.
pub open spec fn call_result_payload(result: Seq<char>) -> Seq<char> {
    "{\"result\":"@ + result + "}"@
}

/// Wraps the JSON text of a tool's result as `{"result":<result>}`.
pub fn call_result_json(result: &str) -> (r: String)
    ensures
        r@ == call_result_payload(result@),
{
    String::from_str("{\"result\":").concat(result).concat("}")
}

/// The reply for a tool's result encoded as `encoded`: `{"result":<result>}`
/// around the JSON text, or a `Serialization` error carrying the encoder's
/// message.
pub open spec fn call_reply_for(encoded: Result<Seq<char>, Seq<char>>, r: Result<String, BridgeError>) -> bool {
    match encoded {
        Ok(t) => r matches Ok(x) && x@ == call_result_payload(t),
        Err(m) => serialization_message(r, "Failed to serialize tool result: "@ + m),
    }
}

/// The reply to a tool call: `{"result":<result>}` around the JSON text of the
/// result (a tool that reports an error keeps it in the result), or a
/// `Protocol` error when the request failed (`Unexpected response type` for a
/// reply of the wrong kind).
pub fn call_tool_reply(outcome: Result<CallToolResult, ServiceError>) -> (r: Result<
    String,
    BridgeError,
>)
    ensures
        outcome matches Err(e) ==> request_failure_for(e, "Failed to call tool: "@, r),
        outcome matches Ok(res) ==> call_reply_for(call_result_encoding(res), r),
{
    match outcome {
        Err(e) => Err(request_failure(&e, "Failed to call tool: ")),
        Ok(result) => call_reply(encode_call_result(&result)),
    }
}

/// The reply for a tool's result once encoded: `{"result":<result>}` around the
/// JSON text, or a `Serialization` error carrying the encoder's message.
pub fn call_reply(encoded: Result<String, String>) -> (r: Result<String, BridgeError>)
    ensures
        call_reply_for(text_result(encoded), r),
{
    match encoded {
        Ok(s) => Ok(call_result_json(s.as_str())),
        Err(m) => Err(
            BridgeError::Serialization(prefixed("Failed to serialize tool result: ", m.as_str())),
        ),
    }
}

/// One `Error` chunk, then `Done`.
pub open spec fn failed_sequence(s: Seq<Chunk>) -> bool {
    s.len() == 2 && s[0] is Error && s[1] is Done
}

/// One `Error` chunk with the text `m`, then `Done`.
pub open spec fn failed_with(s: Seq<Chunk>, m: Seq<char>) -> bool {
    failed_sequence(s) && s[0]->Error_0@ == m
}

fn failure(prefix: &str, detail: &str) -> (r: Vec<Chunk>)
    ensures
        failed_with(r@, prefix@ + detail@),
        complete_sequence(r@),
{
    let mut v: Vec<Chunk> = Vec::new();
    v.push(Chunk::Error(prefixed(prefix, detail)));
    v.push(Chunk::Done);
    v
}

/// Every tool was encoded.
pub open spec fn all_encoded(encoded: Seq<Result<Seq<char>, Seq<char>>>) -> bool {
    forall|i: int| 0 <= i < encoded.len() ==> #[trigger] encoded[i] is Ok
}

/// The tool at `k` is the first whose encoding failed.
pub open spec fn first_failure(encoded: Seq<Result<Seq<char>, Seq<char>>>, k: int) -> bool {
    &&& 0 <= k < encoded.len()
    &&& encoded[k] is Err
    &&& forall|j: int| 0 <= j < k ==> #[trigger] encoded[j] is Ok
}

/// The chunks for tools encoded as `encoded`, in order: one descriptor per
/// tool holding its JSON text, then `Done`; when an encoding failed, an `Error`
/// with the first failure's message, then `Done`.
pub open spec fn descriptors_for(encoded: Seq<Result<Seq<char>, Seq<char>>>, r: Seq<Chunk>) -> bool {
    &&& complete_sequence(r)
    &&& all_encoded(encoded) ==> {
        &&& r.len() == encoded.len() + 1
        &&& forall|i: int|
            0 <= i < encoded.len() ==> #[trigger] r[i] is ToolDescriptor && r[i]->ToolDescriptor_0@
                == encoded[i]->Ok_0
        &&& r.last() is Done
    }
    &&& !all_encoded(encoded) ==> exists|k: int|
        #[trigger] first_failure(encoded, k) && failed_with(
            r,
            "Failed to serialize tool: "@ + encoded[k]->Err_0,
        )
}

/// The chunks that a stream of the tool list carries: one descriptor (JSON
/// text) per tool in the server's order, then `Done`; on failure an `Error`,
/// then `Done`.
pub fn list_tools_chunks(outcome: Result<ListToolsResult, ServiceError>) -> (r: Vec<Chunk>)
    ensures
        complete_sequence(r@),
        outcome is Err ==> failed_sequence(r@),
        outcome matches Ok(res) ==> descriptors_for(
            listed_tools(res).map_values(|t: Tool| tool_encoding(t)),
            r@,
        ),
{
    let result = match outcome {
        Err(e) => {
            let text = service_error_text(&e);
            return failure("Failed to list tools: ", text.as_str());
        },
        Ok(result) => result,
    };
    let ghost all = listed_tools(result);
    let tools = tools_of(result);
    let mut encoded: Vec<Result<String, String>> = Vec::new();
    let n = tools.len();
    let mut i: usize = 0;
    while i < n
        invariant
            n == tools@.len(),
            tools@ == all,
            i <= n,
            text_results(encoded@) == all.take(i as int).map_values(|t: Tool| tool_encoding(t)),
        decreases n - i,
    {
        let e = encode_tool(&tools[i]);
        let ghost before = encoded@;
        encoded.push(e);
        proof {
            assert(text_results(encoded@) =~= text_results(before).push(text_result(e)));
            assert(all.take(i + 1).map_values(|t: Tool| tool_encoding(t)) =~= all.take(
                i as int,
            ).map_values(|t: Tool| tool_encoding(t)).push(tool_encoding(all[i as int])));
        }
        i = i + 1;
    }
    proof {
        assert(all.take(n as int) =~= all);
    }
    descriptor_chunks(&encoded)
}

/// The chunks for a tool list, given each tool's encoding in the server's
/// order: one descriptor per tool, then `Done`; when an encoding failed, an
/// `Error` with the first failure's message, then `Done`.
pub fn descriptor_chunks(encoded: &Vec<Result<String, String>>) -> (r: Vec<Chunk>)
    ensures
        descriptors_for(text_results(encoded@), r@),
{
    let ghost enc = text_results(encoded@);
    let mut out: Vec<Chunk> = Vec::new();
    let n = encoded.len();
    let mut i: usize = 0;
    while i < n
        invariant
            n == encoded@.len(),
            enc == text_results(encoded@),
            i <= n,
            out@.len() == i,
            forall|j: int| 0 <= j < i ==> #[trigger] enc[j] is Ok,
            forall|j: int|
                0 <= j < i ==> #[trigger] out@[j] is ToolDescriptor && out@[j]->ToolDescriptor_0@
                    == enc[j]->Ok_0,
        decreases n - i,
    {
        match &encoded[i] {
            Ok(s) => {
                out.push(Chunk::ToolDescriptor(s.clone()));
                proof {
                    assert(enc[i as int] == text_result(encoded@[i as int]));
                }
            },
            Err(m) => {
                let r = failure("Failed to serialize tool: ", m.as_str());
                proof {
                    assert(enc[i as int] == text_result(encoded@[i as int]));
                    assert(first_failure(enc, i as int));
                    assert(!all_encoded(enc));
                }
                return r;
            },
        }
        i = i + 1;
    }
    let ghost body = out@;
    out.push(Chunk::Done);
    proof {
        assert forall|j: int| 0 <= j < out@.len() - 1 implies !(#[trigger] out@[j] is Done) by {
            assert(out@[j] == body[j]);
        }
        assert forall|j: int| 0 <= j < enc.len() implies #[trigger] out@[j] is ToolDescriptor
            && out@[j]->ToolDescriptor_0@ == enc[j]->Ok_0 by {
            assert(out@[j] == body[j]);
        }
    }
    out
}

/// The texts among `items`, in order.
pub open spec fn present_texts(items: Seq<Option<Seq<char>>>) -> Seq<Seq<char>>
    decreases items.len(),
{
    if items.len() == 0 {
        Seq::empty()
    } else {
        let init = present_texts(items.drop_last());
        match items.last() {
            Some(t) => init.push(t),
            None => init,
        }
    }
}

/// `r` holds one text fragment per text among `items`, in order, then `Done`.
pub open spec fn fragments_for(items: Seq<Option<Seq<char>>>, r: Seq<Chunk>) -> bool {
    let texts = present_texts(items);
    &&& r.len() == texts.len() + 1
    &&& forall|i: int|
        0 <= i < texts.len() ==> #[trigger] r[i] is TextFragment && r[i]->TextFragment_0@ == texts[i]
    &&& r.last() is Done
}

/// The chunks for the items of a tool's result, given as their texts (`None`
/// for an item that is not text, such as an image): one text fragment per text
/// item, in order, then `Done`.
pub fn text_chunks(items: &Vec<Option<String>>) -> (r: Vec<Chunk>)
    ensures
        fragments_for(option_texts(items@), r@),
        complete_sequence(r@),
{
    let ghost all = option_texts(items@);
    let mut out: Vec<Chunk> = Vec::new();
    let n = items.len();
    let mut i: usize = 0;
    proof {
        assert(all.take(0) =~= Seq::<Option<Seq<char>>>::empty());
    }
    while i < n
        invariant
            n == items@.len(),
            all == option_texts(items@),
            i <= n,
            out@.len() == present_texts(all.take(i as int)).len(),
            forall|j: int|
                0 <= j < out@.len() ==> #[trigger] out@[j] is TextFragment && out@[j]->TextFragment_0@
                    == present_texts(all.take(i as int))[j],
        decreases n - i,
    {
        let ghost before = out@;
        let ghost prev = present_texts(all.take(i as int));
        proof {
            assert(all.take(i + 1).drop_last() =~= all.take(i as int));
            assert(all.take(i + 1).last() == all[i as int]);
        }
        match &items[i] {
            Some(t) => {
                out.push(Chunk::TextFragment(t.clone()));
                proof {
                    assert(all[i as int] == Some(t@));
                    let next = present_texts(all.take(i + 1));
                    assert(next == prev.push(t@));
                    assert forall|j: int| 0 <= j < out@.len() implies #[trigger] out@[j] is TextFragment
                        && out@[j]->TextFragment_0@ == next[j] by {
                        if j < before.len() {
                            assert(out@[j] == before[j]);
                        }
                    }
                }
            },
            None => {
                proof {
                    assert(all[i as int] is None);
                }
            },
        }
        i = i + 1;
    }
    proof {
        assert(all.take(n as int) =~= all);
    }
    let ghost body = out@;
    out.push(Chunk::Done);
    proof {
        assert forall|j: int| 0 <= j < out@.len() - 1 implies !(#[trigger] out@[j] is Done) by {
            assert(out@[j] == body[j]);
        }
        assert forall|j: int| 0 <= j < out@.len() - 1 implies #[trigger] out@[j] is TextFragment
            && out@[j]->TextFragment_0@ == present_texts(all)[j] by {
            assert(out@[j] == body[j]);
        }
    }
    out
}

/// The chunks that a stream of a tool call carries: the text of each text item
/// of the result in order, then `Done`; on failure an `Error`, then `Done`.
pub fn call_tool_chunks(outcome: Result<CallToolResult, ServiceError>) -> (r: Vec<Chunk>)
    ensures
        complete_sequence(r@),
        outcome is Err ==> failed_sequence(r@),
        outcome matches Ok(res) ==> fragments_for(content_text_items(res), r@),
{
    match outcome {
        Err(e) => {
            let text = service_error_text(&e);
            failure("Failed to call tool: ", text.as_str())
        },
        Ok(result) => {
            let items = content_texts(&result);
            text_chunks(&items)
        },
    }
}

/// The chunks that end a stream whose request could not even be made: an
/// `Error` with the error's text, then `Done`.
pub fn error_chunks(e: &BridgeError) -> (r: Vec<Chunk>)
    ensures
        failed_with(r@, e.message_view()),
        complete_sequence(r@),
{
    let mut v: Vec<Chunk> = Vec::new();
    v.push(Chunk::Error(e.message()));
    v.push(Chunk::Done);
    v
}

} // verus!
