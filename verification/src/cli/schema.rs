//! The OpenAPI schema of the remote calls.
use utoipa::openapi::OpenApi;
use vstd::prelude::*;

verus! {

/// `utoipa::openapi::OpenApi`: a document that describes calls.
#[verifier::external_type_specification]
#[verifier::external_body]
pub struct ExOpenApi(utoipa::openapi::OpenApi);

/// The calls that a document describes: for a path and an HTTP method, the identifier of
/// the operation, if it has one.
pub uninterp spec fn calls(doc: OpenApi) -> Map<(Seq<char>, Seq<char>), Option<Seq<char>>>;

/// What `utoipa::openapi::OpenApi::merge` makes of `base` when `other` is merged into it.
pub uninterp spec fn merged(base: OpenApi, other: OpenApi) -> OpenApi;

/// Whether `utoipa::openapi::OpenApi::to_pretty_json` may write `text` of a document, or
/// may fail, where `text` is `None`. It is no function: the extensions of a document are
/// written in the order of a hash map.
pub uninterp spec fn written(doc: OpenApi, text: Option<Seq<char>>) -> bool;

/// The calls of a document into which another one was merged: those of both, and where
/// both describe the same one, that of the first.
pub open spec fn all_calls(
    base: Map<(Seq<char>, Seq<char>), Option<Seq<char>>>,
    other: Map<(Seq<char>, Seq<char>), Option<Seq<char>>>,
) -> Map<(Seq<char>, Seq<char>), Option<Seq<char>>> {
    other.union_prefer_right(base)
}

/// Calls `utoipa::openapi::OpenApi::merge`. The result is named by `merged`. It describes
/// the calls of both documents, and those that both describe as `base` does. What becomes
/// of the servers, components, security requirements and tags is left to the name.
#[verifier::external_body]
fn merge(base: OpenApi, other: OpenApi) -> (r: OpenApi)
    ensures
        r == merged(base, other),
        calls(r) == all_calls(calls(base), calls(other)),
{
    let mut schema = base;
    schema.merge(other);
    schema
}

/// How a character stands in a JSON string.
pub open spec fn json_char(c: char) -> Seq<char> {
    let code = c as int;
    if c == '"' || c == '\\' {
        seq!['\\', c]
    } else if c == '\u{8}' {
        seq!['\\', 'b']
    } else if c == '\t' {
        seq!['\\', 't']
    } else if c == '\n' {
        seq!['\\', 'n']
    } else if c == '\u{c}' {
        seq!['\\', 'f']
    } else if c == '\r' {
        seq!['\\', 'r']
    } else if code <= 31 {
        seq!['\\', 'u', '0', '0', hex_digit(code / 16), hex_digit(code % 16)]
    } else {
        seq![c]
    }
}

/// A hexadecimal digit, in lower case.
pub open spec fn hex_digit(d: int) -> char {
    if d < 10 {
        ('0' as int + d) as char
    } else {
        ('a' as int + d - 10) as char
    }
}

/// How a text stands between the quotes of a JSON string.
pub open spec fn json_chars(text: Seq<char>) -> Seq<char>
    decreases text.len(),
{
    if text.len() == 0 {
        Seq::empty()
    } else {
        json_chars(text.drop_last()) + json_char(text.last())
    }
}

/// A text as a JSON string.
pub open spec fn quoted(text: Seq<char>) -> Seq<char> {
    seq!['"'] + json_chars(text) + seq!['"']
}

/// Whether `part` stands somewhere in `text`.
pub open spec fn holds_text(text: Seq<char>, part: Seq<char>) -> bool {
    exists|i: int|
        0 <= i <= text.len() - part.len() && #[trigger] text.subrange(i, i + part.len()) == part
}

/// Whether the path of every call stands in `text`, as a JSON string.
pub open spec fn holds_paths(
    text: Seq<char>,
    calls: Map<(Seq<char>, Seq<char>), Option<Seq<char>>>,
) -> bool {
    forall|call: (Seq<char>, Seq<char>)| #[trigger]
        calls.dom().contains(call) ==> holds_text(text, quoted(call.0))
}

/// Calls `utoipa::openapi::OpenApi::to_pretty_json`. The result is one of those that
/// `written` allows. The paths of a document are the keys of an object in the text, so the
/// path of every call that the document describes stands there. Whether the call succeeds is
/// left to the relation.
#[verifier::external_body]
fn to_pretty_json(schema: &OpenApi) -> (r: Result<String, serde_json::Error>)
    ensures
        match r {
            Ok(text) => written(*schema, Some(text@)) && holds_paths(text@, calls(*schema)),
            Err(_) => written(*schema, None),
        },
{
    schema.to_pretty_json()
}

/// The documents that make up the schema.
pub struct SchemaParts {
    /// What all calls share.
    pub general: OpenApi,
    /// The calls that only the operator of the node makes.
    pub node_private: OpenApi,
    /// The calls to the node.
    pub node: OpenApi,
    /// The calls to the wallet.
    pub wallet: OpenApi,
}

impl SchemaParts {
    /// The general document, with the others merged into it in order.
    pub open spec fn whole(self) -> OpenApi {
        merged(merged(merged(self.general, self.node_private), self.node), self.wallet)
    }

    /// The calls that any of the documents describes. Where several describe the same
    /// one, the first of them counts.
    pub open spec fn described(self) -> Map<(Seq<char>, Seq<char>), Option<Seq<char>>> {
        all_calls(
            all_calls(
                all_calls(calls(self.general), calls(self.node_private)),
                calls(self.node),
            ),
            calls(self.wallet),
        )
    }
}

/// The schema leaves no call out: whatever any of the documents describes, it describes.
pub proof fn the_schema_describes_every_call(parts: SchemaParts, call: (Seq<char>, Seq<char>))
    ensures
        parts.described().dom().contains(call) <==> {
            ||| calls(parts.general).dom().contains(call)
            ||| calls(parts.node_private).dom().contains(call)
            ||| calls(parts.node).dom().contains(call)
            ||| calls(parts.wallet).dom().contains(call)
        },
{
}

/// The whole schema, laid out to be read. It describes the calls that any of the documents
/// describes, and the path of each of them stands in it.
pub fn open_api_schema(parts: SchemaParts) -> (r: Result<String, serde_json::Error>)
    ensures
        match r {
            Ok(text) => written(parts.whole(), Some(text@)) && holds_paths(
                text@,
                parts.described(),
            ),
            Err(_) => written(parts.whole(), None),
        },
        calls(parts.whole()) == parts.described(),
{
    let schema = merge(parts.general, parts.node_private);
    let schema = merge(schema, parts.node);
    let schema = merge(schema, parts.wallet);
    to_pretty_json(&schema)
}

/// A call that several documents describe is described as the first of them does, in the
/// order general, private, node, wallet, and one that none of them describes is not there.
pub proof fn the_first_document_counts(parts: SchemaParts, call: (Seq<char>, Seq<char>))
    ensures
        ({
            let schema = parts.described();
            let general = calls(parts.general);
            let node_private = calls(parts.node_private);
            let node = calls(parts.node);
            let wallet = calls(parts.wallet);
            if general.dom().contains(call) {
                schema.dom().contains(call) && schema[call] == general[call]
            } else if node_private.dom().contains(call) {
                schema.dom().contains(call) && schema[call] == node_private[call]
            } else if node.dom().contains(call) {
                schema.dom().contains(call) && schema[call] == node[call]
            } else if wallet.dom().contains(call) {
                schema.dom().contains(call) && schema[call] == wallet[call]
            } else {
                !schema.dom().contains(call)
            }
        }),
{
}

/// The documents are merged into the general one, one after the other.
pub proof fn the_parts_are_merged_in_order(parts: SchemaParts)
    ensures
        parts.whole() == merged(
            merged(merged(parts.general, parts.node_private), parts.node),
            parts.wallet,
        ),
{
}

} // verus!
