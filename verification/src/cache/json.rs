//! The JSON text a response is compressed as, and reading it back. Strings
//! are quoted by `serde_json`, and the text is read with `serde_json`: a
//! member is looked up by key, as `Value::get` does, and taken as a string,
//! an `i64` or a boolean.
use vstd::prelude::*;

use crate::proto::{
    DeleteAssetResponse, ImportAssetResponse, McpError, MoveAssetResponse, RefreshResponse,
    StreamResponse, StreamResponseMessage, UnityAsset,
};
use crate::text::{chars_of, decimal, push_all, str_eq, string_from_chars, u64_to_decimal};

verus! {

/// Name for the JSON string that `serde_json::to_string` writes for the
/// string `s`.
pub uninterp spec fn json_quoted(s: Seq<char>) -> Seq<char>;

/// Name for what `serde_json` reads at member `key` of the JSON text
/// `text` (and then at member `inner` of that, when given), taken as a
/// string: `None` when the text is not JSON, a member is missing or the
/// value is not a string.
pub uninterp spec fn json_str_read(text: Seq<char>, key: Seq<char>, inner: Option<Seq<char>>) -> Option<Seq<char>>;

/// Name for the same lookup taken as an `i64`.
pub uninterp spec fn json_i64_read(text: Seq<char>, key: Seq<char>, inner: Option<Seq<char>>) -> Option<i64>;

/// Name for the same lookup taken as a boolean.
pub uninterp spec fn json_bool_read(text: Seq<char>, key: Seq<char>, inner: Option<Seq<char>>) -> Option<bool>;

/// A JSON string.
pub open spec fn json_string(s: Seq<char>) -> Seq<char> {
    json_quoted(s)
}

/// A scalar JSON value as the library writes it.
pub enum LeafModel {
    Null,
    Bool(bool),
    Int(i64),
    Str(Seq<char>),
}

/// A member value of a JSON object as the library writes it: a scalar or
/// an object of scalars.
pub enum FieldModel {
    Leaf(LeafModel),
    Object(Seq<(Seq<char>, LeafModel)>),
}

/// A JSON integer.
pub open spec fn json_int(i: i64) -> Seq<char> {
    if i < 0 {
        seq!['-'] + decimal((-i) as nat)
    } else {
        decimal(i as nat)
    }
}

/// The text of a scalar.
pub open spec fn leaf_text(l: LeafModel) -> Seq<char> {
    match l {
        LeafModel::Null => "null"@,
        LeafModel::Bool(b) => if b { "true"@ } else { "false"@ },
        LeafModel::Int(i) => json_int(i),
        LeafModel::Str(s) => json_quoted(s),
    }
}

/// Members with their values already written, separated by commas.
pub open spec fn members_text(ms: Seq<(Seq<char>, Seq<char>)>) -> Seq<char>
    decreases ms.len(),
{
    if ms.len() == 0 {
        Seq::empty()
    } else if ms.len() == 1 {
        json_quoted(ms[0].0) + ":"@ + ms[0].1
    } else {
        members_text(ms.drop_last()) + ","@ + json_quoted(ms.last().0) + ":"@ + ms.last().1
    }
}

/// An object of members with their values already written.
pub open spec fn object_text(ms: Seq<(Seq<char>, Seq<char>)>) -> Seq<char> {
    "{"@ + members_text(ms) + "}"@
}

/// The text of a member value.
pub open spec fn field_text(f: FieldModel) -> Seq<char> {
    match f {
        FieldModel::Leaf(l) => leaf_text(l),
        FieldModel::Object(ms) => object_text(ms.map_values(|p: (Seq<char>, LeafModel)| (p.0, leaf_text(p.1)))),
    }
}

/// The text of a JSON object.
pub open spec fn doc_text(doc: Seq<(Seq<char>, FieldModel)>) -> Seq<char> {
    object_text(doc.map_values(|p: (Seq<char>, FieldModel)| (p.0, field_text(p.1))))
}

/// No key occurs twice.
pub open spec fn keys_distinct<V>(ms: Seq<(Seq<char>, V)>) -> bool {
    forall|i: int, j: int| 0 <= i < j < ms.len() ==> (#[trigger] ms[i]).0 != (#[trigger] ms[j]).0
}

/// No key occurs twice, in the object or in an object inside it.
pub open spec fn doc_ok(doc: Seq<(Seq<char>, FieldModel)>) -> bool {
    &&& keys_distinct(doc)
    &&& forall|i: int| 0 <= i < doc.len() ==> (match (#[trigger] doc[i]).1 {
        FieldModel::Object(ms) => keys_distinct(ms),
        FieldModel::Leaf(_) => true,
    })
}

/// The value under `k`, the first when there are several.
pub open spec fn find<V>(ms: Seq<(Seq<char>, V)>, k: Seq<char>) -> Option<V>
    decreases ms.len(),
{
    if ms.len() == 0 {
        None
    } else if ms[0].0 == k {
        Some(ms[0].1)
    } else {
        find(ms.drop_first(), k)
    }
}

/// The scalar at member `key` (and at member `inner` of that, when given).
pub open spec fn value_at(doc: Seq<(Seq<char>, FieldModel)>, key: Seq<char>, inner: Option<Seq<char>>) -> Option<LeafModel> {
    match find(doc, key) {
        Some(FieldModel::Leaf(l)) => if inner is None { Some(l) } else { None },
        Some(FieldModel::Object(ms)) => match inner {
            Some(k) => find(ms, k),
            None => None,
        },
        None => None,
    }
}

/// A scalar taken as a string.
pub open spec fn as_str(l: Option<LeafModel>) -> Option<Seq<char>> {
    match l {
        Some(LeafModel::Str(s)) => Some(s),
        _ => None,
    }
}

/// A scalar taken as an `i64`.
pub open spec fn as_i64(l: Option<LeafModel>) -> Option<i64> {
    match l {
        Some(LeafModel::Int(i)) => Some(i),
        _ => None,
    }
}

/// A scalar taken as a boolean.
pub open spec fn as_bool(l: Option<LeafModel>) -> Option<bool> {
    match l {
        Some(LeafModel::Bool(b)) => Some(b),
        _ => None,
    }
}

/// An optional string by its characters.
pub open spec fn string_opt(o: Option<String>) -> Option<Seq<char>> {
    match o {
        Some(s) => Some(s@),
        None => None,
    }
}

/// Calls `serde_json::to_string` on `s`, which writes a string without
/// failing; the result is named by `json_quoted`.
#[verifier::external_body]
fn json_quote(s: &str) -> (r: String)
    ensures
        r@ == json_quoted(s@),
{
    serde_json::to_string(s).unwrap_or_default()
}

/// Calls `serde_json::from_str` on `text`, `Value::get` with `key` and
/// `Value::as_str`; the outcome is named by `json_str_read`. `serde_json`
/// reads back what it writes: on the text of an object written as
/// `doc_text` does, the outcome is the string there.
#[verifier::external_body]
fn read_str(text: &str, key: &str) -> (r: Option<String>)
    ensures
        string_opt(r) == json_str_read(text@, key@, None),
        forall|doc: Seq<(Seq<char>, FieldModel)>| doc_ok(doc) && text@ == #[trigger] doc_text(doc)
            ==> string_opt(r) == as_str(value_at(doc, key@, None)),
{
    let v: serde_json::Value = serde_json::from_str(text).ok()?;
    v.get(key)?.as_str().map(|s| s.to_string())
}

/// As `read_str`, reading member `inner` of member `key`.
#[verifier::external_body]
fn read_inner_str(text: &str, key: &str, inner: &str) -> (r: Option<String>)
    ensures
        string_opt(r) == json_str_read(text@, key@, Some(inner@)),
        forall|doc: Seq<(Seq<char>, FieldModel)>| doc_ok(doc) && text@ == #[trigger] doc_text(doc)
            ==> string_opt(r) == as_str(value_at(doc, key@, Some(inner@))),
{
    let v: serde_json::Value = serde_json::from_str(text).ok()?;
    v.get(key)?.get(inner)?.as_str().map(|s| s.to_string())
}

/// As `read_inner_str`, with `Value::as_i64`; named by `json_i64_read`.
#[verifier::external_body]
fn read_inner_i64(text: &str, key: &str, inner: &str) -> (r: Option<i64>)
    ensures
        r == json_i64_read(text@, key@, Some(inner@)),
        forall|doc: Seq<(Seq<char>, FieldModel)>| doc_ok(doc) && text@ == #[trigger] doc_text(doc)
            ==> r == as_i64(value_at(doc, key@, Some(inner@))),
{
    let v: serde_json::Value = serde_json::from_str(text).ok()?;
    v.get(key)?.get(inner)?.as_i64()
}

/// As `read_str`, with `Value::as_bool`; named by `json_bool_read`.
#[verifier::external_body]
fn read_bool(text: &str, key: &str) -> (r: Option<bool>)
    ensures
        r == json_bool_read(text@, key@, None),
        forall|doc: Seq<(Seq<char>, FieldModel)>| doc_ok(doc) && text@ == #[trigger] doc_text(doc)
            ==> r == as_bool(value_at(doc, key@, None)),
{
    let v: serde_json::Value = serde_json::from_str(text).ok()?;
    v.get(key)?.as_bool()
}

/// `s` as a JSON string.
pub fn quote_json(s: &str) -> (r: String)
    ensures
        r@ == json_string(s@),
{
    json_quote(s)
}

// ---------------------------------------------------------------------
// Writing
// ---------------------------------------------------------------------

/// The members of an asset.
pub open spec fn asset_members(a: UnityAsset) -> Seq<(Seq<char>, LeafModel)> {
    seq![
        ("asset_path"@, LeafModel::Str(a.asset_path@)),
        ("guid"@, LeafModel::Str(a.guid@)),
        ("type"@, LeafModel::Str(a.asset_type@)),
    ]
}

/// An asset, or `null`.
pub open spec fn asset_field(a: Option<UnityAsset>) -> FieldModel {
    match a {
        None => FieldModel::Leaf(LeafModel::Null),
        Some(a) => FieldModel::Object(asset_members(a)),
    }
}

/// The members of an error.
pub open spec fn error_members(e: McpError) -> Seq<(Seq<char>, LeafModel)> {
    seq![
        ("code"@, LeafModel::Int(e.code as i64)),
        ("details"@, LeafModel::Str(e.details@)),
        ("message"@, LeafModel::Str(e.message@)),
    ]
}

/// An error, or `null`.
pub open spec fn error_field(e: Option<McpError>) -> FieldModel {
    match e {
        None => FieldModel::Leaf(LeafModel::Null),
        Some(e) => FieldModel::Object(error_members(e)),
    }
}

/// A response as a JSON object, its keys in sorted order, as
/// `serde_json` writes a `Value` object built from its fields.
pub open spec fn response_doc(r: StreamResponse) -> Seq<(Seq<char>, FieldModel)> {
    match r.message {
        Some(StreamResponseMessage::ImportAsset(m)) => seq![
            ("asset"@, asset_field(m.asset)),
            ("error"@, error_field(m.error)),
            ("type"@, FieldModel::Leaf(LeafModel::Str("import_asset"@))),
        ],
        Some(StreamResponseMessage::MoveAsset(m)) => seq![
            ("asset"@, asset_field(m.asset)),
            ("error"@, error_field(m.error)),
            ("type"@, FieldModel::Leaf(LeafModel::Str("move_asset"@))),
        ],
        Some(StreamResponseMessage::DeleteAsset(m)) => seq![
            ("error"@, error_field(m.error)),
            ("success"@, FieldModel::Leaf(LeafModel::Bool(m.success))),
            ("type"@, FieldModel::Leaf(LeafModel::Str("delete_asset"@))),
        ],
        Some(StreamResponseMessage::Refresh(m)) => seq![
            ("error"@, error_field(m.error)),
            ("success"@, FieldModel::Leaf(LeafModel::Bool(m.success))),
            ("type"@, FieldModel::Leaf(LeafModel::Str("refresh"@))),
        ],
        None => seq![("type"@, FieldModel::Leaf(LeafModel::Str("empty"@)))],
    }
}

/// The JSON text of a response.
pub open spec fn response_json(r: StreamResponse) -> Seq<char> {
    doc_text(response_doc(r))
}

/// Members with their written values, by their characters.
pub open spec fn pairs_view(ms: Seq<(String, String)>) -> Seq<(Seq<char>, Seq<char>)> {
    ms.map_values(|p: (String, String)| (p.0@, p.1@))
}

/// Writes the object of `ms`, each a key and its value already written.
fn object_string(ms: &Vec<(String, String)>) -> (r: String)
    ensures
        r@ == object_text(pairs_view(ms@)),
{
    let mut out: Vec<char> = Vec::new();
    out.push('{');
    let mut i: usize = 0;
    while i < ms.len()
        invariant
            i <= ms@.len(),
            out@ == seq!['{'] + members_text(pairs_view(ms@).take(i as int)),
        decreases ms.len() - i,
    {
        let ghost before = out@;
        if i > 0 {
            out.push(',');
        }
        let ghost with_comma = out@;
        let k = json_quote(ms[i].0.as_str());
        push_all(&mut out, &chars_of(k.as_str()));
        out.push(':');
        push_all(&mut out, &chars_of(ms[i].1.as_str()));
        proof {
            let pv = pairs_view(ms@);
            assert(pv[i as int] == (ms@[i as int].0@, ms@[i as int].1@));
            assert(pv.take(i + 1).drop_last() =~= pv.take(i as int));
            assert(pv.take(i + 1).last() == pv[i as int]);
            assert(out@ =~= with_comma + json_quoted(pv[i as int].0) + seq![':'] + pv[i as int].1);
            assert(":"@ =~= seq![':']) by {
                reveal_strlit(":");
            }
            assert(","@ =~= seq![',']) by {
                reveal_strlit(",");
            }
            if i == 0 {
                assert(pv.take(1).len() == 1);
                assert(pv.take(1)[0] == pv[0]);
                assert(pv.take(0) =~= Seq::<(Seq<char>, Seq<char>)>::empty());
                assert(with_comma == seq!['{']);
                assert(members_text(pv.take(1)) == json_quoted(pv[0].0) + ":"@ + pv[0].1);
                assert(out@ =~= seq!['{'] + members_text(pv.take(i + 1)));
            } else {
                assert(with_comma == before.push(','));
                assert(members_text(pv.take(i + 1)) == members_text(pv.take(i as int)) + ","@ + json_quoted(pv[i as int].0) + ":"@ + pv[i as int].1);
                assert(out@ =~= seq!['{'] + members_text(pv.take(i + 1)));
            }
        }
        i = i + 1;
    }
    out.push('}');
    proof {
        assert(pairs_view(ms@).take(ms@.len() as int) =~= pairs_view(ms@));
        assert("{"@ =~= seq!['{']) by {
            reveal_strlit("{");
        }
        assert("}"@ =~= seq!['}']) by {
            reveal_strlit("}");
        }
        assert(out@ =~= object_text(pairs_view(ms@)));
    }
    string_from_chars(&out)
}

fn owned(s: &str) -> (r: String)
    ensures
        r@ == s@,
{
    String::from_str(s)
}

fn int_text(i: i32) -> (r: String)
    ensures
        r@ == json_int(i as i64),
{
    if i < 0 {
        let m: u64 = if i == i32::MIN { 2147483648 } else { (-i) as u64 };
        let d = u64_to_decimal(m);
        let mut out: Vec<char> = Vec::new();
        out.push('-');
        push_all(&mut out, &chars_of(d.as_str()));
        assert(out@ =~= seq!['-'] + decimal((-(i as i64)) as nat));
        string_from_chars(&out)
    } else {
        u64_to_decimal(i as u64)
    }
}

fn asset_string(a: &Option<UnityAsset>) -> (r: String)
    ensures
        r@ == field_text(asset_field(*a)),
{
    match a {
        None => owned("null"),
        Some(a) => {
            let ms: Vec<(String, String)> = vec![
                (owned("asset_path"), json_quote(a.asset_path.as_str())),
                (owned("guid"), json_quote(a.guid.as_str())),
                (owned("type"), json_quote(a.asset_type.as_str())),
            ];
            let r = object_string(&ms);
            proof {
                assert(pairs_view(ms@) =~= asset_members(*a).map_values(|p: (Seq<char>, LeafModel)| (p.0, leaf_text(p.1))));
            }
            r
        },
    }
}

fn error_string(e: &Option<McpError>) -> (r: String)
    ensures
        r@ == field_text(error_field(*e)),
{
    match e {
        None => owned("null"),
        Some(e) => {
            let ms: Vec<(String, String)> = vec![
                (owned("code"), int_text(e.code)),
                (owned("details"), json_quote(e.details.as_str())),
                (owned("message"), json_quote(e.message.as_str())),
            ];
            let r = object_string(&ms);
            proof {
                assert(pairs_view(ms@) =~= error_members(*e).map_values(|p: (Seq<char>, LeafModel)| (p.0, leaf_text(p.1))));
            }
            r
        },
    }
}

fn bool_string(b: bool) -> (r: String)
    ensures
        r@ == leaf_text(LeafModel::Bool(b)),
{
    if b { owned("true") } else { owned("false") }
}

/// Writes a response as its JSON text.
pub fn serialize_response(response: &StreamResponse) -> (r: String)
    ensures
        r@ == response_json(*response),
{
    let ms: Vec<(String, String)> = match &response.message {
        Some(StreamResponseMessage::ImportAsset(m)) => vec![
            (owned("asset"), asset_string(&m.asset)),
            (owned("error"), error_string(&m.error)),
            (owned("type"), json_quote("import_asset")),
        ],
        Some(StreamResponseMessage::MoveAsset(m)) => vec![
            (owned("asset"), asset_string(&m.asset)),
            (owned("error"), error_string(&m.error)),
            (owned("type"), json_quote("move_asset")),
        ],
        Some(StreamResponseMessage::DeleteAsset(m)) => vec![
            (owned("error"), error_string(&m.error)),
            (owned("success"), bool_string(m.success)),
            (owned("type"), json_quote("delete_asset")),
        ],
        Some(StreamResponseMessage::Refresh(m)) => vec![
            (owned("error"), error_string(&m.error)),
            (owned("success"), bool_string(m.success)),
            (owned("type"), json_quote("refresh")),
        ],
        None => vec![(owned("type"), json_quote("empty"))],
    };
    let r = object_string(&ms);
    proof {
        assert(pairs_view(ms@) =~= response_doc(*response).map_values(|p: (Seq<char>, FieldModel)| (p.0, field_text(p.1))));
    }
    r
}

// ---------------------------------------------------------------------
// Reading
// ---------------------------------------------------------------------

/// The asset read at member `asset`: present when its `guid`,
/// `asset_path` and `type` are all strings.
pub open spec fn asset_read(text: Seq<char>) -> Option<(Seq<char>, Seq<char>, Seq<char>)> {
    match (
        json_str_read(text, "asset"@, Some("guid"@)),
        json_str_read(text, "asset"@, Some("asset_path"@)),
        json_str_read(text, "asset"@, Some("type"@)),
    ) {
        (Some(g), Some(p), Some(t)) => Some((g, p, t)),
        _ => None,
    }
}

/// The error read at member `error`: present when its `code` is an
/// `i64` (kept as its low 32 bits) and `message` and `details` are
/// strings.
pub open spec fn error_read(text: Seq<char>) -> Option<(i32, Seq<char>, Seq<char>)> {
    match (
        json_i64_read(text, "error"@, Some("code"@)),
        json_str_read(text, "error"@, Some("message"@)),
        json_str_read(text, "error"@, Some("details"@)),
    ) {
        (Some(c), Some(m), Some(d)) => Some((c as i32, m, d)),
        _ => None,
    }
}

/// `a` is the asset read.
pub open spec fn asset_is(a: Option<UnityAsset>, read: Option<(Seq<char>, Seq<char>, Seq<char>)>) -> bool {
    match read {
        None => a is None,
        Some((g, p, t)) => a matches Some(x) && x.guid@ == g && x.asset_path@ == p && x.asset_type@ == t,
    }
}

/// `e` is the error read.
pub open spec fn error_is(e: Option<McpError>, read: Option<(i32, Seq<char>, Seq<char>)>) -> bool {
    match read {
        None => e is None,
        Some((c, m, d)) => e matches Some(x) && x.code == c && x.message@ == m && x.details@ == d,
    }
}

/// The `success` member read, `false` when it is not a boolean.
pub open spec fn success_read(text: Seq<char>) -> bool {
    match json_bool_read(text, "success"@, None) {
        Some(b) => b,
        None => false,
    }
}

/// The kinds of response a text can name.
pub open spec fn known_kind(t: Seq<char>) -> bool {
    t == "import_asset"@ || t == "move_asset"@ || t == "delete_asset"@ || t == "refresh"@ || t == "empty"@
}

/// `x` is the response read from `text`: of the kind its `type` names,
/// with the asset, error and success read there.
pub open spec fn reads_as(x: StreamResponse, text: Seq<char>) -> bool {
    match json_str_read(text, "type"@, None) {
        Some(t) => if t == "import_asset"@ {
            x.message matches Some(StreamResponseMessage::ImportAsset(m)) && asset_is(m.asset, asset_read(text))
                && error_is(m.error, error_read(text))
        } else if t == "move_asset"@ {
            x.message matches Some(StreamResponseMessage::MoveAsset(m)) && asset_is(m.asset, asset_read(text))
                && error_is(m.error, error_read(text))
        } else if t == "delete_asset"@ {
            x.message matches Some(StreamResponseMessage::DeleteAsset(m)) && m.success == success_read(text)
                && error_is(m.error, error_read(text))
        } else if t == "refresh"@ {
            x.message matches Some(StreamResponseMessage::Refresh(m)) && m.success == success_read(text)
                && error_is(m.error, error_read(text))
        } else {
            x.message is None
        },
        None => false,
    }
}

/// Two optional assets hold the same text in each field.
pub open spec fn same_asset(a: Option<UnityAsset>, b: Option<UnityAsset>) -> bool {
    match a {
        None => b is None,
        Some(x) => b matches Some(y) && x.asset_path@ == y.asset_path@ && x.guid@ == y.guid@ && x.asset_type@
            == y.asset_type@,
    }
}

/// Two optional errors hold the same code and the same text in each field.
pub open spec fn same_error(a: Option<McpError>, b: Option<McpError>) -> bool {
    match a {
        None => b is None,
        Some(x) => b matches Some(y) && x.code == y.code && x.details@ == y.details@ && x.message@ == y.message@,
    }
}

/// Two responses are of the same kind and hold the same values.
pub open spec fn same_response(a: StreamResponse, b: StreamResponse) -> bool {
    match a.message {
        None => b.message is None,
        Some(StreamResponseMessage::ImportAsset(x)) => b.message matches Some(
            StreamResponseMessage::ImportAsset(y),
        ) && same_asset(x.asset, y.asset) && same_error(x.error, y.error),
        Some(StreamResponseMessage::MoveAsset(x)) => b.message matches Some(StreamResponseMessage::MoveAsset(y))
            && same_asset(x.asset, y.asset) && same_error(x.error, y.error),
        Some(StreamResponseMessage::DeleteAsset(x)) => b.message matches Some(
            StreamResponseMessage::DeleteAsset(y),
        ) && x.success == y.success && same_error(x.error, y.error),
        Some(StreamResponseMessage::Refresh(x)) => b.message matches Some(StreamResponseMessage::Refresh(y))
            && x.success == y.success && same_error(x.error, y.error),
    }
}

/// The asset held at member `asset` of `doc`, read as `asset_read` does.
pub open spec fn asset_in(doc: Seq<(Seq<char>, FieldModel)>) -> Option<(Seq<char>, Seq<char>, Seq<char>)> {
    match (
        as_str(value_at(doc, "asset"@, Some("guid"@))),
        as_str(value_at(doc, "asset"@, Some("asset_path"@))),
        as_str(value_at(doc, "asset"@, Some("type"@))),
    ) {
        (Some(g), Some(p), Some(t)) => Some((g, p, t)),
        _ => None,
    }
}

/// The error held at member `error` of `doc`, read as `error_read` does.
pub open spec fn error_in(doc: Seq<(Seq<char>, FieldModel)>) -> Option<(i32, Seq<char>, Seq<char>)> {
    match (
        as_i64(value_at(doc, "error"@, Some("code"@))),
        as_str(value_at(doc, "error"@, Some("message"@))),
        as_str(value_at(doc, "error"@, Some("details"@))),
    ) {
        (Some(c), Some(m), Some(d)) => Some((c as i32, m, d)),
        _ => None,
    }
}

fn read_asset(text: &str) -> (r: Option<UnityAsset>)
    ensures
        asset_is(r, asset_read(text@)),
        forall|doc: Seq<(Seq<char>, FieldModel)>| doc_ok(doc) && text@ == #[trigger] doc_text(doc)
            ==> asset_read(text@) == asset_in(doc),
{
    let guid = read_inner_str(text, "asset", "guid")?;
    let asset_path = read_inner_str(text, "asset", "asset_path")?;
    let asset_type = read_inner_str(text, "asset", "type")?;
    Some(UnityAsset { guid, asset_path, asset_type })
}

fn read_error(text: &str) -> (r: Option<McpError>)
    ensures
        error_is(r, error_read(text@)),
        forall|doc: Seq<(Seq<char>, FieldModel)>| doc_ok(doc) && text@ == #[trigger] doc_text(doc)
            ==> error_read(text@) == error_in(doc),
{
    let code = read_inner_i64(text, "error", "code")?;
    let message = read_inner_str(text, "error", "message")?;
    let details = read_inner_str(text, "error", "details")?;
    Some(McpError { code: code as i32, message, details })
}

/// Reads back a response from JSON text, as `serde_json` reads it: `None`
/// exactly when the text is not JSON or its `type` is missing, not a
/// string or not a kind of response. Otherwise the response is of that
/// kind; its asset and error are present when all their members are there
/// with the right types; a missing or non-boolean `success` reads as
/// `false`; other members are ignored. The text the writer gives for a
/// response reads back as a response with the same values.
pub fn parse_response(text: &str) -> (r: Option<StreamResponse>)
    ensures
        r is Some <==> (json_str_read(text@, "type"@, None) matches Some(t) && known_kind(t)),
        r matches Some(x) ==> reads_as(x, text@),
        forall|x: StreamResponse| #[trigger] response_json(x) == text@ ==> (r matches Some(y) && same_response(
            x,
            y,
        )),
{
    proof {
        reveal_strlit("import_asset");
        reveal_strlit("move_asset");
        reveal_strlit("delete_asset");
        reveal_strlit("refresh");
        reveal_strlit("empty");
    }
    let kind = match read_str(text, "type") {
        Some(k) => k,
        None => {
            assert forall|x: StreamResponse| #[trigger] response_json(x) == text@ implies false by {
                lemma_response_doc(x);
                assert(text@ == doc_text(response_doc(x)));
            }
            return None;
        },
    };
    proof {
        assert forall|x: StreamResponse| #[trigger] response_json(x) == text@ implies kind@ == kind_name(x) by {
            lemma_response_doc(x);
            lemma_kind_name(x);
            assert(text@ == doc_text(response_doc(x)));
        }
    }
    let k = kind.as_str();
    if str_eq(k, "import_asset") {
        let asset = read_asset(text);
        let error = read_error(text);
        let out = StreamResponse { message: Some(StreamResponseMessage::ImportAsset(ImportAssetResponse { asset, error })) };
        assert forall|x: StreamResponse| #[trigger] response_json(x) == text@ implies same_response(x, out) by {
            lemma_response_doc(x);
            lemma_kind_name(x);
            assert(text@ == doc_text(response_doc(x)));
        }
        Some(out)
    } else if str_eq(k, "move_asset") {
        let asset = read_asset(text);
        let error = read_error(text);
        let out = StreamResponse { message: Some(StreamResponseMessage::MoveAsset(MoveAssetResponse { asset, error })) };
        assert forall|x: StreamResponse| #[trigger] response_json(x) == text@ implies same_response(x, out) by {
            lemma_response_doc(x);
            lemma_kind_name(x);
            assert(text@ == doc_text(response_doc(x)));
        }
        Some(out)
    } else if str_eq(k, "delete_asset") || str_eq(k, "refresh") {
        let success = match read_bool(text, "success") {
            Some(b) => b,
            None => false,
        };
        let error = read_error(text);
        let out = if str_eq(k, "delete_asset") {
            StreamResponse { message: Some(StreamResponseMessage::DeleteAsset(DeleteAssetResponse { success, error })) }
        } else {
            StreamResponse { message: Some(StreamResponseMessage::Refresh(RefreshResponse { success, error })) }
        };
        assert forall|x: StreamResponse| #[trigger] response_json(x) == text@ implies same_response(x, out) by {
            lemma_response_doc(x);
            lemma_kind_name(x);
            assert(text@ == doc_text(response_doc(x)));
        }
        Some(out)
    } else if str_eq(k, "empty") {
        Some(StreamResponse { message: None })
    } else {
        None
    }
}

/// The name of a response's kind.
pub open spec fn kind_name(x: StreamResponse) -> Seq<char> {
    match x.message {
        Some(StreamResponseMessage::ImportAsset(_)) => "import_asset"@,
        Some(StreamResponseMessage::MoveAsset(_)) => "move_asset"@,
        Some(StreamResponseMessage::DeleteAsset(_)) => "delete_asset"@,
        Some(StreamResponseMessage::Refresh(_)) => "refresh"@,
        None => "empty"@,
    }
}

/// An asset's fields as read.
pub open spec fn asset_view(a: Option<UnityAsset>) -> Option<(Seq<char>, Seq<char>, Seq<char>)> {
    match a {
        Some(a) => Some((a.guid@, a.asset_path@, a.asset_type@)),
        None => None,
    }
}

/// An error's fields as read.
pub open spec fn error_view(e: Option<McpError>) -> Option<(i32, Seq<char>, Seq<char>)> {
    match e {
        Some(e) => Some((e.code, e.message@, e.details@)),
        None => None,
    }
}

/// The success a response reports, `false` for kinds that report none.
pub open spec fn success_of(x: StreamResponse) -> bool {
    match x.message {
        Some(StreamResponseMessage::DeleteAsset(m)) => m.success,
        Some(StreamResponseMessage::Refresh(m)) => m.success,
        _ => false,
    }
}

/// The asset a response carries, none for kinds that carry none.
pub open spec fn asset_of(x: StreamResponse) -> Option<UnityAsset> {
    match x.message {
        Some(StreamResponseMessage::ImportAsset(m)) => m.asset,
        Some(StreamResponseMessage::MoveAsset(m)) => m.asset,
        _ => None,
    }
}

/// The error a response carries.
pub open spec fn error_of(x: StreamResponse) -> Option<McpError> {
    match x.message {
        Some(StreamResponseMessage::ImportAsset(m)) => m.error,
        Some(StreamResponseMessage::MoveAsset(m)) => m.error,
        Some(StreamResponseMessage::DeleteAsset(m)) => m.error,
        Some(StreamResponseMessage::Refresh(m)) => m.error,
        None => None,
    }
}

/// The kind names tell the kinds apart.
proof fn lemma_kind_name(x: StreamResponse)
    ensures
        (kind_name(x) == "import_asset"@) == (x.message matches Some(StreamResponseMessage::ImportAsset(_))),
        (kind_name(x) == "move_asset"@) == (x.message matches Some(StreamResponseMessage::MoveAsset(_))),
        (kind_name(x) == "delete_asset"@) == (x.message matches Some(StreamResponseMessage::DeleteAsset(_))),
        (kind_name(x) == "refresh"@) == (x.message matches Some(StreamResponseMessage::Refresh(_))),
        (kind_name(x) == "empty"@) == (x.message is None),
{
    reveal_strlit("import_asset");
    reveal_strlit("move_asset");
    reveal_strlit("delete_asset");
    reveal_strlit("refresh");
    reveal_strlit("empty");
    assert(kind_name(x)[0] == "import_asset"@[0] ==> x.message matches Some(StreamResponseMessage::ImportAsset(_)));
    assert(kind_name(x)[0] == "move_asset"@[0] ==> x.message matches Some(StreamResponseMessage::MoveAsset(_)));
    assert(kind_name(x)[0] == "delete_asset"@[0] ==> x.message matches Some(StreamResponseMessage::DeleteAsset(_)));
    assert(kind_name(x)[0] == "refresh"@[0] ==> x.message matches Some(StreamResponseMessage::Refresh(_)));
    assert(kind_name(x)[0] == "empty"@[0] ==> x.message is None);
}

proof fn lemma_three<V>(a: (Seq<char>, V), b: (Seq<char>, V), c: (Seq<char>, V), k: Seq<char>)
    ensures
        find(seq![a, b, c], k) == (if a.0 == k { Some(a.1) } else if b.0 == k { Some(b.1) } else if c.0 == k {
            Some(c.1)
        } else {
            None
        }),
        a.0 != b.0 && a.0 != c.0 && b.0 != c.0 ==> keys_distinct(seq![a, b, c]),
{
    let s = seq![a, b, c];
    assert(s.drop_first() =~= seq![b, c]);
    assert(seq![b, c].drop_first() =~= seq![c]);
    assert(seq![c].drop_first() =~= Seq::<(Seq<char>, V)>::empty());
    reveal_with_fuel(find, 4);
}

proof fn lemma_one<V>(a: (Seq<char>, V), k: Seq<char>)
    ensures
        find(seq![a], k) == (if a.0 == k { Some(a.1) } else { None }),
        keys_distinct(seq![a]),
{
    assert(seq![a].drop_first() =~= Seq::<(Seq<char>, V)>::empty());
    reveal_with_fuel(find, 2);
}

/// The object the writer gives for `x` has distinct keys, and holds its
/// kind, asset, error and success where the reader looks for them.
proof fn lemma_response_doc(x: StreamResponse)
    ensures
        doc_ok(response_doc(x)),
        as_str(value_at(response_doc(x), "type"@, None)) == Some(kind_name(x)),
        x.message is Some ==> error_in(response_doc(x)) == error_view(error_of(x)),
        (x.message matches Some(StreamResponseMessage::ImportAsset(_)) || x.message matches Some(StreamResponseMessage::MoveAsset(_)))
            ==> asset_in(response_doc(x)) == asset_view(asset_of(x)),
        as_bool(value_at(response_doc(x), "success"@, None)) == (match x.message {
            Some(StreamResponseMessage::DeleteAsset(m)) => Some(m.success),
            Some(StreamResponseMessage::Refresh(m)) => Some(m.success),
            _ => None,
        }),
{
    reveal_strlit("asset");
    reveal_strlit("error");
    reveal_strlit("type");
    reveal_strlit("success");
    reveal_strlit("asset_path");
    reveal_strlit("guid");
    reveal_strlit("code");
    reveal_strlit("details");
    reveal_strlit("message");
    assert("asset"@ != "error"@ && "asset"@ != "type"@ && "asset"@ != "success"@) by {
        assert("asset"@[0] != "error"@[0] && "asset"@[0] != "type"@[0] && "asset"@[0] != "success"@[0]);
    }
    assert("error"@ != "type"@ && "error"@ != "success"@ && "success"@ != "type"@) by {
        assert("error"@[0] != "type"@[0] && "error"@[0] != "success"@[0] && "success"@[0] != "type"@[0]);
    }
    assert("asset_path"@ != "guid"@ && "asset_path"@ != "type"@ && "guid"@ != "type"@) by {
        assert("asset_path"@[0] != "guid"@[0] && "asset_path"@[0] != "type"@[0] && "guid"@[0] != "type"@[0]);
    }
    assert("code"@ != "details"@ && "code"@ != "message"@ && "details"@ != "message"@) by {
        assert("code"@[0] != "details"@[0] && "code"@[0] != "message"@[0] && "details"@[0] != "message"@[0]);
    }
    let doc = response_doc(x);
    match asset_of(x) {
        Some(a) => {
            let ms = asset_members(a);
            lemma_three(ms[0], ms[1], ms[2], "guid"@);
            lemma_three(ms[0], ms[1], ms[2], "asset_path"@);
            lemma_three(ms[0], ms[1], ms[2], "type"@);
            assert(ms =~= seq![ms[0], ms[1], ms[2]]);
        },
        None => {},
    }
    match error_of(x) {
        Some(e) => {
            let ms = error_members(e);
            lemma_three(ms[0], ms[1], ms[2], "code"@);
            lemma_three(ms[0], ms[1], ms[2], "message"@);
            lemma_three(ms[0], ms[1], ms[2], "details"@);
            assert(ms =~= seq![ms[0], ms[1], ms[2]]);
            assert(e.code as i64 as i32 == e.code);
        },
        None => {},
    }
    if x.message is None {
        lemma_one(doc[0], "type"@);
        lemma_one(doc[0], "success"@);
        lemma_one(doc[0], "asset"@);
        lemma_one(doc[0], "error"@);
        assert(doc =~= seq![doc[0]]);
    } else {
        lemma_three(doc[0], doc[1], doc[2], "type"@);
        lemma_three(doc[0], doc[1], doc[2], "success"@);
        lemma_three(doc[0], doc[1], doc[2], "asset"@);
        lemma_three(doc[0], doc[1], doc[2], "error"@);
        assert(doc =~= seq![doc[0], doc[1], doc[2]]);
    }
    assert forall|i: int| 0 <= i < doc.len() implies (match (#[trigger] doc[i]).1 {
        FieldModel::Object(ms) => keys_distinct(ms),
        FieldModel::Leaf(_) => true,
    }) by {
        match doc[i].1 {
            FieldModel::Object(ms) => {
                if i == 0 && asset_of(x) is Some && (x.message matches Some(StreamResponseMessage::ImportAsset(_)) || x.message matches Some(StreamResponseMessage::MoveAsset(_))) {
                } else {
                }
            },
            FieldModel::Leaf(_) => {},
        }
    }
}

} // verus!
