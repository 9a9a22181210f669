//! The header fields of requests and replies.
use headers::{
    Connection, ContentLength, HeaderMapExt, SecWebsocketAccept, SecWebsocketKey, Upgrade,
};
use hyper::header::HeaderValue;
use hyper::HeaderMap;
use vstd::prelude::*;

verus! {

/// The header fields of a message.
#[verifier::external_type_specification]
#[verifier::external_body]
#[verifier::reject_recursive_types(T)]
pub struct ExHeaderMap<T>(HeaderMap<T>);

/// The value of one header field.
#[verifier::external_type_specification]
#[verifier::external_body]
pub struct ExHeaderValue(HeaderValue);

/// The values of each field, in order, by the name of the field in lower case. A
/// field that is there has at least one value.
pub uninterp spec fn fields(map: HeaderMap) -> Map<Seq<char>, Seq<Seq<u8>>>;

/// The length that the values of a `Content-Length` field declare, as
/// `headers::ContentLength` decodes them.
pub uninterp spec fn declared_length(values: Seq<Seq<u8>>) -> Option<u64>;

/// The bytes that `headers::SecWebsocketAccept` answers those of a key with.
pub uninterp spec fn signature(key: Seq<u8>) -> Seq<u8>;

/// The bytes of a text of ASCII characters.
pub open spec fn ascii(text: Seq<char>) -> Seq<u8> {
    text.map_values(|c: char| c as u8)
}

/// The length that the `Content-Length` field declares. Without that field, and
/// where its values do not make sense, there is none.
pub open spec fn header_length(map: HeaderMap) -> Option<u64> {
    if fields(map).contains_key("content-length"@) {
        declared_length(fields(map)["content-length"@])
    } else {
        None
    }
}

/// The number of fields that a header map has room for.
pub open spec fn max_fields() -> nat {
    0x8000
}

/// `hyper::HeaderMap::new` makes a map without any field.
#[verifier::external_body]
pub(crate) fn no_fields() -> (map: HeaderMap)
    ensures
        fields(map).dom() == Set::<Seq<char>>::empty(),
{
    HeaderMap::new()
}

/// `headers::HeaderMapExt::typed_get` of a `ContentLength` decodes the values of
/// the `Content-Length` field. Without that field there is nothing to decode.
#[verifier::external_body]
pub(crate) fn content_length(map: &HeaderMap) -> (length: Option<u64>)
    ensures
        length == (if fields(*map).contains_key("content-length"@) {
            declared_length(fields(*map)["content-length"@])
        } else {
            None
        }),
{
    map.typed_get::<ContentLength>().map(|length| length.0)
}

/// `headers::HeaderMapExt::typed_get` of an `Upgrade` finds something whenever
/// the `Upgrade` field is there, whatever its value.
#[verifier::external_body]
pub(crate) fn has_upgrade(map: &HeaderMap) -> (found: bool)
    ensures
        found == fields(*map).contains_key("upgrade"@),
{
    map.typed_get::<Upgrade>().is_some()
}

/// `headers::HeaderMapExt::typed_get` of a `SecWebsocketKey` finds something
/// whenever the `Sec-WebSocket-Key` field is there, whatever its value.
#[verifier::external_body]
pub(crate) fn has_websocket_key(map: &HeaderMap) -> (found: bool)
    ensures
        found == fields(*map).contains_key("sec-websocket-key"@),
{
    map.typed_get::<SecWebsocketKey>().is_some()
}

/// `headers::HeaderMapExt::typed_insert` of `headers::Connection::upgrade` sets
/// the `Connection` field to the one value `upgrade`.
#[verifier::external_body]
pub(crate) fn insert_connection_upgrade(map: &mut HeaderMap)
    requires
        fields(*old(map)).dom().len() < max_fields(),
    ensures
        fields(*final(map)) == fields(*old(map)).insert(
            "connection"@,
            seq![ascii("upgrade"@)],
        ),
{
    map.typed_insert(Connection::upgrade());
}

/// `headers::HeaderMapExt::typed_insert` of `headers::Upgrade::websocket` sets
/// the `Upgrade` field to the one value `websocket`.
#[verifier::external_body]
pub(crate) fn insert_upgrade_websocket(map: &mut HeaderMap)
    requires
        fields(*old(map)).dom().len() < max_fields(),
    ensures
        fields(*final(map)) == fields(*old(map)).insert(
            "upgrade"@,
            seq![ascii("websocket"@)],
        ),
{
    map.typed_insert(Upgrade::websocket());
}

/// `headers::SecWebsocketAccept::from` computes the answer to a key, as a
/// function of the bytes of the key. The key is read as the first value of the
/// `Sec-WebSocket-Key` field of the one map, and its answer is written as the one
/// value of the `Sec-WebSocket-Accept` field of the other.
#[verifier::external_body]
pub(crate) fn insert_accept(map: &mut HeaderMap, request: &HeaderMap)
    requires
        fields(*old(map)).dom().len() < max_fields(),
        fields(*request).contains_key("sec-websocket-key"@),
    ensures
        fields(*final(map)) == fields(*old(map)).insert(
            "sec-websocket-accept"@,
            seq![signature(fields(*request)["sec-websocket-key"@][0])],
        ),
{
    let key = request.typed_get::<SecWebsocketKey>().unwrap();
    map.typed_insert(SecWebsocketAccept::from(key));
}

} // verus!
