//! Schema-less reading of protobuf payloads, on top of `anybuf`.
use anybuf::{Bufany, BufanyError};
use vstd::prelude::*;

verus! {

#[verifier::external_type_specification]
#[verifier::external_body]
pub struct ExBufany<'a>(Bufany<'a>);

#[verifier::external_type_specification]
#[verifier::external_body]
pub struct ExBufanyError(BufanyError);

/// Whether `Bufany::deserialize` accepts the bytes `data`.
pub uninterp spec fn proto_decodes(data: Seq<u8>) -> bool;

/// What `Bufany::string(field)` returns on the message that
/// `Bufany::deserialize` read from `data`.
pub uninterp spec fn proto_string(data: Seq<u8>, field: u32) -> Option<Seq<char>>;

/// A decoded protobuf message, together with the bytes it was read from.
pub(crate) struct ProtoMessage<'a> {
    fields: Bufany<'a>,
    source: Ghost<Seq<u8>>,
}

impl<'a> ProtoMessage<'a> {
    /// The bytes this message was decoded from.
    pub closed spec fn source(&self) -> Seq<u8> {
        self.source@
    }
}

/// Relies on `anybuf::Bufany::deserialize`: it fails or succeeds depending on
/// the bytes alone; on success the message keeps track of its source bytes.
#[verifier::external_body]
pub(crate) fn decode(data: &[u8]) -> (r: Result<ProtoMessage<'_>, BufanyError>)
    ensures
        r is Ok <==> proto_decodes(data@),
        r matches Ok(m) ==> m.source() == data@,
{
    match Bufany::deserialize(data) {
        Ok(fields) => Ok(ProtoMessage { fields, source: Ghost(data@) }),
        Err(e) => Err(e),
    }
}

/// Relies on `anybuf::Bufany::string`: the UTF-8 string at `field`, as a
/// function of the decoded bytes and the field number.
#[verifier::external_body]
pub(crate) fn string_field(m: &ProtoMessage<'_>, field: u32) -> (r: Option<String>)
    ensures
        r matches Some(s) ==> proto_string(m.source(), field) == Some(s@),
        r is None ==> proto_string(m.source(), field) is None,
{
    m.fields.string(field)
}

} // verus!
