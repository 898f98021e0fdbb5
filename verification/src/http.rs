use vstd::prelude::*;
use vstd::utf8::{decode_utf8, valid_utf8};
use encoding::Encoding;

verus! {

/// Why a fetched page could not be turned into text.
pub enum FetchError {
    /// The server answered with another status than 200 OK.
    Status { code: u16 },
    /// The page declares no encoding and is not valid UTF-8; the decoder's reason.
    NotUtf8 { reason: String },
}

/// The text of `bytes` decoded in the encoding named by the XML declaration
/// they start with, or `None` when they carry no such declaration. The
/// declaration is read by `xmldecl::parse`, the decoding done by
/// `encoding_rs::Encoding::decode`.
pub uninterp spec fn xml_declared_text(bytes: Seq<u8>) -> Option<Seq<char>>;

/// `<?xml`
pub open spec fn xml_declaration_start() -> Seq<u8> {
    seq![0x3cu8, 0x3fu8, 0x78u8, 0x6du8, 0x6cu8]
}

/// Decodes a page by the encoding its bogo-XML declaration names, when it has one.
///
/// Calls `xmldecl::parse` and, when that finds an encoding, decodes the bytes
/// with that `encoding_rs::Encoding` (`decode`, which also honours a byte
/// order mark). The encoding itself cannot be held as a plain value, so the
/// two steps stand in this one item; the contract names the outcome and
/// states the one fact the `xmldecl` source shows plainly: without a leading
/// `<?xml` there is no declaration.
#[verifier::external_body]
fn decode_by_xml_declaration(bytes: &[u8]) -> (text: Option<String>)
    ensures
        match text {
            Some(t) => xml_declared_text(bytes@) == Some(t@),
            None => xml_declared_text(bytes@) is None,
        },
        !xml_declaration_start().is_prefix_of(bytes@) ==> text is None,
{
    match xmldecl::parse(bytes) {
        Some(encoding) => Some(encoding.decode(bytes).0.into_owned()),
        None => None,
    }
}

/// `encoding::all::UTF_8.decode(bytes, DecoderTrap::Strict)`: the text the
/// bytes encode, or the decoder's reason when they are not valid UTF-8. The
/// reason's wording is not stated.
#[verifier::external_body]
fn decode_utf8_strict(bytes: &[u8]) -> (r: Result<String, String>)
    ensures
        r is Ok == valid_utf8(bytes@),
        r matches Ok(t) ==> t@ == decode_utf8(bytes@),
{
    match encoding::all::UTF_8.decode(bytes, encoding::DecoderTrap::Strict) {
        Ok(t) => Ok(t),
        Err(reason) => Err(reason.into_owned()),
    }
}

/// The text of a page: what its XML declaration makes of it when it has one
/// (`declared`), else its bytes read strictly as UTF-8.
pub fn decode_with_declaration(declared: Option<String>, bytes: &[u8]) -> (r: Result<String, FetchError>)
    ensures
        declared matches Some(t) ==> (r matches Ok(u) && u@ == t@),
        declared is None && valid_utf8(bytes@) ==> (r matches Ok(u) && u@ == decode_utf8(bytes@)),
        declared is None && !valid_utf8(bytes@) ==> r matches Err(FetchError::NotUtf8 { .. }),
{
    match declared {
        Some(t) => Ok(t),
        None => match decode_utf8_strict(bytes) {
            Ok(t) => Ok(t),
            Err(reason) => Err(FetchError::NotUtf8 { reason }),
        },
    }
}

/// The text of a fetched page: refused unless the status is 200, then decoded
/// by its XML declaration or as strict UTF-8.
pub fn page_text(status: u16, bytes: &[u8]) -> (r: Result<String, FetchError>)
    ensures
        status != 200 ==> (r matches Err(FetchError::Status { code }) && code == status),
        status == 200 && xml_declared_text(bytes@) is Some ==> (r matches Ok(u) && Some(u@)
            == xml_declared_text(bytes@)),
        status == 200 && xml_declared_text(bytes@) is None && valid_utf8(bytes@) ==> (r matches Ok(u)
            && u@ == decode_utf8(bytes@)),
        status == 200 && xml_declared_text(bytes@) is None && !valid_utf8(bytes@) ==> r matches Err(
            FetchError::NotUtf8 { .. },
        ),
{
    if status != 200 {
        return Err(FetchError::Status { code: status });
    }
    let declared = decode_by_xml_declaration(bytes);
    decode_with_declaration(declared, bytes)
}

/// A response to a JSON request is accepted only with status 200.
pub fn check_json_status(status: u16) -> (r: Result<(), FetchError>)
    ensures
        status == 200 ==> r is Ok,
        status != 200 ==> (r matches Err(FetchError::Status { code }) && code == status),
{
    if status != 200 {
        Err(FetchError::Status { code: status })
    } else {
        Ok(())
    }
}

} // verus!
