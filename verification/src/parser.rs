use vstd::prelude::*;
use vstd::slice::slice_subrange;
use vstd::slice::slice_to_vec;

use crate::error::ParseError;

verus! {

/// The four bytes that open every container: the ASCII literal `Cr24`.
pub open spec fn magic_ok(data: Seq<u8>) -> bool
    recommends
        data.len() >= 4,
{
    data[0] == 0x43u8 && data[1] == 0x72u8 && data[2] == 0x32u8 && data[3] == 0x34u8
}

/// The four bytes at `i` taken as one little-endian 32-bit integer.
pub open spec fn u32_le_at(data: Seq<u8>, i: int) -> u32
    recommends
        0 <= i,
        i + 4 <= data.len(),
{
    (data[i] + data[i + 1] * 0x100 + data[i + 2] * 0x1_0000 + data[i + 3] * 0x100_0000) as u32
}

/// The parsed header descriptor. Constructed once per parse call, fully
/// populated before it is returned, and immutable thereafter; the parser
/// holds no state across calls.
#[derive(Debug)]
pub struct CrxInfo {
    version: u32,
    public_key: Vec<u8>,
    signature: Vec<u8>,
    zip_offset: usize,
}

/// The mathematical image of a descriptor: what a `CrxInfo` holds, with
/// the byte vectors as sequences and the offset as an unbounded integer.
#[verifier::ext_equal]
pub ghost struct CrxDesc {
    pub version: u32,
    pub public_key: Seq<u8>,
    pub signature: Seq<u8>,
    pub zip_offset: int,
}

impl View for CrxInfo {
    type V = CrxDesc;

    closed spec fn view(&self) -> CrxDesc {
        CrxDesc {
            version: self.version,
            public_key: self.public_key@,
            signature: self.signature@,
            zip_offset: self.zip_offset as int,
        }
    }
}

/// The smallest buffer that can hold a whole header of the given version:
/// 16 bytes for version 2 (magic, version and the two length fields) and
/// 12 for every other version (magic, version and the header-size field).
pub open spec fn min_header_size(version: u32) -> int {
    if version == 2 {
        16
    } else {
        12
    }
}

/// Whether the optional payload check rejects the buffer: it fires only
/// when at least four bytes remain at the offset, and demands that the
/// first two be the ZIP local-file-header marker `P` `K`.
pub open spec fn payload_marker_missing(data: Seq<u8>, offset: int) -> bool {
    offset + 4 <= data.len() && !(data[offset] == 0x50u8 && data[offset + 1] == 0x4bu8)
}

/// Layout of a version-2 header after the common 8-byte prefix: two
/// little-endian length fields, then the public key and the signature as
/// blobs of those lengths; the payload starts right after the signature.
pub open spec fn decode_v2(data: Seq<u8>) -> Result<CrxDesc, ParseError>
    recommends
        data.len() >= 16,
{
    let pub_key_len = u32_le_at(data, 8) as int;
    let sig_len = u32_le_at(data, 12) as int;
    if data.len() < 16 + pub_key_len {
        Err(ParseError::Truncated)
    } else if data.len() < 16 + pub_key_len + sig_len {
        Err(ParseError::Truncated)
    } else if payload_marker_missing(data, 16 + pub_key_len + sig_len) {
        Err(ParseError::BadPayloadSignature)
    } else {
        Ok(CrxDesc {
            version: 2,
            public_key: data.subrange(16, 16 + pub_key_len),
            signature: data.subrange(16 + pub_key_len, 16 + pub_key_len + sig_len),
            zip_offset: 16 + pub_key_len + sig_len,
        })
    }
}

/// Layout of a version-3 header after the common 8-byte prefix: one
/// little-endian header-size field, then that many bytes of opaque header
/// block, skipped without interpretation; key and signature stay empty.
pub open spec fn decode_v3(data: Seq<u8>) -> Result<CrxDesc, ParseError>
    recommends
        data.len() >= 12,
{
    let header_size = u32_le_at(data, 8) as int;
    if data.len() < 12 + header_size {
        Err(ParseError::Truncated)
    } else if payload_marker_missing(data, 12 + header_size) {
        Err(ParseError::BadPayloadSignature)
    } else {
        Ok(CrxDesc {
            version: 3,
            public_key: Seq::empty(),
            signature: Seq::empty(),
            zip_offset: 12 + header_size,
        })
    }
}

/// The whole decoder: magic, version, minimum length, then the layout of
/// the matching version. The checks fire in this order, so a buffer that
/// fails several of them reports the first failure.
pub open spec fn decode(data: Seq<u8>) -> Result<CrxDesc, ParseError> {
    if data.len() < 4 {
        Err(ParseError::Truncated)
    } else if !magic_ok(data) {
        Err(ParseError::BadMagic)
    } else if data.len() < 8 {
        Err(ParseError::Truncated)
    } else {
        let version = u32_le_at(data, 4);
        if version != 2 && version != 3 {
            Err(ParseError::UnsupportedVersion { version })
        } else if data.len() < min_header_size(version) {
            Err(ParseError::TooSmall {
                version,
                actual: data.len() as usize,
                required: min_header_size(version) as usize,
            })
        } else if version == 2 {
            decode_v2(data)
        } else {
            decode_v3(data)
        }
    }
}

/// The structural check a decoded descriptor must pass before it is
/// handed to the caller: version 2 owes a non-empty key and signature,
/// version 3 owes empty ones, and the payload offset can never fall below
/// the version's minimum header size.
pub open spec fn spec_validate(d: CrxDesc) -> Result<(), ParseError> {
    if d.version == 2 && d.public_key.len() == 0 {
        Err(ParseError::EmptyPublicKey)
    } else if d.version == 2 && d.signature.len() == 0 {
        Err(ParseError::EmptySignature)
    } else if d.version == 3 && d.public_key.len() != 0 {
        Err(ParseError::UnexpectedPublicKey)
    } else if d.version == 3 && d.signature.len() != 0 {
        Err(ParseError::UnexpectedSignature)
    } else if d.zip_offset < min_header_size(d.version) {
        Err(ParseError::OffsetTooSmall {
            offset: d.zip_offset as usize,
            minimum: min_header_size(d.version) as usize,
        })
    } else {
        Ok(())
    }
}

/// The full pipeline: decode, then validate. Parsing does not count as
/// successful until the validator passes, and a validator failure is the
/// final result of the call.
pub open spec fn spec_parse(data: Seq<u8>) -> Result<CrxDesc, ParseError> {
    match decode(data) {
        Err(e) => Err(e),
        Ok(d) => match spec_validate(d) {
            Err(e) => Err(e),
            Ok(_) => Ok(d),
        },
    }
}

/// What payload extraction returns: the tail of the buffer from the
/// computed payload offset, or the parse failure unchanged.
pub open spec fn spec_extract(data: Seq<u8>) -> Result<Seq<u8>, ParseError> {
    match spec_parse(data) {
        Err(e) => Err(e),
        Ok(d) => if d.zip_offset <= data.len() {
            Ok(data.subrange(d.zip_offset, data.len() as int))
        } else {
            Err(ParseError::OffsetOutOfRange)
        },
    }
}

/// Reads the little-endian 32-bit integer stored at byte position `pos`.
fn read_u32_le(data: &[u8], pos: usize) -> (r: u32)
    requires
        pos + 4 <= data@.len(),
    ensures
        r == u32_le_at(data@, pos as int),
{
    let b0 = data[pos] as u32;
    let b1 = data[pos + 1] as u32;
    let b2 = data[pos + 2] as u32;
    let b3 = data[pos + 3] as u32;
    b0 + b1 * 0x100 + b2 * 0x1_0000 + b3 * 0x100_0000
}

/// Version-2 field parser, entered with the magic and version already
/// checked and at least the 16-byte fixed prefix present.
fn parse_crx2(data: &[u8]) -> (r: Result<CrxInfo, ParseError>)
    requires
        data@.len() >= 16,
    ensures
        match r {
            Ok(info) => decode_v2(data@) == Ok::<CrxDesc, ParseError>(info@),
            Err(e) => decode_v2(data@) == Err::<CrxDesc, ParseError>(e),
        },
{
    let len = data.len();
    let pub_key_len = read_u32_le(data, 8) as usize;
    let sig_len = read_u32_le(data, 12) as usize;
    if len - 16 < pub_key_len {
        return Err(ParseError::Truncated);
    }
    if len - 16 - pub_key_len < sig_len {
        return Err(ParseError::Truncated);
    }
    let zip_offset: usize = 16 + pub_key_len + sig_len;
    if len - zip_offset >= 4 {
        if !(data[zip_offset] == 0x50 && data[zip_offset + 1] == 0x4b) {
            return Err(ParseError::BadPayloadSignature);
        }
    }
    let public_key = slice_to_vec(slice_subrange(data, 16, 16 + pub_key_len));
    let signature = slice_to_vec(slice_subrange(data, 16 + pub_key_len, zip_offset));
    Ok(CrxInfo { version: 2, public_key, signature, zip_offset })
}

/// Version-3 field parser, entered with the magic and version already
/// checked and at least the 12-byte fixed prefix present. The opaque
/// header block is skipped, never interpreted.
fn parse_crx3(data: &[u8]) -> (r: Result<CrxInfo, ParseError>)
    requires
        data@.len() >= 12,
    ensures
        match r {
            Ok(info) => decode_v3(data@) == Ok::<CrxDesc, ParseError>(info@),
            Err(e) => decode_v3(data@) == Err::<CrxDesc, ParseError>(e),
        },
{
    let len = data.len();
    let header_size = read_u32_le(data, 8) as usize;
    if len - 12 < header_size {
        return Err(ParseError::Truncated);
    }
    let zip_offset: usize = 12 + header_size;
    if len - zip_offset >= 4 {
        if !(data[zip_offset] == 0x50 && data[zip_offset + 1] == 0x4b) {
            return Err(ParseError::BadPayloadSignature);
        }
    }
    Ok(CrxInfo { version: 3, public_key: Vec::new(), signature: Vec::new(), zip_offset })
}

/// Structural validator: checks a descriptor against the version-specific
/// invariants before it is released to the caller. Pure; no side effects.
pub fn verify_crx_info(info: &CrxInfo) -> (r: Result<(), ParseError>)
    ensures
        r == spec_validate(info@),
{
    if info.version == 2 {
        if info.public_key.len() == 0 {
            return Err(ParseError::EmptyPublicKey);
        }
        if info.signature.len() == 0 {
            return Err(ParseError::EmptySignature);
        }
    } else if info.version == 3 {
        if info.public_key.len() != 0 {
            return Err(ParseError::UnexpectedPublicKey);
        }
        if info.signature.len() != 0 {
            return Err(ParseError::UnexpectedSignature);
        }
    }
    let minimum: usize = if info.version == 2 {
        16
    } else {
        12
    };
    if info.zip_offset < minimum {
        return Err(ParseError::OffsetTooSmall { offset: info.zip_offset, minimum });
    }
    Ok(())
}

/// Header decoder and sole parsing entry point: recognizes the magic,
/// reads the version, dispatches to the matching field parser and passes
/// the result through the structural validator.
pub fn parse_crx(data: &[u8]) -> (r: Result<CrxInfo, ParseError>)
    ensures
        match r {
            Ok(info) => spec_parse(data@) == Ok::<CrxDesc, ParseError>(info@),
            Err(e) => spec_parse(data@) == Err::<CrxDesc, ParseError>(e),
        },
{
    let len = data.len();
    if len < 4 {
        return Err(ParseError::Truncated);
    }
    if !(data[0] == 0x43 && data[1] == 0x72 && data[2] == 0x32 && data[3] == 0x34) {
        return Err(ParseError::BadMagic);
    }
    if len < 8 {
        return Err(ParseError::Truncated);
    }
    let version = read_u32_le(data, 4);
    if version != 2 && version != 3 {
        return Err(ParseError::UnsupportedVersion { version });
    }
    let required: usize = if version == 2 {
        16
    } else {
        12
    };
    if len < required {
        return Err(ParseError::TooSmall { version, actual: len, required });
    }
    let info = if version == 2 {
        match parse_crx2(data) {
            Ok(i) => i,
            Err(e) => return Err(e),
        }
    } else {
        match parse_crx3(data) {
            Ok(i) => i,
            Err(e) => return Err(e),
        }
    };
    match verify_crx_info(&info) {
        Ok(_) => Ok(info),
        Err(e) => Err(e),
    }
}

/// Runs the whole parse pipeline and, on success, returns a copy of the
/// buffer's tail from the computed payload offset: the embedded ZIP data.
pub fn extract_zip_data(data: &[u8]) -> (r: Result<Vec<u8>, ParseError>)
    ensures
        match r {
            Ok(payload) => spec_extract(data@) == Ok::<Seq<u8>, ParseError>(payload@),
            Err(e) => spec_extract(data@) == Err::<Seq<u8>, ParseError>(e),
        },
{
    let info = match parse_crx(data) {
        Ok(i) => i,
        Err(e) => return Err(e),
    };
    if info.zip_offset > data.len() {
        return Err(ParseError::OffsetOutOfRange);
    }
    Ok(slice_to_vec(slice_subrange(data, info.zip_offset, data.len())))
}

impl CrxInfo {
    /// Builds a descriptor directly from its four fields, so that a
    /// caller can hand its own descriptors to the validator.
    pub fn new(version: u32, public_key: Vec<u8>, signature: Vec<u8>, zip_offset: usize) -> (r:
        CrxInfo)
        ensures
            r@ == (CrxDesc {
                version,
                public_key: public_key@,
                signature: signature@,
                zip_offset: zip_offset as int,
            }),
    {
        CrxInfo { version, public_key, signature, zip_offset }
    }

    /// The format version the buffer declared: 2 or 3 for every
    /// descriptor the parser itself produced.
    pub fn version(&self) -> (r: u32)
        ensures
            r == self@.version,
    {
        self.version
    }

    /// The embedded public key: the version-2 blob, or empty for
    /// version 3, whose key material sits inside the opaque block.
    pub fn public_key(&self) -> (r: &Vec<u8>)
        ensures
            r@ == self@.public_key,
    {
        &self.public_key
    }

    /// The embedded signature, under the same per-version contract as
    /// the public key.
    pub fn signature(&self) -> (r: &Vec<u8>)
        ensures
            r@ == self@.signature,
    {
        &self.signature
    }

    /// The byte offset in the original buffer where the ZIP payload
    /// begins.
    pub fn zip_offset(&self) -> (r: usize)
        ensures
            r as int == self@.zip_offset,
    {
        self.zip_offset
    }
}

/// For every buffer that parses successfully as version 2, the payload
/// offset equals the 16-byte fixed prefix plus the lengths of the public
/// key and the signature, it lies inside the buffer, and extraction
/// returns exactly the bytes that follow the signature.
pub proof fn lemma_v2_payload_offset(data: Seq<u8>, d: CrxDesc)
    requires
        spec_parse(data) == Ok::<CrxDesc, ParseError>(d),
        d.version == 2,
    ensures
        d.zip_offset == 16 + d.public_key.len() + d.signature.len(),
        16 <= d.zip_offset <= data.len(),
        spec_extract(data) == Ok::<Seq<u8>, ParseError>(
            data.subrange(d.zip_offset, data.len() as int),
        ),
{
}

/// For every buffer that parses successfully as version 3, the payload
/// offset equals the 12-byte fixed prefix plus the declared header size,
/// it lies inside the buffer, and key and signature are empty.
pub proof fn lemma_v3_payload_offset(data: Seq<u8>, d: CrxDesc)
    requires
        spec_parse(data) == Ok::<CrxDesc, ParseError>(d),
        d.version == 3,
    ensures
        d.zip_offset == 12 + u32_le_at(data, 8),
        12 <= d.zip_offset <= data.len(),
        d.public_key.len() == 0,
        d.signature.len() == 0,
{
}

/// Parsing is a pure function of the buffer: two parses of the same
/// bytes yield the same result, so there is no hidden state.
pub proof fn lemma_parse_idempotent(
    data: Seq<u8>,
    r1: Result<CrxDesc, ParseError>,
    r2: Result<CrxDesc, ParseError>,
)
    requires
        r1 == spec_parse(data),
        r2 == spec_parse(data),
    ensures
        r1 == r2,
{
}

/// Every buffer shorter than the 4-byte magic is rejected as truncated.
pub proof fn lemma_short_buffer_truncated(data: Seq<u8>)
    requires
        data.len() < 4,
    ensures
        spec_parse(data) == Err::<CrxDesc, ParseError>(ParseError::Truncated),
{
}

/// Every buffer whose first four bytes are not the `Cr24` magic is
/// rejected for its magic, whatever follows.
pub proof fn lemma_bad_magic(data: Seq<u8>)
    requires
        data.len() >= 4,
        !magic_ok(data),
    ensures
        spec_parse(data) == Err::<CrxDesc, ParseError>(ParseError::BadMagic),
{
}

/// Every buffer that declares a version other than 2 or 3 is rejected
/// with that version, whatever follows: no forward-compatibility guess
/// is attempted.
pub proof fn lemma_unsupported_version(data: Seq<u8>)
    requires
        data.len() >= 8,
        magic_ok(data),
        u32_le_at(data, 4) != 2,
        u32_le_at(data, 4) != 3,
    ensures
        spec_parse(data) == Err::<CrxDesc, ParseError>(
            ParseError::UnsupportedVersion { version: u32_le_at(data, 4) },
        ),
{
}

/// Every descriptor the pipeline returns satisfies the structural
/// invariants: a supported version, and a payload offset between the
/// version's minimum header size and the buffer's length.
pub proof fn lemma_descriptor_invariant(data: Seq<u8>, d: CrxDesc)
    requires
        spec_parse(data) == Ok::<CrxDesc, ParseError>(d),
    ensures
        d.version == 2 || d.version == 3,
        min_header_size(d.version) <= d.zip_offset <= data.len(),
        spec_validate(d) == Ok::<(), ParseError>(()),
{
}

/// Extraction fails only the way parsing fails: the offset a successful
/// parse computes always lies inside the buffer, so the out-of-range
/// failure is never actually returned.
pub proof fn lemma_extract_offset_in_range(data: Seq<u8>)
    ensures
        spec_extract(data) != Err::<Seq<u8>, ParseError>(ParseError::OffsetOutOfRange),
{
}

} // verus!
