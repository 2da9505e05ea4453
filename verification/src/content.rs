//! What a metadata account says: unpacking its bytes, or following them to where the content is.
//!
//! [`resolve_metadata_content_bytes`] gives the content where the account holds it, and
//! otherwise names the URL or the account to fetch.
use vstd::prelude::*;
use std::io::Read;
use crate::account::{Compression, DataSource, Encoding, Metadata};
use crate::address::{read_address, Address};
use crate::bytes::{copy_range, read_le_u32};
use crate::codec::{decode_base58, decode_base64};
use crate::text::utf8_text;

verus! {

/// How many bytes of an account's data precede the packed content.
pub const METADATA_HEADER_PADDING: usize = 5;

/// How many bytes a pointer to another account takes.
pub const EXTERNAL_POINTER_LENGTH: usize = 40;

/// What the Rust standard library reports of reading and writing.
#[verifier::external_type_specification]
#[verifier::external_body]
pub struct ExIoError(std::io::Error);

/// What flate2's gzip decoder reads from these bytes, where it reads them without error.
pub uninterp spec fn gzip_content(data: Seq<u8>) -> Option<Seq<u8>>;

/// What flate2's zlib decoder reads from these bytes, where it reads them without error.
pub uninterp spec fn zlib_content(data: Seq<u8>) -> Option<Seq<u8>>;

/// `data` starts with the mark of gzip and of the one method of compression that it knows.
pub open spec fn gzip_marked(data: Seq<u8>) -> bool {
    data.len() >= 3 && data[0] == 0x1f && data[1] == 0x8b && data[2] == 8
}

/// Reads a `flate2::read::GzDecoder` over the bytes to its end. The outcome is a function of
/// the bytes, and without the mark of gzip it is an error; which other bytes are gzip is left
/// unsaid.
#[verifier::external_body]
fn gunzip(data: &[u8]) -> (content: Result<Vec<u8>, std::io::Error>)
    ensures
        content is Ok <==> gzip_content(data@) is Some,
        content matches Ok(c) ==> gzip_content(data@) == Some(c@) && gzip_marked(data@),
{
    let mut content = Vec::new();
    flate2::read::GzDecoder::new(data).read_to_end(&mut content)?;
    Ok(content)
}

/// Reads a `flate2::read::ZlibDecoder` over the bytes to its end. The outcome is a function of
/// the bytes; which bytes are zlib is left unsaid.
#[verifier::external_body]
fn inflate_zlib(data: &[u8]) -> (content: Result<Vec<u8>, std::io::Error>)
    ensures
        content is Ok <==> zlib_content(data@) is Some,
        content matches Ok(c) ==> zlib_content(data@) == Some(c@),
{
    let mut content = Vec::new();
    flate2::read::ZlibDecoder::new(data).read_to_end(&mut content)?;
    Ok(content)
}

/// Why content cannot be had.
#[derive(Debug)]
pub enum ContentError {
    /// The account claims more bytes than it holds.
    LengthExceedsData,
    Gzip(std::io::Error),
    Zlib(std::io::Error),
    Base58NotUtf8(core::str::Utf8Error),
    Base58(bs58::decode::Error),
    Base64NotUtf8(core::str::Utf8Error),
    Base64(base64::DecodeError),
    UrlNotUtf8(core::str::Utf8Error),
    /// The server's status tells no success.
    UrlStatus,
    /// The pointer to another account is cut off.
    PointerTooShort,
    OffsetExceedsData,
    LengthExceedsRemaining,
}

/// The kinds of [`ContentError`].
pub enum ContentFault {
    LengthExceedsData,
    Gzip,
    Zlib,
    Base58NotUtf8,
    Base58,
    Base64NotUtf8,
    Base64,
    UrlNotUtf8,
    UrlStatus,
    PointerTooShort,
    OffsetExceedsData,
    LengthExceedsRemaining,
}

impl ContentError {
    /// The kind of this error.
    pub open spec fn fault(self) -> ContentFault {
        match self {
            ContentError::LengthExceedsData => ContentFault::LengthExceedsData,
            ContentError::Gzip(_) => ContentFault::Gzip,
            ContentError::Zlib(_) => ContentFault::Zlib,
            ContentError::Base58NotUtf8(_) => ContentFault::Base58NotUtf8,
            ContentError::Base58(_) => ContentFault::Base58,
            ContentError::Base64NotUtf8(_) => ContentFault::Base64NotUtf8,
            ContentError::Base64(_) => ContentFault::Base64,
            ContentError::UrlNotUtf8(_) => ContentFault::UrlNotUtf8,
            ContentError::UrlStatus => ContentFault::UrlStatus,
            ContentError::PointerTooShort => ContentFault::PointerTooShort,
            ContentError::OffsetExceedsData => ContentFault::OffsetExceedsData,
            ContentError::LengthExceedsRemaining => ContentFault::LengthExceedsRemaining,
        }
    }
}

/// A pointer to bytes in another account: from `offset` on, `length` of them or all that follow.
#[derive(Debug, Clone, Copy)]
pub struct ExternalMetadataData {
    pub address: Address,
    pub offset: u32,
    pub length: Option<u32>,
}

/// What is to be done to have the content.
#[derive(Debug)]
pub enum ContentStep {
    /// Nothing: here it is.
    Done(Vec<u8>),
    /// Fetch this URL.
    FetchUrl(String),
    /// Fetch the account that this points to.
    FetchAccount(ExternalMetadataData),
}

/// A [`ContentStep`] with its bytes and text as sequences.
pub enum ContentStepView {
    Done(Seq<u8>),
    FetchUrl(Seq<char>),
    FetchAccount(ExternalMetadataData),
}

impl View for ContentStep {
    type V = ContentStepView;

    open spec fn view(&self) -> ContentStepView {
        match *self {
            ContentStep::Done(content) => ContentStepView::Done(content@),
            ContentStep::FetchUrl(url) => ContentStepView::FetchUrl(url@),
            ContentStep::FetchAccount(external) => ContentStepView::FetchAccount(external),
        }
    }
}

/// The packed content of an account: the bytes that follow the padding, as many as it claims.
pub open spec fn packed_data(metadata: Metadata) -> Result<Seq<u8>, ContentFault> {
    if METADATA_HEADER_PADDING + metadata.data_length <= metadata.data@.len() {
        Ok(
            metadata.data@.subrange(
                METADATA_HEADER_PADDING as int,
                METADATA_HEADER_PADDING + metadata.data_length,
            ),
        )
    } else {
        Err(ContentFault::LengthExceedsData)
    }
}

/// The bytes of `data` before they were compressed.
pub open spec fn uncompressed(data: Seq<u8>, compression: Compression) -> Result<
    Seq<u8>,
    ContentFault,
> {
    match compression {
        Compression::Uncompressed => Ok(data),
        Compression::Gzip => match gzip_content(data) {
            Some(content) => if gzip_marked(data) {
                Ok(content)
            } else {
                Err(ContentFault::Gzip)
            },
            None => Err(ContentFault::Gzip),
        },
        Compression::Zlib => match zlib_content(data) {
            Some(content) => Ok(content),
            None => Err(ContentFault::Zlib),
        },
    }
}

/// The content that `data` stands for.
pub open spec fn decoded(data: Seq<u8>, encoding: Encoding) -> Result<Seq<u8>, ContentFault> {
    match encoding {
        Encoding::Raw | Encoding::Utf8 => Ok(data),
        Encoding::Base58 => if !vstd::utf8::valid_utf8(data) {
            Err(ContentFault::Base58NotUtf8)
        } else {
            match crate::codec::base58_content(vstd::utf8::decode_utf8(data)) {
                Some(content) => Ok(content),
                None => Err(ContentFault::Base58),
            }
        },
        Encoding::Base64 => if !vstd::utf8::valid_utf8(data) {
            Err(ContentFault::Base64NotUtf8)
        } else {
            match crate::codec::base64_content(vstd::utf8::decode_utf8(data)) {
                Some(content) => Ok(content),
                None => Err(ContentFault::Base64),
            }
        },
    }
}

/// The content that packed bytes stand for: they are uncompressed first and then decoded.
pub open spec fn unpacked(data: Seq<u8>, compression: Compression, encoding: Encoding) -> Result<
    Seq<u8>,
    ContentFault,
> {
    match uncompressed(data, compression) {
        Ok(plain) => decoded(plain, encoding),
        Err(fault) => Err(fault),
    }
}

/// The pointer that `data` starts with. A length of zero means all that follows the offset.
pub open spec fn external_pointer(data: Seq<u8>) -> Result<ExternalMetadataData, ContentFault> {
    if data.len() < EXTERNAL_POINTER_LENGTH {
        Err(ContentFault::PointerTooShort)
    } else {
        let length = crate::bytes::le_u32(data, 36) as u32;
        Ok(
            ExternalMetadataData {
                address: crate::address::address_at(data, 0),
                offset: crate::bytes::le_u32(data, 32) as u32,
                length: if length == 0 { None } else { Some(length) },
            },
        )
    }
}

/// What is to be done to have the content of an account.
pub open spec fn content_step(metadata: Metadata) -> Result<ContentStepView, ContentFault> {
    match packed_data(metadata) {
        Err(fault) => Err(fault),
        Ok(packed) => match metadata.data_source {
            DataSource::Direct => match unpacked(packed, metadata.compression, metadata.encoding) {
                Ok(content) => Ok(ContentStepView::Done(content)),
                Err(fault) => Err(fault),
            },
            DataSource::Url => match unpacked(packed, metadata.compression, metadata.encoding) {
                Ok(url) => if vstd::utf8::valid_utf8(url) {
                    Ok(ContentStepView::FetchUrl(vstd::utf8::decode_utf8(url)))
                } else {
                    Err(ContentFault::UrlNotUtf8)
                },
                Err(fault) => Err(fault),
            },
            DataSource::External => match external_pointer(packed) {
                Ok(external) => Ok(ContentStepView::FetchAccount(external)),
                Err(fault) => Err(fault),
            },
        },
    }
}

/// The bytes of an account's data that a pointer picks.
pub open spec fn external_slice(external: ExternalMetadataData, data: Seq<u8>) -> Result<
    Seq<u8>,
    ContentFault,
> {
    if external.offset > data.len() {
        Err(ContentFault::OffsetExceedsData)
    } else {
        match external.length {
            None => Ok(data.subrange(external.offset as int, data.len() as int)),
            Some(length) => if external.offset + length <= data.len() {
                Ok(data.subrange(external.offset as int, external.offset + length))
            } else {
                Err(ContentFault::LengthExceedsRemaining)
            },
        }
    }
}

/// The content that a server's answer for a URL gives.
pub open spec fn url_content(status: u16, body: Seq<u8>) -> Result<Seq<u8>, ContentFault> {
    if 200 <= status < 300 {
        Ok(body)
    } else {
        Err(ContentFault::UrlStatus)
    }
}

/// The content in the account that a pointer points to, given that account's data.
pub open spec fn external_content(
    external: ExternalMetadataData,
    data: Seq<u8>,
    compression: Compression,
    encoding: Encoding,
) -> Result<Seq<u8>, ContentFault> {
    match external_slice(external, data) {
        Ok(packed) => unpacked(packed, compression, encoding),
        Err(fault) => Err(fault),
    }
}

/// The packed content of an account.
pub fn packed_metadata_data(metadata: &Metadata) -> (packed: Result<Vec<u8>, ContentError>)
    ensures
        match packed {
            Ok(data) => packed_data(*metadata) == Ok::<_, ContentFault>(data@),
            Err(e) => packed_data(*metadata) == Err::<Seq<u8>, _>(e.fault()),
        },
{
    let end: u64 = METADATA_HEADER_PADDING as u64 + metadata.data_length as u64;
    if end > metadata.data.len() as u64 {
        return Err(ContentError::LengthExceedsData);
    }
    Ok(copy_range(&metadata.data, METADATA_HEADER_PADDING, end as usize))
}

/// The pointer to another account that `data` starts with.
pub fn unpack_external_data(data: &[u8]) -> (external: Result<ExternalMetadataData, ContentError>)
    ensures
        match external {
            Ok(e) => external_pointer(data@) == Ok::<_, ContentFault>(e),
            Err(e) => external_pointer(data@) == Err::<ExternalMetadataData, _>(e.fault()),
        },
{
    if data.len() < EXTERNAL_POINTER_LENGTH {
        return Err(ContentError::PointerTooShort);
    }
    let raw_length: u32 = read_le_u32(data, 36);
    Ok(
        ExternalMetadataData {
            address: read_address(data, 0),
            offset: read_le_u32(data, 32),
            length: if raw_length == 0 { None } else { Some(raw_length) },
        },
    )
}

/// The bytes of `data` before they were compressed.
pub fn uncompress_data(data: &[u8], compression: Compression) -> (content: Result<
    Vec<u8>,
    ContentError,
>)
    ensures
        match content {
            Ok(c) => uncompressed(data@, compression) == Ok::<_, ContentFault>(c@),
            Err(e) => uncompressed(data@, compression) == Err::<Seq<u8>, _>(e.fault()),
        },
{
    match compression {
        Compression::Uncompressed => Ok(copy_all(data)),
        Compression::Gzip => match gunzip(data) {
            Ok(content) => Ok(content),
            Err(error) => Err(ContentError::Gzip(error)),
        },
        Compression::Zlib => match inflate_zlib(data) {
            Ok(content) => Ok(content),
            Err(error) => Err(ContentError::Zlib(error)),
        },
    }
}

/// The content that `data` stands for.
pub fn decode_data(data: &[u8], encoding: Encoding) -> (content: Result<Vec<u8>, ContentError>)
    ensures
        match content {
            Ok(c) => decoded(data@, encoding) == Ok::<_, ContentFault>(c@),
            Err(e) => decoded(data@, encoding) == Err::<Seq<u8>, _>(e.fault()),
        },
{
    match encoding {
        Encoding::Raw | Encoding::Utf8 => Ok(copy_all(data)),
        Encoding::Base58 => match utf8_text(data) {
            Ok(text) => match decode_base58(text) {
                Ok(content) => {
                    proof {
                        crate::codec::law_base58_stands_for_one_content(text@, content@, content@);
                    }
                    Ok(content)
                },
                Err(error) => Err(ContentError::Base58(error)),
            },
            Err(error) => Err(ContentError::Base58NotUtf8(error)),
        },
        Encoding::Base64 => match utf8_text(data) {
            Ok(text) => match decode_base64(text) {
                Ok(content) => {
                    proof {
                        crate::codec::law_base64_stands_for_one_content(text@, content@, content@);
                    }
                    Ok(content)
                },
                Err(error) => Err(ContentError::Base64(error)),
            },
            Err(error) => Err(ContentError::Base64NotUtf8(error)),
        },
    }
}

/// A copy of `data`.
fn copy_all(data: &[u8]) -> (copy: Vec<u8>)
    ensures
        copy@ == data@,
{
    assert(data@.subrange(0, data@.len() as int) =~= data@);
    copy_range(data, 0, data.len())
}

/// The content that packed bytes stand for.
pub fn decode_packed_bytes(data: &[u8], compression: Compression, encoding: Encoding) -> (content:
    Result<Vec<u8>, ContentError>)
    ensures
        match content {
            Ok(c) => unpacked(data@, compression, encoding) == Ok::<_, ContentFault>(c@),
            Err(e) => unpacked(data@, compression, encoding) == Err::<Seq<u8>, _>(e.fault()),
        },
{
    let plain = uncompress_data(data, compression)?;
    decode_data(&plain, encoding)
}

/// The content of an account, or what is to be fetched to have it.
pub fn resolve_metadata_content_bytes(metadata: &Metadata) -> (step: Result<
    ContentStep,
    ContentError,
>)
    ensures
        match step {
            Ok(s) => content_step(*metadata) == Ok::<_, ContentFault>(s@),
            Err(e) => content_step(*metadata) == Err::<ContentStepView, _>(e.fault()),
        },
{
    let packed = packed_metadata_data(metadata)?;
    match metadata.data_source {
        DataSource::Direct => match decode_packed_bytes(
            &packed,
            metadata.compression,
            metadata.encoding,
        ) {
            Ok(content) => Ok(ContentStep::Done(content)),
            Err(error) => Err(error),
        },
        DataSource::Url => {
            let url = decode_packed_bytes(&packed, metadata.compression, metadata.encoding)?;
            match utf8_text(&url) {
                Ok(text) => Ok(ContentStep::FetchUrl(text.to_owned())),
                Err(error) => Err(ContentError::UrlNotUtf8(error)),
            }
        },
        DataSource::External => match unpack_external_data(&packed) {
            Ok(external) => Ok(ContentStep::FetchAccount(external)),
            Err(error) => Err(error),
        },
    }
}

/// Checks that the status with which a server answered for a URL tells success.
pub fn ensure_success_status(status: u16) -> (checked: Result<(), ContentError>)
    ensures
        match checked {
            Ok(()) => 200 <= status < 300,
            Err(e) => !(200 <= status < 300) && e.fault() == ContentFault::UrlStatus,
        },
        checked is Ok <==> url_content(status, Seq::empty()) is Ok,
{
    if 200 <= status && status < 300 {
        Ok(())
    } else {
        Err(ContentError::UrlStatus)
    }
}

/// The content behind a URL, given what the server answered: the body of a successful answer as
/// it came. How the account compresses and encodes applies to the URL, not to the body.
pub fn resolve_url_content(status: u16, body: Vec<u8>) -> (content: Result<Vec<u8>, ContentError>)
    ensures
        match content {
            Ok(c) => 200 <= status < 300 && c == body,
            Err(e) => !(200 <= status < 300) && e.fault() == ContentFault::UrlStatus,
        },
        match content {
            Ok(c) => url_content(status, body@) == Ok::<_, ContentFault>(c@),
            Err(e) => url_content(status, body@) == Err::<Seq<u8>, _>(e.fault()),
        },
{
    ensure_success_status(status)?;
    Ok(body)
}

/// The content in the account that `external` points to, given that account's data.
pub fn resolve_external_content(
    external: &ExternalMetadataData,
    account_data: &[u8],
    compression: Compression,
    encoding: Encoding,
) -> (content: Result<Vec<u8>, ContentError>)
    ensures
        match external_slice(*external, account_data@) {
            Err(fault) => content matches Err(e) && e.fault() == fault,
            Ok(packed) => match content {
                Ok(c) => unpacked(packed, compression, encoding) == Ok::<_, ContentFault>(c@),
                Err(e) => unpacked(packed, compression, encoding) == Err::<Seq<u8>, _>(e.fault()),
            },
        },
        match content {
            Ok(c) => external_content(*external, account_data@, compression, encoding) == Ok::<
                _,
                ContentFault,
            >(c@),
            Err(e) => external_content(*external, account_data@, compression, encoding) == Err::<
                Seq<u8>,
                _,
            >(e.fault()),
        },
{
    let offset = external.offset as usize;
    if offset > account_data.len() {
        return Err(ContentError::OffsetExceedsData);
    }
    let end = match external.length {
        Some(length) => {
            let length = length as usize;
            if length > account_data.len() - offset {
                return Err(ContentError::LengthExceedsRemaining);
            }
            offset + length
        },
        None => account_data.len(),
    };
    let packed = copy_range(account_data, offset, end);
    decode_packed_bytes(&packed, compression, encoding)
}

/// Bytes that are not compressed come back as they are, and bytes without the mark of gzip are
/// not taken for gzip.
pub proof fn law_uncompressing_respects_mark(data: Seq<u8>)
    ensures
        uncompressed(data, Compression::Uncompressed) == Ok::<_, ContentFault>(data),
        data.len() < 2 || data[0] != 0x1f || data[1] != 0x8b ==> uncompressed(
            data,
            Compression::Gzip,
        ) == Err::<Seq<u8>, _>(ContentFault::Gzip),
{
}

/// Bytes that are not encoded come back as they are, whether they are UTF-8 or not. Bytes that
/// are not UTF-8 are taken neither for base 58 nor for base 64.
pub proof fn law_decoding_checks_utf8_of_encoded_text_only(data: Seq<u8>)
    ensures
        decoded(data, Encoding::Raw) == Ok::<_, ContentFault>(data),
        decoded(data, Encoding::Utf8) == Ok::<_, ContentFault>(data),
        !vstd::utf8::valid_utf8(data) ==> {
            &&& decoded(data, Encoding::Base58) == Err::<Seq<u8>, _>(ContentFault::Base58NotUtf8)
            &&& decoded(data, Encoding::Base64) == Err::<Seq<u8>, _>(ContentFault::Base64NotUtf8)
        },
{
}

/// Decoding undoes encoding: the base 58 form of some bytes, and their base 64 form with its
/// padding, decode to those bytes.
pub proof fn law_decoding_undoes_encoding(text: Seq<char>, data: Seq<u8>)
    ensures
        crate::codec::is_base58(text, data) ==> decoded(
            vstd::utf8::encode_utf8(text),
            Encoding::Base58,
        ) == Ok::<_, ContentFault>(data),
        crate::codec::is_base64(text, data) ==> decoded(
            vstd::utf8::encode_utf8(text),
            Encoding::Base64,
        ) == Ok::<_, ContentFault>(data),
{
    vstd::utf8::encode_utf8_valid_utf8(text);
    vstd::utf8::encode_utf8_decode_utf8(text);
    if crate::codec::is_base58(text, data) {
        crate::codec::law_base58_stands_for_one_content(text, data, data);
    }
    if crate::codec::is_base64(text, data) {
        crate::codec::law_base64_stands_for_one_content(text, data, data);
    }
}

/// Content that is kept as it is in the account itself reads back as it was written, whatever
/// precedes it in the padding and follows it.
pub proof fn law_direct_content_reads_back(
    metadata: Metadata,
    padding: Seq<u8>,
    content: Seq<u8>,
    rest: Seq<u8>,
)
    requires
        metadata.data_source == DataSource::Direct,
        metadata.compression == Compression::Uncompressed,
        metadata.encoding == Encoding::Raw || metadata.encoding == Encoding::Utf8,
        padding.len() == METADATA_HEADER_PADDING,
        metadata.data_length == content.len(),
        metadata.data@ == padding + content + rest,
    ensures
        content_step(metadata) == Ok::<_, ContentFault>(ContentStepView::Done(content)),
{
    assert(metadata.data@.subrange(
        METADATA_HEADER_PADDING as int,
        METADATA_HEADER_PADDING + metadata.data_length,
    ) =~= content);
}

/// A pointer to another account reads back as it was written. A length of zero reads as none.
pub proof fn law_external_pointer_reads_back(
    address: Address,
    offset: u32,
    length: u32,
    rest: Seq<u8>,
)
    ensures
        external_pointer(
            address@ + crate::bytes::le_u32_bytes(offset) + crate::bytes::le_u32_bytes(length)
                + rest,
        ) == Ok::<_, ContentFault>(
            ExternalMetadataData {
                address,
                offset,
                length: if length == 0 { None } else { Some(length) },
            },
        ),
{
    let data = address@ + crate::bytes::le_u32_bytes(offset) + crate::bytes::le_u32_bytes(length)
        + rest;
    crate::bytes::law_le_u32_reads_back(offset);
    crate::bytes::law_le_u32_reads_back(length);
    assert(crate::bytes::le_u32(data, 32) == offset);
    assert(crate::bytes::le_u32(data, 36) == length);
    crate::address::law_address_at_is_subrange(data, 0);
    assert(data.subrange(0, 32) =~= address@);
    crate::address::law_address_is_its_bytes(crate::address::address_at(data, 0), address);
}

/// A pointer picks the bytes that were put at its offset; without a length it picks all that
/// follow.
pub proof fn law_external_slice_picks_content(
    external: ExternalMetadataData,
    before: Seq<u8>,
    content: Seq<u8>,
    after: Seq<u8>,
)
    requires
        external.offset == before.len(),
        match external.length {
            Some(length) => length == content.len(),
            None => after.len() == 0,
        },
    ensures
        external_slice(external, before + content + after) == Ok::<_, ContentFault>(content),
{
    let data = before + content + after;
    let start = before.len() as int;
    assert(data.subrange(start, start + content.len()) =~= content);
}

/// An account that claims more bytes than follow the padding has no content, wherever it says
/// that the content is.
pub proof fn law_overlong_claim_is_refused(metadata: Metadata)
    requires
        METADATA_HEADER_PADDING + metadata.data_length > metadata.data@.len(),
    ensures
        content_step(metadata) == Err::<ContentStepView, _>(ContentFault::LengthExceedsData),
{
}

/// Where a decoder reads `data`, uncompressing gives what it read, and where it reads nothing
/// uncompressing fails, of whatever length and content the bytes are.
pub proof fn law_uncompressing_gives_what_is_read(data: Seq<u8>, plain: Seq<u8>)
    ensures
        uncompressed(data, Compression::Uncompressed) == Ok::<_, ContentFault>(data),
        zlib_content(data) == Some(plain) ==> uncompressed(data, Compression::Zlib) == Ok::<
            _,
            ContentFault,
        >(plain),
        zlib_content(data) is None ==> uncompressed(data, Compression::Zlib) == Err::<Seq<u8>, _>(
            ContentFault::Zlib,
        ),
        gzip_content(data) == Some(plain) && data.len() >= 3 && data[0] == 0x1f && data[1] == 0x8b
            && data[2] == 8 ==> uncompressed(data, Compression::Gzip) == Ok::<_, ContentFault>(
            plain,
        ),
        gzip_content(data) is None ==> uncompressed(data, Compression::Gzip) == Err::<Seq<u8>, _>(
            ContentFault::Gzip,
        ),
{
}

/// Text with a character that is no digit of base 58, and text that is the base 64 form of no
/// bytes, is not decoded.
pub proof fn law_wrong_digits_are_refused(text: Seq<char>, at: int)
    ensures
        0 <= at < text.len() && crate::codec::base58_digit(text[at]) is None ==> decoded(
            vstd::utf8::encode_utf8(text),
            Encoding::Base58,
        ) == Err::<Seq<u8>, _>(ContentFault::Base58),
        (forall|data: Seq<u8>| !crate::codec::is_base64(text, data)) ==> decoded(
            vstd::utf8::encode_utf8(text),
            Encoding::Base64,
        ) == Err::<Seq<u8>, _>(ContentFault::Base64),
{
    vstd::utf8::encode_utf8_valid_utf8(text);
    vstd::utf8::encode_utf8_decode_utf8(text);
}

/// Compressed content reads back uncompressed under every encoding: what is unpacked is what
/// the uncompressed bytes decode to, so with no encoding, or with UTF-8, those bytes themselves.
pub proof fn law_unpacking_uncompresses_before_decoding(
    data: Seq<u8>,
    plain: Seq<u8>,
    compression: Compression,
    encoding: Encoding,
)
    requires
        match compression {
            Compression::Uncompressed => plain == data,
            Compression::Zlib => zlib_content(data) == Some(plain),
            Compression::Gzip => {
                &&& gzip_content(data) == Some(plain)
                &&& data.len() >= 3 && data[0] == 0x1f && data[1] == 0x8b && data[2] == 8
            },
        },
    ensures
        unpacked(data, compression, encoding) == decoded(plain, encoding),
        encoding == Encoding::Raw || encoding == Encoding::Utf8 ==> unpacked(
            data,
            compression,
            encoding,
        ) == Ok::<_, ContentFault>(plain),
        forall|text: Seq<char>, content: Seq<u8>|
            encoding == Encoding::Base58 && #[trigger] crate::codec::is_base58(text, content)
                && plain == vstd::utf8::encode_utf8(text) ==> unpacked(data, compression, encoding)
                == Ok::<_, ContentFault>(content),
        forall|text: Seq<char>, content: Seq<u8>|
            encoding == Encoding::Base64 && #[trigger] crate::codec::is_base64(text, content)
                && plain == vstd::utf8::encode_utf8(text) ==> unpacked(data, compression, encoding)
                == Ok::<_, ContentFault>(content),
{
    assert forall|text: Seq<char>, content: Seq<u8>|
        encoding == Encoding::Base58 && #[trigger] crate::codec::is_base58(text, content) && plain
            == vstd::utf8::encode_utf8(text) implies unpacked(data, compression, encoding) == Ok::<
        _,
        ContentFault,
    >(content) by {
        law_decoding_undoes_encoding(text, content);
    }
    assert forall|text: Seq<char>, content: Seq<u8>|
        encoding == Encoding::Base64 && #[trigger] crate::codec::is_base64(text, content) && plain
            == vstd::utf8::encode_utf8(text) implies unpacked(data, compression, encoding) == Ok::<
        _,
        ContentFault,
    >(content) by {
        law_decoding_undoes_encoding(text, content);
    }
}

/// Bytes that cannot be uncompressed have no content under any encoding.
pub proof fn law_unreadable_compression_is_refused(data: Seq<u8>, encoding: Encoding)
    ensures
        zlib_content(data) is None ==> unpacked(data, Compression::Zlib, encoding) == Err::<
            Seq<u8>,
            _,
        >(ContentFault::Zlib),
        gzip_content(data) is None ==> unpacked(data, Compression::Gzip, encoding) == Err::<
            Seq<u8>,
            _,
        >(ContentFault::Gzip),
{
}

/// What an account's packed bytes say, wherever the content is. Bytes kept in the account are
/// unpacked to be the content. Bytes that unpack to the text of a URL name it to be fetched.
/// Bytes that point to another account are read as they are, whatever the compression and the
/// encoding. The padding before the packed bytes and what follows them do not matter, nor do the
/// account's other fields.
pub proof fn law_packed_bytes_lead_to_content(
    metadata: Metadata,
    padding: Seq<u8>,
    packed: Seq<u8>,
    rest: Seq<u8>,
)
    requires
        padding.len() == 5,
        metadata.data@ == padding + packed + rest,
        metadata.data_length == packed.len(),
    ensures
        metadata.data_source == DataSource::Direct ==> match unpacked(
            packed,
            metadata.compression,
            metadata.encoding,
        ) {
            Ok(content) => content_step(metadata) == Ok::<_, ContentFault>(
                ContentStepView::Done(content),
            ),
            Err(fault) => content_step(metadata) == Err::<ContentStepView, _>(fault),
        },
        forall|url: Seq<char>|
            metadata.data_source == DataSource::Url && unpacked(
                packed,
                metadata.compression,
                metadata.encoding,
            ) == Ok::<_, ContentFault>(#[trigger] vstd::utf8::encode_utf8(url)) ==> content_step(
                metadata,
            ) == Ok::<_, ContentFault>(ContentStepView::FetchUrl(url)),
        forall|address: Address, offset: u32, length: u32, more: Seq<u8>|
            metadata.data_source == DataSource::External && packed == #[trigger] (address@
                + crate::bytes::le_u32_bytes(offset) + crate::bytes::le_u32_bytes(length) + more)
                ==> content_step(metadata) == Ok::<_, ContentFault>(
                ContentStepView::FetchAccount(
                    ExternalMetadataData {
                        address,
                        offset,
                        length: if length == 0 { None } else { Some(length) },
                    },
                ),
            ),
        metadata.data_source == DataSource::External && packed.len() < 40 ==> content_step(metadata)
            == Err::<ContentStepView, _>(ContentFault::PointerTooShort),
{
    assert(metadata.data@.subrange(5, 5 + metadata.data_length) =~= packed);
    assert forall|url: Seq<char>|
        metadata.data_source == DataSource::Url && unpacked(
            packed,
            metadata.compression,
            metadata.encoding,
        ) == Ok::<_, ContentFault>(#[trigger] vstd::utf8::encode_utf8(url)) implies content_step(
        metadata,
    ) == Ok::<_, ContentFault>(ContentStepView::FetchUrl(url)) by {
        vstd::utf8::encode_utf8_valid_utf8(url);
        vstd::utf8::encode_utf8_decode_utf8(url);
    }
    assert forall|address: Address, offset: u32, length: u32, more: Seq<u8>|
        metadata.data_source == DataSource::External && packed == #[trigger] (address@
            + crate::bytes::le_u32_bytes(offset) + crate::bytes::le_u32_bytes(length)
            + more) implies content_step(metadata) == Ok::<_, ContentFault>(
        ContentStepView::FetchAccount(
            ExternalMetadataData {
                address,
                offset,
                length: if length == 0 { None } else { Some(length) },
            },
        ),
    ) by {
        law_external_pointer_reads_back(address, offset, length, more);
    }
}

/// A URL that cannot be unpacked, or that is no text once it is, is not fetched.
pub proof fn law_unreadable_url_is_refused(metadata: Metadata, padding: Seq<u8>, packed: Seq<u8>, rest: Seq<u8>)
    requires
        padding.len() == 5,
        metadata.data@ == padding + packed + rest,
        metadata.data_length == packed.len(),
        metadata.data_source == DataSource::Url,
    ensures
        match unpacked(packed, metadata.compression, metadata.encoding) {
            Ok(url) => !vstd::utf8::valid_utf8(url) ==> content_step(metadata) == Err::<
                ContentStepView,
                _,
            >(ContentFault::UrlNotUtf8),
            Err(fault) => content_step(metadata) == Err::<ContentStepView, _>(fault),
        },
{
    assert(metadata.data@.subrange(5, 5 + metadata.data_length) =~= packed);
}

/// The claimed length alone decides whether an account's content can be had from its data: it
/// can where that many bytes follow the five of the padding.
pub proof fn law_claimed_bytes_follow_padding(metadata: Metadata)
    ensures
        packed_data(metadata) is Ok <==> 5 + metadata.data_length <= metadata.data@.len(),
        packed_data(metadata) matches Ok(packed) ==> {
            &&& packed.len() == metadata.data_length
            &&& forall|i: int|
                0 <= i < packed.len() ==> #[trigger] packed[i] == metadata.data@[5 + i]
        },
        packed_data(metadata) is Err ==> content_step(metadata) == Err::<ContentStepView, _>(
            ContentFault::LengthExceedsData,
        ),
{
}

/// The body of a successful answer is the content byte for byte, of whatever length it is, and
/// any answer that is no success gives none.
pub proof fn law_successful_body_is_content(status: u16, body: Seq<u8>)
    ensures
        status / 100 == 2 ==> url_content(status, body) == Ok::<_, ContentFault>(body),
        status / 100 != 2 ==> url_content(status, body) == Err::<Seq<u8>, _>(
            ContentFault::UrlStatus,
        ),
{
}

/// What a pointer picks from another account: bytes put there at its offset are unpacked to be
/// the content, an offset past the end is refused, and so is a length past it.
pub proof fn law_external_content_is_unpacked_slice(
    external: ExternalMetadataData,
    before: Seq<u8>,
    packed: Seq<u8>,
    after: Seq<u8>,
    compression: Compression,
    encoding: Encoding,
)
    requires
        external.offset == before.len(),
        match external.length {
            Some(length) => length == packed.len(),
            None => after.len() == 0,
        },
    ensures
        external_content(external, before + packed + after, compression, encoding) == unpacked(
            packed,
            compression,
            encoding,
        ),
{
    law_external_slice_picks_content(external, before, packed, after);
}

/// A pointer past the end of the account's data is refused under every compression and encoding.
pub proof fn law_pointer_past_end_is_refused(
    external: ExternalMetadataData,
    data: Seq<u8>,
    compression: Compression,
    encoding: Encoding,
)
    ensures
        external.offset > data.len() ==> external_content(external, data, compression, encoding)
            == Err::<Seq<u8>, _>(ContentFault::OffsetExceedsData),
        external.offset <= data.len() ==> (external.length matches Some(length) ==> (external.offset
            + length > data.len() ==> external_content(external, data, compression, encoding)
            == Err::<Seq<u8>, _>(ContentFault::LengthExceedsRemaining))),
{
}

} // verus!
