use legacy_mapping::errors::VdrError;
use legacy_mapping::identifiers::SignatureData;
use legacy_mapping::parse::{
    encode_did_mapping_result, encode_resource_mapping_result, parse_did_mapping_result,
    parse_resource_mapping_result,
};
use legacy_mapping::transaction::{
    build_create_did_mapping_endorsing_data, build_create_did_mapping_signed_transaction,
    build_create_did_mapping_transaction, build_create_resource_mapping_endorsing_data,
    build_create_resource_mapping_signed_transaction, build_create_resource_mapping_transaction,
    build_get_did_mapping_transaction, build_get_resource_mapping_transaction,
};

const CONTRACT: &str = "0x0000000000000000000000000000000000018888";
const FROM: &str = "0x00000000000000000000000000000000000111aa";
const NEW_DID: &str = "did:ethr:0x1234567890abcdef1234567890abcdef12345678";
const LEGACY_DID: &str = "did:sov:2wJPyULfLLnYTEFYzByfUR";
const LEGACY_VERKEY: &str = "~7TYfekw4GUagBnBVCqPjiC";
const LEGACY_RESOURCE: &str = "2wJPyULfLLnYTEFYzByfUR:2:schema:1.0";
const NEW_RESOURCE: &str = "did:ethr:0x1234567890abcdef1234567890abcdef12345678/anoncreds/v0/SCHEMA/schema/1.0";

fn sample_signature() -> SignatureData {
    SignatureData::create(1, &[0x11u8; 32], &[0x22u8; 32]).unwrap()
}

#[test]
fn did_write_paths_bind_identical_call_data() {
    let ed = [7u8; 64];
    let direct = build_create_did_mapping_transaction(
        CONTRACT, FROM, NEW_DID, LEGACY_DID, LEGACY_VERKEY, &ed,
    )
    .unwrap();
    let signed = build_create_did_mapping_signed_transaction(
        CONTRACT,
        FROM,
        NEW_DID,
        LEGACY_DID,
        LEGACY_VERKEY,
        &ed,
        sample_signature(),
    )
    .unwrap();
    let endorsing = build_create_did_mapping_endorsing_data(
        CONTRACT,
        NEW_DID,
        LEGACY_DID,
        LEGACY_VERKEY,
        &ed,
        9,
    )
    .unwrap();
    assert_eq!(direct.data, signed.data);
    // the endorsement payload is contract address bytes (42), the nonce word
    // (32), then exactly the call data of the two transactions
    assert_eq!(endorsing.bytes.len(), 74 + direct.data.len());
    assert_eq!(&endorsing.bytes[..42], CONTRACT.as_bytes());
    assert_eq!(&endorsing.bytes[74..], &direct.data[..]);
    assert!(direct.signature.is_none());
    assert!(signed.signature.is_some());
    assert!(!direct.read_only);
}

#[test]
fn resource_write_paths_bind_identical_call_data() {
    let direct = build_create_resource_mapping_transaction(
        CONTRACT,
        FROM,
        NEW_DID,
        LEGACY_DID,
        LEGACY_RESOURCE,
        NEW_RESOURCE,
    )
    .unwrap();
    let signed = build_create_resource_mapping_signed_transaction(
        CONTRACT,
        FROM,
        NEW_DID,
        LEGACY_DID,
        LEGACY_RESOURCE,
        NEW_RESOURCE,
        sample_signature(),
    )
    .unwrap();
    let endorsing = build_create_resource_mapping_endorsing_data(
        CONTRACT,
        NEW_DID,
        LEGACY_DID,
        LEGACY_RESOURCE,
        NEW_RESOURCE,
        3,
    )
    .unwrap();
    assert_eq!(direct.data, signed.data);
    assert_eq!(&endorsing.bytes[74..], &direct.data[..]);
}

#[test]
fn endorsing_nonce_word_is_big_endian() {
    let ed = [7u8; 64];
    let endorsing = build_create_did_mapping_endorsing_data(
        CONTRACT,
        NEW_DID,
        LEGACY_DID,
        LEGACY_VERKEY,
        &ed,
        0x0102030405060708,
    )
    .unwrap();
    let word = &endorsing.bytes[42..74];
    assert_eq!(&word[..24], &[0u8; 24][..]);
    assert_eq!(&word[24..], &[1u8, 2, 3, 4, 5, 6, 7, 8][..]);
    assert_eq!(endorsing.nonce, 0x0102030405060708);
}

#[test]
fn resource_mapping_round_trip() {
    // encode a write for a new resource identifier, then decode the
    // registry's matching successful read response: the identifier string
    // comes back unchanged
    let write = build_create_resource_mapping_transaction(
        CONTRACT,
        FROM,
        NEW_DID,
        LEGACY_DID,
        LEGACY_RESOURCE,
        NEW_RESOURCE,
    )
    .unwrap();
    assert!(!write.data.is_empty());
    let response = encode_resource_mapping_result(NEW_RESOURCE).unwrap();
    let decoded = parse_resource_mapping_result(&response).unwrap();
    assert_eq!(decoded, NEW_RESOURCE);
}

#[test]
fn did_mapping_round_trip() {
    let response = encode_did_mapping_result(NEW_DID).unwrap();
    let decoded = parse_did_mapping_result(&response).unwrap();
    assert_eq!(decoded, NEW_DID);
}

#[test]
fn parse_empty_buffer_is_mapping_not_found() {
    assert_eq!(parse_did_mapping_result(&[]).unwrap_err(), VdrError::MappingNotFound);
    assert_eq!(parse_resource_mapping_result(&[]).unwrap_err(), VdrError::MappingNotFound);
}

#[test]
fn parse_zero_length_string_is_mapping_not_found() {
    // offset word 32, length word 0: the contract's sentinel for no mapping
    let mut response = vec![0u8; 64];
    response[31] = 32;
    assert_eq!(parse_did_mapping_result(&response).unwrap_err(), VdrError::MappingNotFound);
}

#[test]
fn parse_truncated_buffer_is_decoding_error() {
    assert_eq!(parse_did_mapping_result(&[1u8, 2, 3]).unwrap_err(), VdrError::DecodingError);
    let short = vec![0u8; 63];
    assert_eq!(parse_did_mapping_result(&short).unwrap_err(), VdrError::DecodingError);
    // length word promises more bytes than the buffer holds
    let mut lying = vec![0u8; 64];
    lying[31] = 32;
    lying[63] = 200;
    assert_eq!(parse_did_mapping_result(&lying).unwrap_err(), VdrError::DecodingError);
}

#[test]
fn parse_wrong_offset_is_decoding_error() {
    let good = encode_did_mapping_result(NEW_DID).unwrap();
    let mut bad = good.clone();
    bad[31] = 64;
    assert_eq!(parse_did_mapping_result(&bad).unwrap_err(), VdrError::DecodingError);
}

#[test]
fn parse_non_identifier_result_is_decoding_error() {
    // decodes to "hello", printable but no DID
    let response = encode_resource_mapping_result("hello").unwrap();
    assert_eq!(parse_did_mapping_result(&response).unwrap_err(), VdrError::DecodingError);
    // a result with a non-printable byte is no identifier at all
    let mut spaced = encode_resource_mapping_result("he*lo").unwrap();
    spaced[66] = 0x20;
    assert_eq!(
        parse_resource_mapping_result(&spaced).unwrap_err(),
        VdrError::DecodingError
    );
}

#[test]
fn endorsing_data_example_scenario() {
    let ed = [7u8; 64];
    let base = build_create_did_mapping_endorsing_data(
        CONTRACT,
        NEW_DID,
        LEGACY_DID,
        LEGACY_VERKEY,
        &ed,
        9,
    )
    .unwrap();
    assert!(!base.bytes.is_empty());
    // any single changed input byte changes the payload
    let mut ed2 = ed;
    ed2[5] = 8;
    let changed_sig = build_create_did_mapping_endorsing_data(
        CONTRACT,
        NEW_DID,
        LEGACY_DID,
        LEGACY_VERKEY,
        &ed2,
        9,
    )
    .unwrap();
    assert_ne!(base.bytes, changed_sig.bytes);
    let changed_did = build_create_did_mapping_endorsing_data(
        CONTRACT,
        NEW_DID,
        "did:sov:3wJPyULfLLnYTEFYzByfUR",
        LEGACY_VERKEY,
        &ed,
        9,
    )
    .unwrap();
    assert_ne!(base.bytes, changed_did.bytes);
    let changed_verkey = build_create_did_mapping_endorsing_data(
        CONTRACT,
        NEW_DID,
        LEGACY_DID,
        "~8TYfekw4GUagBnBVCqPjiC",
        &ed,
        9,
    )
    .unwrap();
    assert_ne!(base.bytes, changed_verkey.bytes);
    let changed_nonce = build_create_did_mapping_endorsing_data(
        CONTRACT,
        NEW_DID,
        LEGACY_DID,
        LEGACY_VERKEY,
        &ed,
        10,
    )
    .unwrap();
    assert_ne!(base.bytes, changed_nonce.bytes);
    // the signing digest is 32 bytes and deterministic
    let again = build_create_did_mapping_endorsing_data(
        CONTRACT,
        NEW_DID,
        LEGACY_DID,
        LEGACY_VERKEY,
        &ed,
        9,
    )
    .unwrap();
    let h1 = base.signing_hash();
    let h2 = again.signing_hash();
    assert_eq!(h1.len(), 32);
    assert_eq!(h1, h2);
    assert_ne!(h1, changed_nonce.signing_hash());
}

#[test]
fn get_resource_mapping_twice_is_identical() {
    let a = build_get_resource_mapping_transaction(CONTRACT, LEGACY_RESOURCE).unwrap();
    let b = build_get_resource_mapping_transaction(CONTRACT, LEGACY_RESOURCE).unwrap();
    assert_eq!(a.data, b.data);
    assert_eq!(a.to.as_str(), b.to.as_str());
    assert!(a.read_only && b.read_only);
    assert!(a.from.is_none());
}

#[test]
fn get_did_mapping_call_data_layout() {
    let tx = build_get_did_mapping_transaction(CONTRACT, LEGACY_DID).unwrap();
    // selector (4) + offset word (32) + length word (32) + 30 data bytes
    // padded to 32
    assert_eq!(tx.data.len(), 100);
    // the offset word holds 32
    assert_eq!(&tx.data[4..35], &[0u8; 31][..]);
    assert_eq!(tx.data[35], 32);
    // the length word holds 30
    assert_eq!(&tx.data[36..67], &[0u8; 31][..]);
    assert_eq!(tx.data[67], 30);
    // the argument bytes are the legacy DID's ASCII bytes, zero padded
    assert_eq!(&tx.data[68..98], LEGACY_DID.as_bytes());
    assert_eq!(&tx.data[98..], &[0u8, 0u8][..]);
}

#[test]
fn selectors_come_from_the_digest_not_the_signature_text() {
    let did_read = build_get_did_mapping_transaction(CONTRACT, LEGACY_DID).unwrap();
    let res_read = build_get_resource_mapping_transaction(CONTRACT, LEGACY_RESOURCE).unwrap();
    // different contract functions get different selectors
    assert_ne!(&did_read.data[..4], &res_read.data[..4]);
    // the selector is a digest prefix, not the signature's leading text
    assert_ne!(&did_read.data[..4], "getD".as_bytes());
    assert_ne!(&res_read.data[..4], "getR".as_bytes());
}

#[test]
fn builders_reject_bad_inputs() {
    let ed = [7u8; 64];
    assert_eq!(
        build_create_did_mapping_transaction(CONTRACT, FROM, NEW_DID, "did:sov:short", LEGACY_VERKEY, &ed)
            .unwrap_err(),
        VdrError::InvalidIdentifierFormat
    );
    assert_eq!(
        build_create_did_mapping_transaction(CONTRACT, FROM, NEW_DID, LEGACY_DID, LEGACY_VERKEY, &[7u8; 63])
            .unwrap_err(),
        VdrError::InvalidSignatureLength
    );
    assert_eq!(
        build_create_did_mapping_endorsing_data("0xbad", NEW_DID, LEGACY_DID, LEGACY_VERKEY, &ed, 1)
            .unwrap_err(),
        VdrError::InvalidIdentifierFormat
    );
    assert_eq!(
        build_create_resource_mapping_transaction(CONTRACT, FROM, NEW_DID, LEGACY_DID, "", NEW_RESOURCE)
            .unwrap_err(),
        VdrError::InvalidIdentifierFormat
    );
    assert_eq!(
        build_get_did_mapping_transaction(CONTRACT, "not a did").unwrap_err(),
        VdrError::InvalidIdentifierFormat
    );
}
