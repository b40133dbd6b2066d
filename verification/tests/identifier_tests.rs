use legacy_mapping::errors::VdrError;
use legacy_mapping::identifiers::{
    Address, Did, Ed25519Signature, LegacyDid, LegacyVerkey, ResourceIdentifier, SignatureData,
};

const LEGACY_DID: &str = "did:sov:2wJPyULfLLnYTEFYzByfUR";
const LEGACY_VERKEY: &str = "~7TYfekw4GUagBnBVCqPjiC";
const FULL_VERKEY: &str = "CnEDk9HrMnmiHXEV1WFgbVCRteYnPqsJwrTdcZaNhFVW";
const NEW_DID: &str = "did:ethr:0x1234567890abcdef1234567890abcdef12345678";
const ADDRESS: &str = "0x00000000000000000000000000000000000111aa";

#[test]
fn legacy_did_accepts_example() {
    let did = LegacyDid::create(LEGACY_DID).unwrap();
    assert_eq!(did.as_str(), LEGACY_DID);
}

#[test]
fn legacy_did_rejects_wrong_prefix() {
    assert_eq!(
        LegacyDid::create("did:eth:2wJPyULfLLnYTEFYzByfUR").unwrap_err(),
        VdrError::InvalidIdentifierFormat
    );
}

#[test]
fn legacy_did_rejects_wrong_length() {
    assert_eq!(
        LegacyDid::create("did:sov:2wJPyUL").unwrap_err(),
        VdrError::InvalidIdentifierFormat
    );
}

#[test]
fn legacy_did_rejects_non_base58() {
    // 'O' and '0' are not in the base-58 alphabet
    assert_eq!(
        LegacyDid::create("did:sov:0wJPyULfLLnYTEFYzByfUR").unwrap_err(),
        VdrError::InvalidIdentifierFormat
    );
    assert_eq!(
        LegacyDid::create("did:sov:OwJPyULfLLnYTEFYzByfUR").unwrap_err(),
        VdrError::InvalidIdentifierFormat
    );
}

#[test]
fn legacy_verkey_accepts_abbreviated_example() {
    let vk = LegacyVerkey::create(LEGACY_VERKEY).unwrap();
    assert_eq!(vk.as_str(), LEGACY_VERKEY);
}

#[test]
fn legacy_verkey_accepts_full_key() {
    let vk = LegacyVerkey::create(FULL_VERKEY).unwrap();
    assert_eq!(vk.as_str(), FULL_VERKEY);
}

#[test]
fn legacy_verkey_malformed_fails_cleanly() {
    // wrong length
    assert_eq!(
        LegacyVerkey::create("~short").unwrap_err(),
        VdrError::InvalidIdentifierFormat
    );
    // wrong alphabet: 'I' and '0' are excluded from base-58
    assert_eq!(
        LegacyVerkey::create("~7TYfekw4GUagBnBVCqPji0").unwrap_err(),
        VdrError::InvalidIdentifierFormat
    );
    assert_eq!(
        LegacyVerkey::create("ICnEDk9HrMnmiHXEV1WFgbVCRteYnPqsJwrTdcZaNhFV").unwrap_err(),
        VdrError::InvalidIdentifierFormat
    );
    // empty
    assert_eq!(
        LegacyVerkey::create("").unwrap_err(),
        VdrError::InvalidIdentifierFormat
    );
}

#[test]
fn did_accepts_and_rejects() {
    let did = Did::create(NEW_DID).unwrap();
    assert_eq!(did.as_str(), NEW_DID);
    assert_eq!(Did::create("").unwrap_err(), VdrError::InvalidIdentifierFormat);
    assert_eq!(Did::create("did:").unwrap_err(), VdrError::InvalidIdentifierFormat);
    assert_eq!(
        Did::create("urn:ethr:0x12").unwrap_err(),
        VdrError::InvalidIdentifierFormat
    );
    assert_eq!(
        Did::create("did:ethr:has a space").unwrap_err(),
        VdrError::InvalidIdentifierFormat
    );
}

#[test]
fn address_accepts_and_rejects() {
    let a = Address::create(ADDRESS).unwrap();
    assert_eq!(a.as_str(), ADDRESS);
    assert_eq!(Address::create("0x123").unwrap_err(), VdrError::InvalidIdentifierFormat);
    assert_eq!(
        Address::create("1x00000000000000000000000000000000000111aa").unwrap_err(),
        VdrError::InvalidIdentifierFormat
    );
    assert_eq!(
        Address::create("0x00000000000000000000000000000000000111zz").unwrap_err(),
        VdrError::InvalidIdentifierFormat
    );
}

#[test]
fn resource_identifier_accepts_and_rejects() {
    let id = ResourceIdentifier::create("2wJPyULfLLnYTEFYzByfUR:2:schema:1.0").unwrap();
    assert_eq!(id.as_str(), "2wJPyULfLLnYTEFYzByfUR:2:schema:1.0");
    assert_eq!(
        ResourceIdentifier::create("").unwrap_err(),
        VdrError::InvalidIdentifierFormat
    );
    assert_eq!(
        ResourceIdentifier::create("has space").unwrap_err(),
        VdrError::InvalidIdentifierFormat
    );
}

#[test]
fn ed25519_signature_length_checked() {
    let ok = Ed25519Signature::create(&[7u8; 64]).unwrap();
    assert_eq!(ok.as_bytes(), &[7u8; 64][..]);
    assert_eq!(
        Ed25519Signature::create(&[7u8; 63]).unwrap_err(),
        VdrError::InvalidSignatureLength
    );
    assert_eq!(
        Ed25519Signature::create(&[]).unwrap_err(),
        VdrError::InvalidSignatureLength
    );
}

#[test]
fn signature_data_length_checked() {
    let sd = SignatureData::create(1, &[1u8; 32], &[2u8; 32]).unwrap();
    assert_eq!(sd.recovery_id(), 1);
    assert_eq!(sd.r_bytes(), &[1u8; 32][..]);
    assert_eq!(sd.s_bytes(), &[2u8; 32][..]);
    assert_eq!(
        SignatureData::create(0, &[1u8; 31], &[2u8; 32]).unwrap_err(),
        VdrError::InvalidSignatureLength
    );
    assert_eq!(
        SignatureData::create(0, &[1u8; 32], &[2u8; 33]).unwrap_err(),
        VdrError::InvalidSignatureLength
    );
}

#[test]
fn error_codes_are_stable() {
    assert_eq!(VdrError::InvalidIdentifierFormat.code(), "invalid_identifier_format");
    assert_eq!(VdrError::InvalidSignatureLength.code(), "invalid_signature_length");
    assert_eq!(VdrError::EncodingError.code(), "encoding_error");
    assert_eq!(VdrError::DecodingError.code(), "decoding_error");
    assert_eq!(VdrError::MappingNotFound.code(), "mapping_not_found");
    assert_eq!(VdrError::LedgerQueryFailed.code(), "ledger_query_failed");
    assert_eq!(VdrError::SignatureMismatch.code(), "signature_mismatch");
}
