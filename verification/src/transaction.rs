//! Transaction construction for the two mapping flows. Each write operation
//! can be built three ways — as a direct transaction for the sender to sign
//! and submit, as an endorsement payload for out-of-band signing, or as a
//! pre-signed transaction assembled from an externally produced signature —
//! and every path binds the same call data, stated by one spec function per
//! operation.

use vstd::prelude::*;
use crate::abi::{
    encode_call_four, encode_call_one, encode_four, encode_one, push_bytes, push_word,
    selector_of, str_bytes, word32,
};
use crate::errors::VdrError;
use crate::hash::{keccak256, keccak256_of};
use crate::identifiers::{
    check_did, check_legacy_did, check_legacy_verkey, check_resource_identifier,
    lemma_address_ascii, lemma_did_ascii, lemma_legacy_did_ascii, lemma_legacy_verkey_ascii,
    lemma_resource_identifier_ascii, valid_address, valid_did, valid_legacy_did,
    valid_legacy_verkey, valid_resource_identifier, Address, SignatureData,
};

verus! {

// ---------------------------------------------------------------------------
// Call-data layout, one spec function per contract operation
// ---------------------------------------------------------------------------

/// The signature of the contract function recording a DID mapping.
pub open spec fn did_mapping_write_signature() -> Seq<char> {
    "createDidMapping(string,string,string,bytes)"@
}

/// The signature of the contract function looking a DID mapping up.
pub open spec fn did_mapping_read_signature() -> Seq<char> {
    "getDidMapping(string)"@
}

/// The signature of the contract function recording a resource mapping.
pub open spec fn resource_mapping_write_signature() -> Seq<char> {
    "createResourceMapping(string,string,string,string)"@
}

/// The signature of the contract function looking a resource mapping up.
pub open spec fn resource_mapping_read_signature() -> Seq<char> {
    "getResourceMapping(string)"@
}

/// Call data of a DID mapping write: selector, then the new DID, the legacy
/// DID, the legacy verkey and the attached Ed25519 signature, in that order.
pub open spec fn create_did_mapping_call_data(
    did: Seq<char>,
    legacy_did: Seq<char>,
    legacy_verkey: Seq<char>,
    ed25519_signature: Seq<u8>,
) -> Seq<u8> {
    selector_of(did_mapping_write_signature()) + encode_four(
        str_bytes(did),
        str_bytes(legacy_did),
        str_bytes(legacy_verkey),
        ed25519_signature,
    )
}

/// Call data of a DID mapping lookup: selector, then the legacy DID.
pub open spec fn get_did_mapping_call_data(legacy_did: Seq<char>) -> Seq<u8> {
    selector_of(did_mapping_read_signature()) + encode_one(str_bytes(legacy_did))
}

/// Call data of a resource mapping write: selector, then the new DID, the
/// legacy issuer DID, the legacy resource identifier and the new resource
/// identifier, in that order.
pub open spec fn create_resource_mapping_call_data(
    did: Seq<char>,
    legacy_issuer: Seq<char>,
    legacy_identifier: Seq<char>,
    new_identifier: Seq<char>,
) -> Seq<u8> {
    selector_of(resource_mapping_write_signature()) + encode_four(
        str_bytes(did),
        str_bytes(legacy_issuer),
        str_bytes(legacy_identifier),
        str_bytes(new_identifier),
    )
}

/// Call data of a resource mapping lookup: selector, then the legacy
/// resource identifier.
pub open spec fn get_resource_mapping_call_data(legacy_identifier: Seq<char>) -> Seq<u8> {
    selector_of(resource_mapping_read_signature()) + encode_one(str_bytes(legacy_identifier))
}

/// The canonical bytes a ledger-account key signs to authorize a mapping
/// write: the target contract's address, the signer's account nonce as a
/// word, and the operation's full call data. Scoping the payload to the
/// contract and nonce prevents cross-contract and replay use of a signature.
pub open spec fn endorsing_payload(contract: Seq<char>, nonce: u64, call_data: Seq<u8>) -> Seq<
    u8,
> {
    str_bytes(contract) + word32(nonce) + call_data
}

// ---------------------------------------------------------------------------
// Input predicates
// ---------------------------------------------------------------------------

/// All identifier inputs of a DID mapping operation are well-formed.
pub open spec fn did_mapping_idents_ok(
    contract: Seq<char>,
    did: Seq<char>,
    legacy_did: Seq<char>,
    legacy_verkey: Seq<char>,
) -> bool {
    valid_address(contract) && valid_did(did) && valid_legacy_did(legacy_did)
        && valid_legacy_verkey(legacy_verkey)
}

/// All identifier inputs of a resource mapping operation are well-formed.
pub open spec fn resource_mapping_idents_ok(
    contract: Seq<char>,
    did: Seq<char>,
    legacy_issuer: Seq<char>,
    legacy_identifier: Seq<char>,
    new_identifier: Seq<char>,
) -> bool {
    valid_address(contract) && valid_did(did) && valid_legacy_did(legacy_issuer)
        && valid_resource_identifier(legacy_identifier) && valid_resource_identifier(
        new_identifier,
    )
}

// ---------------------------------------------------------------------------
// Request types
// ---------------------------------------------------------------------------

/// A transaction envelope targeting the mapping registry contract: the
/// contract address, the submitter (absent for read-only queries), the
/// encoded call data, and, for the pre-signed path, the ledger-account
/// signature authorizing the write.
#[derive(Debug)]
pub struct TransactionRequest {
    pub to: Address,
    pub from: Option<Address>,
    pub data: Vec<u8>,
    pub signature: Option<SignatureData>,
    pub read_only: bool,
}

/// The detached endorsement data for a mapping write: the payload bytes to
/// be signed by a ledger-account key, with the metadata that scopes them.
#[derive(Debug)]
pub struct TransactionEndorsingData {
    pub contract: Address,
    pub nonce: u64,
    pub bytes: Vec<u8>,
}

impl TransactionEndorsingData {
    /// The ledger's canonical digest of the payload, the value an external
    /// signer actually signs.
    pub fn signing_hash(&self) -> (r: Vec<u8>)
        ensures
            r@ == keccak256_of(self.bytes@),
            r@.len() == 32,
    {
        keccak256(self.bytes.as_slice())
    }
}

// ---------------------------------------------------------------------------
// DID mapping builders
// ---------------------------------------------------------------------------

/// Builds the direct write transaction recording a DID mapping, for a sender
/// that both authorizes and submits it.
pub fn build_create_did_mapping_transaction(
    contract: &str,
    from: &str,
    did: &str,
    legacy_identifier: &str,
    legacy_verkey: &str,
    ed25519_signature: &[u8],
) -> (r: Result<TransactionRequest, VdrError>)
    ensures
        match r {
            Ok(t) => {
                &&& did_mapping_idents_ok(contract@, did@, legacy_identifier@, legacy_verkey@)
                &&& valid_address(from@)
                &&& ed25519_signature@.len() == 64
                &&& t.to@ == contract@
                &&& (t.from matches Some(f) && f@ == from@)
                &&& t.data@ == create_did_mapping_call_data(
                    did@,
                    legacy_identifier@,
                    legacy_verkey@,
                    ed25519_signature@,
                )
                &&& t.signature is None
                &&& !t.read_only
            },
            Err(e) => {
                let idents_ok = did_mapping_idents_ok(
                    contract@,
                    did@,
                    legacy_identifier@,
                    legacy_verkey@,
                ) && valid_address(from@);
                &&& !(idents_ok && ed25519_signature@.len() == 64)
                &&& e == if !idents_ok {
                    VdrError::InvalidIdentifierFormat
                } else {
                    VdrError::InvalidSignatureLength
                }
            },
        },
{
    let to_addr = match Address::create(contract) {
        Ok(a) => a,
        Err(e) => {
            return Err(e);
        },
    };
    let from_addr = match Address::create(from) {
        Ok(a) => a,
        Err(e) => {
            return Err(e);
        },
    };
    if !check_did(did) || !check_legacy_did(legacy_identifier) || !check_legacy_verkey(
        legacy_verkey,
    ) {
        return Err(VdrError::InvalidIdentifierFormat);
    }
    if ed25519_signature.len() != 64 {
        return Err(VdrError::InvalidSignatureLength);
    }
    let data = encode_did_mapping_write(did, legacy_identifier, legacy_verkey, ed25519_signature);
    Ok(
        TransactionRequest {
            to: to_addr,
            from: Some(from_addr),
            data,
            signature: None,
            read_only: false,
        },
    )
}

/// Builds the endorsement data for a DID mapping write: the payload a
/// ledger-account key must sign so that a different party may submit the
/// write.
pub fn build_create_did_mapping_endorsing_data(
    contract: &str,
    did: &str,
    legacy_identifier: &str,
    legacy_verkey: &str,
    ed25519_signature: &[u8],
    nonce: u64,
) -> (r: Result<TransactionEndorsingData, VdrError>)
    ensures
        match r {
            Ok(d) => {
                &&& did_mapping_idents_ok(contract@, did@, legacy_identifier@, legacy_verkey@)
                &&& ed25519_signature@.len() == 64
                &&& d.contract@ == contract@
                &&& d.nonce == nonce
                &&& d.bytes@ == endorsing_payload(
                    contract@,
                    nonce,
                    create_did_mapping_call_data(
                        did@,
                        legacy_identifier@,
                        legacy_verkey@,
                        ed25519_signature@,
                    ),
                )
            },
            Err(e) => {
                let idents_ok = did_mapping_idents_ok(
                    contract@,
                    did@,
                    legacy_identifier@,
                    legacy_verkey@,
                );
                &&& !(idents_ok && ed25519_signature@.len() == 64)
                &&& e == if !idents_ok {
                    VdrError::InvalidIdentifierFormat
                } else {
                    VdrError::InvalidSignatureLength
                }
            },
        },
{
    let to_addr = match Address::create(contract) {
        Ok(a) => a,
        Err(e) => {
            return Err(e);
        },
    };
    if !check_did(did) || !check_legacy_did(legacy_identifier) || !check_legacy_verkey(
        legacy_verkey,
    ) {
        return Err(VdrError::InvalidIdentifierFormat);
    }
    if ed25519_signature.len() != 64 {
        return Err(VdrError::InvalidSignatureLength);
    }
    let data = encode_did_mapping_write(did, legacy_identifier, legacy_verkey, ed25519_signature);
    let mut payload: Vec<u8> = Vec::new();
    push_bytes(&mut payload, contract.as_bytes());
    push_word(&mut payload, nonce);
    push_bytes(&mut payload, data.as_slice());
    proof {
        assert(payload@ =~= endorsing_payload(contract@, nonce, data@));
    }
    Ok(TransactionEndorsingData { contract: to_addr, nonce, bytes: payload })
}

/// Assembles the pre-signed write transaction recording a DID mapping: the
/// submitter differs from the authorizer, whose signature over the matching
/// endorsement payload is attached. The call data is byte-identical to the
/// direct write path.
pub fn build_create_did_mapping_signed_transaction(
    contract: &str,
    from: &str,
    did: &str,
    legacy_identifier: &str,
    legacy_verkey: &str,
    ed25519_signature: &[u8],
    signature: SignatureData,
) -> (r: Result<TransactionRequest, VdrError>)
    ensures
        match r {
            Ok(t) => {
                &&& did_mapping_idents_ok(contract@, did@, legacy_identifier@, legacy_verkey@)
                &&& valid_address(from@)
                &&& ed25519_signature@.len() == 64
                &&& t.to@ == contract@
                &&& (t.from matches Some(f) && f@ == from@)
                &&& t.data@ == create_did_mapping_call_data(
                    did@,
                    legacy_identifier@,
                    legacy_verkey@,
                    ed25519_signature@,
                )
                &&& t.signature == Some(signature)
                &&& !t.read_only
            },
            Err(e) => {
                let idents_ok = did_mapping_idents_ok(
                    contract@,
                    did@,
                    legacy_identifier@,
                    legacy_verkey@,
                ) && valid_address(from@);
                &&& !(idents_ok && ed25519_signature@.len() == 64)
                &&& e == if !idents_ok {
                    VdrError::InvalidIdentifierFormat
                } else {
                    VdrError::InvalidSignatureLength
                }
            },
        },
{
    let to_addr = match Address::create(contract) {
        Ok(a) => a,
        Err(e) => {
            return Err(e);
        },
    };
    let from_addr = match Address::create(from) {
        Ok(a) => a,
        Err(e) => {
            return Err(e);
        },
    };
    if !check_did(did) || !check_legacy_did(legacy_identifier) || !check_legacy_verkey(
        legacy_verkey,
    ) {
        return Err(VdrError::InvalidIdentifierFormat);
    }
    if ed25519_signature.len() != 64 {
        return Err(VdrError::InvalidSignatureLength);
    }
    let data = encode_did_mapping_write(did, legacy_identifier, legacy_verkey, ed25519_signature);
    Ok(
        TransactionRequest {
            to: to_addr,
            from: Some(from_addr),
            data,
            signature: Some(signature),
            read_only: false,
        },
    )
}

/// Builds the read-only transaction looking a DID mapping up by its legacy
/// DID.
pub fn build_get_did_mapping_transaction(contract: &str, legacy_identifier: &str) -> (r: Result<
    TransactionRequest,
    VdrError,
>)
    ensures
        match r {
            Ok(t) => {
                &&& valid_address(contract@)
                &&& valid_legacy_did(legacy_identifier@)
                &&& t.to@ == contract@
                &&& t.from is None
                &&& t.data@ == get_did_mapping_call_data(legacy_identifier@)
                &&& t.signature is None
                &&& t.read_only
            },
            Err(e) => {
                &&& !(valid_address(contract@) && valid_legacy_did(legacy_identifier@))
                &&& e == VdrError::InvalidIdentifierFormat
            },
        },
{
    let to_addr = match Address::create(contract) {
        Ok(a) => a,
        Err(e) => {
            return Err(e);
        },
    };
    if !check_legacy_did(legacy_identifier) {
        return Err(VdrError::InvalidIdentifierFormat);
    }
    let data = encode_call_one("getDidMapping(string)", legacy_identifier.as_bytes());
    Ok(
        TransactionRequest {
            to: to_addr,
            from: None,
            data,
            signature: None,
            read_only: true,
        },
    )
}

// ---------------------------------------------------------------------------
// Resource mapping builders
// ---------------------------------------------------------------------------

/// Builds the direct write transaction recording a resource mapping.
pub fn build_create_resource_mapping_transaction(
    contract: &str,
    from: &str,
    did: &str,
    legacy_issuer_identifier: &str,
    legacy_identifier: &str,
    new_identifier: &str,
) -> (r: Result<TransactionRequest, VdrError>)
    ensures
        match r {
            Ok(t) => {
                &&& resource_mapping_idents_ok(
                    contract@,
                    did@,
                    legacy_issuer_identifier@,
                    legacy_identifier@,
                    new_identifier@,
                )
                &&& valid_address(from@)
                &&& t.to@ == contract@
                &&& (t.from matches Some(f) && f@ == from@)
                &&& t.data@ == create_resource_mapping_call_data(
                    did@,
                    legacy_issuer_identifier@,
                    legacy_identifier@,
                    new_identifier@,
                )
                &&& t.signature is None
                &&& !t.read_only
            },
            Err(e) => {
                &&& !(resource_mapping_idents_ok(
                    contract@,
                    did@,
                    legacy_issuer_identifier@,
                    legacy_identifier@,
                    new_identifier@,
                ) && valid_address(from@))
                &&& e == VdrError::InvalidIdentifierFormat
            },
        },
{
    let to_addr = match Address::create(contract) {
        Ok(a) => a,
        Err(e) => {
            return Err(e);
        },
    };
    let from_addr = match Address::create(from) {
        Ok(a) => a,
        Err(e) => {
            return Err(e);
        },
    };
    if !check_did(did) || !check_legacy_did(legacy_issuer_identifier) || !check_resource_identifier(
        legacy_identifier,
    ) || !check_resource_identifier(new_identifier) {
        return Err(VdrError::InvalidIdentifierFormat);
    }
    let data = encode_resource_mapping_write(
        did,
        legacy_issuer_identifier,
        legacy_identifier,
        new_identifier,
    );
    Ok(
        TransactionRequest {
            to: to_addr,
            from: Some(from_addr),
            data,
            signature: None,
            read_only: false,
        },
    )
}

/// Builds the endorsement data for a resource mapping write.
pub fn build_create_resource_mapping_endorsing_data(
    contract: &str,
    did: &str,
    legacy_issuer_identifier: &str,
    legacy_identifier: &str,
    new_identifier: &str,
    nonce: u64,
) -> (r: Result<TransactionEndorsingData, VdrError>)
    ensures
        match r {
            Ok(d) => {
                &&& resource_mapping_idents_ok(
                    contract@,
                    did@,
                    legacy_issuer_identifier@,
                    legacy_identifier@,
                    new_identifier@,
                )
                &&& d.contract@ == contract@
                &&& d.nonce == nonce
                &&& d.bytes@ == endorsing_payload(
                    contract@,
                    nonce,
                    create_resource_mapping_call_data(
                        did@,
                        legacy_issuer_identifier@,
                        legacy_identifier@,
                        new_identifier@,
                    ),
                )
            },
            Err(e) => {
                &&& !resource_mapping_idents_ok(
                    contract@,
                    did@,
                    legacy_issuer_identifier@,
                    legacy_identifier@,
                    new_identifier@,
                )
                &&& e == VdrError::InvalidIdentifierFormat
            },
        },
{
    let to_addr = match Address::create(contract) {
        Ok(a) => a,
        Err(e) => {
            return Err(e);
        },
    };
    if !check_did(did) || !check_legacy_did(legacy_issuer_identifier) || !check_resource_identifier(
        legacy_identifier,
    ) || !check_resource_identifier(new_identifier) {
        return Err(VdrError::InvalidIdentifierFormat);
    }
    let data = encode_resource_mapping_write(
        did,
        legacy_issuer_identifier,
        legacy_identifier,
        new_identifier,
    );
    let mut payload: Vec<u8> = Vec::new();
    push_bytes(&mut payload, contract.as_bytes());
    push_word(&mut payload, nonce);
    push_bytes(&mut payload, data.as_slice());
    proof {
        assert(payload@ =~= endorsing_payload(contract@, nonce, data@));
    }
    Ok(TransactionEndorsingData { contract: to_addr, nonce, bytes: payload })
}

/// Assembles the pre-signed write transaction recording a resource mapping.
/// The call data is byte-identical to the direct write path.
pub fn build_create_resource_mapping_signed_transaction(
    contract: &str,
    from: &str,
    did: &str,
    legacy_issuer_identifier: &str,
    legacy_identifier: &str,
    new_identifier: &str,
    signature: SignatureData,
) -> (r: Result<TransactionRequest, VdrError>)
    ensures
        match r {
            Ok(t) => {
                &&& resource_mapping_idents_ok(
                    contract@,
                    did@,
                    legacy_issuer_identifier@,
                    legacy_identifier@,
                    new_identifier@,
                )
                &&& valid_address(from@)
                &&& t.to@ == contract@
                &&& (t.from matches Some(f) && f@ == from@)
                &&& t.data@ == create_resource_mapping_call_data(
                    did@,
                    legacy_issuer_identifier@,
                    legacy_identifier@,
                    new_identifier@,
                )
                &&& t.signature == Some(signature)
                &&& !t.read_only
            },
            Err(e) => {
                &&& !(resource_mapping_idents_ok(
                    contract@,
                    did@,
                    legacy_issuer_identifier@,
                    legacy_identifier@,
                    new_identifier@,
                ) && valid_address(from@))
                &&& e == VdrError::InvalidIdentifierFormat
            },
        },
{
    let to_addr = match Address::create(contract) {
        Ok(a) => a,
        Err(e) => {
            return Err(e);
        },
    };
    let from_addr = match Address::create(from) {
        Ok(a) => a,
        Err(e) => {
            return Err(e);
        },
    };
    if !check_did(did) || !check_legacy_did(legacy_issuer_identifier) || !check_resource_identifier(
        legacy_identifier,
    ) || !check_resource_identifier(new_identifier) {
        return Err(VdrError::InvalidIdentifierFormat);
    }
    let data = encode_resource_mapping_write(
        did,
        legacy_issuer_identifier,
        legacy_identifier,
        new_identifier,
    );
    Ok(
        TransactionRequest {
            to: to_addr,
            from: Some(from_addr),
            data,
            signature: Some(signature),
            read_only: false,
        },
    )
}

/// Builds the read-only transaction looking a resource mapping up by its
/// legacy resource identifier.
pub fn build_get_resource_mapping_transaction(contract: &str, legacy_identifier: &str) -> (r:
    Result<TransactionRequest, VdrError>)
    ensures
        match r {
            Ok(t) => {
                &&& valid_address(contract@)
                &&& valid_resource_identifier(legacy_identifier@)
                &&& t.to@ == contract@
                &&& t.from is None
                &&& t.data@ == get_resource_mapping_call_data(legacy_identifier@)
                &&& t.signature is None
                &&& t.read_only
            },
            Err(e) => {
                &&& !(valid_address(contract@) && valid_resource_identifier(legacy_identifier@))
                &&& e == VdrError::InvalidIdentifierFormat
            },
        },
{
    let to_addr = match Address::create(contract) {
        Ok(a) => a,
        Err(e) => {
            return Err(e);
        },
    };
    if !check_resource_identifier(legacy_identifier) {
        return Err(VdrError::InvalidIdentifierFormat);
    }
    let data = encode_call_one("getResourceMapping(string)", legacy_identifier.as_bytes());
    Ok(
        TransactionRequest {
            to: to_addr,
            from: None,
            data,
            signature: None,
            read_only: true,
        },
    )
}

// ---------------------------------------------------------------------------
// Shared encoding helpers and lemmas
// ---------------------------------------------------------------------------

/// Encodes the shared call data of the three DID mapping write paths.
fn encode_did_mapping_write(
    did: &str,
    legacy_identifier: &str,
    legacy_verkey: &str,
    ed25519_signature: &[u8],
) -> (r: Vec<u8>)
    requires
        valid_did(did@),
        valid_legacy_did(legacy_identifier@),
        valid_legacy_verkey(legacy_verkey@),
        ed25519_signature@.len() == 64,
    ensures
        r@ == create_did_mapping_call_data(
            did@,
            legacy_identifier@,
            legacy_verkey@,
            ed25519_signature@,
        ),
{
    proof {
        lemma_did_ascii(did@);
        lemma_legacy_did_ascii(legacy_identifier@);
        lemma_legacy_verkey_ascii(legacy_verkey@);
    }
    encode_call_four(
        "createDidMapping(string,string,string,bytes)",
        did.as_bytes(),
        legacy_identifier.as_bytes(),
        legacy_verkey.as_bytes(),
        ed25519_signature,
    )
}

/// Encodes the shared call data of the three resource mapping write paths.
fn encode_resource_mapping_write(
    did: &str,
    legacy_issuer_identifier: &str,
    legacy_identifier: &str,
    new_identifier: &str,
) -> (r: Vec<u8>)
    requires
        valid_did(did@),
        valid_legacy_did(legacy_issuer_identifier@),
        valid_resource_identifier(legacy_identifier@),
        valid_resource_identifier(new_identifier@),
    ensures
        r@ == create_resource_mapping_call_data(
            did@,
            legacy_issuer_identifier@,
            legacy_identifier@,
            new_identifier@,
        ),
{
    proof {
        lemma_did_ascii(did@);
        lemma_legacy_did_ascii(legacy_issuer_identifier@);
        lemma_resource_identifier_ascii(legacy_identifier@);
        lemma_resource_identifier_ascii(new_identifier@);
    }
    encode_call_four(
        "createResourceMapping(string,string,string,string)",
        did.as_bytes(),
        legacy_issuer_identifier.as_bytes(),
        legacy_identifier.as_bytes(),
        new_identifier.as_bytes(),
    )
}

/// Law: an endorsement payload binds exactly the call data that the direct
/// and pre-signed write builders put in their transactions. The payload is
/// the contract address bytes, then the nonce word, then that call data and
/// nothing else, so a signature over the payload authorizes precisely the
/// write that is later submitted.
pub proof fn lemma_endorsing_payload_binds_call_data(
    contract: Seq<char>,
    nonce: u64,
    call_data: Seq<u8>,
)
    requires
        valid_address(contract),
    ensures
        endorsing_payload(contract, nonce, call_data).len() == 74 + call_data.len(),
        endorsing_payload(contract, nonce, call_data).skip(74) =~= call_data,
        endorsing_payload(contract, nonce, call_data).take(42) =~= str_bytes(contract),
        endorsing_payload(contract, nonce, call_data).subrange(42, 74) =~= word32(nonce),
{
    lemma_address_ascii(contract);
}

} // verus!
