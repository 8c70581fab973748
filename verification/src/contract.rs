use vstd::prelude::*;

use crate::codec;
use crate::codec::{long_ok, short_ok};
use crate::errors::{ContractError, PointField, PointGroup, VerificationError};
use crate::msg::{ConfigResponse, HandleMsg, InitMsg, QueryMsg};
use crate::signature;
use crate::signature::signature_matches;
use crate::state::{ConfigStore, State};

verus! {

broadcast use vstd::string::group_string_axioms;

/// One key/value pair of a call's structured output.
#[derive(Clone, Debug, PartialEq, Eq)]
pub struct LogAttribute {
    pub key: String,
    pub value: String,
}

/// Structured output of a handle call.
#[derive(Clone, Debug, PartialEq, Eq)]
pub struct HandleResponse {
    pub log: Vec<LogAttribute>,
}

/// Structured output of initialization.
#[derive(Clone, Debug, PartialEq, Eq)]
pub struct InitResponse {
    pub log: Vec<LogAttribute>,
}

/// The deployment-embedded default public key: the beacon network's 48-byte
/// compressed group public key.
pub open spec fn default_public_key_enc() -> Seq<u8> {
    seq![
        0x86u8, 0x8f, 0x00, 0x5e, 0xb8, 0xe6, 0xe4, 0xca, 0x0a, 0x47, 0xc8, 0xa7, 0x7c, 0xea,
        0xa5, 0x30, 0x9a, 0x47, 0x97, 0x8a, 0x7c, 0x71, 0xbc, 0x5c, 0xce, 0x96, 0x36, 0x6b, 0x5d,
        0x7a, 0x56, 0x99, 0x37, 0xc5, 0x29, 0xee, 0xda, 0x66, 0xc7, 0x29, 0x37, 0x84, 0xa9, 0x40,
        0x28, 0x01, 0xaf, 0x31,
    ]
}

/// The embedded default public key as bytes.
pub fn default_public_key() -> (r: Vec<u8>)
    ensures
        r@ == default_public_key_enc(),
{
    let r: Vec<u8> = vec![
        0x86u8, 0x8f, 0x00, 0x5e, 0xb8, 0xe6, 0xe4, 0xca, 0x0a, 0x47, 0xc8, 0xa7, 0x7c, 0xea,
        0xa5, 0x30, 0x9a, 0x47, 0x97, 0x8a, 0x7c, 0x71, 0xbc, 0x5c, 0xce, 0x96, 0x36, 0x6b, 0x5d,
        0x7a, 0x56, 0x99, 0x37, 0xc5, 0x29, 0xee, 0xda, 0x66, 0xc7, 0x29, 0x37, 0x84, 0xa9, 0x40,
        0x28, 0x01, 0xaf, 0x31,
    ];
    proof {
        assert(r@ =~= default_public_key_enc());
    }
    r
}

/// Writes the given public key encoding into the store, as the one-time
/// initialization write. The bytes are stored verbatim; a corrupt value
/// surfaces later as a decode error of the verify and query calls.
pub fn init_with_key(store: &mut ConfigStore, public_key: Vec<u8>) -> (r: InitResponse)
    ensures
        final(store)@ == Some(public_key@),
        r.log@.len() == 0,
{
    store.save(State { drand_public_key: public_key });
    InitResponse { log: Vec::new() }
}

/// Initialization of the observed message shape: no caller parameters; the
/// deployment-embedded default public key is written.
pub fn init(store: &mut ConfigStore, _msg: InitMsg) -> (r: InitResponse)
    ensures
        final(store)@ == Some(default_public_key_enc()),
        r.log@.len() == 0,
{
    init_with_key(store, default_public_key())
}

/// When a verify call is owed a boolean outcome: a key is stored and every
/// one of the three encodings decodes to a point of its group.
pub open spec fn verify_accepts(cfg: Option<Seq<u8>>, sig: Seq<u8>, msg: Seq<u8>) -> bool {
    &&& cfg matches Some(pk) && short_ok(pk)
    &&& long_ok(msg)
    &&& long_ok(sig)
}

/// The boolean a successful verify call reports.
pub open spec fn verify_valid(cfg: Option<Seq<u8>>, sig: Seq<u8>, msg: Seq<u8>) -> bool {
    signature_matches(cfg.unwrap(), sig, msg)
}

/// The response carries exactly one attribute, key "valid", whose value says
/// whether the signature verified.
pub open spec fn response_reports(resp: HandleResponse, valid: bool) -> bool {
    &&& resp.log@.len() == 1
    &&& resp.log@[0].key@ == "valid"@
    &&& resp.log@[0].value@ == if valid {
        "true"@
    } else {
        "false"@
    }
}

/// Which error a failing verify call reports, checked in the order the
/// inputs are read: missing config, then corrupt config, then the message
/// point, then the signature.
pub open spec fn verify_error(
    cfg: Option<Seq<u8>>,
    sig: Seq<u8>,
    msg: Seq<u8>,
    e: ContractError,
) -> bool {
    if cfg is None {
        e == ContractError::ConfigNotFound
    } else if !short_ok(cfg.unwrap()) {
        e matches ContractError::ConfigCorrupt { error } && error.group == PointGroup::Short
    } else if !long_ok(msg) {
        e matches ContractError::InvalidPoint { field, error } && field == PointField::MessagePoint
            && error.group == PointGroup::Long
    } else {
        !long_ok(sig) && (e matches ContractError::InvalidPoint { field, error } && field
            == PointField::Signature && error.group == PointGroup::Long)
    }
}

/// The verify operation: loads the stored public key, decodes it and the
/// caller's message point, and reports through one "valid" attribute whether
/// the signature bytes are a valid BLS signature of the message point under
/// the stored key. Malformed inputs are typed errors; a well-formed
/// signature that fails the pairing equation is the normal "false" report.
pub fn verify(store: &ConfigStore, signature: &Vec<u8>, msg_g2: &Vec<u8>) -> (r: Result<
    HandleResponse,
    ContractError,
>)
    ensures
        r is Ok <==> verify_accepts(store@, signature@, msg_g2@),
        r matches Ok(resp) ==> response_reports(resp, verify_valid(store@, signature@, msg_g2@)),
        r matches Err(e) ==> verify_error(store@, signature@, msg_g2@, e),
{
    let state = match store.load() {
        Some(s) => s,
        None => {
            return Err(ContractError::ConfigNotFound);
        },
    };
    let pk = match codec::decode_short(&state.drand_public_key) {
        Ok(p) => p,
        Err(error) => {
            return Err(ContractError::ConfigCorrupt { error });
        },
    };
    let msg_point = match codec::decode_long(msg_g2) {
        Ok(p) => p,
        Err(error) => {
            return Err(ContractError::InvalidPoint { field: PointField::MessagePoint, error });
        },
    };
    let is_valid = match signature::verify(&pk, signature, &msg_point) {
        Ok(b) => b,
        Err(VerificationError::InvalidPoint { field, error }) => {
            return Err(ContractError::InvalidPoint { field, error });
        },
    };
    let value = if is_valid {
        "true".to_string()
    } else {
        "false".to_string()
    };
    let mut log: Vec<LogAttribute> = Vec::new();
    log.push(LogAttribute { key: "valid".to_string(), value });
    Ok(HandleResponse { log })
}

/// Dispatch of the handle operations.
pub fn handle(store: &ConfigStore, msg: HandleMsg) -> (r: Result<HandleResponse, ContractError>)
    ensures
        msg matches HandleMsg::Verify { signature, msg_g2, .. } ==> {
            &&& r is Ok <==> verify_accepts(store@, signature@, msg_g2@)
            &&& r matches Ok(resp) ==> response_reports(
                resp,
                verify_valid(store@, signature@, msg_g2@),
            )
            &&& r matches Err(e) ==> verify_error(store@, signature@, msg_g2@, e)
        },
{
    match msg {
        HandleMsg::Verify { signature, msg_g2, worker: _, round: _ } => verify(
            store,
            &signature,
            &msg_g2,
        ),
    }
}

/// The config query: the stored public key bytes, verbatim.
fn query_config(store: &ConfigStore) -> (r: Result<ConfigResponse, ContractError>)
    ensures
        r is Ok <==> store@ is Some,
        r matches Ok(resp) ==> store@ == Some(resp.drand_public_key@),
        store@ is None ==> r == Err::<ConfigResponse, ContractError>(ContractError::ConfigNotFound),
{
    match store.load() {
        Some(state) => Ok(State { drand_public_key: codec::copy_bytes(&state.drand_public_key) }),
        None => Err(ContractError::ConfigNotFound),
    }
}

/// Dispatch of the queries. The callback shape is answered with an error:
/// it documents an external protocol and has no handler here.
pub fn query(store: &ConfigStore, msg: QueryMsg) -> (r: Result<ConfigResponse, ContractError>)
    ensures
        msg is Config ==> {
            &&& r is Ok <==> store@ is Some
            &&& r matches Ok(resp) ==> store@ == Some(resp.drand_public_key@)
            &&& store@ is None ==> r == Err::<ConfigResponse, ContractError>(
                ContractError::ConfigNotFound,
            )
        },
        msg is VerifyCallBack ==> r == Err::<ConfigResponse, ContractError>(
            ContractError::UnsupportedQuery,
        ),
{
    match msg {
        QueryMsg::Config {} => query_config(store),
        QueryMsg::VerifyCallBack { .. } => Err(ContractError::UnsupportedQuery),
    }
}

/// Totality of verification on well-formed inputs: whenever a public key is
/// stored and the key, signature and message encodings each decode, the
/// verify call is owed a boolean outcome — never an error — whatever the
/// pairing equation says.
pub proof fn lemma_verify_total_on_well_formed(cfg: Option<Seq<u8>>, sig: Seq<u8>, msg: Seq<u8>)
    requires
        cfg matches Some(pk) && short_ok(pk),
        long_ok(sig),
        long_ok(msg),
    ensures
        verify_accepts(cfg, sig, msg),
{
}

} // verus!
