//! Decoding of host envelopes into typed requests.

use vstd::prelude::*;
use zebra_chain::serialization::{SerializationError, ZcashDeserialize};
use zebra_chain::transaction::Transaction;
use crate::error::DecodeError;
use crate::payload::{decode_text, text_bytes};
use crate::units::{
    native_quotient, to_native_address, to_native_amount, NativeAddress, NativeAddressView,
    NativeAmount, Network, MAX_NATIVE_AMOUNT,
};

verus! {

/// `zebra_chain::transaction::Transaction`, a parsed transaction. Nothing
/// is known of what it holds.
#[verifier::external_type_specification]
#[verifier::external_body]
pub struct ExTransaction(Transaction);

/// `zebra_chain::serialization::SerializationError`, the reason for which
/// bytes are no transaction. Nothing is known of what it holds.
#[verifier::external_type_specification]
#[verifier::external_body]
pub struct ExSerializationError(SerializationError);

/// Length of a deposit payload: sender, 256-bit value, destination hash.
pub const DEPOSIT_LEN: usize = 72;

/// One input as the host delivers it. A field that the host left out, or
/// wrote as another kind of value than expected, is `None`.
#[derive(Debug, Clone, PartialEq, Eq)]
pub struct RawEnvelope {
    /// The request kind tag.
    pub request_type: Option<String>,
    /// The sender identity, as hexadecimal text.
    pub msg_sender: Option<String>,
    /// The epoch that the input belongs to.
    pub epoch_index: Option<u64>,
    /// The place of the input in its epoch.
    pub input_index: Option<u64>,
    /// The block of the base layer that carried the input.
    pub block_number: Option<u64>,
    /// The time of that block, in seconds.
    pub timestamp: Option<u64>,
    /// The payload, as hexadecimal text.
    pub payload: Option<String>,
}

/// What decoding reads of an envelope: the indices and the timestamp play
/// no part in it.
pub struct RawEnvelopeView {
    pub request_type: Option<Seq<char>>,
    pub msg_sender: Option<Seq<char>>,
    pub payload: Option<Seq<char>>,
}

impl View for RawEnvelope {
    type V = RawEnvelopeView;

    open spec fn view(&self) -> RawEnvelopeView {
        RawEnvelopeView {
            request_type: text_view(self.request_type),
            msg_sender: text_view(self.msg_sender),
            payload: text_view(self.payload),
        }
    }
}

/// The characters of an optional string.
pub open spec fn text_view(text: Option<String>) -> Option<Seq<char>> {
    match text {
        Some(t) => Some(t@),
        None => None,
    }
}

/// The sender identities that a network recognizes.
#[derive(Debug, Clone, Copy, PartialEq, Eq)]
pub struct NetworkParams {
    /// The bridge through which deposits arrive.
    pub deposit_bridge: [u8; 20],
    /// The contract through which transactions arrive.
    pub inbox_contract: [u8; 20],
}

impl Default for NetworkParams {
    /// The identities of a local development network.
    fn default() -> (params: Self)
        ensures
            params.deposit_bridge@ == seq![
                0xffu8, 0xdb, 0xe4, 0x3d, 0x4c, 0x85, 0x5b, 0xf7, 0xe0, 0xf1,
                0x05, 0xc4, 0x00, 0xa5, 0x08, 0x57, 0xf5, 0x3a, 0xb0, 0x44,
            ],
            params.inbox_contract@ == seq![
                0xf3u8, 0x9f, 0xd6, 0xe5, 0x1a, 0xad, 0x88, 0xf6, 0xf4, 0xce,
                0x6a, 0xb8, 0x82, 0x72, 0x79, 0xcf, 0xff, 0xb9, 0x22, 0x66,
            ],
    {
        let deposit_bridge: [u8; 20] = [
            0xff, 0xdb, 0xe4, 0x3d, 0x4c, 0x85, 0x5b, 0xf7, 0xe0, 0xf1,
            0x05, 0xc4, 0x00, 0xa5, 0x08, 0x57, 0xf5, 0x3a, 0xb0, 0x44,
        ];
        let inbox_contract: [u8; 20] = [
            0xf3, 0x9f, 0xd6, 0xe5, 0x1a, 0xad, 0x88, 0xf6, 0xf4, 0xce,
            0x6a, 0xb8, 0x82, 0x72, 0x79, 0xcf, 0xff, 0xb9, 0x22, 0x66,
        ];
        assert(deposit_bridge@ =~= seq![
            0xffu8, 0xdb, 0xe4, 0x3d, 0x4c, 0x85, 0x5b, 0xf7, 0xe0, 0xf1,
            0x05, 0xc4, 0x00, 0xa5, 0x08, 0x57, 0xf5, 0x3a, 0xb0, 0x44,
        ]);
        assert(inbox_contract@ =~= seq![
            0xf3u8, 0x9f, 0xd6, 0xe5, 0x1a, 0xad, 0x88, 0xf6, 0xf4, 0xce,
            0x6a, 0xb8, 0x82, 0x72, 0x79, 0xcf, 0xff, 0xb9, 0x22, 0x66,
        ]);
        NetworkParams { deposit_bridge, inbox_contract }
    }
}

/// A state-mutating intent.
#[derive(Debug, PartialEq, Eq)]
pub enum AdvanceStateRequest {
    /// Credit `amount` to the address `to`.
    Deposit { amount: NativeAmount, to: NativeAddress },
    /// Include the transaction `txn`.
    Transact { txn: Transaction },
}

/// A decoded domain intent.
#[derive(Debug, PartialEq, Eq)]
pub enum Request {
    AdvanceState(AdvanceStateRequest),
    InspectState,
}

/// What a state-mutating intent holds.
pub enum AdvanceStateRequestView {
    Deposit { amount: nat, to: NativeAddressView },
    Transact { txn: Transaction },
}

/// What a request holds.
pub enum RequestView {
    AdvanceState(AdvanceStateRequestView),
    InspectState,
}

impl View for AdvanceStateRequest {
    type V = AdvanceStateRequestView;

    open spec fn view(&self) -> AdvanceStateRequestView {
        match *self {
            AdvanceStateRequest::Deposit { amount, to } => AdvanceStateRequestView::Deposit {
                amount: amount@,
                to: to@,
            },
            AdvanceStateRequest::Transact { txn } => AdvanceStateRequestView::Transact { txn },
        }
    }
}

impl View for Request {
    type V = RequestView;

    open spec fn view(&self) -> RequestView {
        match *self {
            Request::AdvanceState(advance) => RequestView::AdvanceState(advance@),
            Request::InspectState => RequestView::InspectState,
        }
    }
}

/// What `Transaction::zcash_deserialize` makes of `bytes`.
pub uninterp spec fn zcash_deserialized(bytes: Seq<u8>) -> Result<Transaction, SerializationError>;

/// `Transaction::zcash_deserialize` of `zebra_chain`, reading from a byte
/// slice: the transaction that the bytes begin with, or the error that
/// parsing them ends in. The outcome depends on the bytes alone.
#[verifier::external_body]
fn deserialize_transaction(bytes: &[u8]) -> (txn: Result<Transaction, SerializationError>)
    ensures
        txn == zcash_deserialized(bytes@),
{
    Transaction::zcash_deserialize(bytes)
}

/// The deposit that a payload of bytes describes.
pub open spec fn deposit_view(payload: Seq<u8>) -> Result<AdvanceStateRequestView, DecodeError> {
    if payload.len() != DEPOSIT_LEN {
        Err(DecodeError::MalformedDepositPayload)
    } else if native_quotient(payload.subrange(20, 52)) > MAX_NATIVE_AMOUNT {
        Err(DecodeError::AmountOutOfRange)
    } else {
        Ok(
            AdvanceStateRequestView::Deposit {
                amount: native_quotient(payload.subrange(20, 52)),
                to: NativeAddressView {
                    network: Network::Mainnet,
                    pub_key_hash: payload.subrange(52, 72),
                },
            },
        )
    }
}

/// The transaction request that a payload of bytes describes.
pub open spec fn transact_view(payload: Seq<u8>) -> Result<AdvanceStateRequestView, DecodeError> {
    match zcash_deserialized(payload) {
        Ok(txn) => Ok(AdvanceStateRequestView::Transact { txn }),
        Err(_) => Err(DecodeError::MalformedTransaction),
    }
}

/// Whether the envelope's sender is the identity `identity`.
pub open spec fn sent_by(envelope: RawEnvelopeView, identity: Seq<u8>) -> bool {
    envelope.msg_sender matches Some(sender) && text_bytes(sender) == Some(identity)
}

/// The bytes of the envelope's payload.
pub open spec fn payload_bytes(envelope: RawEnvelopeView) -> Option<Seq<u8>> {
    match envelope.payload {
        Some(text) => text_bytes(text),
        None => None,
    }
}

/// The state-mutating intent that an envelope carries: the sender decides
/// how the payload is read.
pub open spec fn advance_state_view(params: NetworkParams, envelope: RawEnvelopeView) -> Result<
    AdvanceStateRequestView,
    DecodeError,
> {
    if envelope.request_type != Some("advance_state"@) {
        Err(DecodeError::UnrecognizedRequestKind)
    } else if sent_by(envelope, params.deposit_bridge@) {
        match payload_bytes(envelope) {
            Some(payload) => deposit_view(payload),
            None => Err(DecodeError::InvalidPayloadEncoding),
        }
    } else if sent_by(envelope, params.inbox_contract@) {
        match payload_bytes(envelope) {
            Some(payload) => transact_view(payload),
            None => Err(DecodeError::InvalidPayloadEncoding),
        }
    } else {
        Err(DecodeError::UnrecognizedSender)
    }
}

/// The request that an envelope carries.
pub open spec fn request_view(params: NetworkParams, envelope: RawEnvelopeView) -> Result<
    RequestView,
    DecodeError,
> {
    if envelope.request_type == Some("advance_state"@) {
        match advance_state_view(params, envelope) {
            Ok(advance) => Ok(RequestView::AdvanceState(advance)),
            Err(e) => Err(e),
        }
    } else if envelope.request_type == Some("inspect_state"@) {
        Ok(RequestView::InspectState)
    } else {
        Err(DecodeError::UnrecognizedRequestKind)
    }
}

/// The view of a decoding result.
pub open spec fn decoded_view<T: View>(result: Result<T, DecodeError>) -> Result<T::V, DecodeError> {
    match result {
        Ok(value) => Ok(value@),
        Err(e) => Err(e),
    }
}

/// An envelope of any kind but `advance_state` and `inspect_state` is
/// refused as of an unrecognized kind.
pub proof fn lemma_other_kinds_are_refused(params: NetworkParams, envelope: RawEnvelope)
    requires
        envelope@.request_type != Some("advance_state"@),
        envelope@.request_type != Some("inspect_state"@),
    ensures
        request_view(params, envelope@) == Err::<RequestView, DecodeError>(
            DecodeError::UnrecognizedRequestKind,
        ),
{
}

/// An `advance_state` envelope whose sender is neither the deposit bridge
/// nor the inbox contract is refused as of an unrecognized sender.
pub proof fn lemma_other_senders_are_refused(params: NetworkParams, envelope: RawEnvelope)
    requires
        envelope@.request_type == Some("advance_state"@),
        !sent_by(envelope@, params.deposit_bridge@),
        !sent_by(envelope@, params.inbox_contract@),
    ensures
        advance_state_view(params, envelope@) == Err::<AdvanceStateRequestView, DecodeError>(
            DecodeError::UnrecognizedSender,
        ),
        request_view(params, envelope@) == Err::<RequestView, DecodeError>(
            DecodeError::UnrecognizedSender,
        ),
{
}

/// An `inspect_state` envelope decodes to a query, whatever else it holds.
pub proof fn lemma_inspection_always_decodes(params: NetworkParams, envelope: RawEnvelope)
    requires
        envelope@.request_type == Some("inspect_state"@),
    ensures
        request_view(params, envelope@) == Ok::<RequestView, DecodeError>(
            RequestView::InspectState,
        ),
{
    reveal_strlit("advance_state");
    reveal_strlit("inspect_state");
    assert("advance_state"@.len() != "inspect_state"@.len() || "advance_state"@[0]
        != "inspect_state"@[0]);
}

/// Requests with one view are one request.
pub proof fn lemma_view_tells_requests_apart(first: Request, second: Request)
    requires
        first@ == second@,
    ensures
        first == second,
{
    match (first, second) {
        (
            Request::AdvanceState(AdvanceStateRequest::Deposit { amount: a, to: s }),
            Request::AdvanceState(AdvanceStateRequest::Deposit { amount: b, to: t }),
        ) => {
            a.lemma_view_tells_apart(b);
            s.lemma_view_tells_apart(t);
        },
        _ => {},
    }
}

/// Decoding is determined by what the envelope holds: two envelopes that
/// hold the same decode alike, to the same request or to the same error.
pub proof fn lemma_decoding_is_deterministic(
    params: NetworkParams,
    first: RawEnvelope,
    second: RawEnvelope,
    first_result: Result<Request, DecodeError>,
    second_result: Result<Request, DecodeError>,
)
    requires
        first@ == second@,
        decoded_view(first_result) == request_view(params, first@),
        decoded_view(second_result) == request_view(params, second@),
    ensures
        first_result == second_result,
{
    match (first_result, second_result) {
        (Ok(a), Ok(b)) => {
            lemma_view_tells_requests_apart(a, b);
        },
        _ => {},
    }
}

fn is_word(text: &Option<String>, word: &str) -> (same: bool)
    ensures
        same == (text_view(*text) == Some(word@)),
{
    match text {
        Some(t) => {
            let owned = word.to_owned();
            *t == owned
        },
        None => false,
    }
}

fn same_bytes(left: &[u8], right: &[u8]) -> (same: bool)
    ensures
        same == (left@ == right@),
{
    if left.len() != right.len() {
        return false;
    }
    let mut i: usize = 0;
    while i < left.len()
        invariant
            i <= left@.len(),
            left@.len() == right@.len(),
            forall|j: int| 0 <= j < i ==> left@[j] == right@[j],
        decreases left@.len() - i,
    {
        if left[i] != right[i] {
            assert(left@[i as int] != right@[i as int]);
            return false;
        }
        i += 1;
    }
    assert(left@ =~= right@);
    true
}

fn is_identity(text: &Option<String>, identity: &[u8; 20]) -> (same: bool)
    ensures
        same == (text_view(*text) matches Some(sender) && text_bytes(sender) == Some(identity@)),
{
    match text {
        Some(t) => match decode_text(t.as_str()) {
            Ok(bytes) => same_bytes(bytes.as_slice(), identity.as_slice()),
            Err(_) => false,
        },
        None => false,
    }
}

fn read_payload(text: &Option<String>) -> (bytes: Result<Vec<u8>, DecodeError>)
    ensures
        bytes.is_ok() <==> (text_view(*text) matches Some(t) && text_bytes(t).is_some()),
        bytes matches Ok(b) ==> text_view(*text) matches Some(t) && text_bytes(t) == Some(b@),
        bytes matches Err(e) ==> e == DecodeError::InvalidPayloadEncoding,
{
    match text {
        Some(t) => decode_text(t.as_str()),
        None => Err(DecodeError::InvalidPayloadEncoding),
    }
}

fn value_field(payload: &Vec<u8>) -> (value: [u8; 32])
    requires
        payload@.len() == DEPOSIT_LEN,
    ensures
        value@ == payload@.subrange(20, 52),
{
    let mut value = [0u8; 32];
    let mut i: usize = 0;
    while i < 32
        invariant
            i <= 32,
            payload@.len() == DEPOSIT_LEN,
            forall|j: int| 0 <= j < i ==> value@[j] == payload@[20 + j],
        decreases 32 - i,
    {
        value[i] = payload[20 + i];
        i += 1;
    }
    assert(value@ =~= payload@.subrange(20, 52));
    value
}

fn destination_field(payload: &Vec<u8>) -> (hash: [u8; 20])
    requires
        payload@.len() == DEPOSIT_LEN,
    ensures
        hash@ == payload@.subrange(52, 72),
{
    let mut hash = [0u8; 20];
    let mut i: usize = 0;
    while i < 20
        invariant
            i <= 20,
            payload@.len() == DEPOSIT_LEN,
            forall|j: int| 0 <= j < i ==> hash@[j] == payload@[52 + j],
        decreases 20 - i,
    {
        hash[i] = payload[52 + i];
        i += 1;
    }
    assert(hash@ =~= payload@.subrange(52, 72));
    hash
}

/// Reads a deposit from the bytes of its payload: the sender in 20 bytes,
/// the value in 32 bytes, most significant first, and the destination's
/// public-key hash in 20 bytes.
pub fn decode_deposit(payload: &Vec<u8>) -> (deposit: Result<AdvanceStateRequest, DecodeError>)
    ensures
        decoded_view(deposit) == deposit_view(payload@),
{
    if payload.len() != DEPOSIT_LEN {
        return Err(DecodeError::MalformedDepositPayload);
    }
    let value = value_field(payload);
    let hash = destination_field(payload);
    match to_native_amount(&value) {
        Ok(amount) => Ok(AdvanceStateRequest::Deposit { amount, to: to_native_address(hash) }),
        Err(e) => Err(e),
    }
}

/// Reads a transaction request from the bytes of its payload.
pub fn decode_transact(payload: &Vec<u8>) -> (transact: Result<AdvanceStateRequest, DecodeError>)
    ensures
        decoded_view(transact) == transact_view(payload@),
{
    match deserialize_transaction(payload.as_slice()) {
        Ok(txn) => Ok(AdvanceStateRequest::Transact { txn }),
        Err(_) => Err(DecodeError::MalformedTransaction),
    }
}

/// Decodes the state-mutating intent of an `advance_state` envelope.
pub fn decode_advance_state(params: &NetworkParams, envelope: &RawEnvelope) -> (advance: Result<
    AdvanceStateRequest,
    DecodeError,
>)
    ensures
        decoded_view(advance) == advance_state_view(*params, envelope@),
{
    if !is_word(&envelope.request_type, "advance_state") {
        return Err(DecodeError::UnrecognizedRequestKind);
    }
    if is_identity(&envelope.msg_sender, &params.deposit_bridge) {
        match read_payload(&envelope.payload) {
            Ok(payload) => decode_deposit(&payload),
            Err(e) => Err(e),
        }
    } else if is_identity(&envelope.msg_sender, &params.inbox_contract) {
        match read_payload(&envelope.payload) {
            Ok(payload) => decode_transact(&payload),
            Err(e) => Err(e),
        }
    } else {
        Err(DecodeError::UnrecognizedSender)
    }
}

/// Decodes an envelope into the request that it carries.
pub fn decode(params: &NetworkParams, envelope: &RawEnvelope) -> (request: Result<
    Request,
    DecodeError,
>)
    ensures
        decoded_view(request) == request_view(*params, envelope@),
{
    if is_word(&envelope.request_type, "advance_state") {
        match decode_advance_state(params, envelope) {
            Ok(advance) => Ok(Request::AdvanceState(advance)),
            Err(e) => Err(e),
        }
    } else if is_word(&envelope.request_type, "inspect_state") {
        Ok(Request::InspectState)
    } else {
        Err(DecodeError::UnrecognizedRequestKind)
    }
}

} // verus!
