//! Declarations of the shared protocol types and of the decoding
//! primitive, as this core relies on them.
//!
//! The byte layout of the protocol artifacts is owned by the shared
//! protocol definition, external to this core: decoding is invoked, never
//! redesigned. What a buffer decodes to is therefore a named function of
//! the bytes alone ([`decoded_envelope`], [`decoded_handshake`]), and the
//! parser's contracts are stated over those names.
//!
//! [`Message`] is declared with its variants visible, so that the kind
//! filtering at the boundary is verified logic, not trust. [`MsgSender`]
//! keeps its fields private to its own crate, so the one distinction the
//! boundary reads from it — client or not — is named ([`client_origin`])
//! and tied to `MsgSender::is_client`.

use vstd::prelude::*;
use bytes::Bytes;
use sn_data_types::Address;
use sn_data_types::Cmd;
use sn_data_types::CmdError;
use sn_data_types::Event;
use sn_data_types::HandshakeRequest;
use sn_data_types::Message;
use sn_data_types::MessageId;
use sn_data_types::MsgEnvelope;
use sn_data_types::MsgSender;
use sn_data_types::NodeCmd;
use sn_data_types::NodeCmdError;
use sn_data_types::NodeEvent;
use sn_data_types::NodeQuery;
use sn_data_types::NodeQueryResponse;
use sn_data_types::Query;
use sn_data_types::QueryResponse;

verus! {

/// Declares `bytes::Bytes`: the buffer type in which framed client input
/// arrives. Opaque here; its contents are [`spec_bytes`].
#[verifier::external_type_specification]
#[verifier::external_body]
pub struct ExBytes(Bytes);

/// The contents of a `bytes::Bytes` buffer, as a sequence of bytes.
pub uninterp spec fn spec_bytes(b: Bytes) -> Seq<u8>;

/// Declares `sn_data_types::MsgEnvelope` with its fields visible: the
/// wrapper around a message, carrying the sender (`origin`) and the
/// intermediate actors so far (`proxies`).
#[verifier::external_type_specification]
pub struct ExMsgEnvelope(MsgEnvelope);

/// Declares `sn_data_types::Message` with its variants visible: the closed
/// set of message kinds. Only `Cmd` and `Query` are legal from a client;
/// every other kind is internal to the network.
#[verifier::external_type_specification]
pub struct ExMessage(Message);

/// Declares `sn_data_types::MsgSender`: the sender of a message. Its
/// fields are private to its crate, so it stays opaque here.
#[verifier::external_type_specification]
#[verifier::external_body]
pub struct ExMsgSender(MsgSender);

/// Declares `sn_data_types::HandshakeRequest`: the bootstrap artifact a
/// client sends to establish a connection. Its semantics are validated by
/// external bootstrap logic, so it is opaque here.
#[verifier::external_type_specification]
#[verifier::external_body]
pub struct ExHandshakeRequest(HandshakeRequest);

/// Declares `sn_data_types::MessageId`: the opaque token correlating a
/// message with its responses.
#[verifier::external_type_specification]
#[verifier::external_body]
pub struct ExMessageId(MessageId);

/// Declares `sn_data_types::Address`: the network address of a messaging
/// entity, opaque here.
#[verifier::external_type_specification]
#[verifier::external_body]
pub struct ExAddress(Address);

/// Declares `sn_data_types::Cmd`: a client command payload, opaque here.
#[verifier::external_type_specification]
#[verifier::external_body]
pub struct ExCmd(Cmd);

/// Declares `sn_data_types::Query`: a client query payload, opaque here.
#[verifier::external_type_specification]
#[verifier::external_body]
pub struct ExQuery(Query);

/// Declares `sn_data_types::Event`: an internal event payload, opaque here.
#[verifier::external_type_specification]
#[verifier::external_body]
pub struct ExEvent(Event);

/// Declares `sn_data_types::QueryResponse`: a query result payload, opaque
/// here.
#[verifier::external_type_specification]
#[verifier::external_body]
pub struct ExQueryResponse(QueryResponse);

/// Declares `sn_data_types::CmdError`: a command error payload, opaque
/// here.
#[verifier::external_type_specification]
#[verifier::external_body]
pub struct ExCmdError(CmdError);

/// Declares `sn_data_types::NodeCmd`: an internal node command, opaque
/// here.
#[verifier::external_type_specification]
#[verifier::external_body]
pub struct ExNodeCmd(NodeCmd);

/// Declares `sn_data_types::NodeCmdError`: an internal node command error,
/// opaque here.
#[verifier::external_type_specification]
#[verifier::external_body]
pub struct ExNodeCmdError(NodeCmdError);

/// Declares `sn_data_types::NodeEvent`: an internal node event, opaque
/// here.
#[verifier::external_type_specification]
#[verifier::external_body]
pub struct ExNodeEvent(NodeEvent);

/// Declares `sn_data_types::NodeQuery`: an internal node query, opaque
/// here.
#[verifier::external_type_specification]
#[verifier::external_body]
pub struct ExNodeQuery(NodeQuery);

/// Declares `sn_data_types::NodeQueryResponse`: an internal node query
/// result, opaque here.
#[verifier::external_type_specification]
#[verifier::external_body]
pub struct ExNodeQueryResponse(NodeQueryResponse);

/// What `bincode::deserialize::<MsgEnvelope>` yields on a byte sequence:
/// `Some` envelope exactly when the bytes conform to the envelope
/// encoding, `None` otherwise. The encoding is external to this core, so
/// the decoded value is named, not spelled out; it is a function of the
/// bytes alone.
pub uninterp spec fn decoded_envelope(bytes: Seq<u8>) -> Option<MsgEnvelope>;

/// What `bincode::deserialize::<HandshakeRequest>` yields on a byte
/// sequence, named in the same way as [`decoded_envelope`].
pub uninterp spec fn decoded_handshake(bytes: Seq<u8>) -> Option<HandshakeRequest>;

/// Whether a sender is a client entity. `MsgSender`'s fields are private
/// to its crate, so the distinction is named rather than spelled out; it
/// is a pure function of the sender value.
pub uninterp spec fn client_origin(sender: MsgSender) -> bool;

/// Relies on `sn_data_types::MsgSender::is_client`: a pure test of the
/// sender value, true exactly when the sender's entity is a client.
pub assume_specification[ MsgSender::is_client ](sender: &MsgSender) -> (r: bool)
    ensures
        r == client_origin(*sender),
;

/// Relies on `bincode::deserialize::<MsgEnvelope>`: deterministic in the
/// input bytes, succeeding exactly when they conform to the envelope
/// encoding.
#[verifier::external_body]
pub(crate) fn deserialize_envelope(bytes: &Bytes) -> (r: Option<MsgEnvelope>)
    ensures
        r == decoded_envelope(spec_bytes(*bytes)),
{
    bincode::deserialize::<MsgEnvelope>(bytes.as_ref()).ok()
}

/// Relies on `bincode::deserialize::<HandshakeRequest>`: deterministic in
/// the input bytes, succeeding exactly when they conform to the handshake
/// encoding.
#[verifier::external_body]
pub(crate) fn deserialize_handshake(bytes: &Bytes) -> (r: Option<HandshakeRequest>)
    ensures
        r == decoded_handshake(spec_bytes(*bytes)),
{
    bincode::deserialize::<HandshakeRequest>(bytes.as_ref()).ok()
}

} // verus!
