//! Parsing of bytes received from a client.
//!
//! An untrusted byte buffer from an established client connection is
//! interpreted as exactly one of two kinds of input: a handshake request
//! sent while the client bootstraps onto the network, or a message
//! envelope sent by a connected client to use the network's services. The
//! caller knows from connection state which entry point to invoke; each
//! entry point validates defensively and rejects everything else.
//!
//! Both entry points are pure functions of their input: no state, no
//! retries, no logging. A rejection is the caller's signal to drop or
//! penalize the connection.

use vstd::prelude::*;
use bytes::Bytes;
use sn_data_types::HandshakeRequest;
use sn_data_types::Message;
use sn_data_types::MsgEnvelope;
use crate::errors::Error;
use crate::protocol::client_origin;
use crate::protocol::decoded_envelope;
use crate::protocol::decoded_handshake;
use crate::protocol::deserialize_envelope;
use crate::protocol::deserialize_handshake;
use crate::protocol::spec_bytes;

verus! {

/// Whether a message is of a kind a client may submit: a command or a
/// query. Every other kind is internal to the network and must be
/// rejected at this boundary even when it decodes successfully.
pub open spec fn allowed_client_kind(message: Message) -> bool {
    message is Cmd || message is Query
}

/// What the client-message boundary accepts from a byte buffer: the
/// decoded envelope, provided the bytes conform to the envelope encoding,
/// the message kind is a command or a query, and the declared origin is a
/// client. Anything else — garbage bytes, an internal message kind, a
/// spoofed non-client origin — is `None`.
pub open spec fn accepted_client_msg(bytes: Seq<u8>) -> Option<MsgEnvelope> {
    match decoded_envelope(bytes) {
        Some(env) => {
            if allowed_client_kind(env.message) && client_origin(env.origin) {
                Some(env)
            } else {
                None
            }
        },
        None => None,
    }
}

/// Law: a byte buffer that does not conform to the envelope encoding is
/// never accepted as a client message.
pub proof fn lemma_undecodable_bytes_rejected(bytes: Seq<u8>)
    requires
        decoded_envelope(bytes) is None,
    ensures
        accepted_client_msg(bytes) is None,
{
}

/// Law: a well-formed envelope whose message kind is neither a command
/// nor a query is rejected, even though it decoded successfully.
pub proof fn lemma_internal_kind_rejected(bytes: Seq<u8>)
    requires
        decoded_envelope(bytes) matches Some(env) && !allowed_client_kind(env.message),
    ensures
        accepted_client_msg(bytes) is None,
{
}

/// Law: a well-formed, correctly-kinded envelope whose declared origin is
/// not a client is rejected.
pub proof fn lemma_non_client_origin_rejected(bytes: Seq<u8>)
    requires
        decoded_envelope(bytes) matches Some(env) && !client_origin(env.origin),
    ensures
        accepted_client_msg(bytes) is None,
{
}

/// Law: a well-formed, client-originated command or query envelope is
/// accepted, and what is accepted is the decoded envelope itself — origin
/// and message kind unchanged.
pub proof fn lemma_client_cmd_query_accepted(bytes: Seq<u8>)
    requires
        decoded_envelope(bytes) matches Some(env) && allowed_client_kind(env.message)
            && client_origin(env.origin),
    ensures
        accepted_client_msg(bytes) == decoded_envelope(bytes),
{
}

/// Interprets bytes from a connected client as a message envelope.
///
/// Succeeds exactly when the bytes decode to an envelope whose message is
/// a command or a query and whose origin is a client, and then returns
/// that envelope unchanged. Decode failure, a disallowed kind and a
/// non-client origin are collapsed into one uniform rejection, so a
/// remote peer cannot probe the internal message taxonomy through the
/// error.
pub fn try_deserialize_msg(bytes: &Bytes) -> (r: Result<MsgEnvelope, Error>)
    ensures
        match r {
            Ok(env) => accepted_client_msg(spec_bytes(*bytes)) == Some(env),
            Err(_) => accepted_client_msg(spec_bytes(*bytes)) is None,
        },
{
    let msg = match deserialize_envelope(bytes) {
        Some(msg) => msg,
        None => {
            return Err(Error::Logic("Error deserializing Client msg".to_string()));
        },
    };
    let allowed_kind: bool = match &msg.message {
        Message::Cmd { .. } => true,
        Message::Query { .. } => true,
        _ => false,
    };
    if !allowed_kind {
        // Only cmds and queries from a client are allowed through here.
        return Err(Error::Logic("Error deserializing Client msg".to_string()));
    }
    if msg.origin.is_client() {
        Ok(msg)
    } else {
        Err(Error::Logic("Msg origin is not Client".to_string()))
    }
}

/// Interprets bytes from a bootstrapping client as a handshake request.
///
/// Succeeds exactly when the bytes conform to the handshake encoding, and
/// then returns the decoded handshake unchanged. No semantic validation
/// happens here: handshake semantics are checked by external bootstrap
/// logic.
pub fn try_deserialize_handshake(bytes: &Bytes) -> (r: Result<HandshakeRequest, Error>)
    ensures
        match r {
            Ok(hs) => decoded_handshake(spec_bytes(*bytes)) == Some(hs),
            Err(_) => decoded_handshake(spec_bytes(*bytes)) is None,
        },
{
    match deserialize_handshake(bytes) {
        Some(hs) => Ok(hs),
        None => Err(Error::Logic("Error deserializing Handshake".to_string())),
    }
}

} // verus!
