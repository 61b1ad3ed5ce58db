//! The closed routing vocabulary.
//!
//! Once duty logic has processed a validated request or response, it
//! describes "what must happen next" as exactly one [`Action`]. The set is
//! closed and exhaustively matchable: a dispatcher must handle every
//! variant, and a new routing need is a new variant — a reviewable,
//! compile-time-checked change, never a silent runtime branch.
//!
//! Every action carries the [`MessageId`] of the request or response that
//! produced it, verbatim: the constructors below prove that the id is
//! stored unchanged, so multi-hop responses can always be correlated back
//! to the original client request.

use vstd::prelude::*;
use safe_nd::MessageId;
use safe_nd::Request;
use safe_nd::Response;
use safe_nd::XorName;

verus! {

/// Declares `safe_nd::XorName`: a fixed-width identifier in XOR address
/// space, used here only as an opaque address carried through routing.
#[verifier::external_type_specification]
#[verifier::external_body]
pub struct ExXorName(XorName);

/// Declares `safe_nd::MessageId`: the opaque token correlating a request
/// with its responses. Carried through routing verbatim, never regenerated.
#[verifier::external_type_specification]
#[verifier::external_body]
pub struct ExMessageId(MessageId);

/// Declares `safe_nd::Request`: a validated client request payload, opaque
/// to this core; duty logic owns its meaning.
#[verifier::external_type_specification]
#[verifier::external_body]
pub struct ExRequest(Request);

/// Declares `safe_nd::Response`: a response payload travelling back toward
/// a client, opaque to this core.
#[verifier::external_type_specification]
#[verifier::external_body]
pub struct ExResponse(Response);

/// One of the four legal ways a validated request or response moves
/// through the elder/adult topology. An `Action` is an instruction, not
/// mutable state: it is produced once, owned exclusively, and consumed
/// once by the dispatcher.
#[derive(Debug)]
pub enum Action {
    /// Send a validated client request from this section's elders to the
    /// elders responsible for the request's target address range.
    ForwardClientRequest {
        /// The name of the client (or of the owner, when the source is an
        /// app acting for an owner).
        client_name: XorName,
        /// The request payload, moved into the action.
        request: Request,
        /// The id of the request that produced this action.
        message_id: MessageId,
    },
    /// Send a response, as an adult or elder, up to the elders of this
    /// node's own section.
    RespondToOurDstElders {
        /// The responding node.
        sender: XorName,
        /// The finished response.
        response: Response,
        /// The id of the causing request, preserved verbatim.
        message_id: MessageId,
    },
    /// Relay a finished response from the elders that gathered it back
    /// toward the elders of the section the client is bootstrapped to.
    RespondToSrcElders {
        /// The responding node.
        sender: XorName,
        /// The name of the originating client.
        client_name: XorName,
        /// The finished response.
        response: Response,
        /// The id of the causing request, preserved verbatim.
        message_id: MessageId,
    },
    /// Fan the same request out to several specific peers, for instance to
    /// every adult holding a chunk. An empty target list is a no-op from
    /// the routing model's point of view; whether that is an error is the
    /// producer's policy, not this type's.
    SendToPeers {
        /// The peers to send to, one send each.
        targets: Vec<XorName>,
        /// The request payload, shared by every send.
        request: Request,
        /// The one id shared by every send.
        message_id: MessageId,
    },
}

impl Action {
    /// The correlation id this action carries. Every variant has one:
    /// there is no anonymous, uncorrelated action.
    pub open spec fn msg_id(self) -> MessageId {
        match self {
            Action::ForwardClientRequest { message_id, .. } => message_id,
            Action::RespondToOurDstElders { message_id, .. } => message_id,
            Action::RespondToSrcElders { message_id, .. } => message_id,
            Action::SendToPeers { message_id, .. } => message_id,
        }
    }

    /// Reads the correlation id back out of the action.
    pub fn message_id(&self) -> (id: &MessageId)
        ensures
            *id == self.msg_id(),
    {
        match self {
            Action::ForwardClientRequest { message_id, .. } => message_id,
            Action::RespondToOurDstElders { message_id, .. } => message_id,
            Action::RespondToSrcElders { message_id, .. } => message_id,
            Action::SendToPeers { message_id, .. } => message_id,
        }
    }

    /// Builds the action that forwards a validated client request toward
    /// its destination elders, tagged with the id of that request.
    pub fn forward_client_request(client_name: XorName, request: Request, message_id: MessageId) -> (a: Action)
        ensures
            a == (Action::ForwardClientRequest { client_name, request, message_id }),
            a.msg_id() == message_id,
    {
        Action::ForwardClientRequest { client_name, request, message_id }
    }

    /// Builds the action that returns a response to the elders of this
    /// node's own section, tagged with the id of the causing request.
    pub fn respond_to_our_dst_elders(sender: XorName, response: Response, message_id: MessageId) -> (a: Action)
        ensures
            a == (Action::RespondToOurDstElders { sender, response, message_id }),
            a.msg_id() == message_id,
    {
        Action::RespondToOurDstElders { sender, response, message_id }
    }

    /// Builds the action that relays a finished response back toward the
    /// client's source elders, tagged with the id of the causing request.
    pub fn respond_to_src_elders(sender: XorName, client_name: XorName, response: Response, message_id: MessageId) -> (a: Action)
        ensures
            a == (Action::RespondToSrcElders { sender, client_name, response, message_id }),
            a.msg_id() == message_id,
    {
        Action::RespondToSrcElders { sender, client_name, response, message_id }
    }

    /// Builds the one action that fans a request out to several peers:
    /// however many targets there are, they share a single send and a
    /// single id — never one action per peer.
    pub fn send_to_peers(targets: Vec<XorName>, request: Request, message_id: MessageId) -> (a: Action)
        ensures
            a == (Action::SendToPeers { targets, request, message_id }),
            a.msg_id() == message_id,
    {
        Action::SendToPeers { targets, request, message_id }
    }
}

} // verus!
