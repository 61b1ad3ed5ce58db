//! Tests of the routing action model: every variant carries the id of the
//! request or response that produced it, verbatim.

use client_boundary::action::Action;
use safe_nd::CoinsRequest;
use safe_nd::MessageId;
use safe_nd::Request;
use safe_nd::Response;
use safe_nd::XorName;

fn name(byte: u8) -> XorName {
    XorName([byte; 32])
}

fn id(byte: u8) -> MessageId {
    MessageId(name(byte))
}

fn sample_request() -> Request {
    Request::Coins(CoinsRequest::GetBalance)
}

fn sample_response() -> Response {
    Response::Mutation(Ok(()))
}

#[test]
fn forward_client_request_preserves_message_id() {
    let action = Action::forward_client_request(name(1), sample_request(), id(9));
    assert_eq!(*action.message_id(), id(9));
    match action {
        Action::ForwardClientRequest {
            client_name,
            request,
            message_id,
        } => {
            assert_eq!(client_name, name(1));
            assert_eq!(request, sample_request());
            assert_eq!(message_id, id(9));
        }
        _ => panic!("wrong variant"),
    }
}

#[test]
fn respond_to_our_dst_elders_preserves_message_id() {
    let action = Action::respond_to_our_dst_elders(name(2), sample_response(), id(8));
    assert_eq!(*action.message_id(), id(8));
    match action {
        Action::RespondToOurDstElders {
            sender,
            response,
            message_id,
        } => {
            assert_eq!(sender, name(2));
            assert_eq!(response, sample_response());
            assert_eq!(message_id, id(8));
        }
        _ => panic!("wrong variant"),
    }
}

#[test]
fn respond_to_src_elders_preserves_message_id() {
    let action = Action::respond_to_src_elders(name(3), name(4), sample_response(), id(7));
    assert_eq!(*action.message_id(), id(7));
    match action {
        Action::RespondToSrcElders {
            sender,
            client_name,
            response,
            message_id,
        } => {
            assert_eq!(sender, name(3));
            assert_eq!(client_name, name(4));
            assert_eq!(response, sample_response());
            assert_eq!(message_id, id(7));
        }
        _ => panic!("wrong variant"),
    }
}

#[test]
fn send_to_peers_preserves_message_id() {
    let action = Action::send_to_peers(vec![name(5)], sample_request(), id(6));
    assert_eq!(*action.message_id(), id(6));
}

/// Replicating a write to four adults holding a chunk is one action with
/// four targets and one shared id, not four actions.
#[test]
fn replicate_to_four_adults_is_one_action() {
    let targets = vec![name(11), name(12), name(13), name(14)];
    let action = Action::send_to_peers(targets.clone(), sample_request(), id(5));
    match action {
        Action::SendToPeers {
            targets: stored,
            request,
            message_id,
        } => {
            assert_eq!(stored.len(), 4);
            assert_eq!(stored, targets);
            assert_eq!(request, sample_request());
            assert_eq!(message_id, id(5));
        }
        _ => panic!("wrong variant"),
    }
}

/// An empty target list is representable: it is a no-op for the
/// dispatcher, and whether it is an error is the producer's policy.
#[test]
fn send_to_peers_allows_empty_targets() {
    let action = Action::send_to_peers(vec![], sample_request(), id(4));
    assert_eq!(*action.message_id(), id(4));
    match action {
        Action::SendToPeers { targets, .. } => assert!(targets.is_empty()),
        _ => panic!("wrong variant"),
    }
}
