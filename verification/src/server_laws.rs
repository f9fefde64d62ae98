use crate::config::ListenIpView;
use crate::engine::{EngineCallView, EngineReply};
use crate::room::RoomView;
use crate::server::{dispatch, incoming, resume, Frame};
use crate::signaling::MessageView;
use vstd::prelude::*;

verus! {

/// True if `after` is `before` with one response to the request `id` at its end.
pub open spec fn answered(before: Seq<MessageView>, after: Seq<MessageView>, id: Seq<char>) -> bool {
    &&& after.len() == before.len() + 1
    &&& after.drop_last() == before
    &&& after.last().id == Some(id)
    &&& after.last().method == "response"@
}

/// Whatever a frame or an answer of the engine leads to, the room keeps its identifier and
/// its router.
pub proof fn law_steps_keep_the_router(
    room: RoomView,
    listen_ips: Seq<ListenIpView>,
    peer_id: Seq<char>,
    frame: Frame,
    msg: MessageView,
    call: EngineCallView,
    reply: EngineReply,
)
    ensures
        incoming(room, listen_ips, peer_id, frame).0.id == room.id,
        incoming(room, listen_ips, peer_id, frame).0.router == room.router,
        resume(room, peer_id, msg, call, reply).0.id == room.id,
        resume(room, peer_id, msg, call, reply).0.router == room.router,
{
}

/// No message and no answer of the engine ends the connection: whatever a client sends in
/// a frame that holds a message, the connection stays open.
pub proof fn law_requests_keep_connection(
    room: RoomView,
    listen_ips: Seq<ListenIpView>,
    peer_id: Seq<char>,
    msg: MessageView,
    call: EngineCallView,
    reply: EngineReply,
)
    ensures
        !(dispatch(room, listen_ips, peer_id, msg).1 is Close),
        !(resume(room, peer_id, msg, call, reply).1 is Close),
{
}

/// A notification is never answered: nothing is put into the queue of the peer that sent
/// it, neither at once nor when the engine has answered.
pub proof fn law_notification_unanswered(
    room: RoomView,
    listen_ips: Seq<ListenIpView>,
    peer_id: Seq<char>,
    msg: MessageView,
    call: EngineCallView,
    reply: EngineReply,
)
    requires
        msg.id is None,
        room.peers.contains_key(peer_id),
    ensures
        dispatch(room, listen_ips, peer_id, msg).0 == room,
        resume(room, peer_id, msg, call, reply).0.peers.contains_key(peer_id),
        resume(room, peer_id, msg, call, reply).0.peers[peer_id].outbox
            == room.peers[peer_id].outbox,
{
}

/// A request is answered exactly once: as long as it waits for the engine nothing is put
/// into the queue of the peer that sent it, and with the step that ends it one response,
/// which carries the identifier of the request, is put at the end of that queue.
pub proof fn law_request_answered_once(
    room: RoomView,
    listen_ips: Seq<ListenIpView>,
    peer_id: Seq<char>,
    msg: MessageView,
    call: EngineCallView,
    reply: EngineReply,
)
    requires
        msg.id is Some,
        room.peers.contains_key(peer_id),
        room.peers[peer_id].connected,
    ensures
        dispatch(room, listen_ips, peer_id, msg).0.peers.contains_key(peer_id),
        dispatch(room, listen_ips, peer_id, msg).1 is Call ==> dispatch(
            room,
            listen_ips,
            peer_id,
            msg,
        ).0 == room,
        dispatch(room, listen_ips, peer_id, msg).1 is Done ==> answered(
            room.peers[peer_id].outbox,
            dispatch(room, listen_ips, peer_id, msg).0.peers[peer_id].outbox,
            msg.id->Some_0,
        ),
        resume(room, peer_id, msg, call, reply).0.peers.contains_key(peer_id),
        resume(room, peer_id, msg, call, reply).1 is Call ==> resume(
            room,
            peer_id,
            msg,
            call,
            reply,
        ).0 == room,
        resume(room, peer_id, msg, call, reply).1 is Done ==> answered(
            room.peers[peer_id].outbox,
            resume(room, peer_id, msg, call, reply).0.peers[peer_id].outbox,
            msg.id->Some_0,
        ),
{
    let before = room.peers[peer_id].outbox;
    let after = dispatch(room, listen_ips, peer_id, msg).0.peers[peer_id].outbox;
    if dispatch(room, listen_ips, peer_id, msg).1 is Done {
        assert(after.drop_last() =~= before);
    }
    let later = resume(room, peer_id, msg, call, reply).0.peers[peer_id].outbox;
    if resume(room, peer_id, msg, call, reply).1 is Done {
        assert(later.drop_last() =~= before);
    }
}

} // verus!
