use crate::engine::{ConsumerOptionsView, MediaKind, ProducerView};
use crate::error::{error_view, ErrorKind, ErrorView};
use crate::json::ValueView;
use crate::registry::lists;
use crate::peer::PeerView;
use crate::room::{closed_notes, new_producer, producer_closed, RoomView};
use crate::signaling::MessageView;
use vstd::prelude::*;

verus! {

impl RoomView {
    /// The room after the peer under `peer_id` has produced each of `made`, in their order.
    pub open spec fn register_producers(self, peer_id: Seq<char>, made: Seq<ProducerView>) -> RoomView
        decreases made.len(),
    {
        if made.len() == 0 {
            self
        } else {
            self.register_producers(peer_id, made.drop_last()).register_producer(
                peer_id,
                made.last().id,
                made.last().handle,
                made.last().kind,
            )
        }
    }
}

/// The `newProducer` notifications for the producers `made` of the user `user_id`, in
/// their order.
pub open spec fn production_notes(user_id: Seq<char>, made: Seq<ProducerView>) -> Seq<MessageView> {
    Seq::new(made.len(), |i: int| new_producer(made[i].id, user_id, made[i].kind))
}

/// What a run of productions leaves of each peer: who the peers are does not change, and
/// each peer's queue is as the law below says.
proof fn lemma_register_producers(room: RoomView, peer_id: Seq<char>, made: Seq<ProducerView>)
    requires
        room.wf(),
        room.peers.contains_key(peer_id),
    ensures
        room.register_producers(peer_id, made).wf(),
        room.register_producers(peer_id, made).peers.dom() == room.peers.dom(),
        forall|k: Seq<char>| #[trigger]
            room.peers.contains_key(k) ==> {
                let before = room.peers[k];
                let after = room.register_producers(peer_id, made).peers[k];
                &&& after.id == before.id
                &&& after.user_id == before.user_id
                &&& after.connected == before.connected
                &&& after.outbox == if k != peer_id && before.connected {
                    before.outbox + production_notes(room.peers[peer_id].user_id, made)
                } else {
                    before.outbox
                }
            },
    decreases made.len(),
{
    let notes = production_notes(room.peers[peer_id].user_id, made);
    if made.len() == 0 {
        assert forall|k: Seq<char>| #[trigger] room.peers.contains_key(k) implies room.peers[k].outbox
            + notes == room.peers[k].outbox by {
            assert(room.peers[k].outbox + notes =~= room.peers[k].outbox);
        }
    } else {
        let earlier = made.drop_last();
        lemma_register_producers(room, peer_id, earlier);
        let mid = room.register_producers(peer_id, earlier);
        let end = room.register_producers(peer_id, made);
        let last = made.last();
        let owner = mid.peers[peer_id];
        let note = new_producer(last.id, owner.user_id, last.kind);
        assert(mid.peers.contains_key(peer_id));
        assert(end.peers.dom() =~= room.peers.dom());
        assert forall|k: Seq<char>| #[trigger] room.peers.contains_key(k) implies {
            let before = room.peers[k];
            let after = end.peers[k];
            &&& after.id == before.id
            &&& after.user_id == before.user_id
            &&& after.connected == before.connected
            &&& after.outbox == if k != peer_id && before.connected {
                before.outbox + notes
            } else {
                before.outbox
            }
        } by {
            let before = room.peers[k];
            assert(mid.peers.contains_key(k));
            if k != peer_id && before.connected {
                assert((before.outbox + production_notes(
                    room.peers[peer_id].user_id,
                    earlier,
                )).push(note) =~= before.outbox + notes);
            }
        }
    }
}

/// Whenever a peer produces, once or many times in a row, every other peer of the room
/// that is connected is sent exactly one `newProducer` notification for each production, in
/// the order of the productions, and the producing peer is sent none. A peer that is
/// disconnected is sent nothing.
pub proof fn law_new_producer_announced(
    room: RoomView,
    peer_id: Seq<char>,
    made: Seq<ProducerView>,
    other: Seq<char>,
)
    requires
        room.wf(),
        room.peers.contains_key(peer_id),
        room.peers.contains_key(other),
    ensures
        room.register_producers(peer_id, made).peers.contains_key(other),
        other != peer_id && room.peers[other].connected ==> room.register_producers(
            peer_id,
            made,
        ).peers[other].outbox == room.peers[other].outbox + production_notes(
            room.peers[peer_id].user_id,
            made,
        ),
        other == peer_id || !room.peers[other].connected ==> room.register_producers(
            peer_id,
            made,
        ).peers[other].outbox == room.peers[other].outbox,
        production_notes(room.peers[peer_id].user_id, made).len() == made.len(),
{
    lemma_register_producers(room, peer_id, made);
    assert(room.register_producers(peer_id, made).peers.dom().contains(other));
}

/// When a peer is removed from a room, every peer that stays and is connected is sent the
/// `producerClosed` notifications of the producers that the removed peer owned, each of them
/// exactly once; the removed peer is in the room no more.
pub proof fn law_producer_closed_announced(
    room: RoomView,
    peer_id: Seq<char>,
    order: Seq<Seq<char>>,
    other: Seq<char>,
)
    requires
        room.wf(),
        room.peers.contains_key(peer_id),
        lists(order, room.peers[peer_id].producers.dom()),
        room.peers.contains_key(other),
        other != peer_id,
    ensures
        !room.remove_peer(peer_id, order).peers.contains_key(peer_id),
        room.remove_peer(peer_id, order).peers.contains_key(other),
        room.peers[other].connected ==> room.remove_peer(peer_id, order).peers[other].outbox
            == room.peers[other].outbox + closed_notes(order),
        !room.peers[other].connected ==> room.remove_peer(peer_id, order).peers[other].outbox
            == room.peers[other].outbox,
        forall|id: Seq<char>| #[trigger]
            room.peers[peer_id].producers.contains_key(id) ==> exists|i: int|
                0 <= i < closed_notes(order).len() && closed_notes(order)[i] == producer_closed(
                    id,
                ) && forall|j: int|
                    0 <= j < closed_notes(order).len() && closed_notes(order)[j]
                        == producer_closed(id) ==> j == i,
        forall|i: int|
            0 <= i < closed_notes(order).len() ==> exists|id: Seq<char>|
                room.peers[peer_id].producers.contains_key(id) && #[trigger] closed_notes(
                    order,
                )[i] == producer_closed(id),
{
    let after = room.remove_peer(peer_id, order);
    assert(room.peers.remove(peer_id).contains_key(other));
    assert forall|id: Seq<char>| #[trigger]
        room.peers[peer_id].producers.contains_key(id) implies exists|i: int|
        0 <= i < closed_notes(order).len() && closed_notes(order)[i] == producer_closed(id)
            && forall|j: int|
            0 <= j < closed_notes(order).len() && closed_notes(order)[j] == producer_closed(id)
                ==> j == i by {
        assert(room.peers[peer_id].producers.dom().contains(id));
        assert(order.contains(id));
        let i = choose|i: int| 0 <= i < order.len() && order[i] == id;
        assert(closed_notes(order)[i] == producer_closed(id));
        assert forall|j: int|
            0 <= j < closed_notes(order).len() && closed_notes(order)[j] == producer_closed(
                id,
            ) implies j == i by {
            lemma_producer_closed_names(order[j], id);
        }
    }
    assert forall|i: int| 0 <= i < closed_notes(order).len() implies exists|id: Seq<char>|
        room.peers[peer_id].producers.contains_key(id) && #[trigger] closed_notes(order)[i]
            == producer_closed(id) by {
        assert(order.contains(order[i]));
        assert(room.peers[peer_id].producers.dom().contains(order[i]));
    }
}

/// Two `producerClosed` notifications are the same only if they name the same producer.
proof fn lemma_producer_closed_names(a: Seq<char>, b: Seq<char>)
    requires
        producer_closed(a) == producer_closed(b),
    ensures
        a == b,
{
    let pa = producer_closed(a).data->Some_0->Object_0;
    let pb = producer_closed(b).data->Some_0->Object_0;
    assert(pa[0].1 == ValueView::String(a));
    assert(pb[0].1 == ValueView::String(b));
}

impl RoomView {
    /// No producer stands in the registries of two peers.
    pub open spec fn owned_once(self) -> bool {
        forall|a: Seq<char>, b: Seq<char>, id: Seq<char>|
            self.peers.contains_key(a) && self.peers.contains_key(b) && (
            #[trigger] self.peers[a].producers.contains_key(id)) && (
            #[trigger] self.peers[b].producers.contains_key(id)) ==> a == b
    }
}

/// A room in which every peer stands under its own identifier stays so, whatever is done
/// with it: a peer joins under its identifier or leaves, something is registered, a message
/// is sent or broadcast, a queue is emptied, a peer is marked as disconnected.
pub proof fn law_room_stays_well_formed(
    room: RoomView,
    peer: PeerView,
    peer_id: Seq<char>,
    id: Seq<char>,
    handle: u64,
    kind: MediaKind,
    message: MessageView,
    order: Seq<Seq<char>>,
)
    requires
        room.wf(),
    ensures
        room.with_peer(peer.id, peer).wf(),
        room.remove_peer(peer_id, order).wf(),
        room.broadcast_to_others(peer_id, message).wf(),
        room.broadcast_to_all(message).wf(),
        room.send_to(peer_id, message).wf(),
        room.drained(peer_id).wf(),
        room.disconnected(peer_id).wf(),
        room.peers.contains_key(peer_id) ==> room.register_transport(peer_id, id, handle).wf(),
        room.peers.contains_key(peer_id) ==> room.register_producer(
            peer_id,
            id,
            handle,
            kind,
        ).wf(),
        room.peers.contains_key(peer_id) ==> room.register_consumer(peer_id, id, handle).wf(),
{
}

/// The identifier of a room and its router, with the router's capability set, are fixed
/// when the room is made: nothing that is done with the room changes them.
pub proof fn law_router_is_fixed(
    room: RoomView,
    peer: PeerView,
    peer_id: Seq<char>,
    id: Seq<char>,
    handle: u64,
    kind: MediaKind,
    message: MessageView,
    order: Seq<Seq<char>>,
)
    ensures
        room.with_peer(peer.id, peer).id == room.id && room.with_peer(peer.id, peer).router
            == room.router,
        room.remove_peer(peer_id, order).id == room.id && room.remove_peer(peer_id, order).router
            == room.router,
        room.broadcast_to_others(peer_id, message).id == room.id && room.broadcast_to_others(
            peer_id,
            message,
        ).router == room.router,
        room.broadcast_to_all(message).id == room.id && room.broadcast_to_all(message).router
            == room.router,
        room.send_to(peer_id, message).id == room.id && room.send_to(peer_id, message).router
            == room.router,
        room.drained(peer_id).id == room.id && room.drained(peer_id).router == room.router,
        room.disconnected(peer_id).id == room.id && room.disconnected(peer_id).router
            == room.router,
        room.register_transport(peer_id, id, handle).id == room.id && room.register_transport(
            peer_id,
            id,
            handle,
        ).router == room.router,
        room.register_producer(peer_id, id, handle, kind).id == room.id
            && room.register_producer(peer_id, id, handle, kind).router == room.router,
        room.register_consumer(peer_id, id, handle).id == room.id && room.register_consumer(
            peer_id,
            id,
            handle,
        ).router == room.router,
{
}

/// A producer is owned by one peer only, and stays so: when a peer registers a producer
/// that no peer of the room has yet, when a peer without producers joins, and when a peer
/// leaves.
pub proof fn law_producer_owned_once(
    room: RoomView,
    peer: PeerView,
    peer_id: Seq<char>,
    id: Seq<char>,
    handle: u64,
    kind: MediaKind,
    order: Seq<Seq<char>>,
)
    requires
        room.owned_once(),
    ensures
        room.peers.contains_key(peer_id) && !room.has_producer(id) ==> room.register_producer(
            peer_id,
            id,
            handle,
            kind,
        ).owned_once(),
        peer.producers == Map::<Seq<char>, u64>::empty() ==> room.with_peer(peer.id, peer).owned_once(),
        room.remove_peer(peer_id, order).owned_once(),
{
    if room.peers.contains_key(peer_id) && !room.has_producer(id) {
        let after = room.register_producer(peer_id, id, handle, kind);
        assert forall|a: Seq<char>, b: Seq<char>, other: Seq<char>|
            after.peers.contains_key(a) && after.peers.contains_key(b) && (
            #[trigger] after.peers[a].producers.contains_key(other)) && (
            #[trigger] after.peers[b].producers.contains_key(other)) implies a == b by {
            assert(room.peers.contains_key(a) && room.peers.contains_key(b));
            if other == id {
                if a != peer_id {
                    assert(room.peers[a].producers.contains_key(id));
                }
                if b != peer_id {
                    assert(room.peers[b].producers.contains_key(id));
                }
            } else {
                assert(room.peers[a].producers.contains_key(other));
                assert(room.peers[b].producers.contains_key(other));
            }
        }
    }
    if peer.producers == Map::<Seq<char>, u64>::empty() {
        let after = room.with_peer(peer.id, peer);
        assert forall|a: Seq<char>, b: Seq<char>, other: Seq<char>|
            after.peers.contains_key(a) && after.peers.contains_key(b) && (
            #[trigger] after.peers[a].producers.contains_key(other)) && (
            #[trigger] after.peers[b].producers.contains_key(other)) implies a == b by {
            if a != peer.id && b != peer.id {
                assert(room.peers[a].producers.contains_key(other));
                assert(room.peers[b].producers.contains_key(other));
            }
        }
    }
    let left = room.remove_peer(peer_id, order);
    assert forall|a: Seq<char>, b: Seq<char>, other: Seq<char>|
        left.peers.contains_key(a) && left.peers.contains_key(b) && (
        #[trigger] left.peers[a].producers.contains_key(other)) && (
        #[trigger] left.peers[b].producers.contains_key(other)) implies a == b by {
        assert(room.peers.contains_key(a) && room.peers.contains_key(b));
        assert(room.peers[a].producers.contains_key(other));
        assert(room.peers[b].producers.contains_key(other));
    }
}

/// Consuming fails whenever the router says that the capabilities do not fit, whether the
/// producer is there or not. Where the peer and its transport are found, a producer that no
/// peer of the room owns gives `ProducerNotFound`, and a producer that is there but does not
/// fit gives the capability error; with a producer that is there and fits, the engine is
/// asked for the consumer.
pub proof fn law_consume_errors(
    room: RoomView,
    peer_id: Seq<char>,
    transport_id: Seq<char>,
    producer_id: Seq<char>,
    rtp_capabilities: ValueView,
    can_consume: bool,
)
    ensures
        !can_consume ==> room.plan_consumer(
            peer_id,
            transport_id,
            producer_id,
            rtp_capabilities,
            can_consume,
        ) is Err,
        room.resolve_transport(peer_id, transport_id) is Ok && !room.has_producer(producer_id)
            ==> room.plan_consumer(
            peer_id,
            transport_id,
            producer_id,
            rtp_capabilities,
            can_consume,
        ) == Err::<ConsumerOptionsView, ErrorView>(
            error_view(ErrorKind::ProducerNotFound, producer_id),
        ),
        room.resolve_transport(peer_id, transport_id) is Ok && room.has_producer(producer_id)
            && !can_consume ==> room.plan_consumer(
            peer_id,
            transport_id,
            producer_id,
            rtp_capabilities,
            can_consume,
        ) == Err::<ConsumerOptionsView, ErrorView>(
            error_view(ErrorKind::Consumer, "Cannot consume producer"@),
        ),
        room.resolve_transport(peer_id, transport_id) is Ok && room.has_producer(producer_id)
            && can_consume ==> room.plan_consumer(
            peer_id,
            transport_id,
            producer_id,
            rtp_capabilities,
            can_consume,
        ) is Ok,
{
}

} // verus!
