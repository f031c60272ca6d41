//! The tickets and the store that holds them.
//!
//! The store is a growing sequence of slots. A ticket's id is the index of
//! its slot; deleting a ticket empties its slot and leaves the slot in place,
//! so an id that was handed out once never comes to mean another ticket.
//!
//! Each operation is one indivisible step from the slots before to the
//! slots after. The operations that change the store take it by `&mut`, so
//! no two of them can run on one store at a time; a process that serves
//! requests concurrently keeps its one store behind a lock and holds the
//! lock for the length of one call.

use crate::ctx::Ctx;
use crate::error::Error;
use vstd::prelude::*;

verus! {

/// A ticket, as the store hands it out.
#[derive(Debug)]
pub struct Ticket {
    pub id: u64,
    /// The user id of the caller who created the ticket.
    pub cid: u64,
    pub title: String,
}

/// What a caller supplies to have a ticket created.
#[derive(Debug)]
pub struct TicketForCreate {
    pub title: String,
}

/// A ticket as a mathematical value.
pub ghost struct TicketView {
    pub id: nat,
    pub cid: u64,
    pub title: Seq<char>,
}

impl View for Ticket {
    type V = TicketView;

    open spec fn view(&self) -> TicketView {
        TicketView { id: self.id as nat, cid: self.cid, title: self.title@ }
    }
}

impl Clone for Ticket {
    fn clone(&self) -> (res: Self)
        ensures
            res@ == self@,
    {
        Ticket { id: self.id, cid: self.cid, title: self.title.clone() }
    }
}

/// The slot of a store as a mathematical value.
pub open spec fn slot_view(slot: Option<Ticket>) -> Option<TicketView> {
    match slot {
        Some(t) => Some(t@),
        None => None,
    }
}

/// The slots of a store as mathematical values.
pub open spec fn slot_views(slots: Seq<Option<Ticket>>) -> Seq<Option<TicketView>> {
    slots.map_values(|s: Option<Ticket>| slot_view(s))
}

/// The tickets of a list as mathematical values, in the list's order.
pub open spec fn ticket_views(tickets: Seq<Ticket>) -> Seq<TicketView> {
    tickets.map_values(|t: Ticket| t@)
}

/// Every occupied slot holds the ticket whose id is the slot's index.
pub open spec fn slots_wf(slots: Seq<Option<TicketView>>) -> bool {
    forall|i: int| 0 <= i < slots.len() ==> ((#[trigger] slots[i]) matches Some(t) ==> t.id == i)
}

/// The ticket that a store with the slots `slots` creates for the caller
/// `cid`: its id is the number of slots so far.
pub open spec fn created_ticket(slots: Seq<Option<TicketView>>, cid: u64, title: Seq<char>)
    -> TicketView {
    TicketView { id: slots.len(), cid, title }
}

/// The slots after a ticket was created: one more slot, holding the new ticket.
pub open spec fn after_create(slots: Seq<Option<TicketView>>, cid: u64, title: Seq<char>) -> Seq<
    Option<TicketView>,
> {
    slots.push(Some(created_ticket(slots, cid, title)))
}

/// Whether the slots hold a ticket with the id `id`.
pub open spec fn holds_ticket(slots: Seq<Option<TicketView>>, id: u64) -> bool {
    id < slots.len() && slots[id as int] is Some
}

/// What deleting the ticket `id` returns: the ticket, or the failure that
/// names the id when no such ticket is held.
pub open spec fn delete_result(slots: Seq<Option<TicketView>>, id: u64) -> Result<
    TicketView,
    Error,
> {
    if holds_ticket(slots, id) {
        Ok(slots[id as int]->Some_0)
    } else {
        Err(Error::TicketDeleteFailIdNotFound { id })
    }
}

/// The slots after the ticket `id` was deleted: its slot is empty, and no
/// slot has moved. Where no such ticket is held, nothing changes.
pub open spec fn after_delete(slots: Seq<Option<TicketView>>, id: u64) -> Seq<Option<TicketView>> {
    if holds_ticket(slots, id) {
        slots.update(id as int, None)
    } else {
        slots
    }
}

/// The occupied slots, in the order of the slots.
pub open spec fn occupied_slots(slots: Seq<Option<TicketView>>) -> Seq<Option<TicketView>> {
    slots.filter(|s: Option<TicketView>| s is Some)
}

/// The tickets that the slots hold, in the order of the slots.
pub open spec fn live_tickets(slots: Seq<Option<TicketView>>) -> Seq<TicketView> {
    occupied_slots(slots).map_values(|s: Option<TicketView>| s->Some_0)
}

/// The store of tickets.
///
/// The slots are private: they are read and changed through the three
/// operations below and in no other way.
pub struct ModelController {
    tickets_store: Vec<Option<Ticket>>,
}

impl View for ModelController {
    type V = Seq<Option<TicketView>>;

    closed spec fn view(&self) -> Seq<Option<TicketView>> {
        slot_views(self.tickets_store@)
    }
}

impl ModelController {
    /// Holds of every store: the id of a ticket is the index of its slot.
    #[verifier::type_invariant]
    pub open spec fn wf(&self) -> bool {
        slots_wf(self@)
    }

    /// A store without slots.
    pub fn new() -> (res: Result<Self, Error>)
        ensures
            res matches Ok(mc) && mc@ == Seq::<Option<TicketView>>::empty(),
    {
        let mc = ModelController { tickets_store: Vec::new() };
        assert(mc@ =~= Seq::<Option<TicketView>>::empty());
        Ok(mc)
    }

    /// Creates a ticket with the given title for the caller `ctx`, in a new
    /// slot at the end, and returns it. This cannot fail.
    pub fn create_ticket(&mut self, ctx: Ctx, ticket_fc: TicketForCreate) -> (res: Result<
        Ticket,
        Error,
    >)
        ensures
            res matches Ok(t) && t@ == created_ticket(
                old(self)@,
                ctx.user_id(),
                ticket_fc.title@,
            ),
            final(self)@ == after_create(old(self)@, ctx.user_id(), ticket_fc.title@),
    {
        proof {
            use_type_invariant(&*self);
        }
        let mut slots: Vec<Option<Ticket>> = Vec::new();
        std::mem::swap(&mut slots, &mut self.tickets_store);
        let id: u64 = slots.len() as u64;
        let ticket = Ticket { id, cid: ctx.user_id(), title: ticket_fc.title };
        slots.push(Some(ticket.clone()));
        proof {
            assert(slot_views(slots@) =~= after_create(
                old(self)@,
                ctx.user_id(),
                ticket_fc.title@,
            ));
            lemma_create_keeps_wf(old(self)@, ctx.user_id(), ticket_fc.title@);
        }
        self.tickets_store = slots;
        Ok(ticket)
    }

    /// The tickets held, in ascending order of their ids, whoever created
    /// them. This cannot fail.
    pub fn list_tickets(&self, _ctx: Ctx) -> (res: Result<Vec<Ticket>, Error>)
        ensures
            res matches Ok(tickets) && ticket_views(tickets@) == live_tickets(self@),
            res matches Ok(tickets) && forall|i: int, j: int|
                0 <= i < j < tickets@.len() ==> (#[trigger] tickets@[i]).id < (
                #[trigger] tickets@[j]).id,
    {
        let mut tickets: Vec<Ticket> = Vec::new();
        let mut i: usize = 0;
        assert(self@.take(0) =~= Seq::<Option<TicketView>>::empty());
        assert(ticket_views(tickets@) =~= live_tickets(self@.take(0))) by {
            reveal(Seq::filter);
        }
        while i < self.tickets_store.len()
            invariant
                i <= self.tickets_store.len(),
                ticket_views(tickets@) == live_tickets(self@.take(i as int)),
            decreases self.tickets_store.len() - i,
        {
            let ghost before = tickets@;
            match &self.tickets_store[i] {
                Some(t) => {
                    tickets.push(t.clone());
                    assert(ticket_views(tickets@) =~= ticket_views(before).push(
                        self@[i as int]->Some_0,
                    ));
                },
                None => {},
            }
            proof {
                assert(self@.take(i + 1) =~= self@.take(i as int).push(self@[i as int]));
                lemma_live_tickets_push(self@.take(i as int), self@[i as int]);
            }
            i += 1;
        }
        proof {
            use_type_invariant(self);
            assert(self@.take(i as int) =~= self@);
            lemma_live_tickets_ascending(self@);
            assert forall|i: int, j: int| 0 <= i < j < tickets@.len() implies (
            #[trigger] tickets@[i]).id < (#[trigger] tickets@[j]).id by {
                assert(ticket_views(tickets@)[i] == tickets@[i]@);
                assert(ticket_views(tickets@)[j] == tickets@[j]@);
            }
        }
        Ok(tickets)
    }

    /// Deletes the ticket `id` and returns it. Where the store holds no such
    /// ticket, because the id was never handed out or its ticket is deleted
    /// already, this fails with the id and changes nothing.
    pub fn delete_ticket(&mut self, _ctx: Ctx, id: u64) -> (res: Result<Ticket, Error>)
        ensures
            match res {
                Ok(t) => delete_result(old(self)@, id) == Ok::<TicketView, Error>(t@),
                Err(e) => delete_result(old(self)@, id) == Err::<TicketView, Error>(e),
            },
            res matches Ok(t) ==> t.id == id,
            final(self)@ == after_delete(old(self)@, id),
    {
        proof {
            use_type_invariant(&*self);
        }
        if id >= self.tickets_store.len() as u64 {
            return Err(Error::TicketDeleteFailIdNotFound { id });
        }
        let idx: usize = id as usize;
        let mut slots: Vec<Option<Ticket>> = Vec::new();
        std::mem::swap(&mut slots, &mut self.tickets_store);
        let ticket: Option<Ticket> = slots[idx].take();
        proof {
            assert(slot_views(slots@) =~= after_delete(old(self)@, id));
            lemma_delete_keeps_wf(old(self)@, id);
        }
        self.tickets_store = slots;
        match ticket {
            Some(t) => Ok(t),
            None => Err(Error::TicketDeleteFailIdNotFound { id }),
        }
    }
}

/// Creating a ticket keeps every ticket's id equal to the index of its slot.
pub proof fn lemma_create_keeps_wf(slots: Seq<Option<TicketView>>, cid: u64, title: Seq<char>)
    requires
        slots_wf(slots),
    ensures
        slots_wf(after_create(slots, cid, title)),
{
}

/// Deleting a ticket keeps every ticket's id equal to the index of its slot.
pub proof fn lemma_delete_keeps_wf(slots: Seq<Option<TicketView>>, id: u64)
    requires
        slots_wf(slots),
    ensures
        slots_wf(after_delete(slots, id)),
{
}

/// One change in the life of a store.
pub ghost enum StoreOp {
    Create { cid: u64, title: Seq<char> },
    Delete { id: u64 },
}

/// The slots after one change.
pub open spec fn after_op(slots: Seq<Option<TicketView>>, op: StoreOp) -> Seq<Option<TicketView>> {
    match op {
        StoreOp::Create { cid, title } => after_create(slots, cid, title),
        StoreOp::Delete { id } => after_delete(slots, id),
    }
}

/// The slots after the changes of `ops`, made one after the other.
pub open spec fn after_ops(slots: Seq<Option<TicketView>>, ops: Seq<StoreOp>) -> Seq<
    Option<TicketView>,
>
    decreases ops.len(),
{
    if ops.len() == 0 {
        slots
    } else {
        after_op(after_ops(slots, ops.drop_last()), ops.last())
    }
}

/// Whatever happens to a store, an id that was handed out never comes to
/// mean another ticket: no slot goes away, and a slot holds the ticket it
/// held before or, once that is deleted, none at all. Every ticket's id
/// stays the index of its slot.
pub proof fn lemma_id_is_never_reassigned(slots: Seq<Option<TicketView>>, ops: Seq<StoreOp>)
    requires
        slots_wf(slots),
    ensures
        slots_wf(after_ops(slots, ops)),
        after_ops(slots, ops).len() >= slots.len(),
        forall|i: int|
            0 <= i < slots.len() ==> (#[trigger] after_ops(slots, ops)[i]) == slots[i]
                || after_ops(slots, ops)[i] is None,
    decreases ops.len(),
{
    if ops.len() > 0 {
        let before = after_ops(slots, ops.drop_last());
        lemma_id_is_never_reassigned(slots, ops.drop_last());
        match ops.last() {
            StoreOp::Create { cid, title } => lemma_create_keeps_wf(before, cid, title),
            StoreOp::Delete { id } => lemma_delete_keeps_wf(before, id),
        }
        assert forall|i: int| 0 <= i < slots.len() implies (#[trigger] after_ops(slots, ops)[i])
            == slots[i] || after_ops(slots, ops)[i] is None by {
            assert(before[i] == slots[i] || before[i] is None);
        }
    }
}

/// The ids that the creations among `ops` hand out, in their order.
pub open spec fn ids_handed_out(slots: Seq<Option<TicketView>>, ops: Seq<StoreOp>) -> Seq<nat>
    decreases ops.len(),
{
    if ops.len() == 0 {
        Seq::empty()
    } else {
        let earlier = ids_handed_out(slots, ops.drop_last());
        match ops.last() {
            StoreOp::Create { cid, title } => earlier.push(
                created_ticket(after_ops(slots, ops.drop_last()), cid, title).id,
            ),
            StoreOp::Delete { .. } => earlier,
        }
    }
}

/// Deletions between creations change nothing about the ids handed out:
/// whatever is deleted in between, and whether it was there or not, the
/// creations get the next free numbers in turn, and the store has one slot
/// for each of them. An id set free by a deletion is never handed out again.
pub proof fn lemma_deletions_free_no_id(slots: Seq<Option<TicketView>>, ops: Seq<StoreOp>)
    ensures
        after_ops(slots, ops).len() == slots.len() + ids_handed_out(slots, ops).len(),
        forall|k: int|
            0 <= k < ids_handed_out(slots, ops).len() ==> #[trigger] ids_handed_out(slots, ops)[k]
                == slots.len() + k,
    decreases ops.len(),
{
    if ops.len() > 0 {
        lemma_deletions_free_no_id(slots, ops.drop_last());
    }
}

/// A request to create a ticket: the caller's user id and the title.
pub type CreateRequest = (u64, Seq<char>);

/// The slots after the requests of `reqs` were served one after the other,
/// each in its turn alone.
pub open spec fn after_creates(slots: Seq<Option<TicketView>>, reqs: Seq<CreateRequest>) -> Seq<
    Option<TicketView>,
>
    decreases reqs.len(),
{
    if reqs.len() == 0 {
        slots
    } else {
        after_create(after_creates(slots, reqs.drop_last()), reqs.last().0, reqs.last().1)
    }
}

/// The tickets that the requests of `reqs` were answered with, in the order
/// in which the requests were served.
pub open spec fn tickets_created(slots: Seq<Option<TicketView>>, reqs: Seq<CreateRequest>) -> Seq<
    TicketView,
> {
    Seq::new(
        reqs.len(),
        |k: int| created_ticket(after_creates(slots, reqs.take(k)), reqs[k].0, reqs[k].1),
    )
}

/// The ids of the tickets of `tickets`, in their order.
pub open spec fn ticket_ids(tickets: Seq<TicketView>) -> Seq<nat> {
    tickets.map_values(|t: TicketView| t.id)
}

/// Serving `reqs` adds one slot for each request.
pub proof fn lemma_after_creates_len(slots: Seq<Option<TicketView>>, reqs: Seq<CreateRequest>)
    ensures
        after_creates(slots, reqs).len() == slots.len() + reqs.len(),
    decreases reqs.len(),
{
    if reqs.len() > 0 {
        lemma_after_creates_len(slots, reqs.drop_last());
    }
}

/// However many requests to create a ticket are served, and in whichever
/// order they come to be served, the ids handed out are the next free
/// numbers in turn: the request served as number `k` gets the id
/// `slots.len() + k`. So no id is handed out twice, and on a fresh store the
/// ids of `n` requests are exactly `0, .., n - 1`.
pub proof fn lemma_creates_hand_out_successive_ids(
    slots: Seq<Option<TicketView>>,
    reqs: Seq<CreateRequest>,
)
    ensures
        forall|k: int|
            0 <= k < reqs.len() ==> (#[trigger] tickets_created(slots, reqs)[k]).id == slots.len()
                + k,
        ticket_ids(tickets_created(slots, reqs)).no_duplicates(),
        ticket_ids(tickets_created(slots, reqs)).to_set() == Set::new(
            |id: nat| slots.len() <= id < slots.len() + reqs.len(),
        ),
{
    let created = tickets_created(slots, reqs);
    let ids = ticket_ids(created);
    assert forall|k: int| 0 <= k < reqs.len() implies (#[trigger] created[k]).id == slots.len()
        + k by {
        lemma_after_creates_len(slots, reqs.take(k));
    }
    assert forall|k: int| 0 <= k < ids.len() implies #[trigger] ids[k] == slots.len() + k by {
        assert(ids[k] == created[k].id);
    }
    let range = Set::new(|id: nat| slots.len() <= id < slots.len() + reqs.len());
    assert forall|id: nat| range.contains(id) implies ids.to_set().contains(id) by {
        let k = id - slots.len();
        assert(ids[k] == id);
    }
    assert(ids.to_set() =~= range);
}

/// A deletion leaves the number of slots as it is, so the next ticket that
/// the store creates is the same with and without the deletion.
pub proof fn lemma_delete_leaves_next_id(
    slots: Seq<Option<TicketView>>,
    id: u64,
    cid: u64,
    title: Seq<char>,
)
    ensures
        after_delete(slots, id).len() == slots.len(),
        created_ticket(after_delete(slots, id), cid, title) == created_ticket(slots, cid, title),
{
}

/// Deleting a ticket that the store holds returns that ticket, whose id is
/// the one asked for; deleting it once more fails with that id, and so does
/// every later attempt, since a failed deletion changes nothing.
pub proof fn lemma_delete_twice_fails(slots: Seq<Option<TicketView>>, id: u64)
    requires
        slots_wf(slots),
    ensures
        holds_ticket(slots, id) ==> (delete_result(slots, id) matches Ok(t) && t.id == id),
        delete_result(after_delete(slots, id), id) == Err::<TicketView, Error>(
            Error::TicketDeleteFailIdNotFound { id },
        ),
        after_delete(after_delete(slots, id), id) == after_delete(slots, id),
{
}

/// One more slot at the end adds its ticket, if it has one, at the end of
/// the tickets held.
pub proof fn lemma_live_tickets_push(slots: Seq<Option<TicketView>>, slot: Option<TicketView>)
    ensures
        live_tickets(slots.push(slot)) == match slot {
            Some(t) => live_tickets(slots).push(t),
            None => live_tickets(slots),
        },
{
    let pushed = slots.push(slot);
    assert(pushed.drop_last() =~= slots);
    assert(occupied_slots(pushed) =~= match slot {
        Some(t) => occupied_slots(slots).push(slot),
        None => occupied_slots(slots),
    }) by {
        reveal(Seq::filter);
    }
    assert(live_tickets(pushed) =~= match slot {
        Some(t) => live_tickets(slots).push(t),
        None => live_tickets(slots),
    });
}

/// The tickets held come in ascending order of their ids, each of them sits
/// in the slot that its id names, and every occupied slot's ticket is among
/// them.
pub proof fn lemma_live_tickets_ascending(slots: Seq<Option<TicketView>>)
    requires
        slots_wf(slots),
    ensures
        forall|i: int, j: int|
            0 <= i < j < live_tickets(slots).len() ==> (#[trigger] live_tickets(slots)[i]).id < (
            #[trigger] live_tickets(slots)[j]).id,
        forall|i: int|
            0 <= i < live_tickets(slots).len() ==> {
                let t = #[trigger] live_tickets(slots)[i];
                t.id < slots.len() && slots[t.id as int] == Some(t)
            },
        forall|k: int|
            0 <= k < slots.len() && (#[trigger] slots[k]) is Some ==> live_tickets(slots).contains(
                slots[k]->Some_0,
            ),
    decreases slots.len(),
{
    let live = live_tickets(slots);
    if slots.len() == 0 {
        assert(live =~= Seq::<TicketView>::empty()) by {
            reveal(Seq::filter);
        }
    } else {
        let rest = slots.drop_last();
        let last = slots.last();
        assert(slots =~= rest.push(last));
        assert(slots_wf(rest)) by {
            assert forall|i: int| 0 <= i < rest.len() implies ((#[trigger] rest[i]) matches Some(
                t,
            ) ==> t.id == i) by {
                assert(rest[i] == slots[i]);
            }
        }
        lemma_live_tickets_ascending(rest);
        lemma_live_tickets_push(rest, last);
        let live_rest = live_tickets(rest);
        assert forall|i: int| 0 <= i < live.len() implies {
            let t = #[trigger] live[i];
            t.id < slots.len() && slots[t.id as int] == Some(t)
        } by {
            if i < live_rest.len() {
                let t = live_rest[i];
                assert(live[i] == t);
                assert(rest[t.id as int] == slots[t.id as int]);
            } else {
                assert(live[i] == last->Some_0);
                assert(slots[slots.len() - 1] == last);
            }
        }
        assert forall|i: int, j: int| 0 <= i < j < live.len() implies (#[trigger] live[i]).id < (
        #[trigger] live[j]).id by {
            if j < live_rest.len() {
                assert(live[i] == live_rest[i]);
                assert(live[j] == live_rest[j]);
            } else {
                assert(live[i] == live_rest[i]);
                assert(live[j] == last->Some_0);
                assert(slots[slots.len() - 1] == last);
            }
        }
        assert forall|k: int| 0 <= k < slots.len() && (#[trigger] slots[k]) is Some implies live
            .contains(slots[k]->Some_0) by {
            if k < rest.len() {
                assert(rest[k] == slots[k]);
                let t = rest[k]->Some_0;
                assert(live_rest.contains(t));
                let w = choose|w: int| 0 <= w < live_rest.len() && live_rest[w] == t;
                assert(live[w] == t);
            } else {
                assert(live[live.len() - 1] == last->Some_0);
            }
        }
    }
}

/// After a ticket was created, the tickets held are those held before,
/// followed by the new one.
pub proof fn lemma_list_after_create(slots: Seq<Option<TicketView>>, cid: u64, title: Seq<char>)
    ensures
        live_tickets(after_create(slots, cid, title)) == live_tickets(slots).push(
            created_ticket(slots, cid, title),
        ),
{
    lemma_live_tickets_push(slots, Some(created_ticket(slots, cid, title)));
}

/// The tickets of `tickets` but the one with the id `id`, in their order.
pub open spec fn without_ticket(tickets: Seq<TicketView>, id: u64) -> Seq<TicketView> {
    tickets.filter(|t: TicketView| t.id != id)
}

/// One more ticket at the end of a list stays at the end when another
/// ticket is left out, and goes when it is the one left out.
proof fn lemma_without_ticket_push(tickets: Seq<TicketView>, t: TicketView, id: u64)
    ensures
        without_ticket(tickets.push(t), id) == if t.id != id {
            without_ticket(tickets, id).push(t)
        } else {
            without_ticket(tickets, id)
        },
{
    assert(tickets.push(t).drop_last() =~= tickets);
    reveal(Seq::filter);
}

/// After the ticket `id` was deleted, the tickets held are those held
/// before but that one, in the same order.
pub proof fn lemma_list_after_delete(slots: Seq<Option<TicketView>>, id: u64)
    requires
        slots_wf(slots),
    ensures
        live_tickets(after_delete(slots, id)) == without_ticket(live_tickets(slots), id),
    decreases slots.len(),
{
    if slots.len() == 0 {
        assert(live_tickets(slots) =~= Seq::<TicketView>::empty()) by {
            reveal(Seq::filter);
        }
        assert(without_ticket(live_tickets(slots), id) =~= Seq::<TicketView>::empty()) by {
            reveal(Seq::filter);
        }
    } else {
        let rest = slots.drop_last();
        let last = slots.last();
        assert(slots =~= rest.push(last));
        assert(slots_wf(rest)) by {
            assert forall|i: int| 0 <= i < rest.len() implies ((#[trigger] rest[i]) matches Some(
                t,
            ) ==> t.id == i) by {
                assert(rest[i] == slots[i]);
            }
        }
        lemma_list_after_delete(rest, id);
        lemma_live_tickets_push(rest, last);
        let live_rest = live_tickets(rest);
        assert(slots[slots.len() - 1] == last);
        if id as int == slots.len() - 1 && last is Some {
            assert(after_delete(slots, id) =~= rest.push(None));
            lemma_live_tickets_push(rest, None);
            lemma_without_ticket_push(live_rest, last->Some_0, id);
        } else {
            assert(after_delete(slots, id) =~= after_delete(rest, id).push(last));
            lemma_live_tickets_push(after_delete(rest, id), last);
            if last is Some {
                lemma_without_ticket_push(live_rest, last->Some_0, id);
            }
        }
    }
}

} // verus!
