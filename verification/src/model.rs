//! The in-memory ticket store: an ordered sequence of optional ticket slots.
//!
//! A ticket's id is the index of its slot, assigned at creation as the
//! store's length at that moment, so ids are monotonic and never reused.
//! Deletion tombstones the slot in place — the sequence never shrinks — so
//! every id stays a valid index forever. The store is a mock: the HTTP
//! layer around the library holds one instance under a mutual-exclusion
//! lock and calls these operations while holding it.

use vstd::prelude::*;

use crate::ctx::Ctx;
use crate::error::Error;

verus! {

/// One ticket: its stable id, the user id of the creating context, and a
/// title.
#[derive(Debug)]
pub struct Ticket {
    pub id: u64,
    pub ctx_id: u64,
    pub title: String,
}

/// The spec-level image of a ticket: the same fields with the title as a
/// character sequence.
pub ghost struct TicketV {
    pub id: u64,
    pub ctx_id: u64,
    pub title: Seq<char>,
}

impl View for Ticket {
    type V = TicketV;

    open spec fn view(&self) -> TicketV {
        TicketV { id: self.id, ctx_id: self.ctx_id, title: self.title@ }
    }
}

impl DeepView for Ticket {
    type V = TicketV;

    open spec fn deep_view(&self) -> TicketV {
        self@
    }
}

/// Payload for creating a ticket.
#[derive(Debug)]
pub struct TicketForCreate {
    pub title: String,
}

/// The spec-level image of one store slot.
pub open spec fn slot_view(slot: Option<Ticket>) -> Option<TicketV> {
    match slot {
        Some(t) => Some(t@),
        None => None,
    }
}

/// Store well-formedness: every live slot holds the ticket whose id is the
/// slot's index.
pub open spec fn store_wf(s: Seq<Option<TicketV>>) -> bool {
    forall|i: int| 0 <= i < s.len() ==> (#[trigger] s[i] matches Some(t) ==> t.id == i)
}

/// The live (non-tombstoned) tickets of a store state, in insertion order.
pub open spec fn live_tickets(s: Seq<Option<TicketV>>) -> Seq<TicketV>
    decreases s.len(),
{
    if s.len() == 0 {
        Seq::empty()
    } else {
        let rest = live_tickets(s.drop_last());
        match s.last() {
            Some(t) => rest.push(t),
            None => rest,
        }
    }
}

/// The ticket store and the only access the service has to it.
#[derive(Debug)]
pub struct ModelController {
    tickets_store: Vec<Option<Ticket>>,
}

impl View for ModelController {
    type V = Seq<Option<TicketV>>;

    closed spec fn view(&self) -> Seq<Option<TicketV>> {
        self.tickets_store.deep_view()
    }
}

impl ModelController {
    /// Whether every live slot's ticket id equals its index. Established at
    /// construction and preserved by every operation.
    pub open spec fn wf(&self) -> bool {
        store_wf(self@)
    }

    /// A fresh, empty store.
    pub fn new() -> (r: Self)
        ensures
            r@ =~= Seq::<Option<TicketV>>::empty(),
            r.wf(),
    {
        ModelController { tickets_store: Vec::new() }
    }

    /// Append a new live ticket attributed to `ctx`: its id is the store
    /// length before the append, its owner the context's user id, its title
    /// the one asked for. Never fails.
    pub fn create_ticket(&mut self, ctx: &Ctx, ticket_fc: TicketForCreate) -> (r: Result<
        Ticket,
        Error,
    >)
        requires
            old(self).wf(),
        ensures
            final(self).wf(),
            r is Ok,
            r matches Ok(t) ==> (t@.id == old(self)@.len() && t@.ctx_id == ctx.spec_user_id()
                && t@.title == ticket_fc.title@ && final(self)@ == old(self)@.push(Some(t@))),
    {
        let id = self.tickets_store.len() as u64;
        let ctx_id = ctx.user_id();
        let title = ticket_fc.title;
        let stored = Ticket { id, ctx_id, title: title.clone() };
        let ticket = Ticket { id, ctx_id, title };
        proof {
            assert(stored@ == ticket@);
        }
        self.tickets_store.push(Some(stored));
        proof {
            assert(self@ =~= old(self)@.push(Some(ticket@)));
        }
        Ok(ticket)
    }

    /// All live tickets, in insertion order. Ownership is not consulted:
    /// any authenticated caller sees every live ticket — a deliberate
    /// simplification of this mock store. Never fails and never changes the
    /// store.
    pub fn list_tickets(&self, _ctx: &Ctx) -> (r: Result<Vec<Ticket>, Error>)
        ensures
            r is Ok,
            r matches Ok(ts) ==> ts.deep_view() == live_tickets(self@),
    {
        let n = self.tickets_store.len();
        let mut out: Vec<Ticket> = Vec::new();
        let mut idx: usize = 0;
        proof {
            assert(self@.subrange(0, 0) =~= Seq::<Option<TicketV>>::empty());
            assert(out.deep_view() =~= live_tickets(self@.subrange(0, 0)));
        }
        while idx < n
            invariant
                idx <= n,
                n == self.tickets_store.len(),
                self@.len() == n,
                out.deep_view() == live_tickets(self@.subrange(0, idx as int)),
            decreases n - idx,
        {
            let ghost prefix = self@.subrange(0, idx as int);
            match &self.tickets_store[idx] {
                Some(t) => {
                    let copy = Ticket { id: t.id, ctx_id: t.ctx_id, title: t.title.clone() };
                    proof {
                        assert(copy@ == self@[idx as int]->Some_0);
                    }
                    out.push(copy);
                },
                None => {},
            }
            proof {
                assert(self@.subrange(0, idx + 1).drop_last() =~= prefix);
                assert(self@.subrange(0, idx + 1).last() == self@[idx as int]);
                assert(out.deep_view() =~= live_tickets(self@.subrange(0, idx + 1)));
            }
            idx += 1;
        }
        proof {
            assert(self@.subrange(0, n as int) =~= self@);
        }
        Ok(out)
    }

    /// Tombstone the slot at `id` and return the removed ticket; every
    /// other slot is untouched. Fails exactly when `id` is out of range or
    /// already tombstoned. Ownership is not checked before deleting — the
    /// same deliberate quirk as in listing.
    pub fn delete_ticket(&mut self, _ctx: &Ctx, id: u64) -> (r: Result<Ticket, Error>)
        requires
            old(self).wf(),
        ensures
            final(self).wf(),
            r is Ok <==> (id < old(self)@.len() && old(self)@[id as int] is Some),
            r matches Ok(t) ==> (Some(t@) == old(self)@[id as int] && final(self)@ == old(
                self,
            )@.update(id as int, None::<TicketV>)),
            r is Err ==> final(self)@ == old(self)@,
            r matches Err(e) ==> e == (Error::TicketDeleteFailIdNotFound { id }),
    {
        let n = self.tickets_store.len();
        if id >= n as u64 {
            return Err(Error::TicketDeleteFailIdNotFound { id });
        }
        let idx = id as usize;
        let removed = match &self.tickets_store[idx] {
            Some(t) => Ticket { id: t.id, ctx_id: t.ctx_id, title: t.title.clone() },
            None => {
                return Err(Error::TicketDeleteFailIdNotFound { id });
            },
        };
        proof {
            assert(Some(removed@) == self@[id as int]);
        }
        self.tickets_store.set(idx, None);
        proof {
            assert(self@ =~= old(self)@.update(id as int, None::<TicketV>));
        }
        Ok(removed)
    }
}

/// Law: ids of live tickets are bounded by the store's length.
proof fn lemma_live_ids_bounded(s: Seq<Option<TicketV>>)
    requires
        store_wf(s),
    ensures
        forall|k: int|
            0 <= k < live_tickets(s).len() ==> #[trigger] live_tickets(s)[k].id < s.len(),
    decreases s.len(),
{
    if s.len() > 0 {
        let front = s.drop_last();
        assert(store_wf(front)) by {
            assert(forall|i: int|
                0 <= i < front.len() ==> front[i] == #[trigger] s[i]);
        }
        lemma_live_ids_bounded(front);
        assert(forall|k: int|
            0 <= k < live_tickets(front).len() ==> #[trigger] live_tickets(front)[k].id
                < front.len());
        if s.last() is Some {
            assert(s[s.len() - 1]->Some_0.id == s.len() - 1);
        }
    }
}

/// Law (store round trip): creating a ticket and then listing shows exactly
/// the old listing followed by the new ticket, whose id occurs in no other
/// live ticket; deleting that id removes exactly the new ticket from the
/// listing; and the deleted slot is a tombstone, so deleting the same id a
/// second time finds nothing.
pub proof fn lemma_store_round_trip(s: Seq<Option<TicketV>>, t: TicketV)
    requires
        store_wf(s),
        t.id == s.len(),
    ensures
        live_tickets(s.push(Some(t))) == live_tickets(s).push(t),
        forall|k: int|
            0 <= k < live_tickets(s).len() ==> #[trigger] live_tickets(s)[k].id != t.id,
        live_tickets(s.push(Some(t)).update(t.id as int, None)) == live_tickets(s),
        s.push(Some(t)).update(t.id as int, None)[t.id as int] is None,
{
    let s1 = s.push(Some(t));
    assert(s1.drop_last() =~= s);
    assert(live_tickets(s1) == live_tickets(s).push(t));
    lemma_live_ids_bounded(s);
    let s2 = s1.update(t.id as int, None);
    assert(s2 =~= s.push(None));
    assert(s.push(None).drop_last() =~= s);
    assert(live_tickets(s.push(None)) == live_tickets(s));
}

/// Law (idempotent listing): two listings of the same store state, with no
/// mutation in between, are equal — listing is a pure function of the
/// state.
pub proof fn lemma_list_idempotent(s: Seq<Option<TicketV>>, r1: Seq<TicketV>, r2: Seq<TicketV>)
    requires
        r1 == live_tickets(s),
        r2 == live_tickets(s),
    ensures
        r1 == r2,
{
}

} // verus!
