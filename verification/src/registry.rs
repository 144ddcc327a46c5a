//! The webhook registry: the endpoints of every business, newest first, and
//! the audit trail of delivery attempts.

use crate::models::webhook::{
    EndpointResponseView,
    EndpointView,
    NewWebhookEvent,
    StoredEventView,
    WebhookEndpoint,
    WebhookEvent,
};
use vstd::prelude::*;

verus! {

/// The endpoint belongs to `owner` and is switched on.
pub open spec fn receives_for(endpoint: EndpointView, owner: u128) -> bool {
    endpoint.is_active && endpoint.api_key_id == owner
}

/// The endpoints of `owner` that are switched on, in the order of
/// `endpoints`.
pub open spec fn active_for(endpoints: Seq<EndpointView>, owner: u128) -> Seq<EndpointView>
    decreases endpoints.len(),
{
    if endpoints.len() == 0 {
        Seq::empty()
    } else if receives_for(endpoints.last(), owner) {
        active_for(endpoints.drop_last(), owner).push(endpoints.last())
    } else {
        active_for(endpoints.drop_last(), owner)
    }
}

/// The endpoints as clients see them: without their secrets.
pub open spec fn shown(endpoints: Seq<EndpointView>) -> Seq<EndpointResponseView> {
    Seq::new(endpoints.len(), |i: int| endpoints[i].shown())
}

/// How many of the leading entries of `endpoints` were made at `created_at`
/// or later: the place of a new endpoint made at `created_at`.
pub open spec fn slot(endpoints: Seq<EndpointView>, created_at: i64) -> int
    decreases endpoints.len(),
{
    if endpoints.len() == 0 || endpoints[0].created_at < created_at {
        0
    } else {
        1 + slot(endpoints.drop_first(), created_at)
    }
}

/// The endpoints are in the order newest first.
pub open spec fn newest_first(endpoints: Seq<EndpointView>) -> bool {
    forall|i: int, j: int|
        0 <= i < j < endpoints.len() ==> (#[trigger] endpoints[i]).created_at >= (
        #[trigger] endpoints[j]).created_at
}

/// Entry `i` of `endpoints` has the identifier `id`.
pub open spec fn endpoint_at(endpoints: Seq<EndpointView>, i: int, id: u128) -> bool {
    0 <= i < endpoints.len() && endpoints[i].id == id
}

/// Entry `i` of `endpoints` has the identifier `id` and belongs to `owner`.
pub open spec fn owned_at(endpoints: Seq<EndpointView>, i: int, id: u128, owner: u128) -> bool {
    endpoint_at(endpoints, i, id) && endpoints[i].api_key_id == owner
}

/// What the registry holds.
pub struct RegistryState {
    /// The endpoints, newest first.
    pub endpoints: Seq<EndpointView>,
    /// One record per delivery attempt, in the order of the attempts.
    pub events: Seq<StoredEventView>,
}

impl RegistryState {
    /// No two endpoints share an identifier and the endpoints are in the
    /// order newest first.
    pub open spec fn well_formed(self) -> bool {
        &&& newest_first(self.endpoints)
        &&& forall|i: int, j: int|
            0 <= i < j < self.endpoints.len() ==> (#[trigger] self.endpoints[i]).id != (
            #[trigger] self.endpoints[j]).id
    }

    /// Some endpoint has the identifier `id`.
    pub open spec fn holds(self, id: u128) -> bool {
        exists|i: int| endpoint_at(self.endpoints, i, id)
    }

    /// Some endpoint has the identifier `id` and belongs to `owner`.
    pub open spec fn owns(self, id: u128, owner: u128) -> bool {
        exists|i: int| owned_at(self.endpoints, i, id, owner)
    }

    /// The place of the endpoint with the identifier `id`.
    pub open spec fn place(self, id: u128) -> int {
        choose|i: int| endpoint_at(self.endpoints, i, id)
    }

    /// This state with `endpoint` filed at its place.
    pub open spec fn with_endpoint(self, endpoint: EndpointView) -> RegistryState {
        RegistryState {
            endpoints: self.endpoints.insert(
                slot(self.endpoints, endpoint.created_at),
                endpoint,
            ),
            ..self
        }
    }

    /// This state with the endpoint `id` switched off.
    pub open spec fn switched_off(self, id: u128) -> RegistryState {
        RegistryState {
            endpoints: self.endpoints.update(
                self.place(id),
                EndpointView { is_active: false, ..self.endpoints[self.place(id)] },
            ),
            ..self
        }
    }
}

proof fn lemma_slot(endpoints: Seq<EndpointView>, created_at: i64, place: int)
    requires
        0 <= place <= endpoints.len(),
        forall|k: int| 0 <= k < place ==> (#[trigger] endpoints[k]).created_at >= created_at,
        place < endpoints.len() ==> endpoints[place].created_at < created_at,
    ensures
        slot(endpoints, created_at) == place,
    decreases endpoints.len(),
{
    if place > 0 {
        let rest = endpoints.drop_first();
        assert(endpoints[0].created_at >= created_at);
        assert forall|k: int| 0 <= k < place - 1 implies (#[trigger] rest[k]).created_at
            >= created_at by {
            assert(rest[k] == endpoints[k + 1]);
        }
        lemma_slot(rest, created_at, place - 1);
    }
}

/// The endpoints of every business and the audit trail of delivery
/// attempts, held in memory.
#[derive(Debug)]
pub struct WebhookRegistry {
    endpoints: Vec<WebhookEndpoint>,
    events: Vec<WebhookEvent>,
}

impl View for WebhookRegistry {
    type V = RegistryState;

    closed spec fn view(&self) -> RegistryState {
        RegistryState { endpoints: self.endpoints.deep_view(), events: self.events.deep_view() }
    }
}

impl WebhookRegistry {
    /// The state that the registry stands for is well formed.
    pub open spec fn wf(&self) -> bool {
        self@.well_formed()
    }

    /// A registry without endpoints and without records.
    pub fn new() -> (registry: WebhookRegistry)
        ensures
            registry.wf(),
            registry@.endpoints == Seq::<EndpointView>::empty(),
            registry@.events == Seq::<StoredEventView>::empty(),
    {
        let registry = WebhookRegistry { endpoints: Vec::new(), events: Vec::new() };
        assert(registry@.endpoints =~= Seq::<EndpointView>::empty());
        assert(registry@.events =~= Seq::<StoredEventView>::empty());
        registry
    }

    /// The place of the endpoint `id` in the list.
    fn position(&self, id: u128) -> (place: Option<usize>)
        requires
            self.wf(),
        ensures
            match place {
                Some(i) => endpoint_at(self@.endpoints, i as int, id) && self@.place(id) == i,
                None => !self@.holds(id),
            },
    {
        let mut i: usize = 0;
        while i < self.endpoints.len()
            invariant
                self.wf(),
                i <= self.endpoints@.len(),
                forall|k: int| 0 <= k < i ==> !endpoint_at(self@.endpoints, k, id),
            decreases self.endpoints@.len() - i,
        {
            if self.endpoints[i].id == id {
                proof {
                    assert(endpoint_at(self@.endpoints, i as int, id));
                    let j = self@.place(id);
                    if i < j {
                        assert(self@.endpoints[i as int].id != self@.endpoints[j].id);
                    } else if j < i {
                        assert(self@.endpoints[j].id != self@.endpoints[i as int].id);
                    }
                }
                return Some(i);
            }
            i += 1;
        }
        None
    }

    /// Files a new endpoint at its place. The endpoint is refused, and
    /// nothing changes, if its identifier is taken.
    pub fn register(&mut self, endpoint: WebhookEndpoint) -> (added: bool)
        requires
            old(self).wf(),
        ensures
            final(self).wf(),
            added == !old(self)@.holds(endpoint.id),
            added ==> final(self)@ == old(self)@.with_endpoint(endpoint@),
            !added ==> final(self)@ == old(self)@,
    {
        if self.position(endpoint.id).is_some() {
            return false;
        }
        let mut place: usize = 0;
        while place < self.endpoints.len() && self.endpoints[place].created_at
            >= endpoint.created_at
            invariant
                place <= self.endpoints@.len(),
                forall|k: int|
                    0 <= k < place ==> (#[trigger] self@.endpoints[k]).created_at
                        >= endpoint.created_at,
            decreases self.endpoints@.len() - place,
        {
            place += 1;
        }
        proof {
            lemma_slot(self@.endpoints, endpoint.created_at, place as int);
        }
        let ghost before = self@.endpoints;
        self.endpoints.insert(place, endpoint);
        proof {
            let after = self@.endpoints;
            assert(after =~= before.insert(place as int, endpoint@));
            assert forall|i: int, j: int| 0 <= i < j < after.len() implies (#[trigger] after[i]).id
                != (#[trigger] after[j]).id && after[i].created_at >= after[j].created_at by {
                let a = if i < place {
                    i
                } else {
                    i - 1
                };
                let b = if j < place {
                    j
                } else {
                    j - 1
                };
                if i == place {
                    assert(after[j] == before[b]);
                    assert(!endpoint_at(before, b, endpoint.id));
                    assert(before[place as int].created_at >= before[b].created_at || b
                        == place);
                } else if j == place {
                    assert(after[i] == before[a]);
                    assert(!endpoint_at(before, a, endpoint.id));
                } else {
                    assert(after[i] == before[a]);
                    assert(after[j] == before[b]);
                    assert(before[a].id != before[b].id);
                }
            }
        }
        true
    }

    /// Switches off the endpoint `id` of `owner`. Nothing changes if `owner`
    /// has no such endpoint.
    pub fn deactivate(&mut self, id: u128, owner: u128) -> (found: bool)
        requires
            old(self).wf(),
        ensures
            final(self).wf(),
            found == old(self)@.owns(id, owner),
            found ==> final(self)@ == old(self)@.switched_off(id),
            !found ==> final(self)@ == old(self)@,
    {
        match self.position(id) {
            None => {
                assert(forall|i: int|
                    owned_at(self@.endpoints, i, id, owner) ==> endpoint_at(self@.endpoints, i, id));
                false
            },
            Some(i) => {
                if self.endpoints[i].api_key_id != owner {
                    proof {
                        assert forall|k: int| !owned_at(self@.endpoints, k, id, owner) by {
                            if endpoint_at(self@.endpoints, k, id) {
                                if k < i {
                                    assert(self@.endpoints[k].id != self@.endpoints[i as int].id);
                                } else if i < k {
                                    assert(self@.endpoints[i as int].id != self@.endpoints[k].id);
                                }
                            }
                        }
                    }
                    return false;
                }
                assert(owned_at(self@.endpoints, i as int, id, owner));
                let ghost before = self@.endpoints;
                let mut endpoint = self.endpoints[i].clone();
                endpoint.is_active = false;
                self.endpoints.set(i, endpoint);
                proof {
                    let after = self@.endpoints;
                    assert(after =~= before.update(
                        i as int,
                        EndpointView { is_active: false, ..before[i as int] },
                    ));
                    assert forall|a: int, b: int| 0 <= a < b < after.len() implies (
                    #[trigger] after[a]).id != (#[trigger] after[b]).id && after[a].created_at
                        >= after[b].created_at by {
                        assert(before[a].id != before[b].id);
                        assert(before[a].created_at >= before[b].created_at);
                    }
                }
                true
            },
        }
    }

    /// All endpoints, newest first.
    pub fn endpoints(&self) -> (all: &Vec<WebhookEndpoint>)
        ensures
            all.deep_view() == self@.endpoints,
    {
        &self.endpoints
    }

    /// The endpoints of `owner` that are switched on, newest first.
    pub fn active_endpoints(&self, owner: u128) -> (found: Vec<WebhookEndpoint>)
        ensures
            found.deep_view() == active_for(self@.endpoints, owner),
    {
        active_among(&self.endpoints, owner)
    }

    /// Adds the record of a delivery attempt to the audit trail.
    pub fn record(&mut self, event: NewWebhookEvent, sent_at: i64)
        requires
            old(self).wf(),
        ensures
            final(self).wf(),
            final(self)@ == (RegistryState {
                events: old(self)@.events.push(event@.stored(sent_at)),
                ..old(self)@
            }),
    {
        self.events.push(event.stored(sent_at));
        assert(self@.events =~= old(self)@.events.push(event@.stored(sent_at)));
    }

    /// How many delivery attempts were recorded.
    pub fn event_count(&self) -> (count: usize)
        ensures
            count == self@.events.len(),
    {
        self.events.len()
    }

    /// How many delivery attempts to the endpoint `endpoint_id` were
    /// recorded.
    pub fn attempts(&self, endpoint_id: u128) -> (count: usize)
        ensures
            count == attempts_at(self@.events, endpoint_id),
    {
        let mut count: usize = 0;
        let mut i: usize = 0;
        assert(self@.events.take(0) =~= Seq::<StoredEventView>::empty());
        while i < self.events.len()
            invariant
                i <= self.events@.len(),
                count <= i,
                count == attempts_at(self@.events.take(i as int), endpoint_id),
            decreases self.events@.len() - i,
        {
            let ghost seen = self@.events.take(i as int + 1);
            assert(seen.drop_last() =~= self@.events.take(i as int));
            if self.events[i].webhook_endpoint_id == endpoint_id {
                count += 1;
            }
            i += 1;
        }
        assert(self@.events.take(i as int) =~= self@.events);
        count
    }
}

/// The endpoints among `endpoints` that belong to `owner` and are switched
/// on, in the order of `endpoints`.
pub fn active_among(endpoints: &Vec<WebhookEndpoint>, owner: u128) -> (found: Vec<WebhookEndpoint>)
    ensures
        found.deep_view() == active_for(endpoints.deep_view(), owner),
{
    let mut found: Vec<WebhookEndpoint> = Vec::new();
    let mut i: usize = 0;
    let ghost all = endpoints.deep_view();
    assert(all.take(0) =~= Seq::<EndpointView>::empty());
    assert(found.deep_view() =~= Seq::<EndpointView>::empty());
    while i < endpoints.len()
        invariant
            i <= endpoints@.len(),
            all == endpoints.deep_view(),
            found.deep_view() == active_for(all.take(i as int), owner),
        decreases endpoints@.len() - i,
    {
        let ghost before = found.deep_view();
        let ghost seen = all.take(i as int + 1);
        assert(seen.drop_last() =~= all.take(i as int));
        assert(seen.last() == endpoints@[i as int]@);
        if endpoints[i].is_active && endpoints[i].api_key_id == owner {
            found.push(endpoints[i].clone());
            assert(found.deep_view() =~= before.push(endpoints@[i as int]@));
        }
        i += 1;
    }
    assert(all.take(i as int) =~= all);
    found
}

/// How many of `events` record an attempt to the endpoint `endpoint_id`.
pub open spec fn attempts_at(events: Seq<StoredEventView>, endpoint_id: u128) -> nat
    decreases events.len(),
{
    if events.len() == 0 {
        0
    } else if events.last().webhook_endpoint_id == endpoint_id {
        attempts_at(events.drop_last(), endpoint_id) + 1
    } else {
        attempts_at(events.drop_last(), endpoint_id)
    }
}

} // verus!
