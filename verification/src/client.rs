//! The client of one node: it numbers the calls and builds the request of
//! each of the node's methods.

use crate::codec::{encode, Request, RequestView};
use crate::json::{documents, Json};
use serde_json::Value;
use vstd::prelude::*;

verus! {

/// A client of the node at one endpoint.
pub struct SolanaRpcClient {
    endpoint: String,
    request_id: u64,
}

/// A [`SolanaRpcClient`] as a mathematical value.
pub struct ClientView {
    pub endpoint: Seq<char>,
    /// The id that the next request gets.
    pub next_id: u64,
}

impl ClientView {
    /// The client after one more request: the id counter has gone up by one,
    /// and round to zero after the last `u64`.
    pub open spec fn advanced(self) -> ClientView {
        ClientView {
            endpoint: self.endpoint,
            next_id: if self.next_id == u64::MAX {
                0
            } else {
                (self.next_id + 1) as u64
            },
        }
    }

    /// The client after `calls` more requests.
    pub open spec fn after(self, calls: nat) -> ClientView
        decreases calls,
    {
        if calls == 0 {
            self
        } else {
            self.after((calls - 1) as nat).advanced()
        }
    }
}

impl View for SolanaRpcClient {
    type V = ClientView;

    closed spec fn view(&self) -> ClientView {
        ClientView { endpoint: self.endpoint@, next_id: self.request_id }
    }
}

/// What issuing a request does: the request carries the client's next id, the
/// given method and exactly the given parameters, and the client moves on to
/// the id after it.
pub open spec fn issued(
    before: ClientView,
    after: ClientView,
    request: RequestView,
    method: Seq<char>,
    params: Seq<Json>,
) -> bool {
    &&& request.id == before.next_id
    &&& request.method == method
    &&& request.params =~= params
    &&& after == before.advanced()
}

impl SolanaRpcClient {
    /// A client of the node at `endpoint`. Its first request gets the id 0.
    pub fn new(endpoint: &str) -> (client: Self)
        ensures
            client@ == (ClientView { endpoint: endpoint@, next_id: 0 }),
    {
        SolanaRpcClient { endpoint: endpoint.to_owned(), request_id: 0 }
    }

    /// The URL that requests go to.
    pub fn endpoint(&self) -> (url: &str)
        ensures
            url@ == self@.endpoint,
    {
        self.endpoint.as_str()
    }

    /// Takes the next id.
    fn next_id(&mut self) -> (id: u64)
        ensures
            id == old(self)@.next_id,
            final(self)@ == old(self)@.advanced(),
    {
        let id = self.request_id;
        self.request_id = id.wrapping_add(1);
        id
    }

    /// Issues the request for a call of `method` with `params`.
    pub fn call(&mut self, method: &str, params: Vec<Value>) -> (request: Request)
        ensures
            issued(old(self)@, final(self)@, request@, method@, documents(params@)),
    {
        let id = self.next_id();
        encode(method, params, id)
    }
}

/// A run of one client: `requests[k]` is the request that the client issued
/// when it was `states[k]`, and `states[k + 1]` is the client after it.
pub open spec fn run(states: Seq<ClientView>, requests: Seq<RequestView>) -> bool {
    &&& states.len() == requests.len() + 1
    &&& forall|k: int|
        #![trigger requests[k]]
        0 <= k < requests.len() ==> requests[k].id == states[k].next_id && states[k + 1]
            == states[k].advanced()
}

/// After `calls` requests the counter stands `calls` further on, counted
/// round the range of `u64`, and the endpoint is the same.
pub proof fn lemma_after(client: ClientView, calls: nat)
    ensures
        client.after(calls).next_id == (client.next_id + calls) % 0x1_0000_0000_0000_0000,
        client.after(calls).endpoint == client.endpoint,
    decreases calls,
{
    if calls > 0 {
        lemma_after(client, (calls - 1) as nat);
    }
}

/// In a run, the client before request number `k` is the first client after
/// `k` requests.
proof fn lemma_run_state(states: Seq<ClientView>, requests: Seq<RequestView>, k: nat)
    requires
        run(states, requests),
        k <= requests.len(),
    ensures
        states[k as int] == states[0].after(k),
    decreases k,
{
    if k > 0 {
        lemma_run_state(states, requests, (k - 1) as nat);
        let _ = requests[k - 1];
    }
}

/// No id is used twice: the requests of one client carry ids that differ from
/// one another, whatever the methods and in whatever order the calls came, for
/// as many requests as there are ids.
pub proof fn lemma_ids_distinct(states: Seq<ClientView>, requests: Seq<RequestView>)
    requires
        run(states, requests),
        requests.len() <= 0x1_0000_0000_0000_0000,
    ensures
        forall|i: int, j: int|
            0 <= i < j < requests.len() ==> (#[trigger] requests[i]).id != (
            #[trigger] requests[j]).id,
{
    assert forall|i: int, j: int| 0 <= i < j < requests.len() implies (#[trigger] requests[i]).id
        != (#[trigger] requests[j]).id by {
        lemma_run_state(states, requests, i as nat);
        lemma_run_state(states, requests, j as nat);
        lemma_after(states[0], i as nat);
        lemma_after(states[0], j as nat);
    }
}

} // verus!
