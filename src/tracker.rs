//! The shared state of a session: which flow was started last, and the order
//! requests that are still waiting for their response, keyed by request id.
use vstd::prelude::*;
use crate::messages::{CreateOrderJsonRpcRequest, CreateOrderJsonRpcResponse};
use crate::settlement::Lsps1ValidateAndPay;

verus! {

/// The flow that was started last; it decides how an order response is read.
#[derive(Clone, Copy, Debug, PartialEq, Eq, Structural)]
pub enum PluginMethodState {
    Idle,
    GetInfo,
    GetOrder,
    SendOrder,
}

/// The outstanding orders that a list of entries stands for: a later entry for
/// an id replaces an earlier one.
pub open spec fn entries_map(s: Seq<(String, CreateOrderJsonRpcRequest)>) -> Map<
    Seq<char>,
    CreateOrderJsonRpcRequest,
>
    decreases s.len(),
{
    if s.len() == 0 {
        Map::empty()
    } else {
        entries_map(s.drop_last()).insert(s.last().0@, s.last().1)
    }
}

/// Entries after position `n` that do not hold the key leave its lookup as the
/// first `n` entries give it.
proof fn lemma_entries_prefix(s: Seq<(String, CreateOrderJsonRpcRequest)>, k: Seq<char>, n: int)
    requires
        0 <= n <= s.len(),
        forall|j: int| n <= j < s.len() ==> (#[trigger] s[j]).0@ != k,
    ensures
        entries_map(s).contains_key(k) == entries_map(s.subrange(0, n)).contains_key(k),
        entries_map(s).contains_key(k) ==> entries_map(s)[k] == entries_map(s.subrange(0, n))[k],
    decreases s.len(),
{
    if s.len() == n {
        assert(s.subrange(0, n) =~= s);
    } else {
        let t = s.drop_last();
        assert(t.subrange(0, n) =~= s.subrange(0, n));
        assert forall|j: int| n <= j < t.len() implies (#[trigger] t[j]).0@ != k by {
            assert(t[j] == s[j]);
        }
        lemma_entries_prefix(t, k, n);
        assert(s.last() == s[s.len() - 1]);
    }
}

/// How an order response is handled.
pub enum InboundAction {
    /// Not wanted under the current flow.
    Ignore,
    /// Shown to the operator only: the answer to an order query.
    Display,
    /// An order response that no outstanding request matches; it is dropped.
    Unmatched,
    /// To be validated against the request it answers, and paid if it passes.
    Settle(Lsps1ValidateAndPay),
}

/// The handling that an order response gets under a flow and a set of
/// outstanding requests.
pub open spec fn routed(
    method: PluginMethodState,
    outstanding: Map<Seq<char>, CreateOrderJsonRpcRequest>,
    response: CreateOrderJsonRpcResponse,
) -> InboundAction {
    match method {
        PluginMethodState::GetOrder => InboundAction::Display,
        PluginMethodState::SendOrder => if outstanding.contains_key(response.id@) {
            InboundAction::Settle(
                Lsps1ValidateAndPay {
                    order: outstanding[response.id@],
                    order_response_payload: response,
                },
            )
        } else {
            InboundAction::Unmatched
        },
        _ => InboundAction::Ignore,
    }
}

pub struct PluginState {
    method: PluginMethodState,
    data: Vec<(String, CreateOrderJsonRpcRequest)>,
}

impl PluginState {
    /// The flow that was started last.
    pub closed spec fn active_operation(&self) -> PluginMethodState {
        self.method
    }

    /// The outstanding order requests by id.
    pub closed spec fn outstanding(&self) -> Map<Seq<char>, CreateOrderJsonRpcRequest> {
        entries_map(self.data@)
    }

    /// Each outstanding request is filed under its own id.
    pub open spec fn wf(&self) -> bool {
        forall|k: Seq<char>| #[trigger]
            self.outstanding().contains_key(k) ==> self.outstanding()[k].id@ == k
    }

    pub fn new() -> (r: Self)
        ensures
            r.active_operation() == PluginMethodState::Idle,
            r.outstanding() == Map::<Seq<char>, CreateOrderJsonRpcRequest>::empty(),
            r.wf(),
    {
        PluginState { method: PluginMethodState::Idle, data: Vec::new() }
    }

    pub fn set_active_operation(&mut self, method: PluginMethodState)
        ensures
            final(self).active_operation() == method,
            final(self).outstanding() == old(self).outstanding(),
    {
        self.method = method;
    }

    pub fn get_active_operation(&self) -> (r: PluginMethodState)
        ensures
            r == self.active_operation(),
    {
        self.method
    }

    /// Files an order request under its own id, replacing any earlier one.
    pub fn record_outstanding_order(&mut self, request: CreateOrderJsonRpcRequest)
        requires
            old(self).wf(),
        ensures
            final(self).outstanding() == old(self).outstanding().insert(request.id@, request),
            final(self).active_operation() == old(self).active_operation(),
            final(self).wf(),
    {
        let id = request.id.clone();
        self.data.push((id, request));
        assert(self.data@.drop_last() =~= old(self).data@);
    }

    /// The outstanding request filed under an id, if any. It stays filed.
    pub fn take_outstanding_order(&self, id: &String) -> (r: Option<&CreateOrderJsonRpcRequest>)
        ensures
            match r {
                Some(q) => self.outstanding().contains_key(id@) && *q == self.outstanding()[id@],
                None => !self.outstanding().contains_key(id@),
            },
    {
        let mut i: usize = self.data.len();
        while i > 0
            invariant
                i <= self.data.len(),
                forall|j: int| i <= j < self.data@.len() ==> (#[trigger] self.data@[j]).0@ != id@,
            decreases i,
        {
            if self.data[i - 1].0 == *id {
                proof {
                    let s = self.data@;
                    lemma_entries_prefix(s, id@, i as int);
                    assert(s.subrange(0, i as int).drop_last() =~= s.subrange(0, i - 1));
                }
                return Some(&self.data[i - 1].1);
            }
            i = i - 1;
        }
        proof {
            lemma_entries_prefix(self.data@, id@, 0);
        }
        None
    }

    /// Decides how an order response is handled: under an order query it is
    /// shown, under an order creation it is settled against the request filed
    /// under its id, or dropped when there is none; otherwise it is ignored.
    pub fn route_order_response(&self, response: CreateOrderJsonRpcResponse) -> (r: InboundAction)
        ensures
            r == routed(self.active_operation(), self.outstanding(), response),
    {
        match self.method {
            PluginMethodState::GetOrder => InboundAction::Display,
            PluginMethodState::SendOrder => match self.take_outstanding_order(&response.id) {
                Some(order) => InboundAction::Settle(
                    Lsps1ValidateAndPay { order: order.duplicate(), order_response_payload: response },
                ),
                None => InboundAction::Unmatched,
            },
            _ => InboundAction::Ignore,
        }
    }
}

/// An order response whose id no outstanding request holds is never handed to
/// settlement, so nothing is paid for it.
pub proof fn lemma_unmatched_never_settled(
    method: PluginMethodState,
    outstanding: Map<Seq<char>, CreateOrderJsonRpcRequest>,
    response: CreateOrderJsonRpcResponse,
)
    requires
        !outstanding.contains_key(response.id@),
    ensures
        !(routed(method, outstanding, response) is Settle),
{
}

/// A response handed to settlement is paired with the request filed under its
/// own id, in a well-formed state that request carries the same id.
pub proof fn lemma_settled_against_own_request(state: PluginState, response: CreateOrderJsonRpcResponse)
    requires
        state.wf(),
        routed(state.active_operation(), state.outstanding(), response) is Settle,
    ensures
        ({
            let v = routed(state.active_operation(), state.outstanding(), response)->Settle_0;
            v.order == state.outstanding()[response.id@] && v.order.id@ == response.id@
                && v.order_response_payload == response
        }),
{
}

} // verus!
