//! The three outbound requests: info query, order query, order creation.
use vstd::prelude::*;
use crate::decimal::{decimal_text, u64_to_decimal};
use crate::hexcodec::{hex_encode, hex_of};
use crate::messages::{
    CreateOrderJsonRpcRequest, CreateOrderJsonRpcRequestParams, GetInfoJsonRpcRequest,
    GetInfoJsonRpcRequestParams, GetOrderJsonRpcRequest, GetOrderJsonRpcRequestParams,
    JSONRPC_VERSION, LSPS1_CREATE_ORDER_CHANNEL_EXPIRY_BLOCKS,
    LSPS1_CREATE_ORDER_CLIENT_SAT_BALANCE, LSPS1_CREATE_ORDER_METHOD, LSPS1_CREATE_ORDER_TOKEN,
    LSPS1_GET_INFO_METHOD, LSPS1_GET_ORDER_METHOD,
};
use crate::tracker::PluginState;

verus! {

/// The number of random bytes in a request id.
pub const ID_BYTES: usize = 32;

/// Parameters of an order that the protocol cannot carry.
#[derive(Clone, Copy, Debug, PartialEq, Eq, Structural)]
pub enum RequestError {
    /// The confirmation target does not fit the protocol's 32-bit field.
    BlocksOutOfRange,
}

/// Relies on rand's thread-local generator: bytes drawn at random, as many as asked.
#[verifier::external_body]
fn random_bytes() -> (r: [u8; 32])
    ensures
        r@.len() == ID_BYTES,
{
    rand::random::<[u8; 32]>()
}

/// The id text for some random bytes: their hex encoding.
pub fn id_from_bytes(bytes: &[u8]) -> (r: String)
    ensures
        r@ == hex_of(bytes@),
{
    hex_encode(bytes)
}

/// A fresh request id: the hex encoding of random bytes.
pub fn make_id() -> (r: String)
    ensures
        exists|b: Seq<u8>| b.len() == ID_BYTES && r@ == #[trigger] hex_of(b),
{
    let bytes = random_bytes();
    let r = id_from_bytes(bytes.as_slice());
    assert(r@ == hex_of(bytes@));
    r
}

/// What an order-creation request built from these values holds.
pub open spec fn is_create_order_request(
    r: CreateOrderJsonRpcRequest,
    id: Seq<char>,
    amount: u64,
    blocks: u64,
    refund_address: Seq<char>,
    announce_channel: bool,
) -> bool {
    &&& r.id@ == id
    &&& r.jsonrpc@ == JSONRPC_VERSION@
    &&& r.method@ == LSPS1_CREATE_ORDER_METHOD@
    &&& r.params.lsp_balance_sat@ == decimal_text(amount as nat)
    &&& r.params.client_balance_sat@ == LSPS1_CREATE_ORDER_CLIENT_SAT_BALANCE@
    &&& r.params.confirms_within_blocks as u64 == blocks
    &&& r.params.channel_expiry_blocks == LSPS1_CREATE_ORDER_CHANNEL_EXPIRY_BLOCKS
    &&& r.params.token@ == LSPS1_CREATE_ORDER_TOKEN@
    &&& r.params.refund_onchain_address@ == refund_address
    &&& r.params.announce_channel == announce_channel
}

/// An info query under the given id.
pub fn build_get_info_request(id: String) -> (r: GetInfoJsonRpcRequest)
    ensures
        r.id == id,
        r.jsonrpc@ == JSONRPC_VERSION@,
        r.method@ == LSPS1_GET_INFO_METHOD@,
{
    GetInfoJsonRpcRequest {
        jsonrpc: JSONRPC_VERSION.to_string(),
        method: LSPS1_GET_INFO_METHOD.to_string(),
        params: GetInfoJsonRpcRequestParams {  },
        id,
    }
}

/// A query for a previously returned order, under the given id.
pub fn build_get_order_request(order_id: String, id: String) -> (r: GetOrderJsonRpcRequest)
    ensures
        r.id == id,
        r.jsonrpc@ == JSONRPC_VERSION@,
        r.method@ == LSPS1_GET_ORDER_METHOD@,
        r.params.order_id == order_id,
{
    GetOrderJsonRpcRequest {
        jsonrpc: JSONRPC_VERSION.to_string(),
        method: LSPS1_GET_ORDER_METHOD.to_string(),
        params: GetOrderJsonRpcRequestParams { order_id },
        id,
    }
}

/// An order-creation request: the balance and confirmation target asked for,
/// nothing on the client's side, the fixed channel expiry and an empty token.
/// Fails when the confirmation target does not fit in 32 bits.
pub fn build_create_order_request(
    id: String,
    amount: u64,
    blocks: u64,
    refund_address: String,
    announce_channel: bool,
) -> (r: Result<CreateOrderJsonRpcRequest, RequestError>)
    ensures
        match r {
            Ok(req) => blocks <= u32::MAX && is_create_order_request(
                req,
                id@,
                amount,
                blocks,
                refund_address@,
                announce_channel,
            ),
            Err(e) => blocks > u32::MAX && e == RequestError::BlocksOutOfRange,
        },
{
    if blocks > u32::MAX as u64 {
        return Err(RequestError::BlocksOutOfRange);
    }
    let params = CreateOrderJsonRpcRequestParams {
        lsp_balance_sat: u64_to_decimal(amount),
        client_balance_sat: LSPS1_CREATE_ORDER_CLIENT_SAT_BALANCE.to_string(),
        confirms_within_blocks: blocks as u32,
        channel_expiry_blocks: LSPS1_CREATE_ORDER_CHANNEL_EXPIRY_BLOCKS,
        token: LSPS1_CREATE_ORDER_TOKEN.to_string(),
        refund_onchain_address: refund_address,
        announce_channel,
    };
    Ok(
        CreateOrderJsonRpcRequest {
            id,
            jsonrpc: JSONRPC_VERSION.to_string(),
            method: LSPS1_CREATE_ORDER_METHOD.to_string(),
            params,
        },
    )
}

impl PluginState {
    /// Builds an order-creation request and files it as outstanding under its
    /// own id, so that the response can later be checked against it. Nothing is
    /// filed when the request cannot be built.
    pub fn prepare_create_order(
        &mut self,
        id: String,
        amount: u64,
        blocks: u64,
        refund_address: String,
        announce_channel: bool,
    ) -> (r: Result<CreateOrderJsonRpcRequest, RequestError>)
        requires
            old(self).wf(),
        ensures
            final(self).wf(),
            final(self).active_operation() == old(self).active_operation(),
            match r {
                Ok(req) => blocks <= u32::MAX && is_create_order_request(
                    req,
                    id@,
                    amount,
                    blocks,
                    refund_address@,
                    announce_channel,
                ) && final(self).outstanding() == old(self).outstanding().insert(id@, req),
                Err(e) => blocks > u32::MAX && e == RequestError::BlocksOutOfRange
                    && final(self).outstanding() == old(self).outstanding(),
            },
    {
        match build_create_order_request(id, amount, blocks, refund_address, announce_channel) {
            Ok(req) => {
                self.record_outstanding_order(req.duplicate());
                Ok(req)
            },
            Err(e) => Err(e),
        }
    }
}

} // verus!
