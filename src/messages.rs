//! The JSON-RPC messages of the protocol, as plain values, and its constants.
use vstd::prelude::*;

verus! {

pub const LSPS1_GET_INFO_METHOD: &'static str = "lsps1.get_info";
pub const LSPS1_CREATE_ORDER_METHOD: &'static str = "lsps1.create_order";
pub const LSPS1_GET_ORDER_METHOD: &'static str = "lsps1.get_order";
pub const JSONRPC_VERSION: &'static str = "2.0";

/// The largest fee, in satoshi, that an order may ask for before it is paid.
pub const LSPS1_MAX_FEE_PAID: u32 = 100000;

/// Orders ask for no balance on the client's side: push amounts are not supported.
pub const LSPS1_CREATE_ORDER_CLIENT_SAT_BALANCE: &'static str = "0";
pub const LSPS1_CREATE_ORDER_CHANNEL_EXPIRY_BLOCKS: u32 = 13000;
pub const LSPS1_CREATE_ORDER_TOKEN: &'static str = "";

/// The parameters of an info query: none, sent as an empty object.
#[derive(Clone, Debug)]
pub struct GetInfoJsonRpcRequestParams {}

#[derive(Clone, Debug)]
pub struct GetInfoJsonRpcRequest {
    pub jsonrpc: String,
    pub method: String,
    pub params: GetInfoJsonRpcRequestParams,
    pub id: String,
}

#[derive(Clone, Debug)]
pub struct GetInfoJsonRpcResponse {
    pub id: String,
    pub jsonrpc: String,
    pub result: GetInfoJsonRpcResponseResult,
}

#[derive(Clone, Debug)]
pub struct GetInfoJsonRpcResponseResult {
    pub options: GetInfoJsonRpcResponseOptions,
    pub website: String,
}

/// The seller's advertised terms; balances are decimal satoshi amounts.
#[derive(Clone, Debug)]
pub struct GetInfoJsonRpcResponseOptions {
    pub min_channel_confirmations: u32,
    pub min_onchain_payment_confirmations: Option<u32>,
    pub supports_zero_channel_reserve: bool,
    pub min_onchain_payment_size_sat: Option<u32>,
    pub max_channel_expiry_blocks: u32,
    pub min_initial_client_balance_sat: String,
    pub max_initial_client_balance_sat: String,
    pub min_initial_lsp_balance_sat: String,
    pub max_initial_lsp_balance_sat: String,
    pub min_channel_balance_sat: String,
    pub max_channel_balance_sat: String,
}

#[derive(Clone, Debug)]
pub struct CreateOrderJsonRpcRequest {
    pub id: String,
    pub jsonrpc: String,
    pub method: String,
    pub params: CreateOrderJsonRpcRequestParams,
}

#[derive(Clone, Debug)]
pub struct CreateOrderJsonRpcRequestParams {
    pub lsp_balance_sat: String,
    pub client_balance_sat: String,
    pub confirms_within_blocks: u32,
    pub channel_expiry_blocks: u32,
    pub token: String,
    pub refund_onchain_address: String,
    pub announce_channel: bool,
}

impl CreateOrderJsonRpcRequestParams {
    /// A copy equal to this one.
    pub fn duplicate(&self) -> (r: Self)
        ensures
            r == *self,
    {
        CreateOrderJsonRpcRequestParams {
            lsp_balance_sat: self.lsp_balance_sat.clone(),
            client_balance_sat: self.client_balance_sat.clone(),
            confirms_within_blocks: self.confirms_within_blocks,
            channel_expiry_blocks: self.channel_expiry_blocks,
            token: self.token.clone(),
            refund_onchain_address: self.refund_onchain_address.clone(),
            announce_channel: self.announce_channel,
        }
    }
}

impl CreateOrderJsonRpcRequest {
    /// A copy equal to this one.
    pub fn duplicate(&self) -> (r: Self)
        ensures
            r == *self,
    {
        CreateOrderJsonRpcRequest {
            id: self.id.clone(),
            jsonrpc: self.jsonrpc.clone(),
            method: self.method.clone(),
            params: self.params.duplicate(),
        }
    }
}

#[derive(Clone, Copy, Debug, PartialEq, Eq, Structural)]
pub enum OrderState {
    Created,
    Completed,
    Failed,
}

#[derive(Clone, Copy, Debug, PartialEq, Eq, Structural)]
pub enum PaymentState {
    ExpectPayment,
    Hold,
    Paid,
    Refunded,
}

#[derive(Clone, Debug)]
pub struct CreateOrderJsonRpcResponse {
    pub id: String,
    pub jsonrpc: String,
    pub result: CreateOrderJsonRpcResponseResult,
}

#[derive(Clone, Debug)]
pub struct CreateOrderJsonRpcResponseResult {
    pub order_id: String,
    pub lsp_balance_sat: String,
    pub client_balance_sat: String,
    pub confirms_within_blocks: u32,
    pub channel_expiry_blocks: u32,
    pub token: String,
    pub created_at: String,
    pub expires_at: String,
    pub announce_channel: bool,
    pub order_state: OrderState,
    pub payment: CreateOrderJsonRpcResponsePayment,
    pub channel: Option<CreateOrderJsonRpcResponseChannel>,
}

#[derive(Clone, Debug)]
pub struct CreateOrderJsonRpcResponsePayment {
    pub state: PaymentState,
    pub fee_total_sat: String,
    pub order_total_sat: String,
    pub lightning_invoice: String,
    pub onchain_address: Option<String>,
    pub min_onchain_payment_confirmations: Option<u32>,
    pub min_fee_for_0conf: Option<u32>,
    pub onchain_payment: Option<CreateOrderJsonRpcResponsePaymentOnchainPayment>,
}

#[derive(Clone, Debug)]
pub struct CreateOrderJsonRpcResponsePaymentOnchainPayment {
    pub outpoint: String,
    pub sat: String,
    pub confirmed: bool,
}

#[derive(Clone, Debug)]
pub struct CreateOrderJsonRpcResponseChannel {
    pub funded_at: String,
    pub funding_outpoint: String,
    pub expires_at: String,
}

#[derive(Clone, Debug)]
pub struct GetOrderJsonRpcRequest {
    pub id: String,
    pub jsonrpc: String,
    pub method: String,
    pub params: GetOrderJsonRpcRequestParams,
}

#[derive(Clone, Debug)]
pub struct GetOrderJsonRpcRequestParams {
    pub order_id: String,
}

} // verus!
