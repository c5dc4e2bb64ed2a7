//! Validation of a returned order against the request that placed it, before
//! anything is paid.
use vstd::prelude::*;
use crate::decimal::{is_unsigned_text, parse_u32, parse_u64, parsed_unsigned, unsigned_value};
use crate::messages::{
    CreateOrderJsonRpcRequest, CreateOrderJsonRpcResponse, OrderState, PaymentState,
    LSPS1_MAX_FEE_PAID,
};

verus! {

/// Why an order is not paid, by the check that failed first.
#[derive(Clone, Copy, Debug, PartialEq, Eq, Structural)]
pub enum SettlementError {
    OrderIdMismatch,
    ChannelExpiryBlocksMismatch,
    ConfirmsWithinBlocksMismatch,
    LspBalanceMismatch,
    OrderNotCreated,
    PaymentNotExpected,
    InvalidFeeTotal,
    FeeTooHigh,
    InvalidOrderTotal,
    TotalFeeMismatch,
    NoInvoiceAmount,
    InvoiceAmountMismatch,
}

/// The checks that need nothing but the request and the response, in order;
/// on success, the order total in satoshi.
pub open spec fn order_checks(
    req: CreateOrderJsonRpcRequest,
    resp: CreateOrderJsonRpcResponse,
) -> Result<u64, SettlementError> {
    if req.id@ != resp.id@ {
        Err(SettlementError::OrderIdMismatch)
    } else if req.params.channel_expiry_blocks != resp.result.channel_expiry_blocks {
        Err(SettlementError::ChannelExpiryBlocksMismatch)
    } else if req.params.confirms_within_blocks != resp.result.confirms_within_blocks {
        Err(SettlementError::ConfirmsWithinBlocksMismatch)
    } else if req.params.lsp_balance_sat@ != resp.result.lsp_balance_sat@ {
        Err(SettlementError::LspBalanceMismatch)
    } else if resp.result.order_state != OrderState::Created {
        Err(SettlementError::OrderNotCreated)
    } else if resp.result.payment.state != PaymentState::ExpectPayment {
        Err(SettlementError::PaymentNotExpected)
    } else {
        match parsed_unsigned(resp.result.payment.fee_total_sat@, u32::MAX as nat) {
            None => Err(SettlementError::InvalidFeeTotal),
            Some(fee) => if fee > LSPS1_MAX_FEE_PAID as nat {
                Err(SettlementError::FeeTooHigh)
            } else {
                match parsed_unsigned(resp.result.payment.order_total_sat@, u64::MAX as nat) {
                    None => Err(SettlementError::InvalidOrderTotal),
                    Some(total) => if total != fee {
                        Err(SettlementError::TotalFeeMismatch)
                    } else {
                        Ok(total as u64)
                    },
                }
            },
        }
    }
}

/// The invoice must carry an amount, in millisatoshi, equal to the order total.
pub open spec fn invoice_check(order_total_sat: u64, invoice_amount_msat: Option<u64>) -> Result<
    (),
    SettlementError,
> {
    match invoice_amount_msat {
        None => Err(SettlementError::NoInvoiceAmount),
        Some(amount) => if amount as int == order_total_sat as int * 1000 {
            Ok(())
        } else {
            Err(SettlementError::InvoiceAmountMismatch)
        },
    }
}

/// The whole decision: the invoice to pay, or the first check that failed.
pub open spec fn settlement_decision(
    req: CreateOrderJsonRpcRequest,
    resp: CreateOrderJsonRpcResponse,
    invoice_amount_msat: Option<u64>,
) -> Result<Seq<char>, SettlementError> {
    match order_checks(req, resp) {
        Err(e) => Err(e),
        Ok(total) => match invoice_check(total, invoice_amount_msat) {
            Err(e) => Err(e),
            Ok(_) => Ok(resp.result.payment.lightning_invoice@),
        },
    }
}

/// A returned order together with the request it answers.
pub struct Lsps1ValidateAndPay {
    pub order: CreateOrderJsonRpcRequest,
    pub order_response_payload: CreateOrderJsonRpcResponse,
}

impl Lsps1ValidateAndPay {
    /// Checks the order against the request, first failure wins; returns the
    /// order total in satoshi.
    pub fn validate(&self) -> (r: Result<u64, SettlementError>)
        ensures
            r == order_checks(self.order, self.order_response_payload),
    {
        let req = &self.order;
        let resp = &self.order_response_payload;
        if req.id != resp.id {
            return Err(SettlementError::OrderIdMismatch);
        }
        if req.params.channel_expiry_blocks != resp.result.channel_expiry_blocks {
            return Err(SettlementError::ChannelExpiryBlocksMismatch);
        }
        if req.params.confirms_within_blocks != resp.result.confirms_within_blocks {
            return Err(SettlementError::ConfirmsWithinBlocksMismatch);
        }
        if req.params.lsp_balance_sat != resp.result.lsp_balance_sat {
            return Err(SettlementError::LspBalanceMismatch);
        }
        if resp.result.order_state != OrderState::Created {
            return Err(SettlementError::OrderNotCreated);
        }
        if resp.result.payment.state != PaymentState::ExpectPayment {
            return Err(SettlementError::PaymentNotExpected);
        }
        let fee = match parse_u32(resp.result.payment.fee_total_sat.as_str()) {
            Some(fee) => fee,
            None => return Err(SettlementError::InvalidFeeTotal),
        };
        if fee > LSPS1_MAX_FEE_PAID {
            return Err(SettlementError::FeeTooHigh);
        }
        let total = match parse_u64(resp.result.payment.order_total_sat.as_str()) {
            Some(total) => total,
            None => return Err(SettlementError::InvalidOrderTotal),
        };
        if total != fee as u64 {
            return Err(SettlementError::TotalFeeMismatch);
        }
        Ok(total)
    }

    /// Checks the amount that the decoded invoice carries against the order total.
    pub fn check_invoice_amount(order_total_sat: u64, invoice_amount_msat: Option<u64>) -> (r:
        Result<(), SettlementError>)
        ensures
            r == invoice_check(order_total_sat, invoice_amount_msat),
    {
        match invoice_amount_msat {
            None => Err(SettlementError::NoInvoiceAmount),
            Some(amount) => match order_total_sat.checked_mul(1000) {
                Some(expected) => if amount == expected {
                    Ok(())
                } else {
                    Err(SettlementError::InvoiceAmountMismatch)
                },
                None => Err(SettlementError::InvoiceAmountMismatch),
            },
        }
    }

    /// Decides the payment once the seller's invoice has been decoded: the
    /// invoice to pay when every check passes, else the first failure.
    pub fn validate_and_pay(&self, invoice_amount_msat: Option<u64>) -> (r: Result<
        String,
        SettlementError,
    >)
        ensures
            match r {
                Ok(invoice) => settlement_decision(
                    self.order,
                    self.order_response_payload,
                    invoice_amount_msat,
                ) == Ok::<Seq<char>, SettlementError>(invoice@),
                Err(e) => settlement_decision(
                    self.order,
                    self.order_response_payload,
                    invoice_amount_msat,
                ) == Err::<Seq<char>, SettlementError>(e),
            },
    {
        let total = match self.validate() {
            Ok(total) => total,
            Err(e) => return Err(e),
        };
        match Self::check_invoice_amount(total, invoice_amount_msat) {
            Ok(()) => Ok(self.order_response_payload.result.payment.lightning_invoice.clone()),
            Err(e) => Err(e),
        }
    }
}

/// An order whose total differs from its fee is never paid, whatever else it
/// holds: push amounts are not supported.
pub proof fn lemma_total_fee_mismatch_rejected(
    req: CreateOrderJsonRpcRequest,
    resp: CreateOrderJsonRpcResponse,
    invoice_amount_msat: Option<u64>,
)
    requires
        unsigned_value(resp.result.payment.order_total_sat@) != unsigned_value(
            resp.result.payment.fee_total_sat@,
        ),
    ensures
        settlement_decision(req, resp, invoice_amount_msat) is Err,
{
}

/// An order is never paid when the invoice does not carry exactly the order
/// total in millisatoshi.
pub proof fn lemma_invoice_amount_mismatch_rejected(
    req: CreateOrderJsonRpcRequest,
    resp: CreateOrderJsonRpcResponse,
    invoice_amount_msat: Option<u64>,
)
    requires
        invoice_amount_msat is None || invoice_amount_msat->0 as int != unsigned_value(
            resp.result.payment.order_total_sat@,
        ) * 1000,
    ensures
        settlement_decision(req, resp, invoice_amount_msat) is Err,
{
}

/// An order whose fee is above the ceiling is never paid, even when the
/// invoice amount matches.
pub proof fn lemma_fee_ceiling_enforced(
    req: CreateOrderJsonRpcRequest,
    resp: CreateOrderJsonRpcResponse,
    invoice_amount_msat: Option<u64>,
)
    requires
        is_unsigned_text(resp.result.payment.fee_total_sat@),
        unsigned_value(resp.result.payment.fee_total_sat@) > LSPS1_MAX_FEE_PAID as nat,
    ensures
        settlement_decision(req, resp, invoice_amount_msat) is Err,
{
}

} // verus!
