use vstd::prelude::*;

use crate::enums::{AttemptStatus, Currency, RefundStatus};
use crate::transformers::GlobepayConnectorMetadata;

verus! {

/// Errors raised while converting between the orchestrator and the gateway.
#[derive(Debug, Clone, PartialEq, Eq)]
pub enum ConnectorError {
    /// The payment method (carried here) is not offered by the gateway.
    UnsupportedPaymentMethod(PaymentMethodData),
    /// A field that the gateway requires was absent from the attempt.
    MissingRequiredField { field_name: &'static str },
    /// The configured credentials do not have the shape the gateway needs.
    FailedToObtainAuthType,
    /// The gateway reported success but left out data needed to read the reply.
    ResponseHandlingFailed,
}

/// A credential string that is never printed: it has no `Debug`.
pub struct Secret {
    inner: String,
}

impl View for Secret {
    type V = Seq<char>;

    closed spec fn view(&self) -> Seq<char> {
        self.inner@
    }
}

impl Secret {
    pub fn new(value: String) -> (r: Secret)
        ensures
            r@ == value@,
    {
        Secret { inner: value }
    }

    /// Borrows the secret value, for the signing layer.
    pub fn peek(&self) -> (r: &String)
        ensures
            r@ == self@,
    {
        &self.inner
    }
}

/// The generic shapes of connector credentials held by the orchestrator.
pub enum ConnectorAuthType {
    HeaderKey { api_key: String },
    BodyKey { api_key: String, key1: String },
    SignatureKey { api_key: String, key1: String, api_secret: String },
    NoKey,
}

/// Wallet kinds known to the orchestrator.
#[derive(Debug, Clone, Copy, PartialEq, Eq, Structural)]
pub enum WalletData {
    AliPay,
    AliPayHk,
    ApplePay,
    GooglePay,
    MbWay,
    MobilePay,
    PaypalRedirect,
    SamsungPay,
    WeChatPay,
}

/// The payment method chosen for an attempt, as far as a connector reads it.
#[derive(Debug, Clone, Copy, PartialEq, Eq, Structural)]
pub enum PaymentMethodData {
    Card,
    Wallet(WalletData),
    PayLater,
    BankRedirect,
    BankDebit,
    BankTransfer,
    Crypto,
    Voucher,
}

/// The orchestrator's record of a payment attempt to authorize.
pub struct PaymentsAuthorizeRouterData {
    /// Amount in the smallest unit of `currency`.
    pub amount: i64,
    pub currency: Currency,
    pub description: Option<String>,
    pub payment_method_data: PaymentMethodData,
}

/// How the connector identifies a transaction.
pub enum ResponseId {
    ConnectorTransactionId(String),
    NoResponseId,
}

/// What a connector reports about a created or queried payment.
pub struct PaymentsResponseData {
    pub resource_id: ResponseId,
    pub redirection_data: Option<String>,
    pub mandate_reference: Option<String>,
    pub connector_metadata: Option<GlobepayConnectorMetadata>,
    pub network_txn_id: Option<String>,
}

/// A normalised connector failure, as reported to the orchestrator.
pub struct ErrorResponse {
    pub code: String,
    pub message: String,
    pub reason: Option<String>,
    pub status_code: u16,
}

/// Payment state held by the orchestrator for one attempt.
pub struct RouterData<D> {
    pub attempt_id: String,
    pub status: AttemptStatus,
    pub response: Result<D, ErrorResponse>,
}

/// A parsed gateway reply, together with the record it answers.
pub struct ResponseRouterData<R, D> {
    pub response: R,
    pub data: RouterData<D>,
    pub http_code: u16,
}

/// The orchestrator's record of a refund.
pub struct RefundsRouterData {
    /// Amount to refund, in the smallest currency unit.
    pub refund_amount: i64,
    pub response: Result<RefundsResponseData, ErrorResponse>,
}

/// What a connector reports about a refund.
pub struct RefundsResponseData {
    pub connector_refund_id: String,
    pub refund_status: RefundStatus,
}

/// A parsed gateway refund reply, together with the refund record it answers.
pub struct RefundsResponseRouterData<R> {
    pub response: R,
    pub data: RefundsRouterData,
    pub http_code: u16,
}

} // verus!
