use vstd::prelude::*;

use crate::enums::{self, AttemptStatus, Currency};
use crate::types::{
    ConnectorAuthType, ConnectorError, PaymentMethodData, PaymentsAuthorizeRouterData,
    PaymentsResponseData, ResponseId, ResponseRouterData, RouterData, Secret, WalletData,
    ErrorResponse, RefundsResponseData, RefundsResponseRouterData, RefundsRouterData,
};

verus! {

/// Declares `url::Url` so that the QR code image location can be carried from
/// the reply into the metadata. It is only moved, never inspected: nothing is
/// assumed of its contents.
#[verifier::external_type_specification]
#[verifier::external_body]
pub struct ExUrl(url::Url);

/// The gateway's "create payment" request body.
pub struct GlobepayPaymentsRequest {
    pub price: i64,
    pub description: String,
    pub currency: Currency,
    pub channel: GlobepayChannel,
}

/// The wallet channels that the gateway offers.
#[derive(Debug, Clone, Copy, PartialEq, Eq, Structural)]
pub enum GlobepayChannel {
    Alipay,
    Wechat,
}

/// The gateway channel for a payment method, if the gateway offers one.
pub open spec fn channel_of(pm: PaymentMethodData) -> Option<GlobepayChannel> {
    match pm {
        PaymentMethodData::Wallet(WalletData::AliPay) => Some(GlobepayChannel::Alipay),
        PaymentMethodData::Wallet(WalletData::WeChatPay) => Some(GlobepayChannel::Wechat),
        _ => None,
    }
}

impl GlobepayPaymentsRequest {
    /// Builds the request body for an authorize attempt.
    ///
    /// The channel is resolved first: a payment method other than an AliPay or
    /// WeChat Pay wallet is rejected before the description is looked at.
    pub fn try_from(item: &PaymentsAuthorizeRouterData) -> (r: Result<Self, ConnectorError>)
        ensures
            r is Ok <==> (channel_of(item.payment_method_data) is Some
                && item.description is Some),
            channel_of(item.payment_method_data) is None ==> r == Err::<Self, ConnectorError>(
                ConnectorError::UnsupportedPaymentMethod(item.payment_method_data),
            ),
            channel_of(item.payment_method_data) is Some && item.description is None ==> (
            r is Err && r->Err_0 is MissingRequiredField && r->Err_0->field_name@
                == "description"@),
            r is Ok ==> ({
                let req = r->Ok_0;
                &&& req.price == item.amount
                &&& req.currency == item.currency
                &&& Some(req.channel) == channel_of(item.payment_method_data)
                &&& req.description@ == item.description->0@
            }),
    {
        let channel: GlobepayChannel = match &item.payment_method_data {
            PaymentMethodData::Wallet(wallet_data) => match wallet_data {
                WalletData::AliPay => GlobepayChannel::Alipay,
                WalletData::WeChatPay => GlobepayChannel::Wechat,
                _ => {
                    return Err(ConnectorError::UnsupportedPaymentMethod(item.payment_method_data));
                },
            },
            _ => {
                return Err(ConnectorError::UnsupportedPaymentMethod(item.payment_method_data));
            },
        };
        let description = match &item.description {
            Some(d) => d.clone(),
            None => {
                return Err(ConnectorError::MissingRequiredField { field_name: "description" });
            },
        };
        Ok(GlobepayPaymentsRequest {
            price: item.amount,
            description,
            currency: item.currency,
            channel,
        })
    }
}

/// The gateway credentials: partner code and credential code.
pub struct GlobepayAuthType {
    pub partner_code: Secret,
    pub credential_code: Secret,
}

impl GlobepayAuthType {
    /// Extracts the gateway credentials; only the body-key shape carries them.
    pub fn try_from(auth_type: &ConnectorAuthType) -> (r: Result<Self, ConnectorError>)
        ensures
            match auth_type {
                ConnectorAuthType::BodyKey { api_key, key1 } => {
                    &&& r is Ok
                    &&& r->Ok_0.partner_code@ == api_key@
                    &&& r->Ok_0.credential_code@ == key1@
                },
                _ => r == Err::<Self, ConnectorError>(ConnectorError::FailedToObtainAuthType),
            },
    {
        match auth_type {
            ConnectorAuthType::BodyKey { api_key, key1 } => Ok(GlobepayAuthType {
                partner_code: Secret::new(api_key.clone()),
                credential_code: Secret::new(key1.clone()),
            }),
            _ => Err(ConnectorError::FailedToObtainAuthType),
        }
    }
}

/// The result code of a successful "create payment" call.
#[derive(Debug, Clone, Copy, PartialEq, Eq, Structural)]
pub enum GlobepayPaymentStatus {
    Success,
    Exists,
}

/// Attempt status for a creation result code. The gateway only offers
/// redirection flows, so a created order still awaits the customer.
pub open spec fn attempt_status_of_payment(s: GlobepayPaymentStatus) -> AttemptStatus {
    match s {
        GlobepayPaymentStatus::Success => AttemptStatus::AuthenticationPending,
        GlobepayPaymentStatus::Exists => AttemptStatus::Failure,
    }
}

impl From<GlobepayPaymentStatus> for AttemptStatus {
    fn from(item: GlobepayPaymentStatus) -> (r: Self)
        ensures
            r == attempt_status_of_payment(item),
    {
        match item {
            GlobepayPaymentStatus::Success => AttemptStatus::AuthenticationPending,
            GlobepayPaymentStatus::Exists => AttemptStatus::Failure,
        }
    }
}

impl vstd::std_specs::convert::FromSpecImpl<GlobepayPaymentStatus> for AttemptStatus {
    open spec fn obeys_from_spec() -> bool {
        true
    }

    open spec fn from_spec(v: GlobepayPaymentStatus) -> AttemptStatus {
        attempt_status_of_payment(v)
    }
}

/// Metadata attached to a created payment: where the QR code image is.
pub struct GlobepayConnectorMetadata {
    pub image_data_url: url::Url,
}

/// The gateway's reply to "create payment".
pub struct GlobepayPaymentsResponse {
    pub result_code: Option<GlobepayPaymentStatus>,
    pub order_id: Option<String>,
    pub qrcode_img: Option<url::Url>,
    pub return_code: GlobepayReturnCode,
    pub return_msg: Option<String>,
}

/// The gateway-level outcome of a call; only `Success` is a business success.
#[derive(Debug, Clone, Copy, PartialEq, Eq, Structural)]
pub enum GlobepayReturnCode {
    Success,
    OrderNotExist,
    OrderMismatch,
    Systemerror,
    InvalidShortId,
    SignTimeout,
    InvalidSign,
    ParamInvalid,
    NotPermitted,
    InvalidChannel,
    DuplicateOrderId,
}

impl GlobepayReturnCode {
    /// The code as the gateway writes it on the wire.
    pub open spec fn spec_code(self) -> Seq<char> {
        match self {
            GlobepayReturnCode::Success => "SUCCESS"@,
            GlobepayReturnCode::OrderNotExist => "ORDER_NOT_EXIST"@,
            GlobepayReturnCode::OrderMismatch => "ORDER_MISMATCH"@,
            GlobepayReturnCode::Systemerror => "SYSTEMERROR"@,
            GlobepayReturnCode::InvalidShortId => "INVALID_SHORT_ID"@,
            GlobepayReturnCode::SignTimeout => "SIGN_TIMEOUT"@,
            GlobepayReturnCode::InvalidSign => "INVALID_SIGN"@,
            GlobepayReturnCode::ParamInvalid => "PARAM_INVALID"@,
            GlobepayReturnCode::NotPermitted => "NOT_PERMITTED"@,
            GlobepayReturnCode::InvalidChannel => "INVALID_CHANNEL"@,
            GlobepayReturnCode::DuplicateOrderId => "DUPLICATE_ORDER_ID"@,
        }
    }

    /// Renders the code as the gateway writes it on the wire.
    pub fn to_string(&self) -> (s: String)
        ensures
            s@ == self.spec_code(),
    {
        match self {
            GlobepayReturnCode::Success => "SUCCESS".to_owned(),
            GlobepayReturnCode::OrderNotExist => "ORDER_NOT_EXIST".to_owned(),
            GlobepayReturnCode::OrderMismatch => "ORDER_MISMATCH".to_owned(),
            GlobepayReturnCode::Systemerror => "SYSTEMERROR".to_owned(),
            GlobepayReturnCode::InvalidShortId => "INVALID_SHORT_ID".to_owned(),
            GlobepayReturnCode::SignTimeout => "SIGN_TIMEOUT".to_owned(),
            GlobepayReturnCode::InvalidSign => "INVALID_SIGN".to_owned(),
            GlobepayReturnCode::ParamInvalid => "PARAM_INVALID".to_owned(),
            GlobepayReturnCode::NotPermitted => "NOT_PERMITTED".to_owned(),
            GlobepayReturnCode::InvalidChannel => "INVALID_CHANNEL".to_owned(),
            GlobepayReturnCode::DuplicateOrderId => "DUPLICATE_ORDER_ID".to_owned(),
        }
    }
}

/// `out` reports the business failure named by `return_code`: status
/// `Failure`, and an error whose code and message are the code's wire form.
pub open spec fn is_business_failure(
    out: RouterData<PaymentsResponseData>,
    prior: RouterData<PaymentsResponseData>,
    return_code: GlobepayReturnCode,
    return_msg: Option<String>,
    http_code: u16,
) -> bool {
    &&& out.attempt_id == prior.attempt_id
    &&& out.status == AttemptStatus::Failure
    &&& out.response is Err
    &&& out.response->Err_0.code@ == return_code.spec_code()
    &&& out.response->Err_0.message@ == return_code.spec_code()
    &&& out.response->Err_0.reason == return_msg
    &&& out.response->Err_0.status_code == http_code
}

/// `out` reports the transaction `order_id` with the given status and metadata,
/// and nothing that this gateway does not produce.
pub open spec fn is_transaction_reply(
    out: RouterData<PaymentsResponseData>,
    prior: RouterData<PaymentsResponseData>,
    status: AttemptStatus,
    order_id: String,
    metadata: Option<GlobepayConnectorMetadata>,
) -> bool {
    &&& out.attempt_id == prior.attempt_id
    &&& out.status == status
    &&& out.response is Ok
    &&& out.response->Ok_0.resource_id == ResponseId::ConnectorTransactionId(order_id)
    &&& out.response->Ok_0.redirection_data is None
    &&& out.response->Ok_0.mandate_reference is None
    &&& out.response->Ok_0.connector_metadata == metadata
    &&& out.response->Ok_0.network_txn_id is None
}

/// Reports a non-success return code as a failed attempt.
fn business_failure(
    prior: RouterData<PaymentsResponseData>,
    return_code: GlobepayReturnCode,
    return_msg: Option<String>,
    http_code: u16,
) -> (out: RouterData<PaymentsResponseData>)
    ensures
        is_business_failure(out, prior, return_code, return_msg, http_code),
{
    RouterData {
        attempt_id: prior.attempt_id,
        status: AttemptStatus::Failure,
        response: Err(
            ErrorResponse {
                code: return_code.to_string(),
                message: return_code.to_string(),
                reason: return_msg,
                status_code: http_code,
            },
        ),
    }
}

/// Reports a transaction known to the gateway.
fn transaction_reply(
    prior: RouterData<PaymentsResponseData>,
    status: AttemptStatus,
    order_id: String,
    metadata: Option<GlobepayConnectorMetadata>,
) -> (out: RouterData<PaymentsResponseData>)
    ensures
        is_transaction_reply(out, prior, status, order_id, metadata),
{
    RouterData {
        attempt_id: prior.attempt_id,
        status,
        response: Ok(
            PaymentsResponseData {
                resource_id: ResponseId::ConnectorTransactionId(order_id),
                redirection_data: None,
                mandate_reference: None,
                connector_metadata: metadata,
                network_txn_id: None,
            },
        ),
    }
}

impl RouterData<PaymentsResponseData> {
    /// Reads the gateway's reply to "create payment".
    ///
    /// The return code alone decides business success. On success the QR code
    /// URL, the result code and the order id must all be present.
    pub fn try_from_payments_response(
        item: ResponseRouterData<GlobepayPaymentsResponse, PaymentsResponseData>,
    ) -> (r: Result<Self, ConnectorError>)
        ensures
            item.response.return_code != GlobepayReturnCode::Success ==> (r is Ok
                && is_business_failure(
                r->Ok_0,
                item.data,
                item.response.return_code,
                item.response.return_msg,
                item.http_code,
            )),
            item.response.return_code == GlobepayReturnCode::Success ==> (r is Ok <==> (
            item.response.qrcode_img is Some && item.response.result_code is Some
                && item.response.order_id is Some)),
            item.response.return_code == GlobepayReturnCode::Success && r is Err ==> r->Err_0
                == ConnectorError::ResponseHandlingFailed,
            item.response.return_code == GlobepayReturnCode::Success && r is Ok
                ==> is_transaction_reply(
                r->Ok_0,
                item.data,
                attempt_status_of_payment(item.response.result_code->0),
                item.response.order_id->0,
                Some(GlobepayConnectorMetadata { image_data_url: item.response.qrcode_img->0 }),
            ),
    {
        let response = item.response;
        if response.return_code == GlobepayReturnCode::Success {
            let image_data_url = match response.qrcode_img {
                Some(u) => u,
                None => {
                    return Err(ConnectorError::ResponseHandlingFailed);
                },
            };
            let globepay_metadata = GlobepayConnectorMetadata { image_data_url };
            let globepay_status = match response.result_code {
                Some(s) => s,
                None => {
                    return Err(ConnectorError::ResponseHandlingFailed);
                },
            };
            let order_id = match response.order_id {
                Some(id) => id,
                None => {
                    return Err(ConnectorError::ResponseHandlingFailed);
                },
            };
            Ok(
                transaction_reply(
                    item.data,
                    AttemptStatus::from(globepay_status),
                    order_id,
                    Some(globepay_metadata),
                ),
            )
        } else {
            Ok(business_failure(item.data, response.return_code, response.return_msg, item.http_code))
        }
    }
}

/// The gateway's reply to "query payment".
pub struct GlobepaySyncResponse {
    pub result_code: Option<GlobepayPaymentPsyncStatus>,
    pub order_id: Option<String>,
    pub return_code: GlobepayReturnCode,
    pub return_msg: Option<String>,
}

/// The state of an order, as "query payment" reports it.
#[derive(Debug, Clone, Copy, PartialEq, Eq, Structural)]
pub enum GlobepayPaymentPsyncStatus {
    Paying,
    CreateFail,
    Closed,
    PayFail,
    PaySuccess,
}

/// Attempt status for a queried order state.
pub open spec fn attempt_status_of_sync(s: GlobepayPaymentPsyncStatus) -> AttemptStatus {
    match s {
        GlobepayPaymentPsyncStatus::PaySuccess => AttemptStatus::Charged,
        GlobepayPaymentPsyncStatus::PayFail => AttemptStatus::Failure,
        GlobepayPaymentPsyncStatus::CreateFail => AttemptStatus::Failure,
        GlobepayPaymentPsyncStatus::Closed => AttemptStatus::Failure,
        GlobepayPaymentPsyncStatus::Paying => AttemptStatus::AuthenticationPending,
    }
}

impl From<GlobepayPaymentPsyncStatus> for AttemptStatus {
    fn from(item: GlobepayPaymentPsyncStatus) -> (r: Self)
        ensures
            r == attempt_status_of_sync(item),
    {
        match item {
            GlobepayPaymentPsyncStatus::PaySuccess => AttemptStatus::Charged,
            GlobepayPaymentPsyncStatus::PayFail
            | GlobepayPaymentPsyncStatus::CreateFail
            | GlobepayPaymentPsyncStatus::Closed => AttemptStatus::Failure,
            GlobepayPaymentPsyncStatus::Paying => AttemptStatus::AuthenticationPending,
        }
    }
}

impl vstd::std_specs::convert::FromSpecImpl<GlobepayPaymentPsyncStatus> for AttemptStatus {
    open spec fn obeys_from_spec() -> bool {
        true
    }

    open spec fn from_spec(v: GlobepayPaymentPsyncStatus) -> AttemptStatus {
        attempt_status_of_sync(v)
    }
}

/// Every queried order state maps to exactly one attempt status: a paid order
/// is charged, an order still being paid awaits the customer, and a failed,
/// closed or never created order has failed.
pub proof fn lemma_sync_status_mapping(s: GlobepayPaymentPsyncStatus)
    ensures
        attempt_status_of_sync(s) == AttemptStatus::Charged <==> s
            == GlobepayPaymentPsyncStatus::PaySuccess,
        attempt_status_of_sync(s) == AttemptStatus::AuthenticationPending <==> s
            == GlobepayPaymentPsyncStatus::Paying,
        attempt_status_of_sync(s) == AttemptStatus::Failure <==> (s
            == GlobepayPaymentPsyncStatus::PayFail || s == GlobepayPaymentPsyncStatus::CreateFail
            || s == GlobepayPaymentPsyncStatus::Closed),
{
}

impl RouterData<PaymentsResponseData> {
    /// Reads the gateway's reply to "query payment".
    ///
    /// As for creation, the return code alone decides business success; on
    /// success the result code and the order id must be present.
    pub fn try_from_sync_response(
        item: ResponseRouterData<GlobepaySyncResponse, PaymentsResponseData>,
    ) -> (r: Result<Self, ConnectorError>)
        ensures
            item.response.return_code != GlobepayReturnCode::Success ==> (r is Ok
                && is_business_failure(
                r->Ok_0,
                item.data,
                item.response.return_code,
                item.response.return_msg,
                item.http_code,
            )),
            item.response.return_code == GlobepayReturnCode::Success ==> (r is Ok <==> (
            item.response.result_code is Some && item.response.order_id is Some)),
            item.response.return_code == GlobepayReturnCode::Success && r is Err ==> r->Err_0
                == ConnectorError::ResponseHandlingFailed,
            item.response.return_code == GlobepayReturnCode::Success && r is Ok
                ==> is_transaction_reply(
                r->Ok_0,
                item.data,
                attempt_status_of_sync(item.response.result_code->0),
                item.response.order_id->0,
                None,
            ),
    {
        let response = item.response;
        if response.return_code == GlobepayReturnCode::Success {
            let globepay_status = match response.result_code {
                Some(s) => s,
                None => {
                    return Err(ConnectorError::ResponseHandlingFailed);
                },
            };
            let globepay_id = match response.order_id {
                Some(id) => id,
                None => {
                    return Err(ConnectorError::ResponseHandlingFailed);
                },
            };
            Ok(transaction_reply(item.data, AttemptStatus::from(globepay_status), globepay_id, None))
        } else {
            Ok(business_failure(item.data, response.return_code, response.return_msg, item.http_code))
        }
    }
}

/// The gateway's "create refund" request body.
pub struct GlobepayRefundRequest {
    pub amount: i64,
}

impl GlobepayRefundRequest {
    /// Builds the refund request body; the amount is copied unchanged.
    pub fn try_from(item: &RefundsRouterData) -> (r: Result<Self, ConnectorError>)
        ensures
            r is Ok,
            r->Ok_0.amount == item.refund_amount,
    {
        Ok(GlobepayRefundRequest { amount: item.refund_amount })
    }
}

/// The state of a refund, as the gateway reports it.
#[derive(Debug, Clone, Copy, PartialEq, Eq, Structural)]
pub enum RefundStatus {
    Succeeded,
    Failed,
    Processing,
}

impl Default for RefundStatus {
    /// A refund whose state is not reported is taken to be in progress.
    fn default() -> (r: Self)
        ensures
            r == RefundStatus::Processing,
    {
        RefundStatus::Processing
    }
}

/// Orchestrator refund status for a gateway refund state.
pub open spec fn refund_status_of(s: RefundStatus) -> enums::RefundStatus {
    match s {
        RefundStatus::Succeeded => enums::RefundStatus::Success,
        RefundStatus::Failed => enums::RefundStatus::Failure,
        RefundStatus::Processing => enums::RefundStatus::Pending,
    }
}

impl From<RefundStatus> for enums::RefundStatus {
    fn from(item: RefundStatus) -> (r: Self)
        ensures
            r == refund_status_of(item),
    {
        match item {
            RefundStatus::Succeeded => enums::RefundStatus::Success,
            RefundStatus::Failed => enums::RefundStatus::Failure,
            RefundStatus::Processing => enums::RefundStatus::Pending,
        }
    }
}

impl vstd::std_specs::convert::FromSpecImpl<RefundStatus> for enums::RefundStatus {
    open spec fn obeys_from_spec() -> bool {
        true
    }

    open spec fn from_spec(v: RefundStatus) -> enums::RefundStatus {
        refund_status_of(v)
    }
}

/// Every gateway refund state maps to exactly one orchestrator refund status:
/// succeeded to success, failed to failure, and processing, which is also the
/// default state, to pending.
pub proof fn lemma_refund_status_mapping(s: RefundStatus)
    ensures
        refund_status_of(s) == enums::RefundStatus::Success <==> s == RefundStatus::Succeeded,
        refund_status_of(s) == enums::RefundStatus::Failure <==> s == RefundStatus::Failed,
        refund_status_of(s) == enums::RefundStatus::Pending <==> s == RefundStatus::Processing,
        refund_status_of(s) != enums::RefundStatus::ManualReview,
{
}

/// The gateway's reply to "create refund" and to "query refund".
pub struct RefundResponse {
    pub id: String,
    pub status: RefundStatus,
}

impl Default for RefundResponse {
    fn default() -> (r: Self)
        ensures
            r.id@ == Seq::<char>::empty(),
            r.status == RefundStatus::Processing,
    {
        RefundResponse { id: String::new(), status: RefundStatus::default() }
    }
}

/// `out` is `prior` with the refund `id` reported in state `status`.
pub open spec fn is_refund_reply(
    out: RefundsRouterData,
    prior: RefundsRouterData,
    id: Seq<char>,
    status: RefundStatus,
) -> bool {
    &&& out.refund_amount == prior.refund_amount
    &&& out.response is Ok
    &&& out.response->Ok_0.connector_refund_id@ == id
    &&& out.response->Ok_0.refund_status == refund_status_of(status)
}

/// Reports a refund as the gateway described it.
fn refund_reply(item: RefundsResponseRouterData<RefundResponse>) -> (out: RefundsRouterData)
    ensures
        is_refund_reply(out, item.data, item.response.id@, item.response.status),
{
    RefundsRouterData {
        refund_amount: item.data.refund_amount,
        response: Ok(
            RefundsResponseData {
                connector_refund_id: item.response.id,
                refund_status: enums::RefundStatus::from(item.response.status),
            },
        ),
    }
}

impl RefundsRouterData {
    /// Reads the gateway's reply to "create refund". It carries no return
    /// code, so it never fails.
    pub fn try_from_execute_response(item: RefundsResponseRouterData<RefundResponse>) -> (r:
        Result<Self, ConnectorError>)
        ensures
            r is Ok,
            is_refund_reply(r->Ok_0, item.data, item.response.id@, item.response.status),
    {
        Ok(refund_reply(item))
    }

    /// Reads the gateway's reply to "query refund". It carries no return
    /// code, so it never fails.
    pub fn try_from_sync_response(item: RefundsResponseRouterData<RefundResponse>) -> (r: Result<
        Self,
        ConnectorError,
    >)
        ensures
            r is Ok,
            is_refund_reply(r->Ok_0, item.data, item.response.id@, item.response.status),
    {
        Ok(refund_reply(item))
    }
}

/// The gateway's error body, read by the transport layer.
pub struct GlobepayErrorResponse {
    pub return_msg: String,
    pub return_code: GlobepayReturnCode,
    pub message: String,
}

} // verus!
