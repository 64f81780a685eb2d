//! The application's error, its HTTP status, and the domain failures of
//! the workflows with the message each one is reported with.

use vstd::prelude::*;
use vstd::string::*;

use crate::ids::{uuid_text, OrderId, ProductId};
use crate::master_data::{key_text, MasterDataKey};
use crate::text::{append_decimal, decimal};

verus! {

/// The four ways a request can fail.
#[derive(Clone, Copy, Debug, PartialEq, Eq, Structural)]
pub enum ErrorKind {
    NotFound,
    BadRequest,
    Conflict,
    Internal,
}

/// An error with its kind and the message it is reported with.
#[derive(Debug)]
pub enum AppError {
    NotFound(String),
    BadRequest(String),
    Conflict(String),
    Internal(String),
}

/// The HTTP status code that answers an error of kind `kind`.
pub open spec fn status_of(kind: ErrorKind) -> u16 {
    match kind {
        ErrorKind::NotFound => 404,
        ErrorKind::BadRequest => 400,
        ErrorKind::Conflict => 409,
        ErrorKind::Internal => 500,
    }
}

impl AppError {
    pub open spec fn kind_of(&self) -> ErrorKind {
        match self {
            AppError::NotFound(_) => ErrorKind::NotFound,
            AppError::BadRequest(_) => ErrorKind::BadRequest,
            AppError::Conflict(_) => ErrorKind::Conflict,
            AppError::Internal(_) => ErrorKind::Internal,
        }
    }

    pub open spec fn text(&self) -> Seq<char> {
        match self {
            AppError::NotFound(m) => m@,
            AppError::BadRequest(m) => m@,
            AppError::Conflict(m) => m@,
            AppError::Internal(m) => m@,
        }
    }

    /// The error's kind.
    pub fn kind(&self) -> (k: ErrorKind)
        ensures
            k == self.kind_of(),
    {
        match self {
            AppError::NotFound(_) => ErrorKind::NotFound,
            AppError::BadRequest(_) => ErrorKind::BadRequest,
            AppError::Conflict(_) => ErrorKind::Conflict,
            AppError::Internal(_) => ErrorKind::Internal,
        }
    }

    /// The error's message.
    pub fn message(&self) -> (m: &str)
        ensures
            m@ == self.text(),
    {
        match self {
            AppError::NotFound(m) => m.as_str(),
            AppError::BadRequest(m) => m.as_str(),
            AppError::Conflict(m) => m.as_str(),
            AppError::Internal(m) => m.as_str(),
        }
    }

    /// The HTTP status code of the response that reports this error.
    pub fn status_code(&self) -> (code: u16)
        ensures
            code == status_of(self.kind_of()),
            self is NotFound ==> code == 404,
            self is BadRequest ==> code == 400,
            self is Conflict ==> code == 409,
            self is Internal ==> code == 500,
    {
        match self {
            AppError::NotFound(_) => 404,
            AppError::BadRequest(_) => 400,
            AppError::Conflict(_) => 409,
            AppError::Internal(_) => 500,
        }
    }
}

/// Why a workflow of the services failed.
#[derive(Debug)]
pub enum Failure {
    /// A store, cache or broker call failed with this error.
    Upstream(AppError),
    /// A master data entry that the workflow needs is not set.
    MasterDataMissing(MasterDataKey),
    /// A master data entry does not hold a value of the expected form.
    MasterDataInvalid(MasterDataKey),
    /// More was ordered than the configured maximum allows.
    QuantityAboveMaximum { max: i32, requested: i32 },
    /// No product has this identifier.
    ProductNotFound(ProductId),
    /// No order has this identifier.
    OrderNotFound(OrderId),
    /// The product's stock is smaller than the quantity ordered.
    InsufficientStock { available: i32, requested: i32 },
    /// The configured tax rate was refused, with this message.
    TaxRateRejected(String),
    /// The configured shipping fee is negative.
    ShippingFeeNegative,
    /// Subtotal, tax and shipping fee add up to more than an `i64` holds.
    TotalOverflow,
    /// A reply came that the workflow does not wait for in its present step.
    UnexpectedReply,
}

/// The kind of error that reports a failure.
pub open spec fn failure_kind(f: Failure) -> ErrorKind {
    match f {
        Failure::Upstream(e) => e.kind_of(),
        Failure::MasterDataMissing(_) => ErrorKind::NotFound,
        Failure::MasterDataInvalid(_) => ErrorKind::BadRequest,
        Failure::QuantityAboveMaximum { .. } => ErrorKind::Conflict,
        Failure::ProductNotFound(_) => ErrorKind::NotFound,
        Failure::OrderNotFound(_) => ErrorKind::NotFound,
        Failure::InsufficientStock { .. } => ErrorKind::Conflict,
        Failure::TaxRateRejected(_) => ErrorKind::BadRequest,
        Failure::ShippingFeeNegative => ErrorKind::BadRequest,
        Failure::TotalOverflow => ErrorKind::BadRequest,
        Failure::UnexpectedReply => ErrorKind::Internal,
    }
}

/// The message that reports a failure.
pub open spec fn failure_text(f: Failure) -> Seq<char> {
    match f {
        Failure::Upstream(e) => e.text(),
        Failure::MasterDataMissing(k) => "Master data '"@ + key_text(k) + "' not configured"@,
        Failure::MasterDataInvalid(k) => "Invalid master data value for '"@ + key_text(k) + "'"@,
        Failure::QuantityAboveMaximum { max, requested } => "Order quantity exceeds maximum: max="@
            + decimal(max as int) + ", requested="@ + decimal(requested as int),
        Failure::ProductNotFound(id) => "Product "@ + uuid_text(id.0) + " not found"@,
        Failure::OrderNotFound(id) => "Order "@ + uuid_text(id.0) + " not found"@,
        Failure::InsufficientStock { available, requested } => "Insufficient stock: available="@
            + decimal(available as int) + ", requested="@ + decimal(requested as int),
        Failure::TaxRateRejected(m) => m@,
        Failure::ShippingFeeNegative => "ShippingFee must be non-negative"@,
        Failure::TotalOverflow => "TotalPrice overflow"@,
        Failure::UnexpectedReply => "Unexpected reply for the current workflow step"@,
    }
}

/// How each failure is answered over HTTP: a missing master data entry,
/// product or order is not found (404); a master data value that is not a
/// number, a refused tax rate, a negative shipping fee and an overflowing
/// total are bad requests (400); more than the maximum or than the stock
/// is a conflict (409); an unexpected reply is an internal error (500);
/// and the error of a store, cache or broker call keeps its own status.
pub proof fn law_failure_statuses(f: Failure)
    ensures
        f is MasterDataMissing || f is ProductNotFound || f is OrderNotFound ==> failure_kind(f)
            == ErrorKind::NotFound && status_of(failure_kind(f)) == 404,
        f is MasterDataInvalid || f is TaxRateRejected || f is ShippingFeeNegative
            || f is TotalOverflow ==> failure_kind(f) == ErrorKind::BadRequest && status_of(
            failure_kind(f),
        ) == 400,
        f is QuantityAboveMaximum || f is InsufficientStock ==> failure_kind(f)
            == ErrorKind::Conflict && status_of(failure_kind(f)) == 409,
        f is UnexpectedReply ==> failure_kind(f) == ErrorKind::Internal && status_of(
            failure_kind(f),
        ) == 500,
        f matches Failure::Upstream(e) ==> failure_kind(f) == e.kind_of(),
{
}

impl Failure {
    /// The application error that reports this failure.
    pub fn into_app_error(self) -> (e: AppError)
        ensures
            e.kind_of() == failure_kind(self),
            e.text() == failure_text(self),
            self matches Failure::Upstream(u) ==> e == u,
            self is MasterDataMissing || self is ProductNotFound || self is OrderNotFound
                ==> e is NotFound,
            self is MasterDataInvalid || self is TaxRateRejected || self is ShippingFeeNegative
                || self is TotalOverflow ==> e is BadRequest,
            self is QuantityAboveMaximum || self is InsufficientStock ==> e is Conflict,
            self is UnexpectedReply ==> e is Internal,
    {
        match self {
            Failure::Upstream(e) => e,
            Failure::MasterDataMissing(k) => {
                let mut s = String::from_str("Master data '");
                s.append(k.name());
                s.append("' not configured");
                AppError::NotFound(s)
            },
            Failure::MasterDataInvalid(k) => {
                let mut s = String::from_str("Invalid master data value for '");
                s.append(k.name());
                s.append("'");
                AppError::BadRequest(s)
            },
            Failure::QuantityAboveMaximum { max, requested } => {
                let mut s = String::from_str("Order quantity exceeds maximum: max=");
                append_decimal(&mut s, max as i64);
                s.append(", requested=");
                append_decimal(&mut s, requested as i64);
                AppError::Conflict(s)
            },
            Failure::ProductNotFound(id) => {
                let mut s = String::from_str("Product ");
                let t = id.to_text();
                s.append(t.as_str());
                s.append(" not found");
                AppError::NotFound(s)
            },
            Failure::OrderNotFound(id) => {
                let mut s = String::from_str("Order ");
                let t = id.to_text();
                s.append(t.as_str());
                s.append(" not found");
                AppError::NotFound(s)
            },
            Failure::InsufficientStock { available, requested } => {
                let mut s = String::from_str("Insufficient stock: available=");
                append_decimal(&mut s, available as i64);
                s.append(", requested=");
                append_decimal(&mut s, requested as i64);
                AppError::Conflict(s)
            },
            Failure::TaxRateRejected(m) => AppError::BadRequest(m),
            Failure::ShippingFeeNegative => AppError::BadRequest(
                String::from_str("ShippingFee must be non-negative"),
            ),
            Failure::TotalOverflow => AppError::BadRequest(String::from_str("TotalPrice overflow")),
            Failure::UnexpectedReply => AppError::Internal(
                String::from_str("Unexpected reply for the current workflow step"),
            ),
        }
    }
}

} // verus!
