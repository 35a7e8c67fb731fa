//! The closed set of ways in which a call of the provisioning API fails,
//! and the table that takes a status code to the failure it stands for.

use crate::provisioning::models::{DRACOONErrorResponse, DRACOONErrorResponseView};
use vstd::prelude::*;

verus! {

/// `reqwest::Error`, carried through as it came.
#[verifier::external_type_specification]
#[verifier::external_body]
pub struct ExReqwestError(reqwest::Error);

/// `url::ParseError`, carried through as it came.
#[verifier::external_type_specification]
#[verifier::external_body]
pub struct ExUrlParseError(url::ParseError);

/// Why a request brought no usable reply.
#[derive(Debug)]
pub enum RequestFailure {
    /// The transport failed, or the body was not JSON.
    Transport(reqwest::Error),
    /// The body was JSON of another shape than the one expected.
    Decode,
}

/// The failures of the provisioning client.
#[derive(Debug)]
pub enum DRACOONProvisioningError {
    /// No server reply could be had or read.
    RequestFailed(RequestFailure),
    /// The address is no URL.
    InvalidUrl(url::ParseError),
    /// Status 401. The body is missing where the token was turned down
    /// before a call was made.
    Unauthorized(Option<DRACOONErrorResponse>),
    /// Status 400.
    BadRequest(DRACOONErrorResponse),
    /// Status 403.
    Forbidden(DRACOONErrorResponse),
    /// Status 404.
    NotFound(DRACOONErrorResponse),
    /// Status 402.
    PaymentRequired(DRACOONErrorResponse),
    /// Status 406.
    NotAcceptable(DRACOONErrorResponse),
    /// Status 409.
    Conflict(DRACOONErrorResponse),
    /// Any other status that is not the success of the call.
    Undocumented(DRACOONErrorResponse),
    /// No token is stored for the account.
    InvalidAccount,
}

/// The content of a [`DRACOONProvisioningError`].
pub enum ProvisioningErrorView {
    RequestFailed(RequestFailure),
    InvalidUrl(url::ParseError),
    Unauthorized(Option<DRACOONErrorResponseView>),
    BadRequest(DRACOONErrorResponseView),
    Forbidden(DRACOONErrorResponseView),
    NotFound(DRACOONErrorResponseView),
    PaymentRequired(DRACOONErrorResponseView),
    NotAcceptable(DRACOONErrorResponseView),
    Conflict(DRACOONErrorResponseView),
    Undocumented(DRACOONErrorResponseView),
    InvalidAccount,
}

impl DeepView for DRACOONProvisioningError {
    type V = ProvisioningErrorView;

    open spec fn deep_view(&self) -> ProvisioningErrorView {
        match self {
            DRACOONProvisioningError::RequestFailed(f) => ProvisioningErrorView::RequestFailed(*f),
            DRACOONProvisioningError::InvalidUrl(e) => ProvisioningErrorView::InvalidUrl(*e),
            DRACOONProvisioningError::Unauthorized(b) => ProvisioningErrorView::Unauthorized(
                b.deep_view(),
            ),
            DRACOONProvisioningError::BadRequest(b) => ProvisioningErrorView::BadRequest(
                b.deep_view(),
            ),
            DRACOONProvisioningError::Forbidden(b) => ProvisioningErrorView::Forbidden(
                b.deep_view(),
            ),
            DRACOONProvisioningError::NotFound(b) => ProvisioningErrorView::NotFound(
                b.deep_view(),
            ),
            DRACOONProvisioningError::PaymentRequired(b) => ProvisioningErrorView::PaymentRequired(
                b.deep_view(),
            ),
            DRACOONProvisioningError::NotAcceptable(b) => ProvisioningErrorView::NotAcceptable(
                b.deep_view(),
            ),
            DRACOONProvisioningError::Conflict(b) => ProvisioningErrorView::Conflict(
                b.deep_view(),
            ),
            DRACOONProvisioningError::Undocumented(b) => ProvisioningErrorView::Undocumented(
                b.deep_view(),
            ),
            DRACOONProvisioningError::InvalidAccount => ProvisioningErrorView::InvalidAccount,
        }
    }
}

impl From<reqwest::Error> for DRACOONProvisioningError {
    fn from(error: reqwest::Error) -> (r: Self) {
        DRACOONProvisioningError::RequestFailed(RequestFailure::Transport(error))
    }
}

impl vstd::std_specs::convert::FromSpecImpl<reqwest::Error> for DRACOONProvisioningError {
    open spec fn obeys_from_spec() -> bool {
        true
    }

    open spec fn from_spec(error: reqwest::Error) -> Self {
        DRACOONProvisioningError::RequestFailed(RequestFailure::Transport(error))
    }
}

impl From<url::ParseError> for DRACOONProvisioningError {
    fn from(error: url::ParseError) -> (r: Self) {
        DRACOONProvisioningError::InvalidUrl(error)
    }
}

impl vstd::std_specs::convert::FromSpecImpl<url::ParseError> for DRACOONProvisioningError {
    open spec fn obeys_from_spec() -> bool {
        true
    }

    open spec fn from_spec(error: url::ParseError) -> Self {
        DRACOONProvisioningError::InvalidUrl(error)
    }
}

/// The failure that a status stands for, with the body that came with it:
/// seven statuses have a failure of their own, every other one is
/// undocumented.
pub open spec fn status_failure(
    status: u16,
    body: DRACOONErrorResponseView,
) -> ProvisioningErrorView {
    if status == 400 {
        ProvisioningErrorView::BadRequest(body)
    } else if status == 401 {
        ProvisioningErrorView::Unauthorized(Some(body))
    } else if status == 402 {
        ProvisioningErrorView::PaymentRequired(body)
    } else if status == 403 {
        ProvisioningErrorView::Forbidden(body)
    } else if status == 404 {
        ProvisioningErrorView::NotFound(body)
    } else if status == 406 {
        ProvisioningErrorView::NotAcceptable(body)
    } else if status == 409 {
        ProvisioningErrorView::Conflict(body)
    } else {
        ProvisioningErrorView::Undocumented(body)
    }
}

impl DRACOONProvisioningError {
    /// The failure that `status` stands for, carrying `body`.
    pub fn from_status(status: u16, body: DRACOONErrorResponse) -> (r: DRACOONProvisioningError)
        ensures
            r.deep_view() == status_failure(status, body.deep_view()),
    {
        if status == 400 {
            DRACOONProvisioningError::BadRequest(body)
        } else if status == 401 {
            DRACOONProvisioningError::Unauthorized(Some(body))
        } else if status == 402 {
            DRACOONProvisioningError::PaymentRequired(body)
        } else if status == 403 {
            DRACOONProvisioningError::Forbidden(body)
        } else if status == 404 {
            DRACOONProvisioningError::NotFound(body)
        } else if status == 406 {
            DRACOONProvisioningError::NotAcceptable(body)
        } else if status == 409 {
            DRACOONProvisioningError::Conflict(body)
        } else {
            DRACOONProvisioningError::Undocumented(body)
        }
    }
}

} // verus!
