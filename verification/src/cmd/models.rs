//! The commands that the client understands, the form in which a new
//! customer is written down in a file, and the failures that a run of the
//! client can end in.

use crate::provisioning::error::{DRACOONProvisioningError, RequestFailure};
use crate::provisioning::models::NewCustomerRequest as ProvisioningRequest;
use crate::provisioning::models::{
    CustomerAttributes, DRACOONErrorResponse, FirstAdminUser, NewCustomerRequestView,
};
use vstd::prelude::*;

verus! {

/// Every way in which a run of the client can fail.
#[derive(Debug)]
pub enum DcProvError {
    /// No token is stored for the account.
    InvalidAccount,
    /// The token could not be stored.
    CredentialStorageFailed,
    /// The stored token could not be deleted.
    CredentialDeletionFailed,
    /// No server reply could be had or read.
    TransportFailure(RequestFailure),
    /// The address is no URL.
    InvalidUrl(url::ParseError),
    /// Status 400.
    BadRequest(DRACOONErrorResponse),
    /// Status 401; without a body where the token was turned down before a
    /// call was made.
    Unauthorized(Option<DRACOONErrorResponse>),
    /// Status 403.
    Forbidden(DRACOONErrorResponse),
    /// Status 404.
    NotFound(DRACOONErrorResponse),
    /// Status 402.
    PaymentRequired(DRACOONErrorResponse),
    /// Status 409.
    Conflict(DRACOONErrorResponse),
    /// Status 406.
    NotAcceptable(DRACOONErrorResponse),
    /// Any other status that is not the success of the call.
    Undocumented(DRACOONErrorResponse),
    /// Input could not be read, from the terminal or from a file.
    Io,
    /// Anything else.
    Other,
}

/// The failure of a run that a failure of the provisioning client amounts
/// to: the one of the same kind, carrying the same.
pub open spec fn run_failure(error: DRACOONProvisioningError) -> DcProvError {
    match error {
        DRACOONProvisioningError::RequestFailed(f) => DcProvError::TransportFailure(f),
        DRACOONProvisioningError::InvalidUrl(e) => DcProvError::InvalidUrl(e),
        DRACOONProvisioningError::Unauthorized(b) => DcProvError::Unauthorized(b),
        DRACOONProvisioningError::BadRequest(b) => DcProvError::BadRequest(b),
        DRACOONProvisioningError::Forbidden(b) => DcProvError::Forbidden(b),
        DRACOONProvisioningError::NotFound(b) => DcProvError::NotFound(b),
        DRACOONProvisioningError::PaymentRequired(b) => DcProvError::PaymentRequired(b),
        DRACOONProvisioningError::NotAcceptable(b) => DcProvError::NotAcceptable(b),
        DRACOONProvisioningError::Conflict(b) => DcProvError::Conflict(b),
        DRACOONProvisioningError::Undocumented(b) => DcProvError::Undocumented(b),
        DRACOONProvisioningError::InvalidAccount => DcProvError::InvalidAccount,
    }
}

impl From<DRACOONProvisioningError> for DcProvError {
    fn from(error: DRACOONProvisioningError) -> (r: Self) {
        match error {
            DRACOONProvisioningError::RequestFailed(f) => DcProvError::TransportFailure(f),
            DRACOONProvisioningError::InvalidUrl(e) => DcProvError::InvalidUrl(e),
            DRACOONProvisioningError::Unauthorized(b) => DcProvError::Unauthorized(b),
            DRACOONProvisioningError::BadRequest(b) => DcProvError::BadRequest(b),
            DRACOONProvisioningError::Forbidden(b) => DcProvError::Forbidden(b),
            DRACOONProvisioningError::NotFound(b) => DcProvError::NotFound(b),
            DRACOONProvisioningError::PaymentRequired(b) => DcProvError::PaymentRequired(b),
            DRACOONProvisioningError::NotAcceptable(b) => DcProvError::NotAcceptable(b),
            DRACOONProvisioningError::Conflict(b) => DcProvError::Conflict(b),
            DRACOONProvisioningError::Undocumented(b) => DcProvError::Undocumented(b),
            DRACOONProvisioningError::InvalidAccount => DcProvError::InvalidAccount,
        }
    }
}

impl vstd::std_specs::convert::FromSpecImpl<DRACOONProvisioningError> for DcProvError {
    open spec fn obeys_from_spec() -> bool {
        true
    }

    open spec fn from_spec(error: DRACOONProvisioningError) -> Self {
        run_failure(error)
    }
}

impl DcProvError {
    /// What the failure is called.
    pub open spec fn description_text(self) -> Seq<char> {
        match self {
            DcProvError::InvalidAccount => "Invalid account"@,
            DcProvError::CredentialStorageFailed => "Credential storage failed"@,
            DcProvError::CredentialDeletionFailed => "Credential deletion failed"@,
            DcProvError::TransportFailure(_) => "Request failed"@,
            DcProvError::InvalidUrl(_) => "Invalid URL"@,
            DcProvError::BadRequest(_) => "Bad request"@,
            DcProvError::Unauthorized(_) => "Unauthorized"@,
            DcProvError::Forbidden(_) => "Forbidden"@,
            DcProvError::NotFound(_) => "Not found"@,
            DcProvError::PaymentRequired(_) => "Payment required"@,
            DcProvError::Conflict(_) => "Conflict"@,
            DcProvError::NotAcceptable(_) => "Not acceptable"@,
            DcProvError::Undocumented(_) => "Internal server error"@,
            DcProvError::Io => "IO error"@,
            DcProvError::Other => "Other error"@,
        }
    }

    /// What the failure is called.
    pub fn description(&self) -> (r: &'static str)
        ensures
            r@ == self.description_text(),
    {
        match self {
            DcProvError::InvalidAccount => "Invalid account",
            DcProvError::CredentialStorageFailed => "Credential storage failed",
            DcProvError::CredentialDeletionFailed => "Credential deletion failed",
            DcProvError::TransportFailure(_) => "Request failed",
            DcProvError::InvalidUrl(_) => "Invalid URL",
            DcProvError::BadRequest(_) => "Bad request",
            DcProvError::Unauthorized(_) => "Unauthorized",
            DcProvError::Forbidden(_) => "Forbidden",
            DcProvError::NotFound(_) => "Not found",
            DcProvError::PaymentRequired(_) => "Payment required",
            DcProvError::Conflict(_) => "Conflict",
            DcProvError::NotAcceptable(_) => "Not acceptable",
            DcProvError::Undocumented(_) => "Internal server error",
            DcProvError::Io => "IO error",
            DcProvError::Other => "Other error",
        }
    }
}

/// A run of the client: the token given on the command line, if any, and
/// the command.
#[derive(Debug, Clone, PartialEq, Eq)]
pub struct DcProv {
    pub token: Option<String>,
    pub cmd: DCProvCommand,
}

/// The commands of the client. `url` is the address of the endpoint.
#[derive(Debug, Clone, PartialEq, Eq)]
pub enum DCProvCommand {
    /// Lists the customers of an endpoint.
    List {
        url: String,
        filter: Option<String>,
        sort: Option<String>,
        offset: Option<u64>,
        limit: Option<u64>,
        csv: bool,
        all: bool,
    },
    /// Manages the token that is stored for an endpoint.
    Config { url: String, cmd: ConfigCommand },
    /// Creates a customer.
    Create { url: String, cmd: CreateCommand },
    /// Reads one customer.
    Get { url: String, id: u64, csv: bool },
    /// Changes one customer.
    Update { url: String, id: u64, cmd: UpdateCommand },
    /// Deletes one customer.
    Delete { url: String, id: u64 },
    /// Lists the attributes of a customer.
    GetAttributes {
        url: String,
        id: u64,
        filter: Option<String>,
        sort: Option<String>,
        offset: Option<u64>,
        limit: Option<u64>,
        csv: bool,
    },
    /// Sets attributes of a customer.
    SetAttributes { url: String, id: u64, attribs: Vec<(String, String)> },
    /// Lists the users of a customer.
    GetUsers {
        url: String,
        id: u64,
        filter: Option<String>,
        sort: Option<String>,
        offset: Option<u64>,
        limit: Option<u64>,
        csv: bool,
    },
    /// Prints the version.
    Version,
}

/// What to do with the stored token.
#[derive(Debug, Clone, PartialEq, Eq)]
pub enum ConfigCommand {
    /// Stores the token.
    Store { token: String },
    /// Shows the stored token.
    Get,
    /// Deletes the stored token.
    Delete,
}

/// Where the new customer comes from.
#[derive(Debug, Clone, PartialEq, Eq)]
pub enum CreateCommand {
    /// From a JSON file.
    FromFile { path: String },
    /// From answers given at the terminal.
    Prompt,
}

/// What to change of a customer.
#[derive(Debug, Clone, PartialEq, Eq)]
pub enum UpdateCommand {
    /// The storage that the customer may use, in bytes.
    QuotaMax { quota_max: u64 },
    /// The number of users that the customer may have.
    UserMax { user_max: u64 },
    CompanyName { company_name: String },
}

/// A new customer as a file describes it.
#[derive(Debug, Clone, PartialEq, Eq)]
pub struct NewCustomerRequest {
    pub customer_contract_type: String,
    pub quota_max: u64,
    pub user_max: u64,
    pub first_admin_user: FirstAdminUser,
    pub company_name: Option<String>,
    pub trial_days: Option<u64>,
    pub is_locked: Option<bool>,
    pub customer_attributes: Option<CustomerAttributes>,
    pub provider_customer_id: Option<String>,
    pub webhooks_max: Option<u64>,
}

impl DeepView for NewCustomerRequest {
    type V = NewCustomerRequestView;

    open spec fn deep_view(&self) -> NewCustomerRequestView {
        NewCustomerRequestView {
            customer_contract_type: self.customer_contract_type@,
            quota_max: self.quota_max,
            user_max: self.user_max,
            first_admin_user: self.first_admin_user.deep_view(),
            company_name: self.company_name.deep_view(),
            trial_days: self.trial_days,
            is_locked: self.is_locked,
            customer_attributes: self.customer_attributes.deep_view(),
            provider_customer_id: self.provider_customer_id.deep_view(),
            webhooks_max: self.webhooks_max,
        }
    }
}

impl From<NewCustomerRequest> for ProvisioningRequest {
    fn from(req: NewCustomerRequest) -> (r: Self) {
        ProvisioningRequest {
            customer_contract_type: req.customer_contract_type,
            quota_max: req.quota_max,
            user_max: req.user_max,
            first_admin_user: req.first_admin_user,
            company_name: req.company_name,
            trial_days: req.trial_days,
            is_locked: req.is_locked,
            customer_attributes: req.customer_attributes,
            provider_customer_id: req.provider_customer_id,
            webhooks_max: req.webhooks_max,
        }
    }
}

impl vstd::std_specs::convert::FromSpecImpl<NewCustomerRequest> for ProvisioningRequest {
    open spec fn obeys_from_spec() -> bool {
        true
    }

    open spec fn from_spec(req: NewCustomerRequest) -> Self {
        ProvisioningRequest {
            customer_contract_type: req.customer_contract_type,
            quota_max: req.quota_max,
            user_max: req.user_max,
            first_admin_user: req.first_admin_user,
            company_name: req.company_name,
            trial_days: req.trial_days,
            is_locked: req.is_locked,
            customer_attributes: req.customer_attributes,
            provider_customer_id: req.provider_customer_id,
            webhooks_max: req.webhooks_max,
        }
    }
}

} // verus!
