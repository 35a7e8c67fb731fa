//! The provisioning client: the records of the API, their form on the wire,
//! the requests that the client makes and what it reads from the replies.

pub mod client;
pub mod error;
pub mod models;
pub mod paging;
pub mod wire;

pub use client::{ApiRequest, DRACOONProvisioning, HttpMethod};
pub use error::{DRACOONProvisioningError, ProvisioningErrorView, RequestFailure};
pub use models::{
    AttributesResponse, Customer, CustomerAttributes, DRACOONErrorResponse, FirstAdminUser,
    GetCustomersResponse, KeyValueEntry, NewCustomerRequest, NewCustomerResponse, RangeResponse,
    Right, Role, UpdateCustomerRequest, UpdateCustomerResponse, UserAuthData, UserItem, UserList,
    UserRoles,
};
pub use paging::{CustomerPages, PageStep};
