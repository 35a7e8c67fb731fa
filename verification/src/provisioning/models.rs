//! The records that the provisioning API sends and receives, each with the
//! mathematical content that the contracts speak of.

use crate::time::Timestamp;
use vstd::prelude::*;
use vstd::string::*;

verus! {

/// Where a page lies in a listing: the offset and limit it was asked with,
/// and the number of items that the server holds in all.
#[derive(Debug, Clone, Copy, PartialEq, Eq)]
pub struct RangeResponse {
    pub offset: u64,
    pub limit: u64,
    pub total: u64,
}

impl DeepView for RangeResponse {
    type V = RangeResponse;

    open spec fn deep_view(&self) -> RangeResponse {
        *self
    }
}

impl RangeResponse {
    /// Whether a page in this range may hold `count` items: no more than
    /// the limit.
    pub open spec fn admits(self, count: nat) -> bool {
        count <= self.limit
    }

    /// Whether a page in this range may hold `count` items.
    pub fn holds(&self, count: usize) -> (r: bool)
        ensures
            r == self.admits(count as nat),
    {
        count as u128 <= self.limit as u128
    }
}

/// One attribute of a customer.
#[derive(Debug, Clone, PartialEq, Eq)]
pub struct KeyValueEntry {
    pub key: String,
    pub value: String,
}

/// The content of a [`KeyValueEntry`].
pub struct KeyValueEntryView {
    pub key: Seq<char>,
    pub value: Seq<char>,
}

impl DeepView for KeyValueEntry {
    type V = KeyValueEntryView;

    open spec fn deep_view(&self) -> KeyValueEntryView {
        KeyValueEntryView { key: self.key@, value: self.value@ }
    }
}

/// The attributes of a customer in the order in which they were added. A
/// key may occur more than once: the server decides what to make of that.
#[derive(Debug, Clone, PartialEq, Eq)]
pub struct CustomerAttributes {
    pub items: Vec<KeyValueEntry>,
}

/// The content of [`CustomerAttributes`].
pub struct CustomerAttributesView {
    pub items: Seq<KeyValueEntryView>,
}

impl DeepView for CustomerAttributes {
    type V = CustomerAttributesView;

    open spec fn deep_view(&self) -> CustomerAttributesView {
        CustomerAttributesView { items: self.items.deep_view() }
    }
}

impl CustomerAttributes {
    /// An empty set of attributes.
    pub fn new() -> (r: CustomerAttributes)
        ensures
            r.deep_view().items == Seq::<KeyValueEntryView>::empty(),
    {
        let items = Vec::new();
        let r = CustomerAttributes { items };
        assert(r.deep_view().items =~= Seq::<KeyValueEntryView>::empty());
        r
    }

    /// Adds one attribute after those that are there.
    pub fn add_attribute(&mut self, key: String, value: String)
        ensures
            final(self).deep_view().items == old(self).deep_view().items.push(
                KeyValueEntryView { key: key@, value: value@ },
            ),
    {
        let attrib = KeyValueEntry { key, value };
        self.items.push(attrib);
        assert(self.deep_view().items =~= old(self).deep_view().items.push(
            KeyValueEntryView { key: key@, value: value@ },
        ));
    }
}

/// How the first administrator of a new customer signs in.
#[derive(Debug, Clone, PartialEq, Eq)]
pub struct UserAuthData {
    pub method: String,
    pub login: Option<String>,
    pub password: Option<String>,
    pub must_change_password: Option<bool>,
    pub ad_config_id: Option<u64>,
    pub oid_config_id: Option<u64>,
}

/// The content of [`UserAuthData`].
pub struct UserAuthDataView {
    pub method: Seq<char>,
    pub login: Option<Seq<char>>,
    pub password: Option<Seq<char>>,
    pub must_change_password: Option<bool>,
    pub ad_config_id: Option<u64>,
    pub oid_config_id: Option<u64>,
}

impl DeepView for UserAuthData {
    type V = UserAuthDataView;

    open spec fn deep_view(&self) -> UserAuthDataView {
        UserAuthDataView {
            method: self.method@,
            login: self.login.deep_view(),
            password: self.password.deep_view(),
            must_change_password: self.must_change_password,
            ad_config_id: self.ad_config_id,
            oid_config_id: self.oid_config_id,
        }
    }
}

/// The first administrator of a new customer.
#[derive(Debug, Clone, PartialEq, Eq)]
pub struct FirstAdminUser {
    pub first_name: String,
    pub last_name: String,
    pub user_name: Option<String>,
    pub auth_data: Option<UserAuthData>,
    pub receiver_language: Option<String>,
    pub notify_user: Option<bool>,
    pub email: Option<String>,
    pub phone: Option<String>,
}

/// The content of a [`FirstAdminUser`].
pub struct FirstAdminUserView {
    pub first_name: Seq<char>,
    pub last_name: Seq<char>,
    pub user_name: Option<Seq<char>>,
    pub auth_data: Option<UserAuthDataView>,
    pub receiver_language: Option<Seq<char>>,
    pub notify_user: Option<bool>,
    pub email: Option<Seq<char>>,
    pub phone: Option<Seq<char>>,
}

impl DeepView for FirstAdminUser {
    type V = FirstAdminUserView;

    open spec fn deep_view(&self) -> FirstAdminUserView {
        FirstAdminUserView {
            first_name: self.first_name@,
            last_name: self.last_name@,
            user_name: self.user_name.deep_view(),
            auth_data: self.auth_data.deep_view(),
            receiver_language: self.receiver_language.deep_view(),
            notify_user: self.notify_user,
            email: self.email.deep_view(),
            phone: self.phone.deep_view(),
        }
    }
}

/// Sign-in with a password of the service's own, which has to be changed
/// at the first login.
pub open spec fn local_auth_data() -> UserAuthDataView {
    UserAuthDataView {
        method: "basic"@,
        login: None,
        password: None,
        must_change_password: Some(true),
        ad_config_id: None,
        oid_config_id: None,
    }
}

impl FirstAdminUser {
    /// An administrator who signs in with a password of the service's own
    /// and is reached under `email`.
    pub fn new_local(
        first_name: String,
        last_name: String,
        user_name: Option<String>,
        email: String,
        receiver_language: Option<String>,
    ) -> (r: FirstAdminUser)
        ensures
            r.deep_view() == (FirstAdminUserView {
                first_name: first_name@,
                last_name: last_name@,
                user_name: user_name.deep_view(),
                auth_data: Some(local_auth_data()),
                receiver_language: receiver_language.deep_view(),
                notify_user: None,
                email: Some(email@),
                phone: None,
            }),
    {
        let auth_data = UserAuthData {
            method: String::from_str("basic"),
            login: None,
            password: None,
            must_change_password: Some(true),
            ad_config_id: None,
            oid_config_id: None,
        };
        FirstAdminUser {
            first_name,
            last_name,
            user_name,
            auth_data: Some(auth_data),
            receiver_language,
            notify_user: None,
            email: Some(email),
            phone: None,
        }
    }
}

/// What is sent to create a customer. The contract type, the two limits
/// and the first administrator are always sent, the rest only where given.
#[derive(Debug, Clone, PartialEq, Eq)]
pub struct NewCustomerRequest {
    pub customer_contract_type: String,
    pub quota_max: u64,
    pub user_max: u64,
    pub first_admin_user: FirstAdminUser,
    pub company_name: Option<String>,
    pub trial_days: Option<u64>,
    pub is_locked: Option<bool>,
    pub customer_attributes: Option<CustomerAttributes>,
    pub provider_customer_id: Option<String>,
    pub webhooks_max: Option<u64>,
}

/// The content of a [`NewCustomerRequest`].
pub struct NewCustomerRequestView {
    pub customer_contract_type: Seq<char>,
    pub quota_max: u64,
    pub user_max: u64,
    pub first_admin_user: FirstAdminUserView,
    pub company_name: Option<Seq<char>>,
    pub trial_days: Option<u64>,
    pub is_locked: Option<bool>,
    pub customer_attributes: Option<CustomerAttributesView>,
    pub provider_customer_id: Option<Seq<char>>,
    pub webhooks_max: Option<u64>,
}

impl DeepView for NewCustomerRequest {
    type V = NewCustomerRequestView;

    open spec fn deep_view(&self) -> NewCustomerRequestView {
        NewCustomerRequestView {
            customer_contract_type: self.customer_contract_type@,
            quota_max: self.quota_max,
            user_max: self.user_max,
            first_admin_user: self.first_admin_user.deep_view(),
            company_name: self.company_name.deep_view(),
            trial_days: self.trial_days,
            is_locked: self.is_locked,
            customer_attributes: self.customer_attributes.deep_view(),
            provider_customer_id: self.provider_customer_id.deep_view(),
            webhooks_max: self.webhooks_max,
        }
    }
}

impl NewCustomerRequest {
    /// A request made of exactly the given parts.
    pub fn new(
        customer_contract_type: String,
        quota_max: u64,
        user_max: u64,
        first_admin_user: FirstAdminUser,
        company_name: Option<String>,
        trial_days: Option<u64>,
        is_locked: Option<bool>,
        customer_attributes: Option<CustomerAttributes>,
        provider_customer_id: Option<String>,
        webhooks_max: Option<u64>,
    ) -> (r: NewCustomerRequest)
        ensures
            r.deep_view() == (NewCustomerRequestView {
                customer_contract_type: customer_contract_type@,
                quota_max,
                user_max,
                first_admin_user: first_admin_user.deep_view(),
                company_name: company_name.deep_view(),
                trial_days,
                is_locked,
                customer_attributes: customer_attributes.deep_view(),
                provider_customer_id: provider_customer_id.deep_view(),
                webhooks_max,
            }),
    {
        NewCustomerRequest {
            customer_contract_type,
            quota_max,
            user_max,
            first_admin_user,
            company_name,
            trial_days,
            is_locked,
            customer_attributes,
            provider_customer_id,
            webhooks_max,
        }
    }
}

/// What is sent to change a customer: only the parts that are given are
/// sent, and only they are changed.
#[derive(Debug, Clone, PartialEq, Eq)]
pub struct UpdateCustomerRequest {
    pub company_name: Option<String>,
    pub customer_contract_type: Option<String>,
    pub quota_max: Option<u64>,
    pub user_max: Option<u64>,
    pub is_locked: Option<bool>,
    pub provider_customer_id: Option<i64>,
    pub webhooks_max: Option<u64>,
}

/// The content of an [`UpdateCustomerRequest`].
pub struct UpdateCustomerRequestView {
    pub company_name: Option<Seq<char>>,
    pub customer_contract_type: Option<Seq<char>>,
    pub quota_max: Option<u64>,
    pub user_max: Option<u64>,
    pub is_locked: Option<bool>,
    pub provider_customer_id: Option<i64>,
    pub webhooks_max: Option<u64>,
}

impl DeepView for UpdateCustomerRequest {
    type V = UpdateCustomerRequestView;

    open spec fn deep_view(&self) -> UpdateCustomerRequestView {
        UpdateCustomerRequestView {
            company_name: self.company_name.deep_view(),
            customer_contract_type: self.customer_contract_type.deep_view(),
            quota_max: self.quota_max,
            user_max: self.user_max,
            is_locked: self.is_locked,
            provider_customer_id: self.provider_customer_id,
            webhooks_max: self.webhooks_max,
        }
    }
}

/// A customer as the server reports it. The server keeps what is used
/// within what is allowed; this side does not check it.
#[derive(Debug, Clone, PartialEq, Eq)]
pub struct Customer {
    pub id: u64,
    pub company_name: String,
    pub customer_contract_type: String,
    pub quota_max: u64,
    pub quota_used: u64,
    pub user_max: u64,
    pub user_used: u64,
    pub created_at: Timestamp,
    pub customer_attributes: Option<CustomerAttributes>,
    pub updated_at: Option<Timestamp>,
    pub last_login_at: Option<Timestamp>,
    pub trial_days_left: Option<i32>,
    pub is_locked: Option<bool>,
    pub customer_uuid: Option<String>,
}

/// The content of a [`Customer`].
pub struct CustomerView {
    pub id: u64,
    pub company_name: Seq<char>,
    pub customer_contract_type: Seq<char>,
    pub quota_max: u64,
    pub quota_used: u64,
    pub user_max: u64,
    pub user_used: u64,
    pub created_at: Timestamp,
    pub customer_attributes: Option<CustomerAttributesView>,
    pub updated_at: Option<Timestamp>,
    pub last_login_at: Option<Timestamp>,
    pub trial_days_left: Option<i32>,
    pub is_locked: Option<bool>,
    pub customer_uuid: Option<Seq<char>>,
}

impl DeepView for Customer {
    type V = CustomerView;

    open spec fn deep_view(&self) -> CustomerView {
        CustomerView {
            id: self.id,
            company_name: self.company_name@,
            customer_contract_type: self.customer_contract_type@,
            quota_max: self.quota_max,
            quota_used: self.quota_used,
            user_max: self.user_max,
            user_used: self.user_used,
            created_at: self.created_at,
            customer_attributes: self.customer_attributes.deep_view(),
            updated_at: self.updated_at,
            last_login_at: self.last_login_at,
            trial_days_left: self.trial_days_left,
            is_locked: self.is_locked,
            customer_uuid: self.customer_uuid.deep_view(),
        }
    }
}

/// One page of the listing of customers.
#[derive(Debug, Clone, PartialEq, Eq)]
pub struct GetCustomersResponse {
    pub range: RangeResponse,
    pub items: Vec<Customer>,
}

/// The content of a [`GetCustomersResponse`].
pub struct GetCustomersResponseView {
    pub range: RangeResponse,
    pub items: Seq<CustomerView>,
}

impl DeepView for GetCustomersResponse {
    type V = GetCustomersResponseView;

    open spec fn deep_view(&self) -> GetCustomersResponseView {
        GetCustomersResponseView { range: self.range, items: self.items.deep_view() }
    }
}

impl GetCustomersResponseView {
    /// Whether the page holds no more customers than its range allows. The
    /// server sees to it; a page is taken as it comes.
    pub open spec fn well_formed(self) -> bool {
        self.range.admits(self.items.len())
    }
}

impl GetCustomersResponse {
    /// Whether the page holds no more customers than its range allows.
    pub fn is_well_formed(&self) -> (r: bool)
        ensures
            r == self.deep_view().well_formed(),
    {
        self.range.holds(self.items.len())
    }
}

/// One page of the attributes of a customer.
#[derive(Debug, Clone, PartialEq, Eq)]
pub struct AttributesResponse {
    pub range: RangeResponse,
    pub items: Vec<KeyValueEntry>,
}

/// The content of an [`AttributesResponse`].
pub struct AttributesResponseView {
    pub range: RangeResponse,
    pub items: Seq<KeyValueEntryView>,
}

impl DeepView for AttributesResponse {
    type V = AttributesResponseView;

    open spec fn deep_view(&self) -> AttributesResponseView {
        AttributesResponseView { range: self.range, items: self.items.deep_view() }
    }
}

impl AttributesResponseView {
    /// Whether the page holds no more attributes than its range allows. The
    /// server sees to it; a page is taken as it comes.
    pub open spec fn well_formed(self) -> bool {
        self.range.admits(self.items.len())
    }
}

impl AttributesResponse {
    /// Whether the page holds no more attributes than its range allows.
    pub fn is_well_formed(&self) -> (r: bool)
        ensures
            r == self.deep_view().well_formed(),
    {
        self.range.holds(self.items.len())
    }
}

/// A single permission within a role.
#[derive(Debug, Clone, PartialEq, Eq)]
pub struct Right {
    pub id: u64,
    pub name: String,
    pub description: String,
}

/// The content of a [`Right`].
pub struct RightView {
    pub id: u64,
    pub name: Seq<char>,
    pub description: Seq<char>,
}

impl DeepView for Right {
    type V = RightView;

    open spec fn deep_view(&self) -> RightView {
        RightView { id: self.id, name: self.name@, description: self.description@ }
    }
}

/// A role that a user holds.
#[derive(Debug, Clone, PartialEq, Eq)]
pub struct Role {
    pub id: u64,
    pub name: String,
    pub description: String,
    pub items: Option<Vec<Right>>,
}

/// The content of a [`Role`].
pub struct RoleView {
    pub id: u64,
    pub name: Seq<char>,
    pub description: Seq<char>,
    pub items: Option<Seq<RightView>>,
}

impl DeepView for Role {
    type V = RoleView;

    open spec fn deep_view(&self) -> RoleView {
        RoleView {
            id: self.id,
            name: self.name@,
            description: self.description@,
            items: self.items.deep_view(),
        }
    }
}

/// The roles of a user.
#[derive(Debug, Clone, PartialEq, Eq)]
pub struct UserRoles {
    pub items: Vec<Role>,
}

/// The content of [`UserRoles`].
pub struct UserRolesView {
    pub items: Seq<RoleView>,
}

impl DeepView for UserRoles {
    type V = UserRolesView;

    open spec fn deep_view(&self) -> UserRolesView {
        UserRolesView { items: self.items.deep_view() }
    }
}

/// A user of a customer, as the listing of users reports them.
#[derive(Debug, Clone, PartialEq, Eq)]
pub struct UserItem {
    pub id: u64,
    pub first_name: String,
    pub last_name: String,
    pub user_name: String,
    pub is_locked: bool,
    pub avatar_uuid: String,
    pub created_at: Option<Timestamp>,
    pub expire_at: Option<Timestamp>,
    pub last_login_success_at: Option<Timestamp>,
    pub is_encryption_enabled: Option<bool>,
    pub email: Option<String>,
    pub phone: Option<String>,
    pub home_room_id: Option<u64>,
    pub user_roles: Option<UserRoles>,
}

/// The content of a [`UserItem`].
pub struct UserItemView {
    pub id: u64,
    pub first_name: Seq<char>,
    pub last_name: Seq<char>,
    pub user_name: Seq<char>,
    pub is_locked: bool,
    pub avatar_uuid: Seq<char>,
    pub created_at: Option<Timestamp>,
    pub expire_at: Option<Timestamp>,
    pub last_login_success_at: Option<Timestamp>,
    pub is_encryption_enabled: Option<bool>,
    pub email: Option<Seq<char>>,
    pub phone: Option<Seq<char>>,
    pub home_room_id: Option<u64>,
    pub user_roles: Option<UserRolesView>,
}

impl DeepView for UserItem {
    type V = UserItemView;

    open spec fn deep_view(&self) -> UserItemView {
        UserItemView {
            id: self.id,
            first_name: self.first_name@,
            last_name: self.last_name@,
            user_name: self.user_name@,
            is_locked: self.is_locked,
            avatar_uuid: self.avatar_uuid@,
            created_at: self.created_at,
            expire_at: self.expire_at,
            last_login_success_at: self.last_login_success_at,
            is_encryption_enabled: self.is_encryption_enabled,
            email: self.email.deep_view(),
            phone: self.phone.deep_view(),
            home_room_id: self.home_room_id,
            user_roles: self.user_roles.deep_view(),
        }
    }
}

/// One page of the users of a customer.
#[derive(Debug, Clone, PartialEq, Eq)]
pub struct UserList {
    pub range: RangeResponse,
    pub items: Vec<UserItem>,
}

/// The content of a [`UserList`].
pub struct UserListView {
    pub range: RangeResponse,
    pub items: Seq<UserItemView>,
}

impl DeepView for UserList {
    type V = UserListView;

    open spec fn deep_view(&self) -> UserListView {
        UserListView { range: self.range, items: self.items.deep_view() }
    }
}

impl UserListView {
    /// Whether the page holds no more users than its range allows. The
    /// server sees to it; a page is taken as it comes.
    pub open spec fn well_formed(self) -> bool {
        self.range.admits(self.items.len())
    }
}

impl UserList {
    /// Whether the page holds no more users than its range allows.
    pub fn is_well_formed(&self) -> (r: bool)
        ensures
            r == self.deep_view().well_formed(),
    {
        self.range.holds(self.items.len())
    }
}

/// What the server answers when a customer was created.
#[derive(Debug, Clone, PartialEq, Eq)]
pub struct NewCustomerResponse {
    pub id: u64,
    pub company_name: String,
    pub customer_contract_type: String,
    pub quota_max: u64,
    pub user_max: u64,
    pub is_locked: Option<bool>,
    pub trial_days: Option<u64>,
    pub created_at: Option<Timestamp>,
    pub first_admin_user: FirstAdminUser,
    pub customer_attributes: Option<CustomerAttributes>,
    pub provider_customer_id: Option<String>,
    pub webhooks_max: Option<u64>,
    pub customer_uuid: String,
}

/// The content of a [`NewCustomerResponse`].
pub struct NewCustomerResponseView {
    pub id: u64,
    pub company_name: Seq<char>,
    pub customer_contract_type: Seq<char>,
    pub quota_max: u64,
    pub user_max: u64,
    pub is_locked: Option<bool>,
    pub trial_days: Option<u64>,
    pub created_at: Option<Timestamp>,
    pub first_admin_user: FirstAdminUserView,
    pub customer_attributes: Option<CustomerAttributesView>,
    pub provider_customer_id: Option<Seq<char>>,
    pub webhooks_max: Option<u64>,
    pub customer_uuid: Seq<char>,
}

impl DeepView for NewCustomerResponse {
    type V = NewCustomerResponseView;

    open spec fn deep_view(&self) -> NewCustomerResponseView {
        NewCustomerResponseView {
            id: self.id,
            company_name: self.company_name@,
            customer_contract_type: self.customer_contract_type@,
            quota_max: self.quota_max,
            user_max: self.user_max,
            is_locked: self.is_locked,
            trial_days: self.trial_days,
            created_at: self.created_at,
            first_admin_user: self.first_admin_user.deep_view(),
            customer_attributes: self.customer_attributes.deep_view(),
            provider_customer_id: self.provider_customer_id.deep_view(),
            webhooks_max: self.webhooks_max,
            customer_uuid: self.customer_uuid@,
        }
    }
}

/// What the server answers when a customer was changed.
#[derive(Debug, Clone, PartialEq, Eq)]
pub struct UpdateCustomerResponse {
    pub id: u64,
    pub company_name: String,
    pub customer_contract_type: String,
    pub quota_max: u64,
    pub user_max: u64,
    pub customer_uuid: String,
    pub is_locked: Option<bool>,
    pub trial_days: Option<u64>,
    pub created_at: Option<Timestamp>,
    pub updated_at: Option<Timestamp>,
    pub customer_attributes: Option<CustomerAttributes>,
    pub provider_customer_id: Option<String>,
    pub webhooks_max: Option<u64>,
}

/// The content of an [`UpdateCustomerResponse`].
pub struct UpdateCustomerResponseView {
    pub id: u64,
    pub company_name: Seq<char>,
    pub customer_contract_type: Seq<char>,
    pub quota_max: u64,
    pub user_max: u64,
    pub customer_uuid: Seq<char>,
    pub is_locked: Option<bool>,
    pub trial_days: Option<u64>,
    pub created_at: Option<Timestamp>,
    pub updated_at: Option<Timestamp>,
    pub customer_attributes: Option<CustomerAttributesView>,
    pub provider_customer_id: Option<Seq<char>>,
    pub webhooks_max: Option<u64>,
}

impl DeepView for UpdateCustomerResponse {
    type V = UpdateCustomerResponseView;

    open spec fn deep_view(&self) -> UpdateCustomerResponseView {
        UpdateCustomerResponseView {
            id: self.id,
            company_name: self.company_name@,
            customer_contract_type: self.customer_contract_type@,
            quota_max: self.quota_max,
            user_max: self.user_max,
            customer_uuid: self.customer_uuid@,
            is_locked: self.is_locked,
            trial_days: self.trial_days,
            created_at: self.created_at,
            updated_at: self.updated_at,
            customer_attributes: self.customer_attributes.deep_view(),
            provider_customer_id: self.provider_customer_id.deep_view(),
            webhooks_max: self.webhooks_max,
        }
    }
}

/// The body that the server sends with a status that is no success.
#[derive(Debug, Clone, PartialEq, Eq)]
pub struct DRACOONErrorResponse {
    pub code: i64,
    pub message: String,
    pub debug_info: Option<String>,
    pub error_code: Option<i64>,
}

/// The content of a [`DRACOONErrorResponse`].
pub struct DRACOONErrorResponseView {
    pub code: i64,
    pub message: Seq<char>,
    pub debug_info: Option<Seq<char>>,
    pub error_code: Option<i64>,
}

impl DeepView for DRACOONErrorResponse {
    type V = DRACOONErrorResponseView;

    open spec fn deep_view(&self) -> DRACOONErrorResponseView {
        DRACOONErrorResponseView {
            code: self.code,
            message: self.message@,
            debug_info: self.debug_info.deep_view(),
            error_code: self.error_code,
        }
    }
}

} // verus!
