//! The commands of the client, each as the call of the provisioning client
//! that it comes to, and the making of a new customer from a file or from
//! answers given at the terminal.

use crate::cmd::models::{DcProvError, NewCustomerRequest, UpdateCommand};
use crate::json::{FromJson, JsonModel, JsonValue, ToJson};
use crate::provisioning::client::{
    attributes_path_text, customer_path_text, customer_url_text, customers_path_text,
    customers_url_text, request_made, users_path_text, with_listing, ApiRequest,
    DRACOONProvisioning, HttpMethod,
};
use crate::provisioning::error::DRACOONProvisioningError;
use crate::provisioning::models::NewCustomerRequest as ProvisioningRequest;
use crate::provisioning::models::{
    local_auth_data, CustomerAttributes, CustomerAttributesView, FirstAdminUser,
    FirstAdminUserView, KeyValueEntryView, NewCustomerRequestView, UpdateCustomerRequest,
    UpdateCustomerRequestView, UserAuthData,
};
use crate::text::{number_answer, read_positive, trimmed, unsigned_of, NumberAnswer};
use vstd::prelude::*;
use vstd::string::*;

verus! {

/// The one thing that an update changes.
#[derive(Debug, Clone, PartialEq, Eq)]
pub enum UpdateType {
    CompanyName(String),
    QuotaMax(u64),
    UserMax(u64),
}

/// The one thing that an update command changes.
pub open spec fn update_type_of(command: UpdateCommand) -> UpdateType {
    match command {
        UpdateCommand::CompanyName { company_name } => UpdateType::CompanyName(company_name),
        UpdateCommand::QuotaMax { quota_max } => UpdateType::QuotaMax(quota_max),
        UpdateCommand::UserMax { user_max } => UpdateType::UserMax(user_max),
    }
}

impl UpdateType {
    /// The one thing that an update command changes.
    pub fn of_command(command: UpdateCommand) -> (r: UpdateType)
        ensures
            r == update_type_of(command),
    {
        match command {
            UpdateCommand::CompanyName { company_name } => UpdateType::CompanyName(company_name),
            UpdateCommand::QuotaMax { quota_max } => UpdateType::QuotaMax(quota_max),
            UpdateCommand::UserMax { user_max } => UpdateType::UserMax(user_max),
        }
    }
}

/// The request that changes nothing.
pub open spec fn no_update() -> UpdateCustomerRequestView {
    UpdateCustomerRequestView {
        company_name: None,
        customer_contract_type: None,
        quota_max: None,
        user_max: None,
        is_locked: None,
        provider_customer_id: None,
        webhooks_max: None,
    }
}

/// The request that changes one thing and nothing else.
pub open spec fn update_request_of(update_type: UpdateType) -> UpdateCustomerRequestView {
    match update_type {
        UpdateType::CompanyName(name) => UpdateCustomerRequestView {
            company_name: Some(name@),
            ..no_update()
        },
        UpdateType::QuotaMax(quota_max) => UpdateCustomerRequestView {
            quota_max: Some(quota_max),
            ..no_update()
        },
        UpdateType::UserMax(user_max) => UpdateCustomerRequestView {
            user_max: Some(user_max),
            ..no_update()
        },
    }
}

/// Makes the request that changes one thing and nothing else.
pub fn create_update_request(update_type: UpdateType) -> (r: UpdateCustomerRequest)
    ensures
        r.deep_view() == update_request_of(update_type),
{
    let mut r = UpdateCustomerRequest {
        company_name: None,
        customer_contract_type: None,
        quota_max: None,
        user_max: None,
        is_locked: None,
        provider_customer_id: None,
        webhooks_max: None,
    };
    match update_type {
        UpdateType::CompanyName(name) => {
            r.company_name = Some(name);
        },
        UpdateType::QuotaMax(quota_max) => {
            r.quota_max = Some(quota_max);
        },
        UpdateType::UserMax(user_max) => {
            r.user_max = Some(user_max);
        },
    }
    r
}

/// What a listing is asked with. A part that is missing is left to the
/// provisioning client, which asks for the first and largest page.
#[derive(Debug, Clone, PartialEq, Eq)]
pub struct ListAllParams {
    pub offset: Option<u64>,
    pub limit: Option<u64>,
    pub filter: Option<String>,
    pub sort: Option<String>,
}

/// Gathers what a listing is asked with.
pub fn build_params(
    filter: Option<String>,
    sort: Option<String>,
    offset: Option<u64>,
    limit: Option<u64>,
) -> (r: ListAllParams)
    ensures
        r.offset == offset,
        r.limit == limit,
        r.filter == filter,
        r.sort == sort,
{
    ListAllParams { offset, limit, filter, sort }
}

/// The attributes that a list of pairs of key and value stands for, in
/// the order of the list.
pub open spec fn attributes_of(pairs: Seq<(Seq<char>, Seq<char>)>) -> CustomerAttributesView {
    CustomerAttributesView {
        items: Seq::new(
            pairs.len(),
            |i: int| KeyValueEntryView { key: pairs[i].0, value: pairs[i].1 },
        ),
    }
}

/// Makes attributes of the pairs of key and value given on the command
/// line.
pub fn attributes_from_pairs(attribs: &Vec<(String, String)>) -> (r: CustomerAttributes)
    ensures
        r.deep_view() == attributes_of(attribs.deep_view()),
{
    let mut r = CustomerAttributes::new();
    let mut i: usize = 0;
    while i < attribs.len()
        invariant
            i <= attribs.len(),
            r.deep_view().items.len() == i,
            forall|k: int|
                0 <= k < i ==> #[trigger] r.deep_view().items[k] == (KeyValueEntryView {
                    key: attribs[k].0@,
                    value: attribs[k].1@,
                }),
        decreases attribs.len() - i,
    {
        r.add_attribute(attribs[i].0.clone(), attribs[i].1.clone());
        i += 1;
    }
    assert(r.deep_view().items =~= attributes_of(attribs.deep_view()).items);
    r
}

/// The request that lists customers.
pub fn list_customers(
    provider: &DRACOONProvisioning,
    filter: Option<String>,
    sort: Option<String>,
    offset: Option<u64>,
    limit: Option<u64>,
) -> (r: Result<ApiRequest, DRACOONProvisioningError>)
    ensures
        request_made(
            r,
            HttpMethod::Get,
            customers_url_text(
                provider.base_url_text(),
                filter.deep_view(),
                sort.deep_view(),
                limit,
                offset,
                None,
            ),
            provider.token_text(),
            None,
        ),
{
    let params = build_params(filter, sort, offset, limit);
    provider.get_customers(params.filter, params.sort, params.limit, params.offset, None)
}

/// The request that reads one customer.
pub fn get_customer(provider: &DRACOONProvisioning, id: u64) -> (r: Result<
    ApiRequest,
    DRACOONProvisioningError,
>)
    ensures
        request_made(
            r,
            HttpMethod::Get,
            customer_url_text(provider.base_url_text(), id, None),
            provider.token_text(),
            None,
        ),
{
    provider.get_customer(id, None)
}

/// The request that changes one thing of a customer.
pub fn update_customer(provider: &DRACOONProvisioning, id: u64, update_type: UpdateType) -> (r:
    Result<ApiRequest, DRACOONProvisioningError>)
    ensures
        request_made(
            r,
            HttpMethod::Put,
            customer_path_text(provider.base_url_text(), id),
            provider.token_text(),
            Some(UpdateCustomerRequest::json_of(update_request_of(update_type))),
        ),
{
    let update_customer = create_update_request(update_type);
    provider.update_customer(id, update_customer)
}

/// The request that deletes a customer.
pub fn delete_customer(provider: &DRACOONProvisioning, id: u64) -> (r: Result<
    ApiRequest,
    DRACOONProvisioningError,
>)
    ensures
        request_made(
            r,
            HttpMethod::Delete,
            customer_path_text(provider.base_url_text(), id),
            provider.token_text(),
            None,
        ),
{
    provider.delete_customer(id)
}

/// The request that creates a customer.
pub fn create_customer(
    provider: &DRACOONProvisioning,
    new_customer: ProvisioningRequest,
) -> (r: Result<ApiRequest, DRACOONProvisioningError>)
    ensures
        request_made(
            r,
            HttpMethod::Post,
            customers_path_text(provider.base_url_text()),
            provider.token_text(),
            Some(
                ProvisioningRequest::json_of(new_customer.deep_view()),
            ),
        ),
{
    provider.create_customer(new_customer)
}

/// The request that lists the attributes of a customer.
pub fn get_customer_attributes(
    provider: &DRACOONProvisioning,
    id: u64,
    filter: Option<String>,
    sort: Option<String>,
    offset: Option<u64>,
    limit: Option<u64>,
) -> (r: Result<ApiRequest, DRACOONProvisioningError>)
    ensures
        request_made(
            r,
            HttpMethod::Get,
            with_listing(
                attributes_path_text(provider.base_url_text(), id),
                filter.deep_view(),
                sort.deep_view(),
                limit,
                offset,
            ),
            provider.token_text(),
            None,
        ),
{
    let params = build_params(filter, sort, offset, limit);
    provider.get_customer_attributes(id, params.filter, params.sort, params.offset, params.limit)
}

/// The request that sets the attributes given on the command line.
pub fn update_customer_attributes(
    provider: &DRACOONProvisioning,
    id: u64,
    attribs: Vec<(String, String)>,
) -> (r: Result<ApiRequest, DRACOONProvisioningError>)
    ensures
        request_made(
            r,
            HttpMethod::Put,
            attributes_path_text(provider.base_url_text(), id),
            provider.token_text(),
            Some(CustomerAttributes::json_of(attributes_of(attribs.deep_view()))),
        ),
{
    let customer_attribs = attributes_from_pairs(&attribs);
    provider.update_customer_attributes(id, customer_attribs)
}

/// The request that lists the users of a customer.
pub fn get_customer_users(
    provider: &DRACOONProvisioning,
    id: u64,
    filter: Option<String>,
    sort: Option<String>,
    offset: Option<u64>,
    limit: Option<u64>,
) -> (r: Result<ApiRequest, DRACOONProvisioningError>)
    ensures
        request_made(
            r,
            HttpMethod::Get,
            with_listing(
                users_path_text(provider.base_url_text(), id),
                filter.deep_view(),
                sort.deep_view(),
                limit,
                offset,
            ),
            provider.token_text(),
            None,
        ),
{
    let params = build_params(filter, sort, offset, limit);
    provider.get_customer_users(id, params.filter, params.sort, params.offset, params.limit)
}

impl FromJson for NewCustomerRequest {
    open spec fn of_json(j: JsonModel) -> Option<NewCustomerRequestView> {
        ProvisioningRequest::of_json(j)
    }

    fn from_json(j: &JsonValue) -> (r: Option<NewCustomerRequest>) {
        match ProvisioningRequest::from_json(j) {
            Some(request) => Some(
                NewCustomerRequest {
                    customer_contract_type: request.customer_contract_type,
                    quota_max: request.quota_max,
                    user_max: request.user_max,
                    first_admin_user: request.first_admin_user,
                    company_name: request.company_name,
                    trial_days: request.trial_days,
                    is_locked: request.is_locked,
                    customer_attributes: request.customer_attributes,
                    provider_customer_id: request.provider_customer_id,
                    webhooks_max: request.webhooks_max,
                },
            ),
            None => None,
        }
    }
}

/// Reads the new customer that the document in a file describes. A
/// document that describes none fails the run as input that cannot be
/// read.
pub fn parse_customer_json_from_file(document: &JsonValue) -> (r: Result<
    ProvisioningRequest,
    DcProvError,
>)
    ensures
        match NewCustomerRequest::of_json(document@) {
            Some(v) => r matches Ok(request) && request.deep_view() == v,
            None => r matches Err(DcProvError::Io),
        },
{
    match NewCustomerRequest::from_json(document) {
        Some(new_customer) => Ok(
            ProvisioningRequest::from(new_customer),
        ),
        None => Err(DcProvError::Io),
    }
}

/// What was answered at the terminal when a new customer was asked for.
#[derive(Debug, Clone, PartialEq, Eq)]
pub struct PromptAnswers {
    pub first_name: String,
    pub last_name: String,
    pub email: String,
    /// The user name, where one was given.
    pub user_name: Option<String>,
    pub company_name: String,
    pub quota_max: u64,
    pub user_max: u64,
}

/// What was typed at the terminal when a new customer was asked for. The
/// questions for the two limits are asked again until an answer is
/// accepted, so each of them has a list of answers, in the order in which
/// they were typed.
#[derive(Debug, Clone, PartialEq, Eq)]
pub struct TypedAnswers {
    pub first_name: String,
    pub last_name: String,
    pub email: String,
    /// The user name, where one was given.
    pub user_name: Option<String>,
    pub company_name: String,
    pub quota_max: Vec<String>,
    pub user_max: Vec<String>,
}

/// The limit that a typed answer gives: a number above zero, white space
/// around it not counted. Any other answer gives none: the question has
/// to be asked again.
pub open spec fn accepted_limit(answer: Seq<char>) -> Option<u64> {
    match number_answer(unsigned_of(trimmed(answer))) {
        NumberAnswer::Accepted(n) => Some(n),
        _ => None,
    }
}

/// The limit that the answers to one question give: that of the first
/// answer that is accepted. Answers before it were turned down, answers
/// after it do not count.
pub open spec fn first_accepted_limit(answers: Seq<Seq<char>>) -> Option<u64>
    decreases answers.len(),
{
    if answers.len() == 0 {
        None
    } else {
        match accepted_limit(answers[0]) {
            Some(n) => Some(n),
            None => first_accepted_limit(answers.skip(1)),
        }
    }
}

/// Finds the limit that the answers to one question give. It is above
/// zero.
pub fn first_accepted(answers: &Vec<String>) -> (r: Option<u64>)
    ensures
        r == first_accepted_limit(answers.deep_view()),
        r matches Some(n) ==> n > 0,
{
    let ghost all = answers.deep_view();
    let mut i: usize = 0;
    assert(all.skip(0) =~= all);
    while i < answers.len()
        invariant
            i <= answers.len(),
            all == answers.deep_view(),
            first_accepted_limit(all) == first_accepted_limit(all.skip(i as int)),
        decreases answers.len() - i,
    {
        assert(all.skip(i as int)[0] == answers[i as int]@);
        assert(all.skip(i as int).skip(1) =~= all.skip(i + 1));
        match read_positive(answers[i].as_str()) {
            NumberAnswer::Accepted(n) => {
                return Some(n);
            },
            _ => {},
        }
        i += 1;
    }
    None
}

/// The answers that what was typed amounts to, where both questions for a
/// limit were answered acceptably in the end: everything else as it was
/// typed.
pub open spec fn accepted_answers(typed: TypedAnswers) -> Option<PromptAnswers> {
    match (
        first_accepted_limit(typed.quota_max.deep_view()),
        first_accepted_limit(typed.user_max.deep_view()),
    ) {
        (Some(quota_max), Some(user_max)) => Some(
            PromptAnswers {
                first_name: typed.first_name,
                last_name: typed.last_name,
                email: typed.email,
                user_name: typed.user_name,
                company_name: typed.company_name,
                quota_max,
                user_max,
            },
        ),
        _ => None,
    }
}

impl PromptAnswers {
    /// Takes what was typed where both limits were given in the end. Both
    /// limits are above zero then.
    pub fn of_typed(typed: TypedAnswers) -> (r: Option<PromptAnswers>)
        ensures
            r == accepted_answers(typed),
            r matches Some(answers) ==> answers.quota_max > 0 && answers.user_max > 0,
    {
        let quota_max = match first_accepted(&typed.quota_max) {
            Some(n) => n,
            None => {
                return None;
            },
        };
        let user_max = match first_accepted(&typed.user_max) {
            Some(n) => n,
            None => {
                return None;
            },
        };
        Some(
            PromptAnswers {
                first_name: typed.first_name,
                last_name: typed.last_name,
                email: typed.email,
                user_name: typed.user_name,
                company_name: typed.company_name,
                quota_max,
                user_max,
            },
        )
    }
}

/// The new customer that answers describe: a paying customer with the
/// given name and limits, whose first administrator signs in with a
/// password of the service's own under the user name given, or under the
/// address where none was given, and is notified.
pub open spec fn prompted_customer(answers: PromptAnswers) -> NewCustomerRequestView {
    NewCustomerRequestView {
        customer_contract_type: "pay"@,
        quota_max: answers.quota_max,
        user_max: answers.user_max,
        first_admin_user: FirstAdminUserView {
            first_name: answers.first_name@,
            last_name: answers.last_name@,
            user_name: Some(
                match answers.user_name {
                    Some(name) => name@,
                    None => answers.email@,
                },
            ),
            auth_data: Some(local_auth_data()),
            receiver_language: None,
            notify_user: Some(true),
            email: Some(answers.email@),
            phone: None,
        },
        company_name: Some(answers.company_name@),
        trial_days: None,
        is_locked: None,
        customer_attributes: None,
        provider_customer_id: None,
        webhooks_max: None,
    }
}

/// Makes the new customer that the answers describe.
pub fn prompt_new_customer(answers: PromptAnswers) -> (r:
    ProvisioningRequest)
    ensures
        r.deep_view() == prompted_customer(answers),
{
    let PromptAnswers {
        first_name,
        last_name,
        email,
        user_name,
        company_name,
        quota_max,
        user_max,
    } = answers;
    let user_name = match user_name {
        Some(name) => name,
        None => email.clone(),
    };
    let auth_data = UserAuthData {
        method: String::from_str("basic"),
        login: None,
        password: None,
        must_change_password: Some(true),
        ad_config_id: None,
        oid_config_id: None,
    };
    let first_admin_user = FirstAdminUser {
        first_name,
        last_name,
        user_name: Some(user_name),
        email: Some(email),
        auth_data: Some(auth_data),
        notify_user: Some(true),
        receiver_language: None,
        phone: None,
    };
    ProvisioningRequest::new(
        String::from_str("pay"),
        quota_max,
        user_max,
        first_admin_user,
        Some(company_name),
        None,
        None,
        None,
        None,
        None,
    )
}

/// Makes the new customer that what was typed at the terminal describes,
/// where both limits are accepted. Storage and users of a customer made
/// at the terminal are never limited to zero.
pub fn prompt_typed_customer(typed: TypedAnswers) -> (r: Option<ProvisioningRequest>)
    ensures
        match accepted_answers(typed) {
            Some(answers) => r matches Some(request) && request.deep_view() == prompted_customer(
                answers,
            ),
            None => r is None,
        },
        r matches Some(request) ==> request.quota_max > 0 && request.user_max > 0,
{
    match PromptAnswers::of_typed(typed) {
        Some(answers) => Some(prompt_new_customer(answers)),
        None => None,
    }
}

/// Splits `KEY=VALUE` at its first equals sign; `None` where there is
/// none.
pub fn parse_key_val(s: &str) -> (r: Option<(String, String)>)
    ensures
        match r {
            Some((key, value)) => s@ == key@ + seq!['='] + value@ && !key@.contains('='),
            None => !s@.contains('='),
        },
{
    let n = s.unicode_len();
    let mut i: usize = 0;
    while i < n
        invariant
            i <= n,
            n == s@.len(),
            forall|k: int| 0 <= k < i ==> s@[k] != '=',
        decreases n - i,
    {
        if s.get_char(i) == '=' {
            let key = String::from_str(s.substring_char(0, i));
            let value = String::from_str(s.substring_char(i + 1, n));
            assert(s@ =~= key@ + seq!['='] + value@);
            return Some((key, value));
        }
        i += 1;
    }
    None
}

} // verus!
