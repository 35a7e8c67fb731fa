//! The provisioning client without its transport: it makes the request
//! that a call sends, and reads the result of the call from the status and
//! the body of the reply. Sending is left to the caller.

use crate::json::{FromJson, JsonModel, JsonValue, ToJson};
use crate::provisioning::error::{
    status_failure, DRACOONProvisioningError, ProvisioningErrorView, RequestFailure,
};
use crate::provisioning::models::{
    AttributesResponse, Customer, CustomerAttributes, DRACOONErrorResponse,
    DRACOONErrorResponseView, GetCustomersResponse, NewCustomerRequest, NewCustomerResponse,
    UpdateCustomerRequest, UpdateCustomerResponse, UserList,
};
use crate::text::{bool_str, bool_text, decimal, push_decimal};
use vstd::prelude::*;
use vstd::string::*;

verus! {

/// The page size that is asked for where the caller names none: the
/// largest that the server grants.
pub const DEFAULT_LIMIT: u64 = 500;

/// The offset that is asked for where the caller names none.
pub const DEFAULT_OFFSET: u64 = 0;

/// Whether attributes are asked for where the caller does not say.
pub const DEFAULT_INCLUDE_ATTRIBUTES: bool = false;

/// The method of a request.
#[derive(Debug, Clone, Copy, PartialEq, Eq)]
pub enum HttpMethod {
    Get,
    Post,
    Put,
    Delete,
}

/// A request, ready to be sent.
#[derive(Debug, PartialEq, Eq)]
pub struct ApiRequest {
    pub method: HttpMethod,
    pub url: String,
    pub headers: Vec<(String, String)>,
    pub body: Option<JsonValue>,
}

/// The content of an [`ApiRequest`].
pub struct ApiRequestView {
    pub method: HttpMethod,
    pub url: Seq<char>,
    pub headers: Seq<(Seq<char>, Seq<char>)>,
    pub body: Option<JsonModel>,
}

impl DeepView for ApiRequest {
    type V = ApiRequestView;

    open spec fn deep_view(&self) -> ApiRequestView {
        ApiRequestView {
            method: self.method,
            url: self.url@,
            headers: self.headers.deep_view(),
            body: match self.body {
                Some(b) => Some(b@),
                None => None,
            },
        }
    }
}

/// The headers of every request: the service token under its own name,
/// and the announcement of a JSON body.
pub open spec fn api_headers(token: Seq<char>) -> Seq<(Seq<char>, Seq<char>)> {
    seq![("X-Sds-Service-Token"@, token), ("Content-Type"@, "application/json"@)]
}

/// The request with the given method, address and body, made in the name
/// of `token`.
pub open spec fn api_request(
    method: HttpMethod,
    url: Seq<char>,
    token: Seq<char>,
    body: Option<JsonModel>,
) -> ApiRequestView {
    ApiRequestView { method, url, headers: api_headers(token), body }
}

/// The normal form of an address; `None` where the text is no absolute
/// URL.
pub uninterp spec fn parsed_url(text: Seq<char>) -> Option<Seq<char>>;

/// `url::Url::parse`, and for a URL that it accepts the text that
/// `String::from` makes of it, which is the serialization that the `Url`
/// holds. The contract only names the outcome: the same text is always
/// accepted or refused alike, and has the same normal form.
#[verifier::external_body]
fn parse_url(text: &str) -> (r: Result<String, url::ParseError>)
    ensures
        r matches Ok(url) ==> parsed_url(text@) == Some(url@),
        r is Err ==> parsed_url(text@) is None,
{
    match url::Url::parse(text) {
        Ok(url) => Ok(String::from(url)),
        Err(e) => Err(e),
    }
}

/// Whether `r` is what becomes of a request once its address was parsed:
/// the request with the address in normal form, or the refusal of the
/// address.
pub open spec fn request_made(
    r: Result<ApiRequest, DRACOONProvisioningError>,
    method: HttpMethod,
    text: Seq<char>,
    token: Seq<char>,
    body: Option<JsonModel>,
) -> bool {
    match parsed_url(text) {
        Some(url) => r matches Ok(request) && request.deep_view() == api_request(
            method,
            url,
            token,
            body,
        ),
        None => r matches Err(DRACOONProvisioningError::InvalidUrl(_)),
    }
}

impl ApiRequest {
    /// A request with the headers that every request carries.
    pub fn new(method: HttpMethod, url: String, token: &str, body: Option<JsonValue>) -> (r:
        ApiRequest)
        ensures
            r.deep_view() == api_request(
                method,
                url@,
                token@,
                match body {
                    Some(b) => Some(b@),
                    None => None,
                },
            ),
    {
        let mut headers: Vec<(String, String)> = Vec::new();
        headers.push((String::from_str("X-Sds-Service-Token"), String::from_str(token)));
        headers.push((String::from_str("Content-Type"), String::from_str("application/json")));
        let r = ApiRequest { method, url, headers, body };
        assert(r.headers.deep_view() =~= api_headers(token@));
        r
    }

    /// A request to an address that was parsed, or the refusal of the
    /// address.
    pub fn for_address(
        method: HttpMethod,
        address: Result<String, url::ParseError>,
        token: &str,
        body: Option<JsonValue>,
    ) -> (r: Result<ApiRequest, DRACOONProvisioningError>)
        ensures
            match address {
                Ok(url) => r matches Ok(request) && request.deep_view() == api_request(
                    method,
                    url@,
                    token@,
                    match body {
                        Some(b) => Some(b@),
                        None => None,
                    },
                ),
                Err(e) => r matches Err(DRACOONProvisioningError::InvalidUrl(x)) && x == e,
            },
    {
        match address {
            Ok(url) => Ok(ApiRequest::new(method, url, token, body)),
            Err(e) => Err(DRACOONProvisioningError::InvalidUrl(e)),
        }
    }
}

/// The address of the collection of customers below `base`.
pub open spec fn customers_path_text(base: Seq<char>) -> Seq<char> {
    base + "api/v4/provisioning/"@ + "customers"@
}

/// The address of the customer `id`.
pub open spec fn customer_path_text(base: Seq<char>, id: u64) -> Seq<char> {
    customers_path_text(base) + "/"@ + decimal(id as nat)
}

/// The address of the attributes of the customer `id`.
pub open spec fn attributes_path_text(base: Seq<char>, id: u64) -> Seq<char> {
    customer_path_text(base, id) + "/"@ + "customerAttributes"@
}

/// The address of the users of the customer `id`.
pub open spec fn users_path_text(base: Seq<char>, id: u64) -> Seq<char> {
    customer_path_text(base, id) + "/"@ + "users"@
}

/// `text` followed by a parameter where it has a value, and unchanged
/// where it has none. `name` holds the separator and the equals sign.
pub open spec fn with_parameter(text: Seq<char>, name: Seq<char>, value: Option<Seq<char>>) -> Seq<
    char,
> {
    match value {
        Some(v) => text + name + v,
        None => text,
    }
}

/// The limit that is asked for.
pub open spec fn limit_or_default(limit: Option<u64>) -> u64 {
    match limit {
        Some(n) => n,
        None => DEFAULT_LIMIT,
    }
}

/// The offset that is asked for.
pub open spec fn offset_or_default(offset: Option<u64>) -> u64 {
    match offset {
        Some(n) => n,
        None => DEFAULT_OFFSET,
    }
}

/// Whether attributes are asked for.
pub open spec fn include_or_default(include_attributes: Option<bool>) -> bool {
    match include_attributes {
        Some(b) => b,
        None => DEFAULT_INCLUDE_ATTRIBUTES,
    }
}

/// A path followed by the query of a listing: limit and offset always,
/// filter and sort order where given, in this order.
pub open spec fn with_listing(
    path: Seq<char>,
    filter: Option<Seq<char>>,
    sort: Option<Seq<char>>,
    limit: Option<u64>,
    offset: Option<u64>,
) -> Seq<char> {
    with_parameter(
        with_parameter(
            path + "/?limit="@ + decimal(limit_or_default(limit) as nat) + "&offset="@ + decimal(
                offset_or_default(offset) as nat,
            ),
            "&filter="@,
            filter,
        ),
        "&sort="@,
        sort,
    )
}

/// The address that lists customers, before it is parsed.
pub open spec fn customers_url_text(
    base: Seq<char>,
    filter: Option<Seq<char>>,
    sort: Option<Seq<char>>,
    limit: Option<u64>,
    offset: Option<u64>,
    include_attributes: Option<bool>,
) -> Seq<char> {
    with_listing(customers_path_text(base), filter, sort, limit, offset)
        + "&include_attributes="@ + bool_text(include_or_default(include_attributes))
}

/// The address that reads one customer, before it is parsed.
pub open spec fn customer_url_text(
    base: Seq<char>,
    id: u64,
    include_attributes: Option<bool>,
) -> Seq<char> {
    customer_path_text(base, id) + "/?include_attributes="@ + bool_text(
        include_or_default(include_attributes),
    )
}

/// The address that tries a token out, before it is parsed.
pub open spec fn token_check_url_text(base: Seq<char>) -> Seq<char> {
    customers_path_text(base) + "/?limit=1"@
}

/// Writes the address of the collection of customers below `base`.
pub fn customers_path(base: &str) -> (r: String)
    ensures
        r@ == customers_path_text(base@),
{
    let mut text = String::from_str(base);
    text.append("api/v4/provisioning/");
    text.append("customers");
    text
}

/// Writes the address of the customer `id`.
pub fn customer_path(base: &str, id: u64) -> (r: String)
    ensures
        r@ == customer_path_text(base@, id),
{
    let mut text = customers_path(base);
    text.append("/");
    push_decimal(&mut text, id);
    text
}

/// Writes the address of the attributes of the customer `id`.
pub fn attributes_path(base: &str, id: u64) -> (r: String)
    ensures
        r@ == attributes_path_text(base@, id),
{
    let mut text = customer_path(base, id);
    text.append("/");
    text.append("customerAttributes");
    text
}

/// Writes the address of the users of the customer `id`.
pub fn users_path(base: &str, id: u64) -> (r: String)
    ensures
        r@ == users_path_text(base@, id),
{
    let mut text = customer_path(base, id);
    text.append("/");
    text.append("users");
    text
}

fn push_parameter(text: &mut String, name: &str, value: &Option<String>)
    ensures
        final(text)@ == with_parameter(old(text)@, name@, value.deep_view()),
{
    match value {
        Some(v) => {
            text.append(name);
            text.append(v.as_str());
        },
        None => {},
    }
}

/// Writes the query of a listing behind a path.
pub fn push_listing(
    text: &mut String,
    filter: &Option<String>,
    sort: &Option<String>,
    limit: Option<u64>,
    offset: Option<u64>,
)
    ensures
        final(text)@ == with_listing(
            old(text)@,
            filter.deep_view(),
            sort.deep_view(),
            limit,
            offset,
        ),
{
    text.append("/?limit=");
    push_decimal(
        text,
        match limit {
            Some(n) => n,
            None => DEFAULT_LIMIT,
        },
    );
    text.append("&offset=");
    push_decimal(
        text,
        match offset {
            Some(n) => n,
            None => DEFAULT_OFFSET,
        },
    );
    push_parameter(text, "&filter=", filter);
    push_parameter(text, "&sort=", sort);
}

fn push_include_attributes(text: &mut String, name: &str, include_attributes: Option<bool>)
    ensures
        final(text)@ == old(text)@ + name@ + bool_text(include_or_default(include_attributes)),
{
    text.append(name);
    text.append(
        bool_str(
            match include_attributes {
                Some(b) => b,
                None => DEFAULT_INCLUDE_ATTRIBUTES,
            },
        ),
    );
}

/// Writes the address that lists customers.
pub fn customers_url(
    base: &str,
    filter: &Option<String>,
    sort: &Option<String>,
    limit: Option<u64>,
    offset: Option<u64>,
    include_attributes: Option<bool>,
) -> (r: String)
    ensures
        r@ == customers_url_text(
            base@,
            filter.deep_view(),
            sort.deep_view(),
            limit,
            offset,
            include_attributes,
        ),
{
    let mut text = customers_path(base);
    push_listing(&mut text, filter, sort, limit, offset);
    push_include_attributes(&mut text, "&include_attributes=", include_attributes);
    text
}

/// Writes the address that reads one customer.
pub fn customer_url(base: &str, id: u64, include_attributes: Option<bool>) -> (r: String)
    ensures
        r@ == customer_url_text(base@, id, include_attributes),
{
    let mut text = customer_path(base, id);
    push_include_attributes(&mut text, "/?include_attributes=", include_attributes);
    text
}

/// Writes the address that lists the attributes of a customer.
pub fn attributes_url(
    base: &str,
    id: u64,
    filter: &Option<String>,
    sort: &Option<String>,
    offset: Option<u64>,
    limit: Option<u64>,
) -> (r: String)
    ensures
        r@ == with_listing(
            attributes_path_text(base@, id),
            filter.deep_view(),
            sort.deep_view(),
            limit,
            offset,
        ),
{
    let mut text = attributes_path(base, id);
    push_listing(&mut text, filter, sort, limit, offset);
    text
}

/// Writes the address that lists the users of a customer.
pub fn users_url(
    base: &str,
    id: u64,
    filter: &Option<String>,
    sort: &Option<String>,
    offset: Option<u64>,
    limit: Option<u64>,
) -> (r: String)
    ensures
        r@ == with_listing(
            users_path_text(base@, id),
            filter.deep_view(),
            sort.deep_view(),
            limit,
            offset,
        ),
{
    let mut text = users_path(base, id);
    push_listing(&mut text, filter, sort, limit, offset);
    text
}

/// Writes the address that tries a token out.
pub fn token_check_url(base: &str) -> (r: String)
    ensures
        r@ == token_check_url_text(base@),
{
    let mut text = customers_path(base);
    text.append("/?limit=1");
    text
}

/// What came back as the body of a reply, by its content.
pub open spec fn body_model(body: Result<JsonValue, reqwest::Error>) -> Result<
    JsonModel,
    reqwest::Error,
> {
    match body {
        Ok(j) => Ok(j@),
        Err(e) => Err(e),
    }
}

/// The result of a call, by its content.
pub open spec fn outcome_view<T: DeepView>(r: Result<T, DRACOONProvisioningError>) -> Result<
    T::V,
    ProvisioningErrorView,
> {
    match r {
        Ok(v) => Ok(v.deep_view()),
        Err(e) => Err(e.deep_view()),
    }
}

/// The failure that a reply without success stands for: the one that the
/// table gives for the status, carrying the body; where the body has not
/// the shape of an error body, the request counts as failed.
pub open spec fn failure_outcome(status: u16, j: JsonModel) -> ProvisioningErrorView {
    match DRACOONErrorResponse::of_json(j) {
        Some(b) => status_failure(status, b),
        None => ProvisioningErrorView::RequestFailed(RequestFailure::Decode),
    }
}

/// The result of a call whose success is the status `success` and whose
/// payload is a `T`. A body that could not be had fails the request, with
/// any status; with the status of success the body is read as the payload,
/// with any other as an error body.
pub open spec fn reply_outcome<T: FromJson>(
    success: u16,
    status: u16,
    body: Result<JsonModel, reqwest::Error>,
) -> Result<T::V, ProvisioningErrorView> {
    match body {
        Err(e) => Err(ProvisioningErrorView::RequestFailed(RequestFailure::Transport(e))),
        Ok(j) => if status == success {
            match T::of_json(j) {
                Some(v) => Ok(v),
                None => Err(ProvisioningErrorView::RequestFailed(RequestFailure::Decode)),
            }
        } else {
            Err(failure_outcome(status, j))
        },
    }
}

/// The result of a call whose success is the status `success` and brings
/// no payload: then the body is not looked at.
pub open spec fn empty_reply_outcome(
    success: u16,
    status: u16,
    body: Result<JsonModel, reqwest::Error>,
) -> Result<(), ProvisioningErrorView> {
    if status == success {
        Ok(())
    } else {
        match body {
            Err(e) => Err(ProvisioningErrorView::RequestFailed(RequestFailure::Transport(e))),
            Ok(j) => Err(failure_outcome(status, j)),
        }
    }
}

/// Reads the failure that a reply without success stands for.
pub fn read_failure(status: u16, body: &JsonValue) -> (r: DRACOONProvisioningError)
    ensures
        r.deep_view() == failure_outcome(status, body@),
{
    match DRACOONErrorResponse::from_json(body) {
        Some(b) => DRACOONProvisioningError::from_status(status, b),
        None => DRACOONProvisioningError::RequestFailed(RequestFailure::Decode),
    }
}

/// Reads the result of a call from the status and the body of its reply.
pub fn read_reply<T: FromJson>(
    success: u16,
    status: u16,
    body: Result<JsonValue, reqwest::Error>,
) -> (r: Result<T, DRACOONProvisioningError>)
    ensures
        outcome_view(r) == reply_outcome::<T>(success, status, body_model(body)),
{
    match body {
        Err(e) => Err(DRACOONProvisioningError::RequestFailed(RequestFailure::Transport(e))),
        Ok(j) => if status == success {
            match T::from_json(&j) {
                Some(v) => Ok(v),
                None => Err(DRACOONProvisioningError::RequestFailed(RequestFailure::Decode)),
            }
        } else {
            Err(read_failure(status, &j))
        },
    }
}

/// Reads the result of a call that brings no payload.
pub fn read_empty_reply(success: u16, status: u16, body: Result<JsonValue, reqwest::Error>) -> (r:
    Result<(), DRACOONProvisioningError>)
    ensures
        match r {
            Ok(_) => empty_reply_outcome(success, status, body_model(body)) is Ok,
            Err(e) => empty_reply_outcome(success, status, body_model(body)) == Err::<
                (),
                ProvisioningErrorView,
            >(e.deep_view()),
        },
{
    if status == success {
        Ok(())
    } else {
        match body {
            Err(e) => Err(DRACOONProvisioningError::RequestFailed(RequestFailure::Transport(e))),
            Ok(j) => Err(read_failure(status, &j)),
        }
    }
}

/// Each of the seven statuses with a failure of its own gives that
/// failure, carrying the error body that came with it; every other status
/// that is not the success of the call gives the undocumented failure,
/// carrying the body too.
pub proof fn lemma_status_table<T: FromJson>(
    success: u16,
    status: u16,
    j: JsonModel,
    body: DRACOONErrorResponseView,
)
    requires
        status != success,
        DRACOONErrorResponse::of_json(j) == Some(body),
    ensures
        reply_outcome::<T>(success, status, Ok(j)) == Err::<T::V, ProvisioningErrorView>(
            status_failure(status, body),
        ),
        status == 400 ==> status_failure(status, body) == ProvisioningErrorView::BadRequest(body),
        status == 401 ==> status_failure(status, body) == ProvisioningErrorView::Unauthorized(
            Some(body),
        ),
        status == 402 ==> status_failure(status, body) == ProvisioningErrorView::PaymentRequired(
            body,
        ),
        status == 403 ==> status_failure(status, body) == ProvisioningErrorView::Forbidden(body),
        status == 404 ==> status_failure(status, body) == ProvisioningErrorView::NotFound(body),
        status == 406 ==> status_failure(status, body) == ProvisioningErrorView::NotAcceptable(
            body,
        ),
        status == 409 ==> status_failure(status, body) == ProvisioningErrorView::Conflict(body),
        status != 400 && status != 401 && status != 402 && status != 403 && status != 404
            && status != 406 && status != 409 ==> status_failure(status, body)
            == ProvisioningErrorView::Undocumented(body),
{
}

/// A client for one endpoint, holding the address of the endpoint in
/// normal form and the service token that its requests carry.
#[derive(Debug)]
pub struct DRACOONProvisioning {
    base_url: String,
    x_sds_service_token: String,
}

/// Whether `r` is what becomes of the making of a client: the refusal of
/// an address that is no URL; else the failure to try the token out; else,
/// where the trial came back with status 200, a client for the address in
/// normal form, and with any other status the refusal of the token.
pub open spec fn client_made(
    r: Result<DRACOONProvisioning, DRACOONProvisioningError>,
    base_url: Seq<char>,
    token: Seq<char>,
    check: Result<u16, reqwest::Error>,
) -> bool {
    match parsed_url(base_url) {
        None => r matches Err(DRACOONProvisioningError::InvalidUrl(_)),
        Some(url) => match check {
            Ok(status) => if status == 200 {
                r matches Ok(client) && client.base_url_text() == url && client.token_text()
                    == token
            } else {
                r matches Err(DRACOONProvisioningError::Unauthorized(None))
            },
            Err(e) => r matches Err(
                DRACOONProvisioningError::RequestFailed(RequestFailure::Transport(x)),
            ) && x == e,
        },
    }
}

/// Whether the trial of a token found it valid: status 200 and no other.
pub fn check_token_validity(check: Result<u16, reqwest::Error>) -> (r: Result<
    bool,
    DRACOONProvisioningError,
>)
    ensures
        match check {
            Ok(status) => r == Ok::<bool, DRACOONProvisioningError>(status == 200),
            Err(e) => r matches Err(
                DRACOONProvisioningError::RequestFailed(RequestFailure::Transport(x)),
            ) && x == e,
        },
{
    match check {
        Ok(status) => Ok(status == 200),
        Err(e) => Err(DRACOONProvisioningError::RequestFailed(RequestFailure::Transport(e))),
    }
}

impl DRACOONProvisioning {
    /// The address of the endpoint, in normal form.
    pub closed spec fn base_url_text(&self) -> Seq<char> {
        self.base_url@
    }

    /// The service token.
    pub closed spec fn token_text(&self) -> Seq<char> {
        self.x_sds_service_token@
    }

    /// The address of the endpoint, in normal form.
    pub fn base_url(&self) -> (r: &str)
        ensures
            r@ == self.base_url_text(),
    {
        self.base_url.as_str()
    }

    /// The request that tries a token out: the first page of customers,
    /// cut down to one item.
    pub fn token_check_request(base_url: &str, service_token: &str) -> (r: Result<
        ApiRequest,
        DRACOONProvisioningError,
    >)
        ensures
            match parsed_url(base_url@) {
                None => r matches Err(DRACOONProvisioningError::InvalidUrl(_)),
                Some(url) => request_made(
                    r,
                    HttpMethod::Get,
                    token_check_url_text(url),
                    service_token@,
                    None,
                ),
            },
    {
        match parse_url(base_url) {
            Err(e) => Err(DRACOONProvisioningError::InvalidUrl(e)),
            Ok(url) => {
                let text = token_check_url(url.as_str());
                ApiRequest::for_address(
                    HttpMethod::Get,
                    parse_url(text.as_str()),
                    service_token,
                    None,
                )
            },
        }
    }

    /// Makes a client, given how the trial of the token went: the status
    /// of the reply to `token_check_request`, or the failure to get one.
    pub fn new(base_url: String, service_token: String, check: Result<u16, reqwest::Error>) -> (r:
        Result<DRACOONProvisioning, DRACOONProvisioningError>)
        ensures
            client_made(r, base_url@, service_token@, check),
    {
        match parse_url(base_url.as_str()) {
            Err(e) => Err(DRACOONProvisioningError::InvalidUrl(e)),
            Ok(url) => match check_token_validity(check) {
                Ok(valid) => if valid {
                    Ok(DRACOONProvisioning { x_sds_service_token: service_token, base_url: url })
                } else {
                    Err(DRACOONProvisioningError::Unauthorized(None))
                },
                Err(e) => Err(e),
            },
        }
    }

    fn request(&self, method: HttpMethod, text: String, body: Option<JsonValue>) -> (r: Result<
        ApiRequest,
        DRACOONProvisioningError,
    >)
        ensures
            request_made(
                r,
                method,
                text@,
                self.token_text(),
                match body {
                    Some(b) => Some(b@),
                    None => None,
                },
            ),
    {
        ApiRequest::for_address(
            method,
            parse_url(text.as_str()),
            self.x_sds_service_token.as_str(),
            body,
        )
    }

    /// The request that lists customers.
    pub fn get_customers(
        &self,
        filter: Option<String>,
        sort: Option<String>,
        limit: Option<u64>,
        offset: Option<u64>,
        include_attributes: Option<bool>,
    ) -> (r: Result<ApiRequest, DRACOONProvisioningError>)
        ensures
            request_made(
                r,
                HttpMethod::Get,
                customers_url_text(
                    self.base_url_text(),
                    filter.deep_view(),
                    sort.deep_view(),
                    limit,
                    offset,
                    include_attributes,
                ),
                self.token_text(),
                None,
            ),
    {
        let text = customers_url(
            self.base_url.as_str(),
            &filter,
            &sort,
            limit,
            offset,
            include_attributes,
        );
        self.request(HttpMethod::Get, text, None)
    }

    /// The page of customers that a reply brings: status 200 is success.
    pub fn get_customers_result(status: u16, body: Result<JsonValue, reqwest::Error>) -> (r:
        Result<GetCustomersResponse, DRACOONProvisioningError>)
        ensures
            outcome_view(r) == reply_outcome::<GetCustomersResponse>(
                200,
                status,
                body_model(body),
            ),
    {
        read_reply::<GetCustomersResponse>(200, status, body)
    }

    /// The request that creates a customer.
    pub fn create_customer(&self, customer: NewCustomerRequest) -> (r: Result<
        ApiRequest,
        DRACOONProvisioningError,
    >)
        ensures
            request_made(
                r,
                HttpMethod::Post,
                customers_path_text(self.base_url_text()),
                self.token_text(),
                Some(NewCustomerRequest::json_of(customer.deep_view())),
            ),
    {
        let text = customers_path(self.base_url.as_str());
        self.request(HttpMethod::Post, text, Some(customer.to_json()))
    }

    /// The customer that a reply says was created: status 201 is success.
    pub fn create_customer_result(status: u16, body: Result<JsonValue, reqwest::Error>) -> (r:
        Result<NewCustomerResponse, DRACOONProvisioningError>)
        ensures
            outcome_view(r) == reply_outcome::<NewCustomerResponse>(201, status, body_model(body)),
    {
        read_reply::<NewCustomerResponse>(201, status, body)
    }

    /// The request that reads one customer.
    pub fn get_customer(&self, id: u64, include_attributes: Option<bool>) -> (r: Result<
        ApiRequest,
        DRACOONProvisioningError,
    >)
        ensures
            request_made(
                r,
                HttpMethod::Get,
                customer_url_text(self.base_url_text(), id, include_attributes),
                self.token_text(),
                None,
            ),
    {
        let text = customer_url(self.base_url.as_str(), id, include_attributes);
        self.request(HttpMethod::Get, text, None)
    }

    /// The customer that a reply brings: status 200 is success.
    pub fn get_customer_result(status: u16, body: Result<JsonValue, reqwest::Error>) -> (r: Result<
        Customer,
        DRACOONProvisioningError,
    >)
        ensures
            outcome_view(r) == reply_outcome::<Customer>(200, status, body_model(body)),
    {
        read_reply::<Customer>(200, status, body)
    }

    /// The request that changes a customer.
    pub fn update_customer(&self, id: u64, update: UpdateCustomerRequest) -> (r: Result<
        ApiRequest,
        DRACOONProvisioningError,
    >)
        ensures
            request_made(
                r,
                HttpMethod::Put,
                customer_path_text(self.base_url_text(), id),
                self.token_text(),
                Some(UpdateCustomerRequest::json_of(update.deep_view())),
            ),
    {
        let text = customer_path(self.base_url.as_str(), id);
        self.request(HttpMethod::Put, text, Some(update.to_json()))
    }

    /// The customer as a reply says it is after the change: status 200 is
    /// success.
    pub fn update_customer_result(status: u16, body: Result<JsonValue, reqwest::Error>) -> (r:
        Result<UpdateCustomerResponse, DRACOONProvisioningError>)
        ensures
            outcome_view(r) == reply_outcome::<UpdateCustomerResponse>(
                200,
                status,
                body_model(body),
            ),
    {
        read_reply::<UpdateCustomerResponse>(200, status, body)
    }

    /// The request that deletes a customer.
    pub fn delete_customer(&self, id: u64) -> (r: Result<ApiRequest, DRACOONProvisioningError>)
        ensures
            request_made(
                r,
                HttpMethod::Delete,
                customer_path_text(self.base_url_text(), id),
                self.token_text(),
                None,
            ),
    {
        let text = customer_path(self.base_url.as_str(), id);
        self.request(HttpMethod::Delete, text, None)
    }

    /// Whether a reply says that the customer was deleted: status 204 is
    /// success, and brings no body.
    pub fn delete_customer_result(status: u16, body: Result<JsonValue, reqwest::Error>) -> (r:
        Result<(), DRACOONProvisioningError>)
        ensures
            match r {
                Ok(_) => empty_reply_outcome(204, status, body_model(body)) is Ok,
                Err(e) => empty_reply_outcome(204, status, body_model(body)) == Err::<
                    (),
                    ProvisioningErrorView,
                >(e.deep_view()),
            },
    {
        read_empty_reply(204, status, body)
    }

    /// The request that lists the attributes of a customer.
    pub fn get_customer_attributes(
        &self,
        id: u64,
        filter: Option<String>,
        sort: Option<String>,
        offset: Option<u64>,
        limit: Option<u64>,
    ) -> (r: Result<ApiRequest, DRACOONProvisioningError>)
        ensures
            request_made(
                r,
                HttpMethod::Get,
                with_listing(
                    attributes_path_text(self.base_url_text(), id),
                    filter.deep_view(),
                    sort.deep_view(),
                    limit,
                    offset,
                ),
                self.token_text(),
                None,
            ),
    {
        let text = attributes_url(self.base_url.as_str(), id, &filter, &sort, offset, limit);
        self.request(HttpMethod::Get, text, None)
    }

    /// The page of attributes that a reply brings: status 200 is success.
    pub fn get_customer_attributes_result(
        status: u16,
        body: Result<JsonValue, reqwest::Error>,
    ) -> (r: Result<AttributesResponse, DRACOONProvisioningError>)
        ensures
            outcome_view(r) == reply_outcome::<AttributesResponse>(200, status, body_model(body)),
    {
        read_reply::<AttributesResponse>(200, status, body)
    }

    /// The request that sets attributes of a customer.
    pub fn update_customer_attributes(&self, id: u64, attribs: CustomerAttributes) -> (r: Result<
        ApiRequest,
        DRACOONProvisioningError,
    >)
        ensures
            request_made(
                r,
                HttpMethod::Put,
                attributes_path_text(self.base_url_text(), id),
                self.token_text(),
                Some(CustomerAttributes::json_of(attribs.deep_view())),
            ),
    {
        let text = attributes_path(self.base_url.as_str(), id);
        self.request(HttpMethod::Put, text, Some(attribs.to_json()))
    }

    /// The customer as a reply says it is with the attributes set: status
    /// 200 is success.
    pub fn update_customer_attributes_result(
        status: u16,
        body: Result<JsonValue, reqwest::Error>,
    ) -> (r: Result<Customer, DRACOONProvisioningError>)
        ensures
            outcome_view(r) == reply_outcome::<Customer>(200, status, body_model(body)),
    {
        read_reply::<Customer>(200, status, body)
    }

    /// The request that lists the users of a customer.
    pub fn get_customer_users(
        &self,
        id: u64,
        filter: Option<String>,
        sort: Option<String>,
        offset: Option<u64>,
        limit: Option<u64>,
    ) -> (r: Result<ApiRequest, DRACOONProvisioningError>)
        ensures
            request_made(
                r,
                HttpMethod::Get,
                with_listing(
                    users_path_text(self.base_url_text(), id),
                    filter.deep_view(),
                    sort.deep_view(),
                    limit,
                    offset,
                ),
                self.token_text(),
                None,
            ),
    {
        let text = users_url(self.base_url.as_str(), id, &filter, &sort, offset, limit);
        self.request(HttpMethod::Get, text, None)
    }

    /// The page of users that a reply brings: status 200 is success.
    pub fn get_customer_users_result(status: u16, body: Result<JsonValue, reqwest::Error>) -> (r:
        Result<UserList, DRACOONProvisioningError>)
        ensures
            outcome_view(r) == reply_outcome::<UserList>(200, status, body_model(body)),
    {
        read_reply::<UserList>(200, status, body)
    }
}

} // verus!
