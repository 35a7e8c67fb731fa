use dcprov::json::{JsonMember, JsonValue, ToJson};
use dcprov::provisioning::client::{
    attributes_url, check_token_validity, customer_url, customers_path, customers_url, read_reply,
    token_check_url, users_url,
};
use dcprov::provisioning::{
    ApiRequest, Customer, CustomerAttributes, DRACOONErrorResponse, DRACOONProvisioning,
    DRACOONProvisioningError, FirstAdminUser, GetCustomersResponse, HttpMethod,
    NewCustomerRequest, RangeResponse, RequestFailure, UpdateCustomerRequest,
};
use dcprov::time::Timestamp;

fn obj(members: Vec<(&str, JsonValue)>) -> JsonValue {
    JsonValue::Object(
        members
            .into_iter()
            .map(|(name, value)| JsonMember { name: name.to_string(), value })
            .collect(),
    )
}

fn text(t: &str) -> JsonValue {
    JsonValue::Text(t.to_string())
}

fn transport_error() -> reqwest::Error {
    reqwest::Client::new().get("this is no address").build().unwrap_err()
}

fn client() -> DRACOONProvisioning {
    DRACOONProvisioning::new("https://dracoon.example.com".to_string(), "SECRET-REDACTED".to_string(), Ok(200))
        .unwrap()
}

fn error_json(code: u64) -> JsonValue {
    obj(vec![("code", JsonValue::Unsigned(code)), ("message", text("went wrong")), ("debugInfo", text("details"))])
}

fn error_body(code: i64) -> DRACOONErrorResponse {
    DRACOONErrorResponse {
        code,
        message: "went wrong".to_string(),
        debug_info: Some("details".to_string()),
        error_code: None,
    }
}

fn customer_json(id: u64) -> JsonValue {
    obj(vec![
        ("id", JsonValue::Unsigned(id)),
        ("companyName", text("ACME")),
        ("customerContractType", text("pay")),
        ("quotaMax", JsonValue::Unsigned(1000)),
        ("quotaUsed", JsonValue::Unsigned(10)),
        ("userMax", JsonValue::Unsigned(5)),
        ("userUsed", JsonValue::Unsigned(1)),
        ("createdAt", text("2021-01-01T00:00:00Z")),
    ])
}

fn customer(id: u64) -> Customer {
    Customer {
        id,
        company_name: "ACME".to_string(),
        customer_contract_type: "pay".to_string(),
        quota_max: 1000,
        quota_used: 10,
        user_max: 5,
        user_used: 1,
        created_at: Timestamp::from_parts(1_609_459_200, 0).unwrap(),
        customer_attributes: None,
        updated_at: None,
        last_login_at: None,
        trial_days_left: None,
        is_locked: None,
        customer_uuid: None,
    }
}

fn headers() -> Vec<(String, String)> {
    vec![
        ("X-Sds-Service-Token".to_string(), "SECRET-REDACTED".to_string()),
        ("Content-Type".to_string(), "application/json".to_string()),
    ]
}

fn get(url: &str) -> ApiRequest {
    ApiRequest { method: HttpMethod::Get, url: url.to_string(), headers: headers(), body: None }
}

#[test]
fn client_is_made_when_the_token_check_is_200() {
    let c = client();
    assert_eq!(c.base_url(), "https://dracoon.example.com/");
}

#[test]
fn client_is_refused_on_every_other_status() {
    for status in [100, 201, 204, 301, 400, 401, 403, 404, 500, 503] {
        let r = DRACOONProvisioning::new("https://dracoon.example.com".to_string(), "t".to_string(), Ok(status));
        assert!(matches!(r, Err(DRACOONProvisioningError::Unauthorized(None))), "status {status}");
    }
}

#[test]
fn client_is_not_made_for_what_is_no_address() {
    for address in ["", "dracoon.example.com", "https://", "/relative/path"] {
        let r = DRACOONProvisioning::new(address.to_string(), "t".to_string(), Ok(200));
        assert!(matches!(r, Err(DRACOONProvisioningError::InvalidUrl(_))), "address {address}");
        let r = DRACOONProvisioning::token_check_request(address, "t");
        assert!(matches!(r, Err(DRACOONProvisioningError::InvalidUrl(_))), "address {address}");
    }
}

#[test]
fn client_is_not_made_when_the_token_check_failed() {
    let r = DRACOONProvisioning::new("https://dracoon.example.com".to_string(), "t".to_string(), Err(transport_error()));
    assert!(matches!(r, Err(DRACOONProvisioningError::RequestFailed(RequestFailure::Transport(_)))));
}

#[test]
fn token_check_reads_status_200_as_valid() {
    assert!(matches!(check_token_validity(Ok(200)), Ok(true)));
    assert!(matches!(check_token_validity(Ok(401)), Ok(false)));
    assert!(matches!(check_token_validity(Ok(204)), Ok(false)));
    assert!(matches!(
        check_token_validity(Err(transport_error())),
        Err(DRACOONProvisioningError::RequestFailed(RequestFailure::Transport(_)))
    ));
}

#[test]
fn token_check_asks_for_one_customer() {
    let r = DRACOONProvisioning::token_check_request("https://dracoon.example.com", "SECRET-REDACTED").unwrap();
    assert_eq!(r, get("https://dracoon.example.com/api/v4/provisioning/customers/?limit=1"));
    assert_eq!(token_check_url("https://x/"), "https://x/api/v4/provisioning/customers/?limit=1");
}

#[test]
fn address_texts_are_put_together_in_order() {
    assert_eq!(customers_path("https://x/"), "https://x/api/v4/provisioning/customers");
    assert_eq!(
        customers_url("https://x/", &None, &None, None, None, None),
        "https://x/api/v4/provisioning/customers/?limit=500&offset=0&include_attributes=false"
    );
    assert_eq!(
        customers_url(
            "https://x/",
            &Some("companyName:cn:ACME".to_string()),
            &Some("companyName:asc".to_string()),
            Some(2),
            Some(30),
            Some(true)
        ),
        "https://x/api/v4/provisioning/customers/?limit=2&offset=30&filter=companyName:cn:ACME&sort=companyName:asc&include_attributes=true"
    );
    assert_eq!(
        customers_url("https://x/", &None, &Some("id:desc".to_string()), None, Some(1000), None),
        "https://x/api/v4/provisioning/customers/?limit=500&offset=1000&sort=id:desc&include_attributes=false"
    );
    assert_eq!(customer_url("https://x/", 7, None), "https://x/api/v4/provisioning/customers/7/?include_attributes=false");
    assert_eq!(customer_url("https://x/", 7, Some(true)), "https://x/api/v4/provisioning/customers/7/?include_attributes=true");
    assert_eq!(
        attributes_url("https://x/", 12, &Some("key:eq:a".to_string()), &None, Some(5), Some(10)),
        "https://x/api/v4/provisioning/customers/12/customerAttributes/?limit=10&offset=5&filter=key:eq:a"
    );
    assert_eq!(
        users_url("https://x/", 12, &None, &None, None, None),
        "https://x/api/v4/provisioning/customers/12/users/?limit=500&offset=0"
    );
}

#[test]
fn list_of_customers_is_asked_with_the_defaults() {
    let r = client().get_customers(None, None, None, None, None).unwrap();
    assert_eq!(
        r,
        get("https://dracoon.example.com/api/v4/provisioning/customers/?limit=500&offset=0&include_attributes=false")
    );
}

#[test]
fn list_of_customers_is_asked_with_what_is_given() {
    let r = client()
        .get_customers(Some("companyName:cn:ACME".to_string()), Some("id:asc".to_string()), Some(2), Some(4), Some(true))
        .unwrap();
    assert_eq!(r.method, HttpMethod::Get);
    assert_eq!(
        r.url,
        "https://dracoon.example.com/api/v4/provisioning/customers/?limit=2&offset=4&filter=companyName:cn:ACME&sort=id:asc&include_attributes=true"
    );
    assert_eq!(r.headers, headers());
    assert_eq!(r.body, None);
}

#[test]
fn address_is_brought_into_normal_form() {
    let r = client().get_customers(Some("a b".to_string()), None, None, None, None).unwrap();
    assert_eq!(
        r.url,
        "https://dracoon.example.com/api/v4/provisioning/customers/?limit=500&offset=0&filter=a%20b&include_attributes=false"
    );
    let c = DRACOONProvisioning::new("HTTPS://Dracoon.Example.COM:443/base".to_string(), "t".to_string(), Ok(200)).unwrap();
    assert_eq!(c.base_url(), "https://dracoon.example.com/base");
}

#[test]
fn one_customer_is_asked_for_by_id() {
    assert_eq!(
        client().get_customer(7, None).unwrap(),
        get("https://dracoon.example.com/api/v4/provisioning/customers/7/?include_attributes=false")
    );
    assert_eq!(
        client().get_customer(u64::MAX, Some(true)).unwrap(),
        get("https://dracoon.example.com/api/v4/provisioning/customers/18446744073709551615/?include_attributes=true")
    );
}

fn request() -> NewCustomerRequest {
    NewCustomerRequest::new(
        "pay".to_string(),
        1000,
        5,
        FirstAdminUser::new_local("Ada".to_string(), "Lovelace".to_string(), None, "ada@example.com".to_string(), None),
        Some("ACME".to_string()),
        None,
        None,
        None,
        None,
        None,
    )
}

#[test]
fn customer_is_created_with_a_post() {
    let r = client().create_customer(request()).unwrap();
    assert_eq!(r.method, HttpMethod::Post);
    assert_eq!(r.url, "https://dracoon.example.com/api/v4/provisioning/customers");
    assert_eq!(r.headers, headers());
    assert_eq!(r.body, Some(request().to_json()));
}

#[test]
fn customer_is_changed_with_a_put() {
    let update = UpdateCustomerRequest {
        company_name: Some("New".to_string()),
        customer_contract_type: None,
        quota_max: None,
        user_max: None,
        is_locked: None,
        provider_customer_id: None,
        webhooks_max: None,
    };
    let r = client().update_customer(7, update).unwrap();
    assert_eq!(r.method, HttpMethod::Put);
    assert_eq!(r.url, "https://dracoon.example.com/api/v4/provisioning/customers/7");
    assert_eq!(r.body, Some(obj(vec![("companyName", text("New"))])));
}

#[test]
fn customer_is_deleted_with_a_delete() {
    let r = client().delete_customer(7).unwrap();
    assert_eq!(
        r,
        ApiRequest {
            method: HttpMethod::Delete,
            url: "https://dracoon.example.com/api/v4/provisioning/customers/7".to_string(),
            headers: headers(),
            body: None,
        }
    );
}

#[test]
fn attributes_and_users_are_asked_for_below_the_customer() {
    assert_eq!(
        client().get_customer_attributes(7, None, None, Some(3), Some(10)).unwrap(),
        get("https://dracoon.example.com/api/v4/provisioning/customers/7/customerAttributes/?limit=10&offset=3")
    );
    assert_eq!(
        client().get_customer_users(7, Some("isLocked:eq:true".to_string()), None, None, None).unwrap(),
        get("https://dracoon.example.com/api/v4/provisioning/customers/7/users/?limit=500&offset=0&filter=isLocked:eq:true")
    );
    let mut attributes = CustomerAttributes::new();
    attributes.add_attribute("k".to_string(), "v".to_string());
    let r = client().update_customer_attributes(7, attributes).unwrap();
    assert_eq!(r.method, HttpMethod::Put);
    assert_eq!(r.url, "https://dracoon.example.com/api/v4/provisioning/customers/7/customerAttributes");
    assert_eq!(
        r.body,
        Some(obj(vec![("items", JsonValue::Array(vec![obj(vec![("key", text("k")), ("value", text("v"))])]))]))
    );
}

#[test]
fn each_status_with_a_failure_of_its_own_gives_it() {
    let r = DRACOONProvisioning::get_customers_result(400, Ok(error_json(400)));
    assert!(matches!(r, Err(DRACOONProvisioningError::BadRequest(b)) if b == error_body(400)));
    let r = DRACOONProvisioning::get_customers_result(401, Ok(error_json(401)));
    assert!(matches!(r, Err(DRACOONProvisioningError::Unauthorized(Some(b))) if b == error_body(401)));
    let r = DRACOONProvisioning::get_customers_result(402, Ok(error_json(402)));
    assert!(matches!(r, Err(DRACOONProvisioningError::PaymentRequired(b)) if b == error_body(402)));
    let r = DRACOONProvisioning::get_customers_result(403, Ok(error_json(403)));
    assert!(matches!(r, Err(DRACOONProvisioningError::Forbidden(b)) if b == error_body(403)));
    let r = DRACOONProvisioning::get_customers_result(404, Ok(error_json(404)));
    assert!(matches!(r, Err(DRACOONProvisioningError::NotFound(b)) if b == error_body(404)));
    let r = DRACOONProvisioning::get_customers_result(406, Ok(error_json(406)));
    assert!(matches!(r, Err(DRACOONProvisioningError::NotAcceptable(b)) if b == error_body(406)));
    let r = DRACOONProvisioning::get_customers_result(409, Ok(error_json(409)));
    assert!(matches!(r, Err(DRACOONProvisioningError::Conflict(b)) if b == error_body(409)));
}

#[test]
fn every_other_status_is_undocumented() {
    for status in [100u16, 201, 202, 204, 302, 405, 408, 410, 418, 429, 500, 502, 503, 999] {
        let r = DRACOONProvisioning::get_customers_result(status, Ok(error_json(status as u64)));
        assert!(
            matches!(r, Err(DRACOONProvisioningError::Undocumented(b)) if b == error_body(status as i64)),
            "status {status}"
        );
    }
}

#[test]
fn status_table_is_the_same_for_every_call() {
    assert!(matches!(
        DRACOONProvisioning::create_customer_result(409, Ok(error_json(409))),
        Err(DRACOONProvisioningError::Conflict(_))
    ));
    assert!(matches!(
        DRACOONProvisioning::create_customer_result(200, Ok(error_json(200))),
        Err(DRACOONProvisioningError::Undocumented(_))
    ));
    assert!(matches!(
        DRACOONProvisioning::get_customer_result(403, Ok(error_json(403))),
        Err(DRACOONProvisioningError::Forbidden(_))
    ));
    assert!(matches!(
        DRACOONProvisioning::update_customer_result(402, Ok(error_json(402))),
        Err(DRACOONProvisioningError::PaymentRequired(_))
    ));
    assert!(matches!(
        DRACOONProvisioning::delete_customer_result(404, Ok(error_json(404))),
        Err(DRACOONProvisioningError::NotFound(_))
    ));
    assert!(matches!(
        DRACOONProvisioning::get_customer_attributes_result(406, Ok(error_json(406))),
        Err(DRACOONProvisioningError::NotAcceptable(_))
    ));
    assert!(matches!(
        DRACOONProvisioning::update_customer_attributes_result(400, Ok(error_json(400))),
        Err(DRACOONProvisioningError::BadRequest(_))
    ));
    assert!(matches!(
        DRACOONProvisioning::get_customer_users_result(401, Ok(error_json(401))),
        Err(DRACOONProvisioningError::Unauthorized(Some(_)))
    ));
}

#[test]
fn body_of_another_shape_fails_the_request() {
    for status in [200u16, 404, 500] {
        let r = DRACOONProvisioning::get_customers_result(status, Ok(text("surprise")));
        assert!(matches!(r, Err(DRACOONProvisioningError::RequestFailed(RequestFailure::Decode))), "status {status}");
    }
    let r = DRACOONProvisioning::get_customer_result(200, Ok(error_json(200)));
    assert!(matches!(r, Err(DRACOONProvisioningError::RequestFailed(RequestFailure::Decode))));
}

#[test]
fn body_that_could_not_be_had_fails_the_request() {
    for status in [200u16, 401, 500] {
        let r = DRACOONProvisioning::get_customer_result(status, Err(transport_error()));
        assert!(matches!(r, Err(DRACOONProvisioningError::RequestFailed(RequestFailure::Transport(_)))));
    }
    let r = DRACOONProvisioning::delete_customer_result(500, Err(transport_error()));
    assert!(matches!(r, Err(DRACOONProvisioningError::RequestFailed(RequestFailure::Transport(_)))));
}

#[test]
fn transport_and_address_errors_become_failures_of_their_kind() {
    assert!(matches!(
        DRACOONProvisioningError::from(transport_error()),
        DRACOONProvisioningError::RequestFailed(RequestFailure::Transport(_))
    ));
    assert!(matches!(
        DRACOONProvisioningError::from(url::ParseError::EmptyHost),
        DRACOONProvisioningError::InvalidUrl(url::ParseError::EmptyHost)
    ));
    assert!(matches!(
        DRACOONProvisioningError::from_status(404, error_body(404)),
        DRACOONProvisioningError::NotFound(_)
    ));
}

#[test]
fn success_status_brings_the_payload() {
    assert_eq!(DRACOONProvisioning::get_customer_result(200, Ok(customer_json(7))).unwrap(), customer(7));
    assert_eq!(
        DRACOONProvisioning::update_customer_attributes_result(200, Ok(customer_json(7))).unwrap(),
        customer(7)
    );
    assert_eq!(read_reply::<u64>(201, 201, Ok(JsonValue::Unsigned(5))).unwrap(), 5);
}

#[test]
fn delete_succeeds_on_204_without_a_body() {
    assert!(DRACOONProvisioning::delete_customer_result(204, Err(transport_error())).is_ok());
    assert!(DRACOONProvisioning::delete_customer_result(204, Ok(JsonValue::Null)).is_ok());
    assert!(matches!(
        DRACOONProvisioning::delete_customer_result(200, Ok(error_json(200))),
        Err(DRACOONProvisioningError::Undocumented(_))
    ));
}

#[test]
fn list_with_limit_two_of_five_brings_two_items_and_the_range() {
    let request = client().get_customers(None, None, Some(2), Some(0), None).unwrap();
    assert_eq!(
        request.url,
        "https://dracoon.example.com/api/v4/provisioning/customers/?limit=2&offset=0&include_attributes=false"
    );
    let reply = obj(vec![
        ("range", obj(vec![("offset", JsonValue::Unsigned(0)), ("limit", JsonValue::Unsigned(2)), ("total", JsonValue::Unsigned(5))])),
        ("items", JsonValue::Array(vec![customer_json(1), customer_json(2)])),
    ]);
    let page: GetCustomersResponse = DRACOONProvisioning::get_customers_result(200, Ok(reply)).unwrap();
    assert_eq!(page.items.len(), 2);
    assert_eq!(page.items, vec![customer(1), customer(2)]);
    assert_eq!(page.range, RangeResponse { offset: 0, limit: 2, total: 5 });
}
