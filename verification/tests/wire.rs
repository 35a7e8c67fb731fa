use dcprov::json::{FromJson, JsonMember, JsonValue, ToJson};
use dcprov::provisioning::{
    AttributesResponse, Customer, CustomerAttributes, DRACOONErrorResponse, FirstAdminUser,
    GetCustomersResponse, KeyValueEntry, NewCustomerRequest, NewCustomerResponse, RangeResponse,
    Right, Role, UpdateCustomerRequest, UpdateCustomerResponse, UserAuthData, UserItem, UserList,
    UserRoles,
};
use dcprov::time::Timestamp;

fn obj(members: Vec<(&str, JsonValue)>) -> JsonValue {
    JsonValue::Object(
        members
            .into_iter()
            .map(|(name, value)| JsonMember { name: name.to_string(), value })
            .collect(),
    )
}

fn text(t: &str) -> JsonValue {
    JsonValue::Text(t.to_string())
}

fn names(j: &JsonValue) -> Vec<String> {
    match j {
        JsonValue::Object(members) => members.iter().map(|m| m.name.clone()).collect(),
        _ => panic!("no object"),
    }
}

fn holds_null(j: &JsonValue) -> bool {
    match j {
        JsonValue::Null => true,
        JsonValue::Array(items) => items.iter().any(holds_null),
        JsonValue::Object(members) => members.iter().any(|m| holds_null(&m.value)),
        _ => false,
    }
}

fn admin() -> FirstAdminUser {
    FirstAdminUser::new_local(
        "Ada".to_string(),
        "Lovelace".to_string(),
        None,
        "ada@example.com".to_string(),
        None,
    )
}

fn sparse_request() -> NewCustomerRequest {
    NewCustomerRequest::new("pay".to_string(), 1_000_000, 10, admin(), None, None, None, None, None, None)
}

fn full_request() -> NewCustomerRequest {
    let mut attributes = CustomerAttributes::new();
    attributes.add_attribute("tier".to_string(), "gold".to_string());
    attributes.add_attribute("region".to_string(), "eu".to_string());
    let mut user = admin();
    user.user_name = Some("ada".to_string());
    user.receiver_language = Some("de-DE".to_string());
    user.notify_user = Some(false);
    user.phone = Some("+49 30 1234".to_string());
    user.auth_data = Some(UserAuthData {
        method: "active_directory".to_string(),
        login: Some("ada".to_string()),
        password: Some("SECRET-REDACTED".to_string()),
        must_change_password: Some(false),
        ad_config_id: Some(3),
        oid_config_id: Some(4),
    });
    NewCustomerRequest::new(
        "demo".to_string(),
        u64::MAX,
        0,
        user,
        Some("Analytical Engines".to_string()),
        Some(30),
        Some(true),
        Some(attributes),
        Some("prov-17".to_string()),
        Some(5),
    )
}

#[test]
fn new_attributes_are_empty() {
    assert_eq!(CustomerAttributes::new().items, vec![]);
}

#[test]
fn attributes_are_added_at_the_end() {
    let mut a = CustomerAttributes::new();
    a.add_attribute("k1".to_string(), "v1".to_string());
    a.add_attribute("k2".to_string(), "v2".to_string());
    a.add_attribute("k1".to_string(), "v3".to_string());
    assert_eq!(
        a.items,
        vec![
            KeyValueEntry { key: "k1".to_string(), value: "v1".to_string() },
            KeyValueEntry { key: "k2".to_string(), value: "v2".to_string() },
            KeyValueEntry { key: "k1".to_string(), value: "v3".to_string() },
        ]
    );
}

#[test]
fn local_admin_signs_in_with_basic_auth() {
    let user = FirstAdminUser::new_local(
        "Ada".to_string(),
        "Lovelace".to_string(),
        Some("ada".to_string()),
        "ada@example.com".to_string(),
        Some("en".to_string()),
    );
    assert_eq!(user.first_name, "Ada");
    assert_eq!(user.last_name, "Lovelace");
    assert_eq!(user.user_name, Some("ada".to_string()));
    assert_eq!(user.email, Some("ada@example.com".to_string()));
    assert_eq!(user.receiver_language, Some("en".to_string()));
    assert_eq!(user.notify_user, None);
    assert_eq!(user.phone, None);
    assert_eq!(
        user.auth_data,
        Some(UserAuthData {
            method: "basic".to_string(),
            login: None,
            password: None,
            must_change_password: Some(true),
            ad_config_id: None,
            oid_config_id: None,
        })
    );
}

#[test]
fn sparse_request_writes_only_what_it_holds() {
    let j = sparse_request().to_json();
    assert_eq!(names(&j), vec!["customerContractType", "quotaMax", "userMax", "firstAdminUser"]);
    assert!(!holds_null(&j));
    let user = j.member("firstAdminUser").unwrap();
    assert_eq!(names(user), vec!["firstName", "lastName", "authData", "email"]);
    assert_eq!(names(user.member("authData").unwrap()), vec!["method", "mustChangePassword"]);
    assert_eq!(j.member("companyName"), None);
    assert_eq!(j.member("quotaMax"), Some(&JsonValue::Unsigned(1_000_000)));
    assert_eq!(j.member("customerContractType"), Some(&text("pay")));
}

#[test]
fn full_request_writes_every_part() {
    let j = full_request().to_json();
    assert_eq!(
        names(&j),
        vec![
            "customerContractType",
            "quotaMax",
            "userMax",
            "firstAdminUser",
            "companyName",
            "trialDays",
            "isLocked",
            "customerAttributes",
            "providerCustomerId",
            "webhooksMax"
        ]
    );
    assert!(!holds_null(&j));
    assert_eq!(
        j.member("customerAttributes"),
        Some(&obj(vec![(
            "items",
            JsonValue::Array(vec![
                obj(vec![("key", text("tier")), ("value", text("gold"))]),
                obj(vec![("key", text("region")), ("value", text("eu"))]),
            ])
        )]))
    );
    assert_eq!(j.member("isLocked"), Some(&JsonValue::Bool(true)));
}

#[test]
fn request_that_is_written_reads_back_the_same() {
    for request in [sparse_request(), full_request()] {
        let j = request.to_json();
        assert_eq!(NewCustomerRequest::from_json(&j), Some(request));
    }
}

#[test]
fn admin_without_notification_does_not_write_it() {
    let j = admin().to_json();
    assert_eq!(j.member("notifyUser"), None);
    assert_eq!(FirstAdminUser::from_json(&j), Some(admin()));
}

#[test]
fn update_request_writes_one_part() {
    let update = UpdateCustomerRequest {
        company_name: None,
        customer_contract_type: None,
        quota_max: Some(42),
        user_max: None,
        is_locked: None,
        provider_customer_id: None,
        webhooks_max: None,
    };
    assert_eq!(update.to_json(), obj(vec![("quotaMax", JsonValue::Unsigned(42))]));
    let nothing = UpdateCustomerRequest {
        company_name: None,
        customer_contract_type: None,
        quota_max: None,
        user_max: None,
        is_locked: None,
        provider_customer_id: None,
        webhooks_max: None,
    };
    assert_eq!(nothing.to_json(), obj(vec![]));
    let id = UpdateCustomerRequest { provider_customer_id: Some(-5), ..nothing };
    assert_eq!(id.to_json(), obj(vec![("providerCustomerId", JsonValue::Signed(-5))]));
}

#[test]
fn member_lookup_takes_the_last_of_a_name() {
    let j = obj(vec![("a", JsonValue::Unsigned(1)), ("b", JsonValue::Null), ("a", JsonValue::Unsigned(2))]);
    assert_eq!(j.member("a"), Some(&JsonValue::Unsigned(2)));
    assert_eq!(j.member("b"), Some(&JsonValue::Null));
    assert_eq!(j.present("b"), None);
    assert_eq!(j.member("c"), None);
    assert_eq!(text("a").member("a"), None);
}

#[test]
fn numbers_are_read_within_their_range() {
    assert_eq!(u64::from_json(&JsonValue::Unsigned(u64::MAX)), Some(u64::MAX));
    assert_eq!(u64::from_json(&JsonValue::Signed(5)), Some(5));
    assert_eq!(u64::from_json(&JsonValue::Signed(-1)), None);
    assert_eq!(u64::from_json(&JsonValue::Real("1.5".to_string())), None);
    assert_eq!(u64::from_json(&text("1")), None);
    assert_eq!(i64::from_json(&JsonValue::Signed(-40755)), Some(-40755));
    assert_eq!(i64::from_json(&JsonValue::Unsigned(i64::MAX as u64)), Some(i64::MAX));
    assert_eq!(i64::from_json(&JsonValue::Unsigned(i64::MAX as u64 + 1)), None);
    assert_eq!(i32::from_json(&JsonValue::Signed(-2_147_483_648)), Some(i32::MIN));
    assert_eq!(i32::from_json(&JsonValue::Signed(-2_147_483_649)), None);
    assert_eq!(i32::from_json(&JsonValue::Unsigned(2_147_483_647)), Some(i32::MAX));
    assert_eq!(i32::from_json(&JsonValue::Unsigned(2_147_483_648)), None);
    assert_eq!(bool::from_json(&JsonValue::Bool(true)), Some(true));
    assert_eq!(bool::from_json(&JsonValue::Unsigned(1)), None);
    assert_eq!(String::from_json(&text("x")), Some("x".to_string()));
    assert_eq!(String::from_json(&JsonValue::Null), None);
}

#[test]
fn lists_are_read_item_by_item() {
    let j = JsonValue::Array(vec![JsonValue::Unsigned(1), JsonValue::Unsigned(2)]);
    assert_eq!(Vec::<u64>::from_json(&j), Some(vec![1, 2]));
    let bad = JsonValue::Array(vec![JsonValue::Unsigned(1), text("2")]);
    assert_eq!(Vec::<u64>::from_json(&bad), None);
    assert_eq!(Vec::<u64>::from_json(&JsonValue::Array(vec![])), Some(vec![]));
    assert_eq!(Vec::<u64>::from_json(&JsonValue::Null), None);
    assert_eq!(vec![3u64, 4].to_json(), JsonValue::Array(vec![JsonValue::Unsigned(3), JsonValue::Unsigned(4)]));
}

fn customer_json(id: u64) -> JsonValue {
    obj(vec![
        ("id", JsonValue::Unsigned(id)),
        ("companyName", text("ACME")),
        ("customerContractType", text("pay")),
        ("quotaMax", JsonValue::Unsigned(1000)),
        ("quotaUsed", JsonValue::Unsigned(10)),
        ("userMax", JsonValue::Unsigned(5)),
        ("userUsed", JsonValue::Unsigned(1)),
        ("createdAt", text("2021-01-01T00:00:00Z")),
    ])
}

fn customer(id: u64) -> Customer {
    Customer {
        id,
        company_name: "ACME".to_string(),
        customer_contract_type: "pay".to_string(),
        quota_max: 1000,
        quota_used: 10,
        user_max: 5,
        user_used: 1,
        created_at: Timestamp::from_parts(1_609_459_200, 0).unwrap(),
        customer_attributes: None,
        updated_at: None,
        last_login_at: None,
        trial_days_left: None,
        is_locked: None,
        customer_uuid: None,
    }
}

#[test]
fn customer_is_read_from_its_members() {
    assert_eq!(Customer::from_json(&customer_json(7)), Some(customer(7)));
}

#[test]
fn customer_with_every_member_is_read() {
    let JsonValue::Object(mut members) = customer_json(8) else { panic!() };
    for (name, value) in [
        ("customerAttributes", obj(vec![("items", JsonValue::Array(vec![obj(vec![("key", text("k")), ("value", text("v"))])]))])),
        ("updatedAt", text("2021-01-02T00:00:00Z")),
        ("lastLoginAt", JsonValue::Null),
        ("trialDaysLeft", JsonValue::Signed(-3)),
        ("isLocked", JsonValue::Bool(false)),
        ("customerUuid", text("uuid")),
        ("somethingNew", JsonValue::Array(vec![])),
    ] {
        members.push(JsonMember { name: name.to_string(), value });
    }
    let mut expected = customer(8);
    expected.customer_attributes = Some(CustomerAttributes {
        items: vec![KeyValueEntry { key: "k".to_string(), value: "v".to_string() }],
    });
    expected.updated_at = Some(Timestamp::from_parts(1_609_545_600, 0).unwrap());
    expected.trial_days_left = Some(-3);
    expected.is_locked = Some(false);
    expected.customer_uuid = Some("uuid".to_string());
    assert_eq!(Customer::from_json(&JsonValue::Object(members)), Some(expected));
}

#[test]
fn customer_without_a_required_member_is_not_read() {
    let JsonValue::Object(members) = customer_json(7) else { panic!() };
    for skip in 0..members.len() {
        let rest: Vec<JsonMember> = members
            .iter()
            .enumerate()
            .filter(|(i, _)| *i != skip)
            .map(|(_, m)| JsonMember { name: m.name.clone(), value: customer_json(7).member(&m.name).map(copy).unwrap() })
            .collect();
        assert_eq!(Customer::from_json(&JsonValue::Object(rest)), None);
    }
}

fn copy(j: &JsonValue) -> JsonValue {
    match j {
        JsonValue::Null => JsonValue::Null,
        JsonValue::Bool(b) => JsonValue::Bool(*b),
        JsonValue::Unsigned(n) => JsonValue::Unsigned(*n),
        JsonValue::Signed(n) => JsonValue::Signed(*n),
        JsonValue::Real(t) => JsonValue::Real(t.clone()),
        JsonValue::Text(t) => JsonValue::Text(t.clone()),
        JsonValue::Array(items) => JsonValue::Array(items.iter().map(copy).collect()),
        JsonValue::Object(members) => JsonValue::Object(
            members.iter().map(|m| JsonMember { name: m.name.clone(), value: copy(&m.value) }).collect(),
        ),
    }
}

#[test]
fn customer_with_a_member_of_the_wrong_kind_is_not_read() {
    let JsonValue::Object(mut members) = customer_json(7) else { panic!() };
    members.push(JsonMember { name: "isLocked".to_string(), value: text("no") });
    assert_eq!(Customer::from_json(&JsonValue::Object(members)), None);
    let JsonValue::Object(mut members) = customer_json(7) else { panic!() };
    members.push(JsonMember { name: "createdAt".to_string(), value: text("not a time") });
    assert_eq!(Customer::from_json(&JsonValue::Object(members)), None);
    assert_eq!(Customer::from_json(&JsonValue::Array(vec![])), None);
}

#[test]
fn page_of_customers_is_read() {
    let j = obj(vec![
        ("range", obj(vec![("offset", JsonValue::Unsigned(0)), ("limit", JsonValue::Unsigned(2)), ("total", JsonValue::Unsigned(5))])),
        ("items", JsonValue::Array(vec![customer_json(1), customer_json(2)])),
    ]);
    assert_eq!(
        GetCustomersResponse::from_json(&j),
        Some(GetCustomersResponse {
            range: RangeResponse { offset: 0, limit: 2, total: 5 },
            items: vec![customer(1), customer(2)],
        })
    );
}

#[test]
fn page_of_attributes_is_read() {
    let j = obj(vec![
        ("range", obj(vec![("offset", JsonValue::Unsigned(0)), ("limit", JsonValue::Unsigned(500)), ("total", JsonValue::Unsigned(1))])),
        ("items", JsonValue::Array(vec![obj(vec![("key", text("k")), ("value", text("v"))])])),
    ]);
    assert_eq!(
        AttributesResponse::from_json(&j),
        Some(AttributesResponse {
            range: RangeResponse { offset: 0, limit: 500, total: 1 },
            items: vec![KeyValueEntry { key: "k".to_string(), value: "v".to_string() }],
        })
    );
}

#[test]
fn page_of_users_is_read() {
    let user = obj(vec![
        ("id", JsonValue::Unsigned(3)),
        ("firstName", text("Ada")),
        ("lastName", text("Lovelace")),
        ("userName", text("ada")),
        ("isLocked", JsonValue::Bool(false)),
        ("avatarUuid", text("av")),
        ("homeRoomId", JsonValue::Unsigned(9)),
        ("userRoles", obj(vec![(
            "items",
            JsonValue::Array(vec![obj(vec![
                ("id", JsonValue::Unsigned(1)),
                ("name", text("admin")),
                ("description", text("all")),
                ("items", JsonValue::Array(vec![obj(vec![
                    ("id", JsonValue::Unsigned(2)),
                    ("name", text("read")),
                    ("description", text("may read")),
                ])])),
            ])]),
        )])),
    ]);
    let j = obj(vec![
        ("range", obj(vec![("offset", JsonValue::Unsigned(0)), ("limit", JsonValue::Unsigned(500)), ("total", JsonValue::Unsigned(1))])),
        ("items", JsonValue::Array(vec![user])),
    ]);
    assert_eq!(
        UserList::from_json(&j),
        Some(UserList {
            range: RangeResponse { offset: 0, limit: 500, total: 1 },
            items: vec![UserItem {
                id: 3,
                first_name: "Ada".to_string(),
                last_name: "Lovelace".to_string(),
                user_name: "ada".to_string(),
                is_locked: false,
                avatar_uuid: "av".to_string(),
                created_at: None,
                expire_at: None,
                last_login_success_at: None,
                is_encryption_enabled: None,
                email: None,
                phone: None,
                home_room_id: Some(9),
                user_roles: Some(UserRoles {
                    items: vec![Role {
                        id: 1,
                        name: "admin".to_string(),
                        description: "all".to_string(),
                        items: Some(vec![Right {
                            id: 2,
                            name: "read".to_string(),
                            description: "may read".to_string(),
                        }]),
                    }],
                }),
            }],
        })
    );
}

#[test]
fn created_and_changed_customers_are_read() {
    let created = obj(vec![
        ("id", JsonValue::Unsigned(11)),
        ("companyName", text("ACME")),
        ("customerContractType", text("pay")),
        ("quotaMax", JsonValue::Unsigned(1000)),
        ("userMax", JsonValue::Unsigned(5)),
        ("firstAdminUser", admin().to_json()),
        ("customerUuid", text("u-11")),
    ]);
    assert_eq!(
        NewCustomerResponse::from_json(&created),
        Some(NewCustomerResponse {
            id: 11,
            company_name: "ACME".to_string(),
            customer_contract_type: "pay".to_string(),
            quota_max: 1000,
            user_max: 5,
            is_locked: None,
            trial_days: None,
            created_at: None,
            first_admin_user: admin(),
            customer_attributes: None,
            provider_customer_id: None,
            webhooks_max: None,
            customer_uuid: "u-11".to_string(),
        })
    );
    let changed = obj(vec![
        ("id", JsonValue::Unsigned(11)),
        ("companyName", text("ACME")),
        ("customerContractType", text("pay")),
        ("quotaMax", JsonValue::Unsigned(2000)),
        ("userMax", JsonValue::Unsigned(5)),
        ("customerUuid", text("u-11")),
        ("trialDays", JsonValue::Unsigned(3)),
    ]);
    assert_eq!(
        UpdateCustomerResponse::from_json(&changed),
        Some(UpdateCustomerResponse {
            id: 11,
            company_name: "ACME".to_string(),
            customer_contract_type: "pay".to_string(),
            quota_max: 2000,
            user_max: 5,
            customer_uuid: "u-11".to_string(),
            is_locked: None,
            trial_days: Some(3),
            created_at: None,
            updated_at: None,
            customer_attributes: None,
            provider_customer_id: None,
            webhooks_max: None,
        })
    );
}

#[test]
fn error_body_is_read() {
    let j = obj(vec![
        ("code", JsonValue::Unsigned(404)),
        ("message", text("Not found")),
        ("debugInfo", text("no customer 7")),
        ("errorCode", JsonValue::Signed(-40755)),
    ]);
    assert_eq!(
        DRACOONErrorResponse::from_json(&j),
        Some(DRACOONErrorResponse {
            code: 404,
            message: "Not found".to_string(),
            debug_info: Some("no customer 7".to_string()),
            error_code: Some(-40755),
        })
    );
    let short = obj(vec![("code", JsonValue::Unsigned(500)), ("message", text("Oops")), ("debugInfo", JsonValue::Null)]);
    assert_eq!(
        DRACOONErrorResponse::from_json(&short),
        Some(DRACOONErrorResponse { code: 500, message: "Oops".to_string(), debug_info: None, error_code: None })
    );
    assert_eq!(DRACOONErrorResponse::from_json(&obj(vec![("code", JsonValue::Unsigned(500))])), None);
    assert_eq!(DRACOONErrorResponse::from_json(&text("Oops")), None);
}

#[test]
fn page_within_its_limit_is_well_formed() {
    let range = RangeResponse { offset: 0, limit: 2, total: 5 };
    assert!(range.holds(0));
    assert!(range.holds(2));
    assert!(!range.holds(3));
    let page = GetCustomersResponse { range, items: vec![customer(1), customer(2)] };
    assert!(page.is_well_formed());
    let crowded = GetCustomersResponse { range, items: vec![customer(1), customer(2), customer(3)] };
    assert!(!crowded.is_well_formed());
    let none = AttributesResponse { range: RangeResponse { offset: 0, limit: 0, total: 0 }, items: vec![] };
    assert!(none.is_well_formed());
    let users = UserList { range: RangeResponse { offset: 0, limit: u64::MAX, total: 0 }, items: vec![] };
    assert!(users.is_well_formed());
}
