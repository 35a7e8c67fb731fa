use dcprov::cmd::render::{
    created_customer_line, range_line, updated_customer_line, CUSTOMER_ATTRIBUTES_CSV_HEADER,
    CUSTOMER_CSV_HEADER, CUSTOMER_USERS_CSV_HEADER,
};
use dcprov::cmd::{
    create_customer_output, customer_attribute_to_string, customer_line, customer_to_string,
    delete_customer_output, get_customer_attributes_output, get_customer_output,
    get_customer_users_output, handle_dracoon_errors, handle_errors, list_customers_output,
    print_dracoon_error, update_customer_attributes_output, update_customer_output,
    user_to_string, DcProvError, OutputLine, PrintType,
};
use dcprov::provisioning::{
    AttributesResponse, Customer, DRACOONErrorResponse, DRACOONProvisioningError, FirstAdminUser,
    GetCustomersResponse, KeyValueEntry, NewCustomerResponse, RangeResponse, RequestFailure,
    UpdateCustomerResponse, UserItem, UserList,
};
use dcprov::time::Timestamp;

fn customer(id: u64) -> Customer {
    Customer {
        id,
        company_name: "ACME".to_string(),
        customer_contract_type: "pay".to_string(),
        quota_max: 1000,
        quota_used: 10,
        user_max: 5,
        user_used: 1,
        created_at: Timestamp::from_parts(1_431_648_000, 0).unwrap(),
        customer_attributes: None,
        updated_at: None,
        last_login_at: None,
        trial_days_left: None,
        is_locked: None,
        customer_uuid: None,
    }
}

fn user() -> UserItem {
    UserItem {
        id: 3,
        first_name: "Ada".to_string(),
        last_name: "Lovelace".to_string(),
        user_name: "ada".to_string(),
        is_locked: false,
        avatar_uuid: "av".to_string(),
        created_at: None,
        expire_at: None,
        last_login_success_at: None,
        is_encryption_enabled: None,
        email: None,
        phone: None,
        home_room_id: None,
        user_roles: None,
    }
}

fn plain(t: &str) -> OutputLine {
    OutputLine::Plain(t.to_string())
}

fn body() -> DRACOONErrorResponse {
    DRACOONErrorResponse {
        code: 404,
        message: "Not found".to_string(),
        debug_info: Some("no customer 7".to_string()),
        error_code: Some(-40755),
    }
}

#[test]
fn customer_reads_as_values_or_with_names() {
    assert_eq!(
        customer_to_string(&customer(7), PrintType::Csv),
        "ACME,pay,1,5,10,1000,7,2015-05-15 00:00:00 UTC"
    );
    assert_eq!(
        customer_to_string(&customer(7), PrintType::Pretty),
        "company: ACME | contract: pay | users used: 1 | users max: 5 | quota used: 10 | quota max: 1000 | id: 7 | created_at: 2015-05-15 00:00:00 UTC"
    );
    assert_eq!(customer_line(&customer(7), "then", PrintType::Csv), "ACME,pay,1,5,10,1000,7,then");
}

#[test]
fn customer_that_was_read_has_a_line() {
    let mut c = customer(7);
    c.created_at = Timestamp::parse("2021-01-01T00:00:00.5+01:00").unwrap();
    assert_eq!(
        customer_to_string(&c, PrintType::Csv),
        "ACME,pay,1,5,10,1000,7,2020-12-31 23:00:00.500 UTC"
    );
}

#[test]
fn user_reads_as_values_or_with_names() {
    assert_eq!(user_to_string(&user(), PrintType::Csv), "3,Ada,Lovelace,ada,false");
    assert_eq!(
        user_to_string(&user(), PrintType::Pretty),
        "id: 3 | first name: Ada | last name: Lovelace | user name: ada | is locked: false"
    );
}

#[test]
fn attribute_reads_as_values_or_with_names() {
    let a = KeyValueEntry { key: "tier".to_string(), value: "gold".to_string() };
    assert_eq!(customer_attribute_to_string(&a, PrintType::Csv), "tier,gold");
    assert_eq!(customer_attribute_to_string(&a, PrintType::Pretty), "key: tier | value: gold");
}

#[test]
fn range_reads_total_offset_and_limit() {
    assert_eq!(
        range_line("customers", &RangeResponse { offset: 0, limit: 2, total: 5 }),
        "total customers: 5 | offset: 0 | limit: 2"
    );
}

#[test]
fn list_of_customers_is_printed_below_its_header() {
    let page = GetCustomersResponse {
        range: RangeResponse { offset: 0, limit: 2, total: 5 },
        items: vec![customer(1), customer(2)],
    };
    assert_eq!(
        list_customers_output(&page, Some(PrintType::Csv)),
        vec![
            plain(CUSTOMER_CSV_HEADER),
            plain("ACME,pay,1,5,10,1000,1,2015-05-15 00:00:00 UTC"),
            plain("ACME,pay,1,5,10,1000,2,2015-05-15 00:00:00 UTC"),
        ]
    );
    let lines = list_customers_output(&page, None);
    assert_eq!(lines.len(), 3);
    assert_eq!(lines[0], plain("total customers: 5 | offset: 0 | limit: 2"));
    assert_eq!(
        lines[1],
        plain("company: ACME | contract: pay | users used: 1 | users max: 5 | quota used: 10 | quota max: 1000 | id: 1 | created_at: 2015-05-15 00:00:00 UTC")
    );
    assert_eq!(lines, list_customers_output(&page, Some(PrintType::Pretty)));
    assert_eq!(lines[1], get_customer_output(&customer(1), None));
    assert_eq!(lines[2], get_customer_output(&customer(2), None));
    assert_eq!(CUSTOMER_CSV_HEADER, "companyName,contractType,userUsed,userMax,quotaUsed,quotaMax,id,createdAt");
}

#[test]
fn list_of_users_is_printed_below_its_header() {
    let users = UserList { range: RangeResponse { offset: 0, limit: 500, total: 1 }, items: vec![user()] };
    assert_eq!(
        get_customer_users_output(&users, Some(PrintType::Csv)),
        vec![plain("id,firstName,lastName,userName,isLocked"), plain("3,Ada,Lovelace,ada,false")]
    );
    assert_eq!(
        get_customer_users_output(&users, None),
        vec![
            plain("total users: 1 | offset: 0 | limit: 500"),
            plain("id: 3 | first name: Ada | last name: Lovelace | user name: ada | is locked: false"),
        ]
    );
    assert_eq!(CUSTOMER_USERS_CSV_HEADER, "id,firstName,lastName,userName,isLocked");
}

#[test]
fn list_of_attributes_is_printed_below_its_header() {
    let attribs = AttributesResponse {
        range: RangeResponse { offset: 0, limit: 500, total: 2 },
        items: vec![
            KeyValueEntry { key: "a".to_string(), value: "1".to_string() },
            KeyValueEntry { key: "b".to_string(), value: "2".to_string() },
        ],
    };
    assert_eq!(
        get_customer_attributes_output(9, &attribs, Some(PrintType::Csv)),
        vec![plain("key,value"), plain("a,1"), plain("b,2")]
    );
    assert_eq!(
        get_customer_attributes_output(9, &attribs, None),
        vec![
            plain("Customer attributes for customer with id: 9"),
            plain("key: a | value: 1"),
            plain("key: b | value: 2"),
        ]
    );
    let none = AttributesResponse { range: RangeResponse { offset: 0, limit: 500, total: 0 }, items: vec![] };
    assert_eq!(
        get_customer_attributes_output(9, &none, Some(PrintType::Csv)),
        vec![plain(CUSTOMER_ATTRIBUTES_CSV_HEADER), plain("Customer has no customer attributes.")]
    );
}

#[test]
fn success_is_reported_with_the_number_of_the_customer() {
    assert_eq!(delete_customer_output(12), OutputLine::Success("Deleted customer with id 12".to_string()));
    assert_eq!(
        update_customer_attributes_output(&customer(12)),
        OutputLine::Success("Updated customer attributes of customer with id 12".to_string())
    );
    let changed = UpdateCustomerResponse {
        id: 12,
        company_name: "ACME".to_string(),
        customer_contract_type: "pay".to_string(),
        quota_max: 2000,
        user_max: 5,
        customer_uuid: "u".to_string(),
        is_locked: None,
        trial_days: None,
        created_at: None,
        updated_at: None,
        customer_attributes: None,
        provider_customer_id: None,
        webhooks_max: None,
    };
    assert_eq!(
        update_customer_output(12, &changed),
        vec![
            OutputLine::Success("Updated customer with id 12".to_string()),
            plain("company: ACME | contract: pay | users max: 5 | quota max: 2000 | id: 12"),
        ]
    );
    assert_eq!(updated_customer_line(&changed), "company: ACME | contract: pay | users max: 5 | quota max: 2000 | id: 12");
    let created = NewCustomerResponse {
        id: 13,
        company_name: "ACME".to_string(),
        customer_contract_type: "pay".to_string(),
        quota_max: 2000,
        user_max: 5,
        is_locked: None,
        trial_days: None,
        created_at: None,
        first_admin_user: FirstAdminUser::new_local("A".to_string(), "L".to_string(), None, "a@example.com".to_string(), None),
        customer_attributes: None,
        provider_customer_id: None,
        webhooks_max: None,
        customer_uuid: "u".to_string(),
    };
    assert_eq!(
        create_customer_output(&created),
        vec![
            OutputLine::Success("Customer created.".to_string()),
            plain("Company name: ACME | user max: 5 | quota max: 2000 | id: 13"),
        ]
    );
    assert_eq!(created_customer_line(&created), "Company name: ACME | user max: 5 | quota max: 2000 | id: 13");
}

#[test]
fn error_body_is_printed_with_code_and_details() {
    assert_eq!(
        print_dracoon_error(&body()),
        vec![
            OutputLine::Error("Not found (404)".to_string()),
            OutputLine::ErrorDetails("no customer 7".to_string()),
        ]
    );
    let short = DRACOONErrorResponse { code: -1, message: "Oops".to_string(), debug_info: None, error_code: None };
    assert_eq!(print_dracoon_error(&short), vec![OutputLine::Error("Oops (-1)".to_string())]);
}

#[test]
fn failed_call_is_reported_with_what_could_not_be_done() {
    assert_eq!(
        handle_dracoon_errors(&DRACOONProvisioningError::NotFound(body()), Some("Could not get customer info.")),
        vec![
            OutputLine::Error("Could not get customer info.".to_string()),
            OutputLine::Error("Not found (404)".to_string()),
            OutputLine::ErrorDetails("no customer 7".to_string()),
        ]
    );
    assert_eq!(
        handle_dracoon_errors(&DRACOONProvisioningError::RequestFailed(RequestFailure::Decode), None),
        vec![OutputLine::Error("Unknown error".to_string()), OutputLine::Error("Uncaught error.".to_string())]
    );
    assert_eq!(
        handle_dracoon_errors(&DRACOONProvisioningError::Unauthorized(None), Some("x")),
        vec![OutputLine::Error("x".to_string()), OutputLine::Error("Uncaught error.".to_string())]
    );
}

#[test]
fn failed_run_is_reported() {
    assert_eq!(
        handle_errors(&DcProvError::Conflict(body())),
        vec![
            OutputLine::Error("Not found (404)".to_string()),
            OutputLine::ErrorDetails("no customer 7".to_string()),
        ]
    );
    assert_eq!(handle_errors(&DcProvError::Unauthorized(Some(body()))), print_dracoon_error(&body()));
    assert_eq!(handle_errors(&DcProvError::Io), vec![OutputLine::Error("IO error.".to_string())]);
    for e in [
        DcProvError::Other,
        DcProvError::InvalidAccount,
        DcProvError::CredentialStorageFailed,
        DcProvError::CredentialDeletionFailed,
        DcProvError::Unauthorized(None),
        DcProvError::TransportFailure(RequestFailure::Decode),
    ] {
        assert_eq!(handle_errors(&e), vec![OutputLine::Error("Uncaught error.".to_string())]);
    }
}

#[test]
fn flag_chooses_comma_separated_values() {
    assert_eq!(PrintType::of_flag(true), PrintType::Csv);
    assert_eq!(PrintType::of_flag(false), PrintType::Pretty);
}
