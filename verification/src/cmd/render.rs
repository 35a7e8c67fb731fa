//! What the client prints: the lines that show customers, users and
//! attributes, plainly or as comma-separated values, and the lines that
//! report success and failure. Printing, and the colours of the labels,
//! are left to the caller.

use crate::cmd::models::DcProvError;
use crate::provisioning::error::DRACOONProvisioningError;
use crate::provisioning::models::{
    AttributesResponse, AttributesResponseView, Customer, CustomerView, DRACOONErrorResponse,
    DRACOONErrorResponseView, GetCustomersResponse, GetCustomersResponseView, KeyValueEntry,
    KeyValueEntryView, NewCustomerResponse, NewCustomerResponseView, RangeResponse,
    UpdateCustomerResponse, UpdateCustomerResponseView, UserItem, UserItemView, UserList,
    UserListView,
};
use crate::text::{
    bool_str, bool_text, decimal, push_decimal, push_signed_decimal, signed_decimal, u64_text,
};
use vstd::prelude::*;
use vstd::string::*;

verus! {

/// How lists are printed.
#[derive(Debug, Clone, Copy, PartialEq, Eq)]
pub enum PrintType {
    /// Each value after its name.
    Pretty,
    /// The values alone, with commas between them, below a header.
    Csv,
}

/// The header above customers printed as comma-separated values.
pub const CUSTOMER_CSV_HEADER: &'static str =
    "companyName,contractType,userUsed,userMax,quotaUsed,quotaMax,id,createdAt";

/// The header above users printed as comma-separated values.
pub const CUSTOMER_USERS_CSV_HEADER: &'static str = "id,firstName,lastName,userName,isLocked";

/// The header above attributes printed as comma-separated values.
pub const CUSTOMER_ATTRIBUTES_CSV_HEADER: &'static str = "key,value";

/// A line of output and the label that it is printed after, if any.
#[derive(Debug, Clone, PartialEq, Eq)]
pub enum OutputLine {
    /// A line without a label.
    Plain(String),
    /// A line after the label of success.
    Success(String),
    /// A line after the label of failure.
    Error(String),
    /// A line after the label of the details of a failure.
    ErrorDetails(String),
}

/// The content of an [`OutputLine`].
pub enum LineView {
    Plain(Seq<char>),
    Success(Seq<char>),
    Error(Seq<char>),
    ErrorDetails(Seq<char>),
}

impl DeepView for OutputLine {
    type V = LineView;

    open spec fn deep_view(&self) -> LineView {
        match self {
            OutputLine::Plain(t) => LineView::Plain(t@),
            OutputLine::Success(t) => LineView::Success(t@),
            OutputLine::Error(t) => LineView::Error(t@),
            OutputLine::ErrorDetails(t) => LineView::ErrorDetails(t@),
        }
    }
}

impl PrintType {
    /// The way lists are printed with or without the flag for
    /// comma-separated values.
    pub fn of_flag(csv: bool) -> (r: PrintType)
        ensures
            r == if csv {
                PrintType::Csv
            } else {
                PrintType::Pretty
            },
    {
        if csv {
            PrintType::Csv
        } else {
            PrintType::Pretty
        }
    }
}

/// The way lists are printed where none is chosen.
pub open spec fn print_type_or_default(print_type: Option<PrintType>) -> PrintType {
    match print_type {
        Some(p) => p,
        None => PrintType::Pretty,
    }
}

fn chosen(print_type: Option<PrintType>) -> (r: PrintType)
    ensures
        r == print_type_or_default(print_type),
{
    match print_type {
        Some(p) => p,
        None => PrintType::Pretty,
    }
}

/// The line that shows a customer, given how the time of its creation reads: the
/// values alone with commas between them, or each after its name.
pub open spec fn customer_line_text(
    customer: CustomerView,
    created_at: Seq<char>,
    print_type: PrintType,
) -> Seq<char> {
    match print_type {
        PrintType::Csv => customer.company_name
            + ","@
            + customer.customer_contract_type
            + ","@
            + decimal(customer.user_used as nat)
            + ","@
            + decimal(customer.user_max as nat)
            + ","@
            + decimal(customer.quota_used as nat)
            + ","@
            + decimal(customer.quota_max as nat)
            + ","@
            + decimal(customer.id as nat)
            + ","@
            + created_at,
        PrintType::Pretty => "company: "@
            + customer.company_name
            + " | contract: "@
            + customer.customer_contract_type
            + " | users used: "@
            + decimal(customer.user_used as nat)
            + " | users max: "@
            + decimal(customer.user_max as nat)
            + " | quota used: "@
            + decimal(customer.quota_used as nat)
            + " | quota max: "@
            + decimal(customer.quota_max as nat)
            + " | id: "@
            + decimal(customer.id as nat)
            + " | created_at: "@
            + created_at,
    }
}

/// Writes the line that shows a customer.
pub fn customer_line(customer: &Customer, created_at: &str, print_type: PrintType) -> (r: String)
    ensures
        r@ == customer_line_text(customer.deep_view(), created_at@, print_type),
{
    match print_type {
        PrintType::Csv => {
            let mut line = String::from_str(customer.company_name.as_str());
            line.append(",");
            line.append(customer.customer_contract_type.as_str());
            line.append(",");
            push_decimal(&mut line, customer.user_used);
            line.append(",");
            push_decimal(&mut line, customer.user_max);
            line.append(",");
            push_decimal(&mut line, customer.quota_used);
            line.append(",");
            push_decimal(&mut line, customer.quota_max);
            line.append(",");
            push_decimal(&mut line, customer.id);
            line.append(",");
            line.append(created_at);
            line
        },
        PrintType::Pretty => {
            let mut line = String::from_str("company: ");
            line.append(customer.company_name.as_str());
            line.append(" | contract: ");
            line.append(customer.customer_contract_type.as_str());
            line.append(" | users used: ");
            push_decimal(&mut line, customer.user_used);
            line.append(" | users max: ");
            push_decimal(&mut line, customer.user_max);
            line.append(" | quota used: ");
            push_decimal(&mut line, customer.quota_used);
            line.append(" | quota max: ");
            push_decimal(&mut line, customer.quota_max);
            line.append(" | id: ");
            push_decimal(&mut line, customer.id);
            line.append(" | created_at: ");
            line.append(created_at);
            line
        },
    }
}

/// The line that shows a user.
pub open spec fn user_to_string_text(
    user: UserItemView,
    print_type: PrintType,
) -> Seq<char> {
    match print_type {
        PrintType::Csv => decimal(user.id as nat)
            + ","@
            + user.first_name
            + ","@
            + user.last_name
            + ","@
            + user.user_name
            + ","@
            + bool_text(user.is_locked),
        PrintType::Pretty => "id: "@
            + decimal(user.id as nat)
            + " | first name: "@
            + user.first_name
            + " | last name: "@
            + user.last_name
            + " | user name: "@
            + user.user_name
            + " | is locked: "@
            + bool_text(user.is_locked),
    }
}

/// Writes the line that shows a user.
pub fn user_to_string(user: &UserItem, print_type: PrintType) -> (r: String)
    ensures
        r@ == user_to_string_text(user.deep_view(), print_type),
{
    match print_type {
        PrintType::Csv => {
            let mut line = u64_text(user.id);
            line.append(",");
            line.append(user.first_name.as_str());
            line.append(",");
            line.append(user.last_name.as_str());
            line.append(",");
            line.append(user.user_name.as_str());
            line.append(",");
            line.append(bool_str(user.is_locked));
            line
        },
        PrintType::Pretty => {
            let mut line = String::from_str("id: ");
            push_decimal(&mut line, user.id);
            line.append(" | first name: ");
            line.append(user.first_name.as_str());
            line.append(" | last name: ");
            line.append(user.last_name.as_str());
            line.append(" | user name: ");
            line.append(user.user_name.as_str());
            line.append(" | is locked: ");
            line.append(bool_str(user.is_locked));
            line
        },
    }
}

/// The line that shows an attribute.
pub open spec fn customer_attribute_to_string_text(
    attrib: KeyValueEntryView,
    print_type: PrintType,
) -> Seq<char> {
    match print_type {
        PrintType::Csv => attrib.key
            + ","@
            + attrib.value,
        PrintType::Pretty => "key: "@
            + attrib.key
            + " | value: "@
            + attrib.value,
    }
}

/// Writes the line that shows an attribute.
pub fn customer_attribute_to_string(attrib: &KeyValueEntry, print_type: PrintType) -> (r: String)
    ensures
        r@ == customer_attribute_to_string_text(attrib.deep_view(), print_type),
{
    match print_type {
        PrintType::Csv => {
            let mut line = String::from_str(attrib.key.as_str());
            line.append(",");
            line.append(attrib.value.as_str());
            line
        },
        PrintType::Pretty => {
            let mut line = String::from_str("key: ");
            line.append(attrib.key.as_str());
            line.append(" | value: ");
            line.append(attrib.value.as_str());
            line
        },
    }
}

/// The line that shows a customer after a change.
pub open spec fn updated_customer_line_text(customer: UpdateCustomerResponseView) -> Seq<char> {
    "company: "@
        + customer.company_name
        + " | contract: "@
        + customer.customer_contract_type
        + " | users max: "@
        + decimal(customer.user_max as nat)
        + " | quota max: "@
        + decimal(customer.quota_max as nat)
        + " | id: "@
        + decimal(customer.id as nat)
}

/// Writes the line that shows a customer after a change.
pub fn updated_customer_line(customer: &UpdateCustomerResponse) -> (r: String)
    ensures
        r@ == updated_customer_line_text(customer.deep_view()),
{
    let mut line = String::from_str("company: ");
    line.append(customer.company_name.as_str());
    line.append(" | contract: ");
    line.append(customer.customer_contract_type.as_str());
    line.append(" | users max: ");
    push_decimal(&mut line, customer.user_max);
    line.append(" | quota max: ");
    push_decimal(&mut line, customer.quota_max);
    line.append(" | id: ");
    push_decimal(&mut line, customer.id);
    line
}

/// The line that shows a customer that was created.
pub open spec fn created_customer_line_text(customer: NewCustomerResponseView) -> Seq<char> {
    "Company name: "@
        + customer.company_name
        + " | user max: "@
        + decimal(customer.user_max as nat)
        + " | quota max: "@
        + decimal(customer.quota_max as nat)
        + " | id: "@
        + decimal(customer.id as nat)
}

/// Writes the line that shows a customer that was created.
pub fn created_customer_line(customer: &NewCustomerResponse) -> (r: String)
    ensures
        r@ == created_customer_line_text(customer.deep_view()),
{
    let mut line = String::from_str("Company name: ");
    line.append(customer.company_name.as_str());
    line.append(" | user max: ");
    push_decimal(&mut line, customer.user_max);
    line.append(" | quota max: ");
    push_decimal(&mut line, customer.quota_max);
    line.append(" | id: ");
    push_decimal(&mut line, customer.id);
    line
}

/// The line that shows a customer.
pub open spec fn customer_to_string_text(customer: CustomerView, print_type: PrintType) -> Seq<
    char,
> {
    customer_line_text(customer, customer.created_at.notation(), print_type)
}

/// Writes the line that shows a customer.
pub fn customer_to_string(customer: &Customer, print_type: PrintType) -> (r: String)
    ensures
        r@ == customer_to_string_text(customer.deep_view(), print_type),
{
    let created_at = customer.created_at.to_text();
    customer_line(customer, created_at.as_str(), print_type)
}

/// The line that says where a page lies in a listing of `what`.
pub open spec fn range_line_text(what: Seq<char>, range: RangeResponse) -> Seq<char> {
    "total "@ + what + ": "@ + decimal(range.total as nat) + " | offset: "@ + decimal(
        range.offset as nat,
    ) + " | limit: "@ + decimal(range.limit as nat)
}

/// Writes the line that says where a page lies in a listing.
pub fn range_line(what: &str, range: &RangeResponse) -> (r: String)
    ensures
        r@ == range_line_text(what@, *range),
{
    let mut line = String::from_str("total ");
    line.append(what);
    line.append(": ");
    push_decimal(&mut line, range.total);
    line.append(" | offset: ");
    push_decimal(&mut line, range.offset);
    line.append(" | limit: ");
    push_decimal(&mut line, range.limit);
    line
}

/// A sentence that ends in the number of a customer.
pub open spec fn numbered_text(sentence: Seq<char>, id: u64) -> Seq<char> {
    sentence + decimal(id as nat)
}

fn numbered(sentence: &str, id: u64) -> (r: String)
    ensures
        r@ == numbered_text(sentence@, id),
{
    let mut line = String::from_str(sentence);
    push_decimal(&mut line, id);
    line
}

/// The line above a list: the header of the values, or where the page
/// lies in the listing.
pub open spec fn list_header_text(
    csv_header: Seq<char>,
    what: Seq<char>,
    range: RangeResponse,
    print_type: PrintType,
) -> Seq<char> {
    match print_type {
        PrintType::Csv => csv_header,
        PrintType::Pretty => range_line_text(what, range),
    }
}

fn list_header(csv_header: &str, what: &str, range: &RangeResponse, print_type: PrintType) -> (r:
    String)
    ensures
        r@ == list_header_text(csv_header@, what@, *range, print_type),
{
    match print_type {
        PrintType::Csv => String::from_str(csv_header),
        PrintType::Pretty => range_line(what, range),
    }
}

/// What is printed for a page of customers: the line above the list, then
/// a line for each customer in the order of the page.
pub open spec fn list_customers_lines(
    customers: GetCustomersResponseView,
    print_type: Option<PrintType>,
) -> Seq<LineView> {
    let chosen = print_type_or_default(print_type);
    seq![
        LineView::Plain(
            list_header_text(CUSTOMER_CSV_HEADER@, "customers"@, customers.range, chosen),
        ),
    ] + Seq::new(
        customers.items.len(),
        |i: int| LineView::Plain(customer_to_string_text(customers.items[i], chosen)),
    )
}

/// Writes what is printed for a page of customers.
pub fn list_customers_output(customers: &GetCustomersResponse, print_type: Option<PrintType>) -> (r:
    Vec<OutputLine>)
    ensures
        r.deep_view() == list_customers_lines(customers.deep_view(), print_type),
{
    let print_type = chosen(print_type);
    let mut lines: Vec<OutputLine> = Vec::new();
    lines.push(
        OutputLine::Plain(
            list_header(CUSTOMER_CSV_HEADER, "customers", &customers.range, print_type),
        ),
    );
    let ghost wanted = list_customers_lines(customers.deep_view(), Some(print_type));
    let mut i: usize = 0;
    while i < customers.items.len()
        invariant
            i <= customers.items.len(),
            wanted == list_customers_lines(customers.deep_view(), Some(print_type)),
            lines.len() == i + 1,
            forall|k: int| 0 <= k <= i ==> #[trigger] lines[k].deep_view() == wanted[k],
        decreases customers.items.len() - i,
    {
        lines.push(OutputLine::Plain(customer_to_string(&customers.items[i], print_type)));
        i += 1;
    }
    assert(lines.deep_view() =~= wanted);
    lines
}

/// What is printed for one customer.
pub fn get_customer_output(customer: &Customer, print_type: Option<PrintType>) -> (r: OutputLine)
    ensures
        r.deep_view() == LineView::Plain(
            customer_to_string_text(customer.deep_view(), print_type_or_default(print_type)),
        ),
{
    OutputLine::Plain(customer_to_string(customer, chosen(print_type)))
}

/// A page of two customers is printed as three lines: where the page lies
/// in the listing, then the two customers in the order of the page.
pub proof fn lemma_page_of_two_lines(customers: GetCustomersResponseView)
    requires
        customers.items.len() == 2,
    ensures
        list_customers_lines(customers, None) == seq![
            LineView::Plain(range_line_text("customers"@, customers.range)),
            LineView::Plain(customer_to_string_text(customers.items[0], PrintType::Pretty)),
            LineView::Plain(customer_to_string_text(customers.items[1], PrintType::Pretty)),
        ],
{
    assert(list_customers_lines(customers, None) =~= seq![
        LineView::Plain(range_line_text("customers"@, customers.range)),
        LineView::Plain(customer_to_string_text(customers.items[0], PrintType::Pretty)),
        LineView::Plain(customer_to_string_text(customers.items[1], PrintType::Pretty)),
    ]);
}

/// What is printed for a page of users: the line above the list, then a
/// line for each user in the order of the page.
pub open spec fn customer_users_lines(users: UserListView, print_type: Option<PrintType>) -> Seq<
    LineView,
> {
    let chosen = print_type_or_default(print_type);
    seq![
        LineView::Plain(
            list_header_text(CUSTOMER_USERS_CSV_HEADER@, "users"@, users.range, chosen),
        ),
    ] + Seq::new(
        users.items.len(),
        |i: int| LineView::Plain(user_to_string_text(users.items[i], chosen)),
    )
}

/// Writes what is printed for a page of users.
pub fn get_customer_users_output(users: &UserList, print_type: Option<PrintType>) -> (r: Vec<
    OutputLine,
>)
    ensures
        r.deep_view() == customer_users_lines(users.deep_view(), print_type),
{
    let print_type = chosen(print_type);
    let mut lines: Vec<OutputLine> = Vec::new();
    lines.push(
        OutputLine::Plain(
            list_header(CUSTOMER_USERS_CSV_HEADER, "users", &users.range, print_type),
        ),
    );
    let ghost wanted = customer_users_lines(users.deep_view(), Some(print_type));
    let mut i: usize = 0;
    while i < users.items.len()
        invariant
            i <= users.items.len(),
            wanted == customer_users_lines(users.deep_view(), Some(print_type)),
            lines.len() == i + 1,
            forall|k: int| 0 <= k <= i ==> #[trigger] lines[k].deep_view() == wanted[k],
        decreases users.items.len() - i,
    {
        lines.push(OutputLine::Plain(user_to_string(&users.items[i], print_type)));
        i += 1;
    }
    assert(lines.deep_view() =~= wanted);
    lines
}

/// What is printed for a page of attributes of the customer `id`: the
/// line above the list, a remark where the list is empty, then a line for
/// each attribute in the order of the page.
pub open spec fn customer_attributes_lines(
    id: u64,
    attribs: AttributesResponseView,
    print_type: Option<PrintType>,
) -> Seq<LineView> {
    let chosen = print_type_or_default(print_type);
    let header = seq![
        LineView::Plain(
            match chosen {
                PrintType::Csv => CUSTOMER_ATTRIBUTES_CSV_HEADER@,
                PrintType::Pretty => numbered_text(
                    "Customer attributes for customer with id: "@,
                    id,
                ),
            },
        ),
    ];
    if attribs.items.len() == 0 {
        header.push(LineView::Plain("Customer has no customer attributes."@))
    } else {
        header + Seq::new(
            attribs.items.len(),
            |i: int| LineView::Plain(customer_attribute_to_string_text(attribs.items[i], chosen)),
        )
    }
}

/// Writes what is printed for a page of attributes.
pub fn get_customer_attributes_output(
    id: u64,
    attribs: &AttributesResponse,
    print_type: Option<PrintType>,
) -> (r: Vec<OutputLine>)
    ensures
        r.deep_view() == customer_attributes_lines(id, attribs.deep_view(), print_type),
{
    let print_type = chosen(print_type);
    let mut lines: Vec<OutputLine> = Vec::new();
    lines.push(
        OutputLine::Plain(
            match print_type {
                PrintType::Csv => String::from_str(CUSTOMER_ATTRIBUTES_CSV_HEADER),
                PrintType::Pretty => numbered("Customer attributes for customer with id: ", id),
            },
        ),
    );
    let ghost wanted = customer_attributes_lines(id, attribs.deep_view(), Some(print_type));
    if attribs.items.len() == 0 {
        lines.push(OutputLine::Plain(String::from_str("Customer has no customer attributes.")));
        assert(lines.deep_view() =~= wanted);
        return lines;
    }
    let mut i: usize = 0;
    while i < attribs.items.len()
        invariant
            i <= attribs.items.len(),
            attribs.items.len() > 0,
            wanted == customer_attributes_lines(id, attribs.deep_view(), Some(print_type)),
            lines.len() == i + 1,
            forall|k: int| 0 <= k <= i ==> #[trigger] lines[k].deep_view() == wanted[k],
        decreases attribs.items.len() - i,
    {
        lines.push(
            OutputLine::Plain(customer_attribute_to_string(&attribs.items[i], print_type)),
        );
        i += 1;
    }
    assert(lines.deep_view() =~= wanted);
    lines
}

/// What is printed when a customer was changed.
pub fn update_customer_output(id: u64, customer: &UpdateCustomerResponse) -> (r: Vec<OutputLine>)
    ensures
        r.deep_view() == seq![
            LineView::Success(numbered_text("Updated customer with id "@, id)),
            LineView::Plain(updated_customer_line_text(customer.deep_view())),
        ],
{
    let mut lines: Vec<OutputLine> = Vec::new();
    lines.push(OutputLine::Success(numbered("Updated customer with id ", id)));
    lines.push(OutputLine::Plain(updated_customer_line(customer)));
    assert(lines.deep_view() =~= seq![
        LineView::Success(numbered_text("Updated customer with id "@, id)),
        LineView::Plain(updated_customer_line_text(customer.deep_view())),
    ]);
    lines
}

/// What is printed when a customer was deleted.
pub fn delete_customer_output(id: u64) -> (r: OutputLine)
    ensures
        r.deep_view() == LineView::Success(numbered_text("Deleted customer with id "@, id)),
{
    OutputLine::Success(numbered("Deleted customer with id ", id))
}

/// What is printed when a customer was created.
pub fn create_customer_output(customer: &NewCustomerResponse) -> (r: Vec<OutputLine>)
    ensures
        r.deep_view() == seq![
            LineView::Success("Customer created."@),
            LineView::Plain(created_customer_line_text(customer.deep_view())),
        ],
{
    let mut lines: Vec<OutputLine> = Vec::new();
    lines.push(OutputLine::Success(String::from_str("Customer created.")));
    lines.push(OutputLine::Plain(created_customer_line(customer)));
    assert(lines.deep_view() =~= seq![
        LineView::Success("Customer created."@),
        LineView::Plain(created_customer_line_text(customer.deep_view())),
    ]);
    lines
}

/// What is printed when the attributes of a customer were set.
pub fn update_customer_attributes_output(customer: &Customer) -> (r: OutputLine)
    ensures
        r.deep_view() == LineView::Success(
            numbered_text("Updated customer attributes of customer with id "@, customer.id),
        ),
{
    OutputLine::Success(numbered("Updated customer attributes of customer with id ", customer.id))
}

/// The message of an error body with its code behind it.
pub open spec fn error_message_text(body: DRACOONErrorResponseView) -> Seq<char> {
    body.message + " ("@ + signed_decimal(body.code as int) + ")"@
}

/// What is printed for an error body: the message with the code, then the
/// details where there are any.
pub open spec fn error_body_lines(body: DRACOONErrorResponseView) -> Seq<LineView> {
    match body.debug_info {
        Some(details) => seq![
            LineView::Error(error_message_text(body)),
            LineView::ErrorDetails(details),
        ],
        None => seq![LineView::Error(error_message_text(body))],
    }
}

/// Writes what is printed for an error body.
pub fn print_dracoon_error(err: &DRACOONErrorResponse) -> (r: Vec<OutputLine>)
    ensures
        r.deep_view() == error_body_lines(err.deep_view()),
{
    let mut message = err.message.clone();
    message.append(" (");
    push_signed_decimal(&mut message, err.code);
    message.append(")");
    let mut lines: Vec<OutputLine> = Vec::new();
    lines.push(OutputLine::Error(message));
    match &err.debug_info {
        Some(details) => {
            lines.push(OutputLine::ErrorDetails(details.clone()));
        },
        None => {},
    }
    assert(lines.deep_view() =~= error_body_lines(err.deep_view()));
    lines
}

/// The one line that is printed for a failure without an error body.
pub open spec fn uncaught() -> Seq<LineView> {
    seq![LineView::Error("Uncaught error."@)]
}

fn uncaught_lines() -> (r: Vec<OutputLine>)
    ensures
        r.deep_view() == uncaught(),
{
    let mut lines: Vec<OutputLine> = Vec::new();
    lines.push(OutputLine::Error(String::from_str("Uncaught error.")));
    assert(lines.deep_view() =~= uncaught());
    lines
}

/// The error body that a failure of the provisioning client carries, if
/// any.
pub open spec fn client_error_body(err: DRACOONProvisioningError) -> Option<DRACOONErrorResponse> {
    match err {
        DRACOONProvisioningError::Unauthorized(b) => b,
        DRACOONProvisioningError::BadRequest(b) => Some(b),
        DRACOONProvisioningError::Forbidden(b) => Some(b),
        DRACOONProvisioningError::NotFound(b) => Some(b),
        DRACOONProvisioningError::PaymentRequired(b) => Some(b),
        DRACOONProvisioningError::NotAcceptable(b) => Some(b),
        DRACOONProvisioningError::Conflict(b) => Some(b),
        DRACOONProvisioningError::Undocumented(b) => Some(b),
        _ => None,
    }
}

/// The error body that a failure of a run carries, if any.
pub open spec fn run_error_body(err: DcProvError) -> Option<DRACOONErrorResponse> {
    match err {
        DcProvError::Unauthorized(b) => b,
        DcProvError::BadRequest(b) => Some(b),
        DcProvError::Forbidden(b) => Some(b),
        DcProvError::NotFound(b) => Some(b),
        DcProvError::PaymentRequired(b) => Some(b),
        DcProvError::NotAcceptable(b) => Some(b),
        DcProvError::Conflict(b) => Some(b),
        DcProvError::Undocumented(b) => Some(b),
        _ => None,
    }
}

/// What is printed when a call of the provisioning client failed: what
/// could not be done, then the error body that the failure carries, or
/// the remark that there is none.
pub open spec fn call_failure_lines(err: DRACOONProvisioningError, msg: Option<Seq<char>>) -> Seq<
    LineView,
> {
    seq![
        LineView::Error(
            match msg {
                Some(m) => m,
                None => "Unknown error"@,
            },
        ),
    ] + match client_error_body(err) {
        Some(b) => error_body_lines(b.deep_view()),
        None => uncaught(),
    }
}

fn append_lines(lines: &mut Vec<OutputLine>, more: Vec<OutputLine>)
    ensures
        final(lines).deep_view() == old(lines).deep_view() + more.deep_view(),
{
    let mut more = more;
    let ghost added = more;
    lines.append(&mut more);
    assert(lines.deep_view() =~= old(lines).deep_view() + added.deep_view());
}

/// Writes what is printed when a call of the provisioning client failed.
pub fn handle_dracoon_errors(err: &DRACOONProvisioningError, msg: Option<&str>) -> (r: Vec<
    OutputLine,
>)
    ensures
        r.deep_view() == call_failure_lines(
            *err,
            match msg {
                Some(m) => Some(m@),
                None => None,
            },
        ),
{
    let mut lines: Vec<OutputLine> = Vec::new();
    lines.push(
        OutputLine::Error(
            String::from_str(
                match msg {
                    Some(m) => m,
                    None => "Unknown error",
                },
            ),
        ),
    );
    let ghost first = lines.deep_view();
    assert(first =~= seq![
        LineView::Error(
            match msg {
                Some(m) => m@,
                None => "Unknown error"@,
            },
        ),
    ]);
    let more = match err {
        DRACOONProvisioningError::Unauthorized(Some(b)) => print_dracoon_error(b),
        DRACOONProvisioningError::BadRequest(b) => print_dracoon_error(b),
        DRACOONProvisioningError::Forbidden(b) => print_dracoon_error(b),
        DRACOONProvisioningError::NotFound(b) => print_dracoon_error(b),
        DRACOONProvisioningError::PaymentRequired(b) => print_dracoon_error(b),
        DRACOONProvisioningError::NotAcceptable(b) => print_dracoon_error(b),
        DRACOONProvisioningError::Conflict(b) => print_dracoon_error(b),
        DRACOONProvisioningError::Undocumented(b) => print_dracoon_error(b),
        _ => uncaught_lines(),
    };
    append_lines(&mut lines, more);
    lines
}

/// What is printed when a run failed: the error body that the failure
/// carries; for input that could not be read, a remark that says so; for
/// every other failure the remark that there is no more to say.
pub open spec fn run_failure_lines(err: DcProvError) -> Seq<LineView> {
    match run_error_body(err) {
        Some(b) => error_body_lines(b.deep_view()),
        None => if err is Io {
            seq![LineView::Error("IO error."@)]
        } else {
            uncaught()
        },
    }
}

/// Writes what is printed when a run failed. The run ends with the exit
/// code 1 after it.
pub fn handle_errors(err: &DcProvError) -> (r: Vec<OutputLine>)
    ensures
        r.deep_view() == run_failure_lines(*err),
{
    match err {
        DcProvError::Unauthorized(Some(b)) => print_dracoon_error(b),
        DcProvError::BadRequest(b) => print_dracoon_error(b),
        DcProvError::Forbidden(b) => print_dracoon_error(b),
        DcProvError::NotFound(b) => print_dracoon_error(b),
        DcProvError::PaymentRequired(b) => print_dracoon_error(b),
        DcProvError::NotAcceptable(b) => print_dracoon_error(b),
        DcProvError::Conflict(b) => print_dracoon_error(b),
        DcProvError::Undocumented(b) => print_dracoon_error(b),
        DcProvError::Io => {
            let mut lines: Vec<OutputLine> = Vec::new();
            lines.push(OutputLine::Error(String::from_str("IO error.")));
            assert(lines.deep_view() =~= seq![LineView::Error("IO error."@)]);
            lines
        },
        _ => uncaught_lines(),
    }
}

} // verus!
