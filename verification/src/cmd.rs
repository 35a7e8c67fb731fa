//! The command-line client on top of the provisioning client: its
//! commands, how it finds the token to use, and what it prints.

pub mod commands;
pub mod models;
pub mod render;
pub mod session;

pub use commands::{
    build_params, create_customer, create_update_request, delete_customer, get_customer,
    get_customer_attributes, get_customer_users, list_customers, parse_customer_json_from_file,
    parse_key_val, prompt_new_customer, prompt_typed_customer, update_customer,
    update_customer_attributes, ListAllParams, PromptAnswers, TypedAnswers, UpdateType,
};
pub use models::{
    ConfigCommand, CreateCommand, DCProvCommand, DcProv, DcProvError, NewCustomerRequest,
    UpdateCommand,
};
pub use render::{
    create_customer_output, customer_attribute_to_string, customer_line, customer_to_string,
    delete_customer_output, get_customer_attributes_output, get_customer_output,
    get_customer_users_output, handle_dracoon_errors, handle_errors, list_customers_output,
    print_dracoon_error, update_customer_attributes_output, update_customer_output,
    user_to_string, OutputLine, PrintType,
};
pub use session::{
    accept_prompted_token, establish, init_provisioning, normalize_url, resolve_token,
    terminal_answer, Bootstrap, Connection, TokenResolution,
};
