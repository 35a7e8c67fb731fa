//! The form of the records on the wire. Names are in lower camel case. A
//! part without a value is not written at all, never as `null`; on reading,
//! a part that a record can do without may be missing or `null`, and members
//! that the record does not know are passed over.

use crate::json::{
    all_of_json, get_optional, get_required, lemma_items_null_free, lemma_lookup_push,
    lemma_null_free_push, members_null_free, no_members, null_free, object_of, optional, put,
    put_optional, required, with, with_optional, FromJson, JsonModel, JsonValue, ToJson,
};
use crate::provisioning::models::{
    AttributesResponse, AttributesResponseView, Customer, CustomerAttributes,
    CustomerAttributesView, CustomerView, DRACOONErrorResponse, DRACOONErrorResponseView,
    FirstAdminUser, FirstAdminUserView, GetCustomersResponse, GetCustomersResponseView,
    KeyValueEntry, KeyValueEntryView, NewCustomerRequest, NewCustomerRequestView,
    NewCustomerResponse, NewCustomerResponseView, RangeResponse, Right, RightView, Role,
    RoleView, UpdateCustomerRequest, UpdateCustomerRequestView, UpdateCustomerResponse,
    UpdateCustomerResponseView, UserAuthData, UserAuthDataView, UserItem, UserItemView,
    UserList, UserListView, UserRoles, UserRolesView,
};
use crate::time::Timestamp;
use vstd::prelude::*;

verus! {

impl FromJson for RangeResponse {
    open spec fn of_json(j: JsonModel) -> Option<RangeResponse> {
        let offset = required::<u64>(j, "offset"@);
        let limit = required::<u64>(j, "limit"@);
        let total = required::<u64>(j, "total"@);
        if offset is Some && limit is Some && total is Some {
            Some(RangeResponse {
                offset: offset->0,
                limit: limit->0,
                total: total->0,
            })
        } else {
            None
        }
    }

    fn from_json(j: &JsonValue) -> (r: Option<RangeResponse>) {
        let offset = get_required::<u64>(j, "offset")?;
        let limit = get_required::<u64>(j, "limit")?;
        let total = get_required::<u64>(j, "total")?;
        Some(RangeResponse { offset, limit, total })
    }
}

impl FromJson for KeyValueEntry {
    open spec fn of_json(j: JsonModel) -> Option<KeyValueEntryView> {
        let key = required::<String>(j, "key"@);
        let value = required::<String>(j, "value"@);
        if key is Some && value is Some {
            Some(KeyValueEntryView {
                key: key->0,
                value: value->0,
            })
        } else {
            None
        }
    }

    fn from_json(j: &JsonValue) -> (r: Option<KeyValueEntry>) {
        let key = get_required::<String>(j, "key")?;
        let value = get_required::<String>(j, "value")?;
        Some(KeyValueEntry { key, value })
    }
}

impl ToJson for KeyValueEntry {
    open spec fn json_of(v: KeyValueEntryView) -> JsonModel {
        let m = Seq::<(Seq<char>, JsonModel)>::empty();
        let m = with::<String>(m, "key"@, v.key);
        let m = with::<String>(m, "value"@, v.value);
        JsonModel::Object(m)
    }

    fn to_json(&self) -> (j: JsonValue) {
        let mut m = no_members();
        put::<String>(&mut m, "key", &self.key);
        put::<String>(&mut m, "value", &self.value);
        object_of(m)
    }
}

impl FromJson for CustomerAttributes {
    open spec fn of_json(j: JsonModel) -> Option<CustomerAttributesView> {
        let items = required::<Vec<KeyValueEntry>>(j, "items"@);
        if items is Some {
            Some(CustomerAttributesView {
                items: items->0,
            })
        } else {
            None
        }
    }

    fn from_json(j: &JsonValue) -> (r: Option<CustomerAttributes>) {
        let items = get_required::<Vec<KeyValueEntry>>(j, "items")?;
        Some(CustomerAttributes { items })
    }
}

impl ToJson for CustomerAttributes {
    open spec fn json_of(v: CustomerAttributesView) -> JsonModel {
        let m = Seq::<(Seq<char>, JsonModel)>::empty();
        let m = with::<Vec<KeyValueEntry>>(m, "items"@, v.items);
        JsonModel::Object(m)
    }

    fn to_json(&self) -> (j: JsonValue) {
        let mut m = no_members();
        put::<Vec<KeyValueEntry>>(&mut m, "items", &self.items);
        object_of(m)
    }
}

impl FromJson for UserAuthData {
    open spec fn of_json(j: JsonModel) -> Option<UserAuthDataView> {
        let method = required::<String>(j, "method"@);
        let login = optional::<String>(j, "login"@);
        let password = optional::<String>(j, "password"@);
        let must_change_password = optional::<bool>(j, "mustChangePassword"@);
        let ad_config_id = optional::<u64>(j, "adConfigId"@);
        let oid_config_id = optional::<u64>(j, "oidConfigId"@);
        if method is Some
            && login is Some
            && password is Some
            && must_change_password is Some
            && ad_config_id is Some
            && oid_config_id is Some {
            Some(UserAuthDataView {
                method: method->0,
                login: login->0,
                password: password->0,
                must_change_password: must_change_password->0,
                ad_config_id: ad_config_id->0,
                oid_config_id: oid_config_id->0,
            })
        } else {
            None
        }
    }

    fn from_json(j: &JsonValue) -> (r: Option<UserAuthData>) {
        let method = get_required::<String>(j, "method")?;
        let login = get_optional::<String>(j, "login")?;
        let password = get_optional::<String>(j, "password")?;
        let must_change_password = get_optional::<bool>(j, "mustChangePassword")?;
        let ad_config_id = get_optional::<u64>(j, "adConfigId")?;
        let oid_config_id = get_optional::<u64>(j, "oidConfigId")?;
        Some(
            UserAuthData {
                method,
                login,
                password,
                must_change_password,
                ad_config_id,
                oid_config_id,
            },
        )
    }
}

impl ToJson for UserAuthData {
    open spec fn json_of(v: UserAuthDataView) -> JsonModel {
        let m = Seq::<(Seq<char>, JsonModel)>::empty();
        let m = with::<String>(m, "method"@, v.method);
        let m = with_optional::<String>(m, "login"@, v.login);
        let m = with_optional::<String>(m, "password"@, v.password);
        let m = with_optional::<bool>(m, "mustChangePassword"@, v.must_change_password);
        let m = with_optional::<u64>(m, "adConfigId"@, v.ad_config_id);
        let m = with_optional::<u64>(m, "oidConfigId"@, v.oid_config_id);
        JsonModel::Object(m)
    }

    fn to_json(&self) -> (j: JsonValue) {
        let mut m = no_members();
        put::<String>(&mut m, "method", &self.method);
        put_optional::<String>(&mut m, "login", &self.login);
        put_optional::<String>(&mut m, "password", &self.password);
        put_optional::<bool>(&mut m, "mustChangePassword", &self.must_change_password);
        put_optional::<u64>(&mut m, "adConfigId", &self.ad_config_id);
        put_optional::<u64>(&mut m, "oidConfigId", &self.oid_config_id);
        object_of(m)
    }
}

impl FromJson for FirstAdminUser {
    open spec fn of_json(j: JsonModel) -> Option<FirstAdminUserView> {
        let first_name = required::<String>(j, "firstName"@);
        let last_name = required::<String>(j, "lastName"@);
        let user_name = optional::<String>(j, "userName"@);
        let auth_data = optional::<UserAuthData>(j, "authData"@);
        let receiver_language = optional::<String>(j, "receiverLanguage"@);
        let notify_user = optional::<bool>(j, "notifyUser"@);
        let email = optional::<String>(j, "email"@);
        let phone = optional::<String>(j, "phone"@);
        if first_name is Some
            && last_name is Some
            && user_name is Some
            && auth_data is Some
            && receiver_language is Some
            && notify_user is Some
            && email is Some
            && phone is Some {
            Some(FirstAdminUserView {
                first_name: first_name->0,
                last_name: last_name->0,
                user_name: user_name->0,
                auth_data: auth_data->0,
                receiver_language: receiver_language->0,
                notify_user: notify_user->0,
                email: email->0,
                phone: phone->0,
            })
        } else {
            None
        }
    }

    fn from_json(j: &JsonValue) -> (r: Option<FirstAdminUser>) {
        let first_name = get_required::<String>(j, "firstName")?;
        let last_name = get_required::<String>(j, "lastName")?;
        let user_name = get_optional::<String>(j, "userName")?;
        let auth_data = get_optional::<UserAuthData>(j, "authData")?;
        let receiver_language = get_optional::<String>(j, "receiverLanguage")?;
        let notify_user = get_optional::<bool>(j, "notifyUser")?;
        let email = get_optional::<String>(j, "email")?;
        let phone = get_optional::<String>(j, "phone")?;
        Some(
            FirstAdminUser {
                first_name,
                last_name,
                user_name,
                auth_data,
                receiver_language,
                notify_user,
                email,
                phone,
            },
        )
    }
}

impl ToJson for FirstAdminUser {
    open spec fn json_of(v: FirstAdminUserView) -> JsonModel {
        let m = Seq::<(Seq<char>, JsonModel)>::empty();
        let m = with::<String>(m, "firstName"@, v.first_name);
        let m = with::<String>(m, "lastName"@, v.last_name);
        let m = with_optional::<String>(m, "userName"@, v.user_name);
        let m = with_optional::<UserAuthData>(m, "authData"@, v.auth_data);
        let m = with_optional::<String>(m, "receiverLanguage"@, v.receiver_language);
        let m = with_optional::<bool>(m, "notifyUser"@, v.notify_user);
        let m = with_optional::<String>(m, "email"@, v.email);
        let m = with_optional::<String>(m, "phone"@, v.phone);
        JsonModel::Object(m)
    }

    fn to_json(&self) -> (j: JsonValue) {
        let mut m = no_members();
        put::<String>(&mut m, "firstName", &self.first_name);
        put::<String>(&mut m, "lastName", &self.last_name);
        put_optional::<String>(&mut m, "userName", &self.user_name);
        put_optional::<UserAuthData>(&mut m, "authData", &self.auth_data);
        put_optional::<String>(&mut m, "receiverLanguage", &self.receiver_language);
        put_optional::<bool>(&mut m, "notifyUser", &self.notify_user);
        put_optional::<String>(&mut m, "email", &self.email);
        put_optional::<String>(&mut m, "phone", &self.phone);
        object_of(m)
    }
}

impl FromJson for NewCustomerRequest {
    open spec fn of_json(j: JsonModel) -> Option<NewCustomerRequestView> {
        let customer_contract_type = required::<String>(j, "customerContractType"@);
        let quota_max = required::<u64>(j, "quotaMax"@);
        let user_max = required::<u64>(j, "userMax"@);
        let first_admin_user = required::<FirstAdminUser>(j, "firstAdminUser"@);
        let company_name = optional::<String>(j, "companyName"@);
        let trial_days = optional::<u64>(j, "trialDays"@);
        let is_locked = optional::<bool>(j, "isLocked"@);
        let customer_attributes = optional::<CustomerAttributes>(j, "customerAttributes"@);
        let provider_customer_id = optional::<String>(j, "providerCustomerId"@);
        let webhooks_max = optional::<u64>(j, "webhooksMax"@);
        if customer_contract_type is Some
            && quota_max is Some
            && user_max is Some
            && first_admin_user is Some
            && company_name is Some
            && trial_days is Some
            && is_locked is Some
            && customer_attributes is Some
            && provider_customer_id is Some
            && webhooks_max is Some {
            Some(NewCustomerRequestView {
                customer_contract_type: customer_contract_type->0,
                quota_max: quota_max->0,
                user_max: user_max->0,
                first_admin_user: first_admin_user->0,
                company_name: company_name->0,
                trial_days: trial_days->0,
                is_locked: is_locked->0,
                customer_attributes: customer_attributes->0,
                provider_customer_id: provider_customer_id->0,
                webhooks_max: webhooks_max->0,
            })
        } else {
            None
        }
    }

    fn from_json(j: &JsonValue) -> (r: Option<NewCustomerRequest>) {
        let customer_contract_type = get_required::<String>(j, "customerContractType")?;
        let quota_max = get_required::<u64>(j, "quotaMax")?;
        let user_max = get_required::<u64>(j, "userMax")?;
        let first_admin_user = get_required::<FirstAdminUser>(j, "firstAdminUser")?;
        let company_name = get_optional::<String>(j, "companyName")?;
        let trial_days = get_optional::<u64>(j, "trialDays")?;
        let is_locked = get_optional::<bool>(j, "isLocked")?;
        let customer_attributes = get_optional::<CustomerAttributes>(j, "customerAttributes")?;
        let provider_customer_id = get_optional::<String>(j, "providerCustomerId")?;
        let webhooks_max = get_optional::<u64>(j, "webhooksMax")?;
        Some(
            NewCustomerRequest {
                customer_contract_type,
                quota_max,
                user_max,
                first_admin_user,
                company_name,
                trial_days,
                is_locked,
                customer_attributes,
                provider_customer_id,
                webhooks_max,
            },
        )
    }
}

impl ToJson for NewCustomerRequest {
    open spec fn json_of(v: NewCustomerRequestView) -> JsonModel {
        let m = Seq::<(Seq<char>, JsonModel)>::empty();
        let m = with::<String>(m, "customerContractType"@, v.customer_contract_type);
        let m = with::<u64>(m, "quotaMax"@, v.quota_max);
        let m = with::<u64>(m, "userMax"@, v.user_max);
        let m = with::<FirstAdminUser>(m, "firstAdminUser"@, v.first_admin_user);
        let m = with_optional::<String>(m, "companyName"@, v.company_name);
        let m = with_optional::<u64>(m, "trialDays"@, v.trial_days);
        let m = with_optional::<bool>(m, "isLocked"@, v.is_locked);
        let m = with_optional::<CustomerAttributes>(
            m,
            "customerAttributes"@,
            v.customer_attributes,
        );
        let m = with_optional::<String>(m, "providerCustomerId"@, v.provider_customer_id);
        let m = with_optional::<u64>(m, "webhooksMax"@, v.webhooks_max);
        JsonModel::Object(m)
    }

    fn to_json(&self) -> (j: JsonValue) {
        let mut m = no_members();
        put::<String>(&mut m, "customerContractType", &self.customer_contract_type);
        put::<u64>(&mut m, "quotaMax", &self.quota_max);
        put::<u64>(&mut m, "userMax", &self.user_max);
        put::<FirstAdminUser>(&mut m, "firstAdminUser", &self.first_admin_user);
        put_optional::<String>(&mut m, "companyName", &self.company_name);
        put_optional::<u64>(&mut m, "trialDays", &self.trial_days);
        put_optional::<bool>(&mut m, "isLocked", &self.is_locked);
        put_optional::<CustomerAttributes>(&mut m, "customerAttributes", &self.customer_attributes);
        put_optional::<String>(&mut m, "providerCustomerId", &self.provider_customer_id);
        put_optional::<u64>(&mut m, "webhooksMax", &self.webhooks_max);
        object_of(m)
    }
}

impl ToJson for UpdateCustomerRequest {
    open spec fn json_of(v: UpdateCustomerRequestView) -> JsonModel {
        let m = Seq::<(Seq<char>, JsonModel)>::empty();
        let m = with_optional::<String>(m, "companyName"@, v.company_name);
        let m = with_optional::<String>(m, "customerContractType"@, v.customer_contract_type);
        let m = with_optional::<u64>(m, "quotaMax"@, v.quota_max);
        let m = with_optional::<u64>(m, "userMax"@, v.user_max);
        let m = with_optional::<bool>(m, "isLocked"@, v.is_locked);
        let m = with_optional::<i64>(m, "providerCustomerId"@, v.provider_customer_id);
        let m = with_optional::<u64>(m, "webhooksMax"@, v.webhooks_max);
        JsonModel::Object(m)
    }

    fn to_json(&self) -> (j: JsonValue) {
        let mut m = no_members();
        put_optional::<String>(&mut m, "companyName", &self.company_name);
        put_optional::<String>(&mut m, "customerContractType", &self.customer_contract_type);
        put_optional::<u64>(&mut m, "quotaMax", &self.quota_max);
        put_optional::<u64>(&mut m, "userMax", &self.user_max);
        put_optional::<bool>(&mut m, "isLocked", &self.is_locked);
        put_optional::<i64>(&mut m, "providerCustomerId", &self.provider_customer_id);
        put_optional::<u64>(&mut m, "webhooksMax", &self.webhooks_max);
        object_of(m)
    }
}

impl FromJson for Customer {
    open spec fn of_json(j: JsonModel) -> Option<CustomerView> {
        let id = required::<u64>(j, "id"@);
        let company_name = required::<String>(j, "companyName"@);
        let customer_contract_type = required::<String>(j, "customerContractType"@);
        let quota_max = required::<u64>(j, "quotaMax"@);
        let quota_used = required::<u64>(j, "quotaUsed"@);
        let user_max = required::<u64>(j, "userMax"@);
        let user_used = required::<u64>(j, "userUsed"@);
        let created_at = required::<Timestamp>(j, "createdAt"@);
        let customer_attributes = optional::<CustomerAttributes>(j, "customerAttributes"@);
        let updated_at = optional::<Timestamp>(j, "updatedAt"@);
        let last_login_at = optional::<Timestamp>(j, "lastLoginAt"@);
        let trial_days_left = optional::<i32>(j, "trialDaysLeft"@);
        let is_locked = optional::<bool>(j, "isLocked"@);
        let customer_uuid = optional::<String>(j, "customerUuid"@);
        if id is Some
            && company_name is Some
            && customer_contract_type is Some
            && quota_max is Some
            && quota_used is Some
            && user_max is Some
            && user_used is Some
            && created_at is Some
            && customer_attributes is Some
            && updated_at is Some
            && last_login_at is Some
            && trial_days_left is Some
            && is_locked is Some
            && customer_uuid is Some {
            Some(CustomerView {
                id: id->0,
                company_name: company_name->0,
                customer_contract_type: customer_contract_type->0,
                quota_max: quota_max->0,
                quota_used: quota_used->0,
                user_max: user_max->0,
                user_used: user_used->0,
                created_at: created_at->0,
                customer_attributes: customer_attributes->0,
                updated_at: updated_at->0,
                last_login_at: last_login_at->0,
                trial_days_left: trial_days_left->0,
                is_locked: is_locked->0,
                customer_uuid: customer_uuid->0,
            })
        } else {
            None
        }
    }

    fn from_json(j: &JsonValue) -> (r: Option<Customer>) {
        let id = get_required::<u64>(j, "id")?;
        let company_name = get_required::<String>(j, "companyName")?;
        let customer_contract_type = get_required::<String>(j, "customerContractType")?;
        let quota_max = get_required::<u64>(j, "quotaMax")?;
        let quota_used = get_required::<u64>(j, "quotaUsed")?;
        let user_max = get_required::<u64>(j, "userMax")?;
        let user_used = get_required::<u64>(j, "userUsed")?;
        let created_at = get_required::<Timestamp>(j, "createdAt")?;
        let customer_attributes = get_optional::<CustomerAttributes>(j, "customerAttributes")?;
        let updated_at = get_optional::<Timestamp>(j, "updatedAt")?;
        let last_login_at = get_optional::<Timestamp>(j, "lastLoginAt")?;
        let trial_days_left = get_optional::<i32>(j, "trialDaysLeft")?;
        let is_locked = get_optional::<bool>(j, "isLocked")?;
        let customer_uuid = get_optional::<String>(j, "customerUuid")?;
        Some(
            Customer {
                id,
                company_name,
                customer_contract_type,
                quota_max,
                quota_used,
                user_max,
                user_used,
                created_at,
                customer_attributes,
                updated_at,
                last_login_at,
                trial_days_left,
                is_locked,
                customer_uuid,
            },
        )
    }
}

impl FromJson for GetCustomersResponse {
    open spec fn of_json(j: JsonModel) -> Option<GetCustomersResponseView> {
        let range = required::<RangeResponse>(j, "range"@);
        let items = required::<Vec<Customer>>(j, "items"@);
        if range is Some && items is Some {
            Some(GetCustomersResponseView {
                range: range->0,
                items: items->0,
            })
        } else {
            None
        }
    }

    fn from_json(j: &JsonValue) -> (r: Option<GetCustomersResponse>) {
        let range = get_required::<RangeResponse>(j, "range")?;
        let items = get_required::<Vec<Customer>>(j, "items")?;
        Some(GetCustomersResponse { range, items })
    }
}

impl FromJson for AttributesResponse {
    open spec fn of_json(j: JsonModel) -> Option<AttributesResponseView> {
        let range = required::<RangeResponse>(j, "range"@);
        let items = required::<Vec<KeyValueEntry>>(j, "items"@);
        if range is Some && items is Some {
            Some(AttributesResponseView {
                range: range->0,
                items: items->0,
            })
        } else {
            None
        }
    }

    fn from_json(j: &JsonValue) -> (r: Option<AttributesResponse>) {
        let range = get_required::<RangeResponse>(j, "range")?;
        let items = get_required::<Vec<KeyValueEntry>>(j, "items")?;
        Some(AttributesResponse { range, items })
    }
}

impl FromJson for Right {
    open spec fn of_json(j: JsonModel) -> Option<RightView> {
        let id = required::<u64>(j, "id"@);
        let name = required::<String>(j, "name"@);
        let description = required::<String>(j, "description"@);
        if id is Some && name is Some && description is Some {
            Some(RightView {
                id: id->0,
                name: name->0,
                description: description->0,
            })
        } else {
            None
        }
    }

    fn from_json(j: &JsonValue) -> (r: Option<Right>) {
        let id = get_required::<u64>(j, "id")?;
        let name = get_required::<String>(j, "name")?;
        let description = get_required::<String>(j, "description")?;
        Some(Right { id, name, description })
    }
}

impl FromJson for Role {
    open spec fn of_json(j: JsonModel) -> Option<RoleView> {
        let id = required::<u64>(j, "id"@);
        let name = required::<String>(j, "name"@);
        let description = required::<String>(j, "description"@);
        let items = optional::<Vec<Right>>(j, "items"@);
        if id is Some && name is Some && description is Some && items is Some {
            Some(RoleView {
                id: id->0,
                name: name->0,
                description: description->0,
                items: items->0,
            })
        } else {
            None
        }
    }

    fn from_json(j: &JsonValue) -> (r: Option<Role>) {
        let id = get_required::<u64>(j, "id")?;
        let name = get_required::<String>(j, "name")?;
        let description = get_required::<String>(j, "description")?;
        let items = get_optional::<Vec<Right>>(j, "items")?;
        Some(Role { id, name, description, items })
    }
}

impl FromJson for UserRoles {
    open spec fn of_json(j: JsonModel) -> Option<UserRolesView> {
        let items = required::<Vec<Role>>(j, "items"@);
        if items is Some {
            Some(UserRolesView {
                items: items->0,
            })
        } else {
            None
        }
    }

    fn from_json(j: &JsonValue) -> (r: Option<UserRoles>) {
        let items = get_required::<Vec<Role>>(j, "items")?;
        Some(UserRoles { items })
    }
}

impl FromJson for UserItem {
    open spec fn of_json(j: JsonModel) -> Option<UserItemView> {
        let id = required::<u64>(j, "id"@);
        let first_name = required::<String>(j, "firstName"@);
        let last_name = required::<String>(j, "lastName"@);
        let user_name = required::<String>(j, "userName"@);
        let is_locked = required::<bool>(j, "isLocked"@);
        let avatar_uuid = required::<String>(j, "avatarUuid"@);
        let created_at = optional::<Timestamp>(j, "createdAt"@);
        let expire_at = optional::<Timestamp>(j, "expireAt"@);
        let last_login_success_at = optional::<Timestamp>(j, "lastLoginSuccessAt"@);
        let is_encryption_enabled = optional::<bool>(j, "isEncryptionEnabled"@);
        let email = optional::<String>(j, "email"@);
        let phone = optional::<String>(j, "phone"@);
        let home_room_id = optional::<u64>(j, "homeRoomId"@);
        let user_roles = optional::<UserRoles>(j, "userRoles"@);
        if id is Some
            && first_name is Some
            && last_name is Some
            && user_name is Some
            && is_locked is Some
            && avatar_uuid is Some
            && created_at is Some
            && expire_at is Some
            && last_login_success_at is Some
            && is_encryption_enabled is Some
            && email is Some
            && phone is Some
            && home_room_id is Some
            && user_roles is Some {
            Some(UserItemView {
                id: id->0,
                first_name: first_name->0,
                last_name: last_name->0,
                user_name: user_name->0,
                is_locked: is_locked->0,
                avatar_uuid: avatar_uuid->0,
                created_at: created_at->0,
                expire_at: expire_at->0,
                last_login_success_at: last_login_success_at->0,
                is_encryption_enabled: is_encryption_enabled->0,
                email: email->0,
                phone: phone->0,
                home_room_id: home_room_id->0,
                user_roles: user_roles->0,
            })
        } else {
            None
        }
    }

    fn from_json(j: &JsonValue) -> (r: Option<UserItem>) {
        let id = get_required::<u64>(j, "id")?;
        let first_name = get_required::<String>(j, "firstName")?;
        let last_name = get_required::<String>(j, "lastName")?;
        let user_name = get_required::<String>(j, "userName")?;
        let is_locked = get_required::<bool>(j, "isLocked")?;
        let avatar_uuid = get_required::<String>(j, "avatarUuid")?;
        let created_at = get_optional::<Timestamp>(j, "createdAt")?;
        let expire_at = get_optional::<Timestamp>(j, "expireAt")?;
        let last_login_success_at = get_optional::<Timestamp>(j, "lastLoginSuccessAt")?;
        let is_encryption_enabled = get_optional::<bool>(j, "isEncryptionEnabled")?;
        let email = get_optional::<String>(j, "email")?;
        let phone = get_optional::<String>(j, "phone")?;
        let home_room_id = get_optional::<u64>(j, "homeRoomId")?;
        let user_roles = get_optional::<UserRoles>(j, "userRoles")?;
        Some(
            UserItem {
                id,
                first_name,
                last_name,
                user_name,
                is_locked,
                avatar_uuid,
                created_at,
                expire_at,
                last_login_success_at,
                is_encryption_enabled,
                email,
                phone,
                home_room_id,
                user_roles,
            },
        )
    }
}

impl FromJson for UserList {
    open spec fn of_json(j: JsonModel) -> Option<UserListView> {
        let range = required::<RangeResponse>(j, "range"@);
        let items = required::<Vec<UserItem>>(j, "items"@);
        if range is Some && items is Some {
            Some(UserListView {
                range: range->0,
                items: items->0,
            })
        } else {
            None
        }
    }

    fn from_json(j: &JsonValue) -> (r: Option<UserList>) {
        let range = get_required::<RangeResponse>(j, "range")?;
        let items = get_required::<Vec<UserItem>>(j, "items")?;
        Some(UserList { range, items })
    }
}

impl FromJson for NewCustomerResponse {
    open spec fn of_json(j: JsonModel) -> Option<NewCustomerResponseView> {
        let id = required::<u64>(j, "id"@);
        let company_name = required::<String>(j, "companyName"@);
        let customer_contract_type = required::<String>(j, "customerContractType"@);
        let quota_max = required::<u64>(j, "quotaMax"@);
        let user_max = required::<u64>(j, "userMax"@);
        let is_locked = optional::<bool>(j, "isLocked"@);
        let trial_days = optional::<u64>(j, "trialDays"@);
        let created_at = optional::<Timestamp>(j, "createdAt"@);
        let first_admin_user = required::<FirstAdminUser>(j, "firstAdminUser"@);
        let customer_attributes = optional::<CustomerAttributes>(j, "customerAttributes"@);
        let provider_customer_id = optional::<String>(j, "providerCustomerId"@);
        let webhooks_max = optional::<u64>(j, "webhooksMax"@);
        let customer_uuid = required::<String>(j, "customerUuid"@);
        if id is Some
            && company_name is Some
            && customer_contract_type is Some
            && quota_max is Some
            && user_max is Some
            && is_locked is Some
            && trial_days is Some
            && created_at is Some
            && first_admin_user is Some
            && customer_attributes is Some
            && provider_customer_id is Some
            && webhooks_max is Some
            && customer_uuid is Some {
            Some(NewCustomerResponseView {
                id: id->0,
                company_name: company_name->0,
                customer_contract_type: customer_contract_type->0,
                quota_max: quota_max->0,
                user_max: user_max->0,
                is_locked: is_locked->0,
                trial_days: trial_days->0,
                created_at: created_at->0,
                first_admin_user: first_admin_user->0,
                customer_attributes: customer_attributes->0,
                provider_customer_id: provider_customer_id->0,
                webhooks_max: webhooks_max->0,
                customer_uuid: customer_uuid->0,
            })
        } else {
            None
        }
    }

    fn from_json(j: &JsonValue) -> (r: Option<NewCustomerResponse>) {
        let id = get_required::<u64>(j, "id")?;
        let company_name = get_required::<String>(j, "companyName")?;
        let customer_contract_type = get_required::<String>(j, "customerContractType")?;
        let quota_max = get_required::<u64>(j, "quotaMax")?;
        let user_max = get_required::<u64>(j, "userMax")?;
        let is_locked = get_optional::<bool>(j, "isLocked")?;
        let trial_days = get_optional::<u64>(j, "trialDays")?;
        let created_at = get_optional::<Timestamp>(j, "createdAt")?;
        let first_admin_user = get_required::<FirstAdminUser>(j, "firstAdminUser")?;
        let customer_attributes = get_optional::<CustomerAttributes>(j, "customerAttributes")?;
        let provider_customer_id = get_optional::<String>(j, "providerCustomerId")?;
        let webhooks_max = get_optional::<u64>(j, "webhooksMax")?;
        let customer_uuid = get_required::<String>(j, "customerUuid")?;
        Some(
            NewCustomerResponse {
                id,
                company_name,
                customer_contract_type,
                quota_max,
                user_max,
                is_locked,
                trial_days,
                created_at,
                first_admin_user,
                customer_attributes,
                provider_customer_id,
                webhooks_max,
                customer_uuid,
            },
        )
    }
}

impl FromJson for UpdateCustomerResponse {
    open spec fn of_json(j: JsonModel) -> Option<UpdateCustomerResponseView> {
        let id = required::<u64>(j, "id"@);
        let company_name = required::<String>(j, "companyName"@);
        let customer_contract_type = required::<String>(j, "customerContractType"@);
        let quota_max = required::<u64>(j, "quotaMax"@);
        let user_max = required::<u64>(j, "userMax"@);
        let customer_uuid = required::<String>(j, "customerUuid"@);
        let is_locked = optional::<bool>(j, "isLocked"@);
        let trial_days = optional::<u64>(j, "trialDays"@);
        let created_at = optional::<Timestamp>(j, "createdAt"@);
        let updated_at = optional::<Timestamp>(j, "updatedAt"@);
        let customer_attributes = optional::<CustomerAttributes>(j, "customerAttributes"@);
        let provider_customer_id = optional::<String>(j, "providerCustomerId"@);
        let webhooks_max = optional::<u64>(j, "webhooksMax"@);
        if id is Some
            && company_name is Some
            && customer_contract_type is Some
            && quota_max is Some
            && user_max is Some
            && customer_uuid is Some
            && is_locked is Some
            && trial_days is Some
            && created_at is Some
            && updated_at is Some
            && customer_attributes is Some
            && provider_customer_id is Some
            && webhooks_max is Some {
            Some(UpdateCustomerResponseView {
                id: id->0,
                company_name: company_name->0,
                customer_contract_type: customer_contract_type->0,
                quota_max: quota_max->0,
                user_max: user_max->0,
                customer_uuid: customer_uuid->0,
                is_locked: is_locked->0,
                trial_days: trial_days->0,
                created_at: created_at->0,
                updated_at: updated_at->0,
                customer_attributes: customer_attributes->0,
                provider_customer_id: provider_customer_id->0,
                webhooks_max: webhooks_max->0,
            })
        } else {
            None
        }
    }

    fn from_json(j: &JsonValue) -> (r: Option<UpdateCustomerResponse>) {
        let id = get_required::<u64>(j, "id")?;
        let company_name = get_required::<String>(j, "companyName")?;
        let customer_contract_type = get_required::<String>(j, "customerContractType")?;
        let quota_max = get_required::<u64>(j, "quotaMax")?;
        let user_max = get_required::<u64>(j, "userMax")?;
        let customer_uuid = get_required::<String>(j, "customerUuid")?;
        let is_locked = get_optional::<bool>(j, "isLocked")?;
        let trial_days = get_optional::<u64>(j, "trialDays")?;
        let created_at = get_optional::<Timestamp>(j, "createdAt")?;
        let updated_at = get_optional::<Timestamp>(j, "updatedAt")?;
        let customer_attributes = get_optional::<CustomerAttributes>(j, "customerAttributes")?;
        let provider_customer_id = get_optional::<String>(j, "providerCustomerId")?;
        let webhooks_max = get_optional::<u64>(j, "webhooksMax")?;
        Some(
            UpdateCustomerResponse {
                id,
                company_name,
                customer_contract_type,
                quota_max,
                user_max,
                customer_uuid,
                is_locked,
                trial_days,
                created_at,
                updated_at,
                customer_attributes,
                provider_customer_id,
                webhooks_max,
            },
        )
    }
}

impl FromJson for DRACOONErrorResponse {
    open spec fn of_json(j: JsonModel) -> Option<DRACOONErrorResponseView> {
        let code = required::<i64>(j, "code"@);
        let message = required::<String>(j, "message"@);
        let debug_info = optional::<String>(j, "debugInfo"@);
        let error_code = optional::<i64>(j, "errorCode"@);
        if code is Some && message is Some && debug_info is Some && error_code is Some {
            Some(DRACOONErrorResponseView {
                code: code->0,
                message: message->0,
                debug_info: debug_info->0,
                error_code: error_code->0,
            })
        } else {
            None
        }
    }

    fn from_json(j: &JsonValue) -> (r: Option<DRACOONErrorResponse>) {
        let code = get_required::<i64>(j, "code")?;
        let message = get_required::<String>(j, "message")?;
        let debug_info = get_optional::<String>(j, "debugInfo")?;
        let error_code = get_optional::<i64>(j, "errorCode")?;
        Some(DRACOONErrorResponse { code, message, debug_info, error_code })
    }
}

/// Writing a list of attributes and reading it again gives the same list,
/// and what is written holds no `null`.
pub proof fn lemma_key_value_entries_round_trip(v: Seq<KeyValueEntryView>)
    ensures
        Vec::<KeyValueEntry>::of_json(Vec::<KeyValueEntry>::json_of(v)) == Some(v),
        null_free(Vec::<KeyValueEntry>::json_of(v)),
{
    let written = Seq::new(v.len(), |i: int| KeyValueEntry::json_of(v[i]));
    assert forall|i: int| 0 <= i < written.len() implies (#[trigger] KeyValueEntry::of_json(
        written[i],
    )) == Some(v[i]) && null_free(written[i]) by {
        lemma_key_value_entry_round_trip(v[i]);
    }
    assert(all_of_json::<KeyValueEntry>(written)->0 =~= v);
    lemma_items_null_free(written);
}

/// The members that are written for an attribute: each part under its name.
proof fn lemma_key_value_entry_members(v: KeyValueEntryView)
    ensures
        KeyValueEntry::json_of(v).member("key"@) == Some(
            <String>::json_of(v.key),
        ),
        KeyValueEntry::json_of(v).member("value"@) == Some(
            <String>::json_of(v.value),
        ),
{
    broadcast use lemma_lookup_push;

    reveal_strlit("key");
    reveal_strlit("value");
    // No two names are the same text: they differ in length, or in the
    // character shown.
    assert("key"@.len() == 3);
    assert("value"@.len() == 5);
}

/// Writing an attribute and reading it again gives the same value, and what
/// is written holds no `null`.
pub proof fn lemma_key_value_entry_round_trip(v: KeyValueEntryView)
    ensures
        KeyValueEntry::of_json(KeyValueEntry::json_of(v)) == Some(v),
        null_free(KeyValueEntry::json_of(v)),
{
    broadcast use lemma_null_free_push;

    lemma_key_value_entry_members(v);
    assert(members_null_free(KeyValueEntry::json_of(v)->Object_0));
}

/// The members that are written for a set of attributes: each part under
/// its name.
proof fn lemma_customer_attributes_members(v: CustomerAttributesView)
    ensures
        CustomerAttributes::json_of(v).member("items"@) == Some(
            <Vec<KeyValueEntry>>::json_of(v.items),
        ),
{
    broadcast use lemma_lookup_push;

    reveal_strlit("items");
}

/// Writing a set of attributes and reading it again gives the same value,
/// and what is written holds no `null`.
pub proof fn lemma_customer_attributes_round_trip(v: CustomerAttributesView)
    ensures
        CustomerAttributes::of_json(CustomerAttributes::json_of(v)) == Some(v),
        null_free(CustomerAttributes::json_of(v)),
{
    broadcast use lemma_null_free_push;

    lemma_customer_attributes_members(v);
    lemma_key_value_entries_round_trip(v.items);
    assert(members_null_free(CustomerAttributes::json_of(v)->Object_0));
}

/// The members that are written for the sign-in data of an administrator:
/// each part that has a value under its name, and nothing under the name of
/// a part without one.
proof fn lemma_user_auth_data_members(v: UserAuthDataView)
    ensures
        UserAuthData::json_of(v).member("method"@) == Some(
            <String>::json_of(v.method),
        ),
        UserAuthData::json_of(v).member(
            "login"@,
        ) == match v.login {
            Some(x) => Some(<String>::json_of(x)),
            None => None,
        },
        UserAuthData::json_of(v).member(
            "password"@,
        ) == match v.password {
            Some(x) => Some(<String>::json_of(x)),
            None => None,
        },
        UserAuthData::json_of(v).member(
            "mustChangePassword"@,
        ) == match v.must_change_password {
            Some(x) => Some(<bool>::json_of(x)),
            None => None,
        },
        UserAuthData::json_of(v).member(
            "adConfigId"@,
        ) == match v.ad_config_id {
            Some(x) => Some(<u64>::json_of(x)),
            None => None,
        },
        UserAuthData::json_of(v).member(
            "oidConfigId"@,
        ) == match v.oid_config_id {
            Some(x) => Some(<u64>::json_of(x)),
            None => None,
        },
{
    broadcast use lemma_lookup_push;

    reveal_strlit("method");
    reveal_strlit("login");
    reveal_strlit("password");
    reveal_strlit("mustChangePassword");
    reveal_strlit("adConfigId");
    reveal_strlit("oidConfigId");
    // No two names are the same text: they differ in length, or in the
    // character shown.
    assert("method"@.len() == 6);
    assert("login"@.len() == 5);
    assert("password"@.len() == 8);
    assert("mustChangePassword"@.len() == 18);
    assert("adConfigId"@.len() == 10);
    assert("oidConfigId"@.len() == 11);
}

/// Writing the sign-in data of an administrator and reading it again gives
/// the same value. What is written holds no `null`, and a part without a
/// value is not written: its name is not among the members.
pub proof fn lemma_user_auth_data_round_trip(v: UserAuthDataView)
    ensures
        UserAuthData::of_json(UserAuthData::json_of(v)) == Some(v),
        null_free(UserAuthData::json_of(v)),
        v.login is None <==> UserAuthData::json_of(v).member(
            "login"@,
        ) is None,
        v.password is None <==> UserAuthData::json_of(v).member(
            "password"@,
        ) is None,
        v.must_change_password is None <==> UserAuthData::json_of(v).member(
            "mustChangePassword"@,
        ) is None,
        v.ad_config_id is None <==> UserAuthData::json_of(v).member(
            "adConfigId"@,
        ) is None,
        v.oid_config_id is None <==> UserAuthData::json_of(v).member(
            "oidConfigId"@,
        ) is None,
{
    broadcast use lemma_null_free_push;

    lemma_user_auth_data_members(v);
    assert(members_null_free(UserAuthData::json_of(v)->Object_0));
}

/// The members that are written for a first administrator: each part that
/// has a value under its name, and nothing under the name of a part without
/// one.
proof fn lemma_first_admin_user_members(v: FirstAdminUserView)
    ensures
        FirstAdminUser::json_of(v).member("firstName"@) == Some(
            <String>::json_of(v.first_name),
        ),
        FirstAdminUser::json_of(v).member("lastName"@) == Some(
            <String>::json_of(v.last_name),
        ),
        FirstAdminUser::json_of(v).member(
            "userName"@,
        ) == match v.user_name {
            Some(x) => Some(<String>::json_of(x)),
            None => None,
        },
        FirstAdminUser::json_of(v).member(
            "authData"@,
        ) == match v.auth_data {
            Some(x) => Some(<UserAuthData>::json_of(x)),
            None => None,
        },
        FirstAdminUser::json_of(v).member(
            "receiverLanguage"@,
        ) == match v.receiver_language {
            Some(x) => Some(<String>::json_of(x)),
            None => None,
        },
        FirstAdminUser::json_of(v).member(
            "notifyUser"@,
        ) == match v.notify_user {
            Some(x) => Some(<bool>::json_of(x)),
            None => None,
        },
        FirstAdminUser::json_of(v).member(
            "email"@,
        ) == match v.email {
            Some(x) => Some(<String>::json_of(x)),
            None => None,
        },
        FirstAdminUser::json_of(v).member(
            "phone"@,
        ) == match v.phone {
            Some(x) => Some(<String>::json_of(x)),
            None => None,
        },
{
    broadcast use lemma_lookup_push;

    reveal_strlit("firstName");
    reveal_strlit("lastName");
    reveal_strlit("userName");
    reveal_strlit("authData");
    reveal_strlit("receiverLanguage");
    reveal_strlit("notifyUser");
    reveal_strlit("email");
    reveal_strlit("phone");
    // No two names are the same text: they differ in length, or in the
    // character shown.
    assert("firstName"@.len() == 9);
    assert("lastName"@.len() == 8 && "lastName"@[0] == 'l');
    assert("userName"@.len() == 8 && "userName"@[0] == 'u');
    assert("authData"@.len() == 8 && "authData"@[0] == 'a');
    assert("receiverLanguage"@.len() == 16);
    assert("notifyUser"@.len() == 10);
    assert("email"@.len() == 5 && "email"@[0] == 'e');
    assert("phone"@.len() == 5 && "phone"@[0] == 'p');
}

/// Writing a first administrator and reading it again gives the same value.
/// What is written holds no `null`, and a part without a value is not
/// written: its name is not among the members.
pub proof fn lemma_first_admin_user_round_trip(v: FirstAdminUserView)
    ensures
        FirstAdminUser::of_json(FirstAdminUser::json_of(v)) == Some(v),
        null_free(FirstAdminUser::json_of(v)),
        v.user_name is None <==> FirstAdminUser::json_of(v).member(
            "userName"@,
        ) is None,
        v.auth_data is None <==> FirstAdminUser::json_of(v).member(
            "authData"@,
        ) is None,
        v.receiver_language is None <==> FirstAdminUser::json_of(v).member(
            "receiverLanguage"@,
        ) is None,
        v.notify_user is None <==> FirstAdminUser::json_of(v).member(
            "notifyUser"@,
        ) is None,
        v.email is None <==> FirstAdminUser::json_of(v).member(
            "email"@,
        ) is None,
        v.phone is None <==> FirstAdminUser::json_of(v).member(
            "phone"@,
        ) is None,
{
    broadcast use lemma_null_free_push;

    lemma_first_admin_user_members(v);
    if v.auth_data is Some {
        lemma_user_auth_data_round_trip(v.auth_data->0);
    }
    assert(members_null_free(FirstAdminUser::json_of(v)->Object_0));
}

/// The members that are written for a request for a new customer: each part
/// that has a value under its name, and nothing under the name of a part
/// without one.
proof fn lemma_new_customer_request_members(v: NewCustomerRequestView)
    ensures
        NewCustomerRequest::json_of(v).member("customerContractType"@) == Some(
            <String>::json_of(v.customer_contract_type),
        ),
        NewCustomerRequest::json_of(v).member("quotaMax"@) == Some(
            <u64>::json_of(v.quota_max),
        ),
        NewCustomerRequest::json_of(v).member("userMax"@) == Some(
            <u64>::json_of(v.user_max),
        ),
        NewCustomerRequest::json_of(v).member("firstAdminUser"@) == Some(
            <FirstAdminUser>::json_of(v.first_admin_user),
        ),
        NewCustomerRequest::json_of(v).member(
            "companyName"@,
        ) == match v.company_name {
            Some(x) => Some(<String>::json_of(x)),
            None => None,
        },
        NewCustomerRequest::json_of(v).member(
            "trialDays"@,
        ) == match v.trial_days {
            Some(x) => Some(<u64>::json_of(x)),
            None => None,
        },
        NewCustomerRequest::json_of(v).member(
            "isLocked"@,
        ) == match v.is_locked {
            Some(x) => Some(<bool>::json_of(x)),
            None => None,
        },
        NewCustomerRequest::json_of(v).member(
            "customerAttributes"@,
        ) == match v.customer_attributes {
            Some(x) => Some(<CustomerAttributes>::json_of(x)),
            None => None,
        },
        NewCustomerRequest::json_of(v).member(
            "providerCustomerId"@,
        ) == match v.provider_customer_id {
            Some(x) => Some(<String>::json_of(x)),
            None => None,
        },
        NewCustomerRequest::json_of(v).member(
            "webhooksMax"@,
        ) == match v.webhooks_max {
            Some(x) => Some(<u64>::json_of(x)),
            None => None,
        },
{
    broadcast use lemma_lookup_push;

    reveal_strlit("customerContractType");
    reveal_strlit("quotaMax");
    reveal_strlit("userMax");
    reveal_strlit("firstAdminUser");
    reveal_strlit("companyName");
    reveal_strlit("trialDays");
    reveal_strlit("isLocked");
    reveal_strlit("customerAttributes");
    reveal_strlit("providerCustomerId");
    reveal_strlit("webhooksMax");
    // No two names are the same text: they differ in length, or in the
    // character shown.
    assert("customerContractType"@.len() == 20);
    assert("quotaMax"@.len() == 8 && "quotaMax"@[0] == 'q');
    assert("userMax"@.len() == 7);
    assert("firstAdminUser"@.len() == 14);
    assert("companyName"@.len() == 11 && "companyName"@[0] == 'c');
    assert("trialDays"@.len() == 9);
    assert("isLocked"@.len() == 8 && "isLocked"@[0] == 'i');
    assert("customerAttributes"@.len() == 18 && "customerAttributes"@[0] == 'c');
    assert("providerCustomerId"@.len() == 18 && "providerCustomerId"@[0] == 'p');
    assert("webhooksMax"@.len() == 11 && "webhooksMax"@[0] == 'w');
}

/// Writing a request for a new customer and reading it again gives the same
/// value. What is written holds no `null`, and a part without a value is
/// not written: its name is not among the members.
pub proof fn lemma_new_customer_request_round_trip(v: NewCustomerRequestView)
    ensures
        NewCustomerRequest::of_json(NewCustomerRequest::json_of(v)) == Some(v),
        null_free(NewCustomerRequest::json_of(v)),
        v.company_name is None <==> NewCustomerRequest::json_of(v).member(
            "companyName"@,
        ) is None,
        v.trial_days is None <==> NewCustomerRequest::json_of(v).member(
            "trialDays"@,
        ) is None,
        v.is_locked is None <==> NewCustomerRequest::json_of(v).member(
            "isLocked"@,
        ) is None,
        v.customer_attributes is None <==> NewCustomerRequest::json_of(v).member(
            "customerAttributes"@,
        ) is None,
        v.provider_customer_id is None <==> NewCustomerRequest::json_of(v).member(
            "providerCustomerId"@,
        ) is None,
        v.webhooks_max is None <==> NewCustomerRequest::json_of(v).member(
            "webhooksMax"@,
        ) is None,
{
    broadcast use lemma_null_free_push;

    lemma_new_customer_request_members(v);
    lemma_first_admin_user_round_trip(v.first_admin_user);
    if v.customer_attributes is Some {
        lemma_customer_attributes_round_trip(v.customer_attributes->0);
    }
    assert(members_null_free(NewCustomerRequest::json_of(v)->Object_0));
}

/// What is written to change a customer holds no `null`, and holds a member
/// for exactly the parts that have a value: the name of a part without one
/// is not among the members.
pub proof fn lemma_update_customer_request_sparse(v: UpdateCustomerRequestView)
    ensures
        null_free(UpdateCustomerRequest::json_of(v)),
        UpdateCustomerRequest::json_of(v).member(
            "companyName"@,
        ) == match v.company_name {
            Some(x) => Some(<String>::json_of(x)),
            None => None,
        },
        UpdateCustomerRequest::json_of(v).member(
            "customerContractType"@,
        ) == match v.customer_contract_type {
            Some(x) => Some(<String>::json_of(x)),
            None => None,
        },
        UpdateCustomerRequest::json_of(v).member(
            "quotaMax"@,
        ) == match v.quota_max {
            Some(x) => Some(<u64>::json_of(x)),
            None => None,
        },
        UpdateCustomerRequest::json_of(v).member(
            "userMax"@,
        ) == match v.user_max {
            Some(x) => Some(<u64>::json_of(x)),
            None => None,
        },
        UpdateCustomerRequest::json_of(v).member(
            "isLocked"@,
        ) == match v.is_locked {
            Some(x) => Some(<bool>::json_of(x)),
            None => None,
        },
        UpdateCustomerRequest::json_of(v).member(
            "providerCustomerId"@,
        ) == match v.provider_customer_id {
            Some(x) => Some(<i64>::json_of(x)),
            None => None,
        },
        UpdateCustomerRequest::json_of(v).member(
            "webhooksMax"@,
        ) == match v.webhooks_max {
            Some(x) => Some(<u64>::json_of(x)),
            None => None,
        },
{
    broadcast use {lemma_lookup_push, lemma_null_free_push};

    reveal_strlit("companyName");
    reveal_strlit("customerContractType");
    reveal_strlit("quotaMax");
    reveal_strlit("userMax");
    reveal_strlit("isLocked");
    reveal_strlit("providerCustomerId");
    reveal_strlit("webhooksMax");
    // No two names are the same text: they differ in length, or in the
    // character shown.
    assert("companyName"@.len() == 11 && "companyName"@[0] == 'c');
    assert("customerContractType"@.len() == 20);
    assert("quotaMax"@.len() == 8 && "quotaMax"@[0] == 'q');
    assert("userMax"@.len() == 7);
    assert("isLocked"@.len() == 8 && "isLocked"@[0] == 'i');
    assert("providerCustomerId"@.len() == 18);
    assert("webhooksMax"@.len() == 11 && "webhooksMax"@[0] == 'w');
    assert(members_null_free(UpdateCustomerRequest::json_of(v)->Object_0));
}

} // verus!
