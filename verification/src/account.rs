//! Accounts: the people who log in through the OpenID Connect provider and
//! who create or are assigned tickets.
use vstd::prelude::*;

use crate::bounded::BoundedStr;
use crate::ids::{is_v4_uuid, new_random_uuid, BusinessModelUuid};

verus! {

/// Identifier of an account.
#[derive(Clone, Copy, PartialEq, Eq, Structural, Debug)]
pub struct AccountUuid(u128);

impl BusinessModelUuid for AccountUuid {
    closed spec fn inner(&self) -> u128 {
        self.0
    }

    fn new_from_model(value: u128) -> (res: Self) {
        AccountUuid(value)
    }

    fn get_inner(&self) -> (res: u128) {
        self.0
    }
}

/// The account row as the database stores it.
pub struct AccountModel {
    /// Primary key.
    pub uuid: u128,
    /// The user's matrix user id.
    pub matrix_id: Option<BoundedStr<1024>>,
    /// The user's display name.
    pub display_name: BoundedStr<255>,
    /// The user's email.
    pub email: BoundedStr<255>,
    /// Identifier of the issuer, i.e. the identity provider.
    pub issuer: BoundedStr<255>,
    /// Identifier of the user within the issuer; never reassigned.
    pub subject: BoundedStr<255>,
}

/// Domain representation of an account used across handlers and services.
pub struct Account {
    /// The account's identifier.
    pub uuid: AccountUuid,
    /// The user's matrix user id.
    pub matrix_id: Option<BoundedStr<1024>>,
    /// The user's display name.
    pub display_name: BoundedStr<255>,
    /// The user's email.
    pub email: BoundedStr<255>,
    /// Identifier of the issuer, i.e. the identity provider.
    pub issuer: BoundedStr<255>,
    /// Identifier of the user within the issuer; never reassigned.
    pub subject: BoundedStr<255>,
}

/// Data for inserting a new account.
pub struct InsertAccount {
    /// The user's display name.
    pub display_name: BoundedStr<255>,
    /// The user's email.
    pub email: BoundedStr<255>,
    /// Identifier of the issuer, i.e. the identity provider.
    pub issuer: BoundedStr<255>,
    /// Identifier of the user within the issuer.
    pub subject: BoundedStr<255>,
}

/// A simple account representation, as the HTTP API returns it.
pub struct SimpleAccount {
    /// The account's identifier.
    pub uuid: AccountUuid,
    /// The account's email address.
    pub email: BoundedStr<255>,
    /// The account's display name.
    pub display_name: BoundedStr<255>,
    /// The account's matrix user id.
    pub matrix_id: Option<BoundedStr<1024>>,
}

/// Request to set the matrix user id of an account.
pub struct SetMatrixIdRequest {
    /// The matrix user id.
    pub matrix_id: BoundedStr<1024>,
}

impl Account {
    /// The row to insert for a new account: a fresh random identifier, no
    /// matrix user id yet, and the given names.
    pub fn new_model(data: InsertAccount) -> (res: AccountModel)
        ensures
            is_v4_uuid(res.uuid),
            Self::is_new_row(res, data, res.uuid),
            res.matrix_id is None,
            res.display_name@ == data.display_name@,
            res.email@ == data.email@,
            res.issuer@ == data.issuer@,
            res.subject@ == data.subject@,
    {
        let uuid = new_random_uuid();
        Self::build_model(data, uuid)
    }

    /// Whether `row` is the row for a new account made from `data` with
    /// identifier `uuid`: no matrix user id yet, and the given names.
    pub open spec fn is_new_row(row: AccountModel, data: InsertAccount, uuid: u128) -> bool {
        &&& row.uuid == uuid
        &&& row.matrix_id is None
        &&& row.display_name == data.display_name
        &&& row.email == data.email
        &&& row.issuer == data.issuer
        &&& row.subject == data.subject
    }

    /// The row for a new account with identifier `uuid`.
    pub fn build_model(data: InsertAccount, uuid: u128) -> (res: AccountModel)
        ensures
            Self::is_new_row(res, data, uuid),
    {
        AccountModel {
            uuid,
            matrix_id: None,
            display_name: data.display_name,
            email: data.email,
            issuer: data.issuer,
            subject: data.subject,
        }
    }
}

/// A new account's row carries the identifier it was made with and the
/// given names, and no matrix user id.
pub proof fn law_new_account_row(data: InsertAccount, uuid: u128, res: AccountModel)
    requires
        call_ensures(Account::build_model, (data, uuid), res),
    ensures
        res.uuid == uuid,
        res.matrix_id is None,
        res.display_name@ == data.display_name@,
        res.email@ == data.email@,
        res.issuer@ == data.issuer@,
        res.subject@ == data.subject@,
{
}

impl From<AccountModel> for Account {
    fn from(model: AccountModel) -> (res: Self) {
        Account {
            uuid: AccountUuid(model.uuid),
            matrix_id: model.matrix_id,
            display_name: model.display_name,
            email: model.email,
            issuer: model.issuer,
            subject: model.subject,
        }
    }
}

/// An account read from its row holds the row's values: the identifier,
/// matrix user id, display name, email, issuer and subject, each unchanged.
pub proof fn law_account_from_row(model: AccountModel, res: Account)
    requires
        call_ensures(<Account as From<AccountModel>>::from, (model,), res),
    ensures
        res.uuid.inner() == model.uuid,
        res.matrix_id == model.matrix_id,
        res.display_name == model.display_name,
        res.email == model.email,
        res.issuer == model.issuer,
        res.subject == model.subject,
{
}

impl vstd::std_specs::convert::FromSpecImpl<AccountModel> for Account {
    open spec fn obeys_from_spec() -> bool {
        true
    }

    open spec fn from_spec(model: AccountModel) -> Account {
        Account {
            uuid: AccountUuid::new_spec(model.uuid),
            matrix_id: model.matrix_id,
            display_name: model.display_name,
            email: model.email,
            issuer: model.issuer,
            subject: model.subject,
        }
    }
}

impl AccountUuid {
    /// The identifier wrapping `value`.
    pub closed spec fn new_spec(value: u128) -> AccountUuid {
        AccountUuid(value)
    }

    /// `new_spec` wraps exactly its argument.
    pub proof fn lemma_new_spec(value: u128)
        ensures
            Self::new_spec(value).inner() == value,
    {
    }
}

impl From<Account> for SimpleAccount {
    fn from(account: Account) -> (res: Self) {
        SimpleAccount {
            uuid: account.uuid,
            email: account.email,
            display_name: account.display_name,
            matrix_id: account.matrix_id,
        }
    }
}

/// The API form of an account shows the account as it is: its identifier,
/// email, display name and matrix user id, each unchanged.
pub proof fn law_simple_account_shows_account(account: Account, res: SimpleAccount)
    requires
        call_ensures(<SimpleAccount as From<Account>>::from, (account,), res),
    ensures
        res.uuid == account.uuid,
        res.email == account.email,
        res.display_name == account.display_name,
        res.matrix_id == account.matrix_id,
{
}

impl vstd::std_specs::convert::FromSpecImpl<Account> for SimpleAccount {
    open spec fn obeys_from_spec() -> bool {
        true
    }

    open spec fn from_spec(account: Account) -> SimpleAccount {
        SimpleAccount {
            uuid: account.uuid,
            email: account.email,
            display_name: account.display_name,
            matrix_id: account.matrix_id,
        }
    }
}

} // verus!
