use vstd::prelude::*;

use crate::uuid_text::{canonical_uuid, is_random_uuid_text, new_v4_text, parse_uuid};
use crate::validation::{is_valid_input, valid_identifier};

verus! {

/// A registration request: the pair to which an API key is issued.
pub struct RegistrationInfo {
    pub tenant_id: String,
    pub realm_id: String,
}

/// An integration request: a credential to record against an account key.
pub struct IntegrationInfo {
    pub account_uuid: String,
    pub bamboo_hr_api_key: String,
}

/// A row of the `accounts` table.
pub struct Account {
    pub tenant_id: String,
    pub realm_id: String,
    pub api_key: String,
}

/// A row of the `integrations` table.
pub struct Integration {
    pub account_key: String,
    pub bamboo_hr_api_key: String,
}

pub ghost struct AccountView {
    pub tenant_id: Seq<char>,
    pub realm_id: Seq<char>,
    pub api_key: Seq<char>,
}

pub ghost struct IntegrationView {
    pub account_key: Seq<char>,
    pub bamboo_hr_api_key: Seq<char>,
}

impl View for Account {
    type V = AccountView;

    open spec fn view(&self) -> AccountView {
        AccountView {
            tenant_id: self.tenant_id@,
            realm_id: self.realm_id@,
            api_key: self.api_key@,
        }
    }
}

impl View for Integration {
    type V = IntegrationView;

    open spec fn view(&self) -> IntegrationView {
        IntegrationView { account_key: self.account_key@, bamboo_hr_api_key: self.bamboo_hr_api_key@ }
    }
}

/// What a request is answered with.
pub enum Response {
    /// 200, with the issued API key as a JSON string.
    Issued(String),
    /// 201, empty body.
    Created,
    /// 400: a tenant or realm identifier is malformed.
    InvalidRegistration,
    /// 400: the account identifier is not a UUID.
    InvalidUuid,
    /// 409: the tenant/realm pair already has a key.
    AlreadyConfigured,
    /// 500: storage failed; the detail is for operators only.
    ServerError,
}

pub ghost enum Reply {
    Issued(Seq<char>),
    Created,
    InvalidRegistration,
    InvalidUuid,
    AlreadyConfigured,
    ServerError,
}

impl View for Response {
    type V = Reply;

    open spec fn view(&self) -> Reply {
        match self {
            Response::Issued(k) => Reply::Issued(k@),
            Response::Created => Reply::Created,
            Response::InvalidRegistration => Reply::InvalidRegistration,
            Response::InvalidUuid => Reply::InvalidUuid,
            Response::AlreadyConfigured => Reply::AlreadyConfigured,
            Response::ServerError => Reply::ServerError,
        }
    }
}

pub open spec fn status_of(r: Reply) -> u16 {
    match r {
        Reply::Issued(_) => 200,
        Reply::Created => 201,
        Reply::InvalidRegistration => 400,
        Reply::InvalidUuid => 400,
        Reply::AlreadyConfigured => 409,
        Reply::ServerError => 500,
    }
}

pub open spec fn message_of(r: Reply) -> Seq<char> {
    match r {
        Reply::InvalidRegistration => "Invalid tenantId or realmId"@,
        Reply::InvalidUuid => "Invalid UUID"@,
        Reply::AlreadyConfigured => "The provided tenant and realm are already configured"@,
        _ => ""@,
    }
}

impl Response {
    /// The HTTP status code of the reply.
    pub fn status(&self) -> (s: u16)
        ensures
            s == status_of(self@),
    {
        match self {
            Response::Issued(_) => 200,
            Response::Created => 201,
            Response::InvalidRegistration => 400,
            Response::InvalidUuid => 400,
            Response::AlreadyConfigured => 409,
            Response::ServerError => 500,
        }
    }

    /// The plain-text body of a client error; empty for the other replies.
    pub fn message(&self) -> (m: &'static str)
        ensures
            m@ == message_of(self@),
    {
        match self {
            Response::InvalidRegistration => "Invalid tenantId or realmId",
            Response::InvalidUuid => "Invalid UUID",
            Response::AlreadyConfigured => "The provided tenant and realm are already configured",
            _ => "",
        }
    }
}

/// What came of looking a tenant/realm pair up in the `accounts` table.
#[derive(PartialEq, Eq, Structural, Clone, Copy)]
pub enum Lookup {
    /// A row with the pair was read.
    Found,
    /// No row was read.
    Absent,
    /// The connection could not be opened or the query prepared.
    Failed,
}

/// The next thing a registration asks its caller to do.
pub enum RegisterAction {
    /// Open storage and look the pair up in `accounts`; report a `Lookup`.
    LookUp,
    /// Insert this row into `accounts`; report whether it was written.
    Insert(Account),
    /// Answer the request; the registration is over.
    Respond(Response),
}

pub ghost enum RegisterStep {
    LookUp,
    Insert(AccountView),
    Respond(Reply),
}

impl View for RegisterAction {
    type V = RegisterStep;

    open spec fn view(&self) -> RegisterStep {
        match self {
            RegisterAction::LookUp => RegisterStep::LookUp,
            RegisterAction::Insert(a) => RegisterStep::Insert(a@),
            RegisterAction::Respond(r) => RegisterStep::Respond(r@),
        }
    }
}

/// The next thing an integration asks its caller to do.
pub enum IntegrateAction {
    /// Insert this row into `integrations`; report whether it was written.
    Insert(Integration),
    /// Answer the request; the integration is over.
    Respond(Response),
}

pub ghost enum IntegrateStep {
    Insert(IntegrationView),
    Respond(Reply),
}

impl View for IntegrateAction {
    type V = IntegrateStep;

    open spec fn view(&self) -> IntegrateStep {
        match self {
            IntegrateAction::Insert(i) => IntegrateStep::Insert(i@),
            IntegrateAction::Respond(r) => IntegrateStep::Respond(r@),
        }
    }
}

/// First step of a registration: validate both identifiers before any
/// storage is touched.
pub open spec fn register_start_step(tenant_id: Seq<char>, realm_id: Seq<char>) -> RegisterStep {
    if valid_identifier(tenant_id) && valid_identifier(realm_id) {
        RegisterStep::LookUp
    } else {
        RegisterStep::Respond(Reply::InvalidRegistration)
    }
}

/// Step after the lookup, given the key that would be issued.
pub open spec fn register_lookup_step(
    tenant_id: Seq<char>,
    realm_id: Seq<char>,
    lookup: Lookup,
    api_key: Seq<char>,
) -> RegisterStep {
    match lookup {
        Lookup::Failed => RegisterStep::Respond(Reply::ServerError),
        Lookup::Found => RegisterStep::Respond(Reply::AlreadyConfigured),
        Lookup::Absent => RegisterStep::Insert(
            AccountView { tenant_id, realm_id, api_key },
        ),
    }
}

/// Answer after the account row was (or was not) written.
pub open spec fn register_insert_reply(api_key: Seq<char>, inserted: bool) -> Reply {
    if inserted {
        Reply::Issued(api_key)
    } else {
        Reply::ServerError
    }
}

/// First (and deciding) step of an integration, once storage was opened
/// (`connected`) or not.
pub open spec fn integrate_step(
    account_uuid: Seq<char>,
    bamboo_hr_api_key: Seq<char>,
    connected: bool,
) -> IntegrateStep {
    if !connected {
        IntegrateStep::Respond(Reply::ServerError)
    } else {
        match canonical_uuid(account_uuid) {
            Some(key) => IntegrateStep::Insert(
                IntegrationView { account_key: key, bamboo_hr_api_key },
            ),
            None => IntegrateStep::Respond(Reply::InvalidUuid),
        }
    }
}

/// Answer after the integration row was (or was not) written.
pub open spec fn integrate_insert_reply(inserted: bool) -> Reply {
    if inserted {
        Reply::Created
    } else {
        Reply::ServerError
    }
}

/// Starts a registration: a malformed tenant or realm identifier is refused
/// at once; otherwise the pair is to be looked up.
pub fn register_start(info: &RegistrationInfo) -> (a: RegisterAction)
    ensures
        a@ == register_start_step(info.tenant_id@, info.realm_id@),
{
    if !is_valid_input(info.tenant_id.as_str()) || !is_valid_input(info.realm_id.as_str()) {
        RegisterAction::Respond(Response::InvalidRegistration)
    } else {
        RegisterAction::LookUp
    }
}

/// Decides a registration from the lookup, with `api_key` as the key to issue
/// if the pair is new.
pub fn register_with_key(info: &RegistrationInfo, lookup: Lookup, api_key: String) -> (a:
    RegisterAction)
    ensures
        a@ == register_lookup_step(info.tenant_id@, info.realm_id@, lookup, api_key@),
{
    match lookup {
        Lookup::Failed => RegisterAction::Respond(Response::ServerError),
        Lookup::Found => RegisterAction::Respond(Response::AlreadyConfigured),
        Lookup::Absent => RegisterAction::Insert(
            Account {
                tenant_id: info.tenant_id.clone(),
                realm_id: info.realm_id.clone(),
                api_key,
            },
        ),
    }
}

/// Decides a registration from the lookup. A new pair gets a freshly drawn
/// random UUID as its key; no key is drawn otherwise.
pub fn register_after_lookup(info: &RegistrationInfo, lookup: Lookup) -> (a: RegisterAction)
    ensures
        lookup != Lookup::Absent ==> a@ == register_lookup_step(
            info.tenant_id@,
            info.realm_id@,
            lookup,
            Seq::empty(),
        ),
        lookup == Lookup::Absent ==> exists|k: Seq<char>|
            is_random_uuid_text(k) && a@ == register_lookup_step(
                info.tenant_id@,
                info.realm_id@,
                lookup,
                k,
            ),
{
    if lookup == Lookup::Absent {
        let api_key = new_v4_text();
        let a = register_with_key(info, lookup, api_key);
        proof {
            let k = a@->Insert_0.api_key;
            assert(is_random_uuid_text(k));
        }
        a
    } else {
        register_with_key(info, lookup, String::new())
    }
}

/// Answers a registration once the account row was written or not.
pub fn register_after_insert(api_key: String, inserted: bool) -> (r: Response)
    ensures
        r@ == register_insert_reply(api_key@, inserted),
{
    if inserted {
        Response::Issued(api_key)
    } else {
        Response::ServerError
    }
}

/// Decides an integration once storage was opened or not: a malformed UUID
/// is refused; otherwise the credential is to be stored against the UUID's
/// canonical text, verbatim.
pub fn integrate(info: &IntegrationInfo, connected: bool) -> (a: IntegrateAction)
    ensures
        a@ == integrate_step(info.account_uuid@, info.bamboo_hr_api_key@, connected),
{
    if !connected {
        return IntegrateAction::Respond(Response::ServerError);
    }
    match parse_uuid(info.account_uuid.as_str()) {
        Some(account_key) => IntegrateAction::Insert(
            Integration { account_key, bamboo_hr_api_key: info.bamboo_hr_api_key.clone() },
        ),
        None => IntegrateAction::Respond(Response::InvalidUuid),
    }
}

/// Answers an integration once its row was written or not.
pub fn integrate_after_insert(inserted: bool) -> (r: Response)
    ensures
        r@ == integrate_insert_reply(inserted),
{
    if inserted {
        Response::Created
    } else {
        Response::ServerError
    }
}

} // verus!
