use vstd::prelude::*;

use crate::service::{
    integrate_insert_reply, integrate_step, register_insert_reply, register_lookup_step,
    register_start_step, AccountView, IntegrateStep, IntegrationView, Lookup, RegisterStep, Reply,
};
use crate::uuid_text::{canonical_uuid, is_canonical_uuid, is_random_uuid_text};
use crate::validation::{alphanumeric, valid_identifier};

verus! {

/// Some row of `rows` holds the tenant/realm pair.
pub open spec fn pair_registered(rows: Seq<AccountView>, tenant_id: Seq<char>, realm_id: Seq<char>) -> bool {
    exists|i: int|
        0 <= i < rows.len() && (#[trigger] rows[i]).tenant_id == tenant_id && rows[i].realm_id
            == realm_id
}

/// What the lookup of a pair reports on an `accounts` table holding `rows`.
pub open spec fn lookup_in(rows: Seq<AccountView>, tenant_id: Seq<char>, realm_id: Seq<char>) -> Lookup {
    if pair_registered(rows, tenant_id, realm_id) {
        Lookup::Found
    } else {
        Lookup::Absent
    }
}

/// A whole registration, run alone against an `accounts` table that holds
/// `rows` and does not fail, with `api_key` as the key drawn if one is: the
/// rows afterwards and the reply.
pub open spec fn run_registration(
    rows: Seq<AccountView>,
    tenant_id: Seq<char>,
    realm_id: Seq<char>,
    api_key: Seq<char>,
) -> (Seq<AccountView>, Reply) {
    match register_start_step(tenant_id, realm_id) {
        RegisterStep::Respond(reply) => (rows, reply),
        _ => match register_lookup_step(
            tenant_id,
            realm_id,
            lookup_in(rows, tenant_id, realm_id),
            api_key,
        ) {
            RegisterStep::Insert(row) => (rows.push(row), register_insert_reply(api_key, true)),
            RegisterStep::Respond(reply) => (rows, reply),
            RegisterStep::LookUp => (rows, Reply::ServerError),
        },
    }
}

/// A whole integration against an `integrations` table that holds `rows` and
/// does not fail: the rows afterwards and the reply.
pub open spec fn run_integration(
    rows: Seq<IntegrationView>,
    account_uuid: Seq<char>,
    bamboo_hr_api_key: Seq<char>,
) -> (Seq<IntegrationView>, Reply) {
    match integrate_step(account_uuid, bamboo_hr_api_key, true) {
        IntegrateStep::Insert(row) => (rows.push(row), integrate_insert_reply(true)),
        IntegrateStep::Respond(reply) => (rows, reply),
    }
}

/// Ten characters, not all alphanumeric, or another length: such an
/// identifier.
pub open spec fn malformed(s: Seq<char>) -> bool {
    s.len() != 10 || exists|i: int| 0 <= i < s.len() && !alphanumeric(#[trigger] s[i])
}

/// A registration whose tenant or realm identifier is malformed is refused
/// as invalid and writes nothing.
pub proof fn malformed_registration_writes_nothing(
    rows: Seq<AccountView>,
    tenant_id: Seq<char>,
    realm_id: Seq<char>,
    api_key: Seq<char>,
)
    requires
        malformed(tenant_id) || malformed(realm_id),
    ensures
        run_registration(rows, tenant_id, realm_id, api_key) == (rows, Reply::InvalidRegistration),
{
    assert(!valid_identifier(tenant_id) || !valid_identifier(realm_id));
}

/// A well-formed pair that is not yet registered is issued the drawn key,
/// which is a canonical UUID, and its row is stored; the same request made
/// again is refused as a conflict and writes nothing.
pub proof fn new_pair_is_issued_once(
    rows: Seq<AccountView>,
    tenant_id: Seq<char>,
    realm_id: Seq<char>,
    first_key: Seq<char>,
    second_key: Seq<char>,
)
    requires
        valid_identifier(tenant_id),
        valid_identifier(realm_id),
        !pair_registered(rows, tenant_id, realm_id),
        is_random_uuid_text(first_key),
    ensures
        ({
            let stored = rows.push(AccountView { tenant_id, realm_id, api_key: first_key });
            &&& run_registration(rows, tenant_id, realm_id, first_key) == (
                stored,
                Reply::Issued(first_key),
            )
            &&& is_canonical_uuid(first_key)
            &&& run_registration(stored, tenant_id, realm_id, second_key) == (
                stored,
                Reply::AlreadyConfigured,
            )
        }),
{
    let stored = rows.push(AccountView { tenant_id, realm_id, api_key: first_key });
    assert(stored[rows.len() as int].tenant_id == tenant_id);
    assert(pair_registered(stored, tenant_id, realm_id));
}

/// Two registrations of the same new pair whose lookups both run before
/// either insert are both issued a key, and the table then holds the pair
/// twice: the check and the insert are not atomic.
pub proof fn racing_registrations_both_succeed(
    rows: Seq<AccountView>,
    tenant_id: Seq<char>,
    realm_id: Seq<char>,
    first_key: Seq<char>,
    second_key: Seq<char>,
)
    requires
        valid_identifier(tenant_id),
        valid_identifier(realm_id),
        !pair_registered(rows, tenant_id, realm_id),
    ensures
        ({
            let first = AccountView { tenant_id, realm_id, api_key: first_key };
            let second = AccountView { tenant_id, realm_id, api_key: second_key };
            let lookup = lookup_in(rows, tenant_id, realm_id);
            let stored = rows.push(first).push(second);
            &&& register_start_step(tenant_id, realm_id) == RegisterStep::LookUp
            &&& register_lookup_step(tenant_id, realm_id, lookup, first_key)
                == RegisterStep::Insert(first)
            &&& register_lookup_step(tenant_id, realm_id, lookup, second_key)
                == RegisterStep::Insert(second)
            &&& register_insert_reply(first_key, true) == Reply::Issued(first_key)
            &&& register_insert_reply(second_key, true) == Reply::Issued(second_key)
            &&& stored.len() == rows.len() + 2
            &&& stored[rows.len() as int] == first
            &&& stored[rows.len() + 1int] == second
        }),
{
}

/// An account identifier of a length that no UUID form has is refused as
/// invalid, whatever the credential, and writes nothing.
pub proof fn malformed_uuid_writes_nothing(
    rows: Seq<IntegrationView>,
    account_uuid: Seq<char>,
    bamboo_hr_api_key: Seq<char>,
)
    requires
        account_uuid.len() != 32 && account_uuid.len() != 36 && account_uuid.len() != 38
            && account_uuid.len() != 45,
    ensures
        run_integration(rows, account_uuid, bamboo_hr_api_key) == (rows, Reply::InvalidUuid),
{
}

/// A lower-case hexadecimal digit.
pub open spec fn is_lower_hex_digit(c: char) -> bool {
    ('0' <= c && c <= '9') || ('a' <= c && c <= 'f')
}

/// A UUID written hyphenated (8-4-4-4-12) in lower-case digits.
pub open spec fn is_lower_hyphenated(s: Seq<char>) -> bool {
    &&& s.len() == 36
    &&& forall|i: int|
        0 <= i < 36 ==> if i == 8 || i == 13 || i == 18 || i == 23 {
            #[trigger] s[i] == '-'
        } else {
            is_lower_hex_digit(s[i])
        }
}

/// Lower-case hyphenated text is already canonical.
pub proof fn lower_hyphenated_is_canonical(s: Seq<char>)
    requires
        is_lower_hyphenated(s),
    ensures
        canonical_uuid(s) == Some(s),
{
    let d = s.subrange(0, 8) + s.subrange(9, 13) + s.subrange(14, 18) + s.subrange(19, 23)
        + s.subrange(24, 36);
    assert(d.len() == 32);
    assert forall|i: int| 0 <= i < 32 implies #[trigger] d[i] == s[if i < 8 {
        i
    } else if i < 12 {
        i + 1
    } else if i < 16 {
        i + 2
    } else if i < 20 {
        i + 3
    } else {
        i + 4
    }] by {}
    assert forall|i: int| 0 <= i < 32 implies is_lower_hex_digit(#[trigger] d[i]) by {
        if i < 8 {
            assert(d[i] == s[i]);
        } else if i < 12 {
            assert(d[i] == s[i + 1]);
        } else if i < 16 {
            assert(d[i] == s[i + 2]);
        } else if i < 20 {
            assert(d[i] == s[i + 3]);
        } else {
            assert(d[i] == s[i + 4]);
        }
    }
    let lowered = d.map_values(|c: char| crate::uuid_text::hex_lower(c));
    assert(lowered =~= d);
    assert(crate::uuid_text::hyphenate(d) =~= s);
}

/// An account identifier in lower-case hyphenated form is stored verbatim
/// beside the credential, and the integration is answered as created.
pub proof fn canonical_uuid_is_stored(
    rows: Seq<IntegrationView>,
    account_uuid: Seq<char>,
    bamboo_hr_api_key: Seq<char>,
)
    requires
        is_lower_hyphenated(account_uuid),
    ensures
        run_integration(rows, account_uuid, bamboo_hr_api_key) == (
            rows.push(IntegrationView { account_key: account_uuid, bamboo_hr_api_key }),
            Reply::Created,
        ),
{
    lower_hyphenated_is_canonical(account_uuid);
}

} // verus!
