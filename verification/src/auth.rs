use vstd::prelude::*;

verus! {

/// Declares `uuid::Uuid`, the identifier of accounts and sessions, so that it
/// can be carried through fields and signatures; nothing inside it is read.
#[verifier::external_type_specification]
#[verifier::external_body]
pub struct ExUuid(uuid::Uuid);

/// Audience a session token is issued for.
#[derive(Clone, Copy, Debug, PartialEq, Eq, Structural)]
pub enum Audience {
    Web,
}

/// Claims carried by a session token.
pub struct AppClaims {
    pub expiration_time: u64,
    pub issues_at: usize,
    /// Account login
    pub subject: String,
    pub audience: Audience,
    pub jwt_id: uuid::Uuid,
    pub account_id: uuid::Uuid,
    pub not_before: u64,
}

impl AppClaims {
    /// Identifier of the token.
    pub fn jti(&self) -> (id: uuid::Uuid)
        ensures
            id == self.jwt_id,
    {
        self.jwt_id
    }

    /// Login of the account the token belongs to.
    pub fn subject(&self) -> (s: &str)
        ensures
            s@ == self.subject@,
    {
        self.subject.as_str()
    }

    /// Identifier of the account the token belongs to.
    pub fn account_id(&self) -> (id: uuid::Uuid)
        ensures
            id == self.account_id,
    {
        self.account_id
    }
}

/// Role given to an account when it is registered.
#[derive(Clone, Copy, Debug, PartialEq, Eq, Structural)]
pub enum RoleTypes {
    Admin,
    User,
}

/// An account as it is stored.
pub struct AccountModel {
    pub uuid: uuid::Uuid,
    pub user: String,
    pub pass_hash: String,
    pub role: RoleTypes,
}

/// Calls `uuid::Uuid::new_v4`, which draws a random version-4 identifier.
/// The identifier depends on chance, so nothing is claimed of it.
#[verifier::external_body]
fn new_random_uuid() -> (id: uuid::Uuid) {
    uuid::Uuid::new_v4()
}

/// Whether `actix_jwt_session::Hashing::verify(hash, password)` succeeds, that
/// is, whether the argon2 hash string `hash` was made from `password`. The
/// check recomputes the hash under the salt and parameters written in `hash`,
/// so it depends on its two arguments alone.
pub uninterp spec fn password_hash_matches(hash: Seq<char>, password: Seq<char>) -> bool;

/// Beginning of every hash `Hashing::encrypt` makes: argon2id, version 19,
/// and argon2's default costs (19456 KiB of memory, two passes, one lane).
pub open spec fn spec_hash_prefix() -> Seq<char> {
    "$argon2id$v=19$m=19456,t=2,p=1$"@
}

/// Calls `actix_jwt_session::Hashing::encrypt`, which hashes the password with
/// argon2 under defaults and a freshly drawn 16-byte random salt. Claimed:
/// - it fails only where the password exceeds argon2's limit of `u32::MAX`
///   bytes, so it succeeds on every password of fewer than 2^30 characters
///   (a character takes at most four bytes);
/// - a hash it returns passes `Hashing::verify` against the password, as the
///   crate's own test of `encrypt` checks;
/// - the hash is the argon2 PHC string of the defaults: the prefix above, the
///   22-character salt, `$` and the 43-character hash, 97 characters in all.
/// The salt and hash characters depend on chance and are not claimed; the
/// outside error is dropped.
#[verifier::external_body]
fn hash_password(password: &str) -> (res: Result<String, ()>)
    ensures
        password@.len() < 0x4000_0000 ==> res is Ok,
        res matches Ok(hash) ==> {
            &&& password_hash_matches(hash@, password@)
            &&& hash@.len() == 97
            &&& spec_hash_prefix().is_prefix_of(hash@)
        },
{
    match actix_jwt_session::Hashing::encrypt(password) {
        Ok(hash) => Ok(hash),
        Err(_) => Err(()),
    }
}

impl AccountModel {
    /// An account made of the given identifier, login, password hash and role.
    pub fn from_parts(uuid: uuid::Uuid, user: String, pass_hash: String, role: RoleTypes) -> (account: AccountModel)
        ensures
            account.uuid == uuid,
            account.user == user,
            account.pass_hash == pass_hash,
            account.role == role,
    {
        AccountModel { uuid, user, pass_hash, role }
    }

    /// Builds the account to store for a new user: a fresh random identifier
    /// and the argon2 hash of the password. Succeeds on every password of
    /// fewer than 2^30 characters; on a longer one it fails exactly where
    /// hashing fails.
    pub fn new(user: String, password: &str, role: RoleTypes) -> (res: Result<AccountModel, ()>)
        ensures
            password@.len() < 0x4000_0000 ==> res is Ok,
            res matches Ok(account) ==> {
                &&& account.user@ == user@
                &&& account.role == role
                &&& password_hash_matches(account.pass_hash@, password@)
                &&& account.pass_hash@.len() == 97
                &&& spec_hash_prefix().is_prefix_of(account.pass_hash@)
            },
    {
        let pass_hash = match hash_password(password) {
            Ok(hash) => hash,
            Err(()) => return Err(()),
        };
        Ok(AccountModel::from_parts(new_random_uuid(), user, pass_hash, role))
    }
}

} // verus!
