//! Shared value objects of the person and organization aggregates.

use crate::error::{ErrorView, IdentityError};
use crate::text::{clone_optional_text, clone_texts, contains_char, lowercased, to_lowercase};
use crate::time::Timestamp;
use vstd::prelude::*;
use vstd::string::StringExecFns;
use vstd::utf8::encode_utf8;

verus! {

/// Email address, held in lowercase.
#[derive(Debug, PartialEq, Eq, Hash)]
pub struct Email(String);

impl View for Email {
    type V = Seq<char>;

    closed spec fn view(&self) -> Seq<char> {
        self.0@
    }
}

impl Clone for Email {
    fn clone(&self) -> (r: Self)
        ensures
            r == *self,
    {
        Email(self.0.clone())
    }
}

impl Email {
    /// The length of a text as `str::len` reports it: its bytes in UTF-8.
    pub open spec fn byte_len(text: Seq<char>) -> usize {
        encode_utf8(text).len() as usize
    }

    /// A text passes as an address when it holds an `@` and a `.` and is at
    /// least five bytes long.
    pub open spec fn acceptable(text: Seq<char>) -> bool {
        text.contains('@') && text.contains('.') && Self::byte_len(text) >= 5
    }

    /// Whether a text passes as an address.
    pub fn is_acceptable(text: &str) -> (r: bool)
        ensures
            r == Self::acceptable(text@),
    {
        contains_char(text, '@') && contains_char(text, '.') && text.len() >= 5
    }

    /// Creates an address from a text that passes, in lowercase; any other
    /// text comes back inside `InvalidEmail`.
    pub fn new(email: String) -> (r: Result<Self, IdentityError>)
        ensures
            Self::acceptable(email@) ==> (r matches Ok(e) && e@ == lowercased(email@)),
            !Self::acceptable(email@) ==> (r matches Err(e) && e@ == ErrorView::InvalidEmail(
                email@,
            )),
    {
        if Self::is_acceptable(email.as_str()) {
            Ok(Email(to_lowercase(email.as_str())))
        } else {
            Err(IdentityError::InvalidEmail(email))
        }
    }

    /// The address as text.
    pub fn as_str(&self) -> (r: &str)
        ensures
            r@ == self@,
    {
        self.0.as_str()
    }
}

/// Name of a person.
#[derive(Debug, PartialEq, Eq)]
pub struct Name {
    pub first: String,
    pub last: String,
    pub middle: Option<String>,
}

impl Clone for Name {
    fn clone(&self) -> (r: Self)
        ensures
            r == *self,
    {
        Name {
            first: self.first.clone(),
            last: self.last.clone(),
            middle: clone_optional_text(&self.middle),
        }
    }
}

impl Name {
    pub fn new(first: String, last: String, middle: Option<String>) -> (r: Self)
        ensures
            r == (Name { first, last, middle }),
    {
        Name { first, last, middle }
    }

    /// First, middle (where there is one) and last name, a space between each.
    pub open spec fn full_name_text(self) -> Seq<char> {
        match self.middle {
            Some(middle) => self.first@ + seq![' '] + middle@ + seq![' '] + self.last@,
            None => self.first@ + seq![' '] + self.last@,
        }
    }

    pub fn full_name(&self) -> (r: String)
        ensures
            r@ == self.full_name_text(),
    {
        proof {
            reveal_strlit(" ");
            assert(" "@ =~= seq![' ']);
        }
        let mut out = self.first.clone();
        out.append(" ");
        match &self.middle {
            Some(middle) => {
                out.append(middle.as_str());
                out.append(" ");
            },
            None => {},
        }
        out.append(self.last.as_str());
        out
    }
}

/// Postal address.
#[derive(Debug, PartialEq, Eq)]
pub struct Address {
    pub street: String,
    pub city: String,
    pub state: String,
    pub postal_code: String,
    pub country: String,
}

impl Clone for Address {
    fn clone(&self) -> (r: Self)
        ensures
            r == *self,
    {
        Address {
            street: self.street.clone(),
            city: self.city.clone(),
            state: self.state.clone(),
            postal_code: self.postal_code.clone(),
            country: self.country.clone(),
        }
    }
}

/// Phone number.
#[derive(Debug, PartialEq, Eq)]
pub struct PhoneNumber {
    pub country_code: String,
    pub number: String,
}

impl Clone for PhoneNumber {
    fn clone(&self) -> (r: Self)
        ensures
            r == *self,
    {
        PhoneNumber { country_code: self.country_code.clone(), number: self.number.clone() }
    }
}

/// Trust level of a person, from unverified to fully verified.
#[derive(Debug, Clone, Copy, PartialEq, Eq, PartialOrd, Ord, Structural)]
pub enum TrustLevel {
    Unverified,
    EmailVerified,
    PhoneVerified,
    DocumentVerified,
    FullyVerified,
}

impl TrustLevel {
    /// Position of the level, counted from zero.
    pub open spec fn rank(self) -> int {
        match self {
            TrustLevel::Unverified => 0,
            TrustLevel::EmailVerified => 1,
            TrustLevel::PhoneVerified => 2,
            TrustLevel::DocumentVerified => 3,
            TrustLevel::FullyVerified => 4,
        }
    }

    pub fn ordinal(&self) -> (r: u8)
        ensures
            r == self.rank(),
    {
        match self {
            TrustLevel::Unverified => 0,
            TrustLevel::EmailVerified => 1,
            TrustLevel::PhoneVerified => 2,
            TrustLevel::DocumentVerified => 3,
            TrustLevel::FullyVerified => 4,
        }
    }
}

impl Default for TrustLevel {
    fn default() -> (r: Self)
        ensures
            r == TrustLevel::Unverified,
    {
        TrustLevel::Unverified
    }
}

/// Authentication credentials. The password is only ever held as a hash.
#[derive(Debug)]
pub struct Credentials {
    pub username: String,
    pub password_hash: String,
}

impl Clone for Credentials {
    fn clone(&self) -> (r: Self)
        ensures
            r == *self,
    {
        Credentials { username: self.username.clone(), password_hash: self.password_hash.clone() }
    }
}

impl Credentials {
    /// Credentials with the user name in lowercase.
    pub fn new(username: String, password_hash: String) -> (r: Self)
        ensures
            r.username@ == lowercased(username@),
            r.password_hash == password_hash,
    {
        Credentials { username: to_lowercase(username.as_str()), password_hash }
    }

    /// The user name and the password hash are both the given ones.
    pub open spec fn matches_login(self, username: Seq<char>, password_hash: Seq<char>) -> bool {
        self.username@ == username && self.password_hash@ == password_hash
    }

    pub fn is_login(&self, username: &str, password_hash: &str) -> (r: bool)
        ensures
            r == self.matches_login(username@, password_hash@),
    {
        let name = String::from_str(username);
        let hash = String::from_str(password_hash);
        self.username == name && self.password_hash == hash
    }
}

/// Authentication method.
#[derive(Debug, Clone, Copy, PartialEq, Eq, Structural)]
pub enum AuthMethod {
    Password,
    OAuth2,
    SAML,
    ApiKey,
    Certificate,
}

/// Authentication status.
#[derive(Debug, Clone, Copy, PartialEq, Eq, Structural)]
pub struct AuthStatus {
    pub is_authenticated: bool,
    pub method: Option<AuthMethod>,
    pub last_login: Option<Timestamp>,
    pub failed_attempts: u32,
    pub locked_until: Option<Timestamp>,
}

impl AuthStatus {
    /// Nobody is logged in, no attempt has failed, nothing is locked.
    pub open spec fn initial() -> AuthStatus {
        AuthStatus {
            is_authenticated: false,
            method: None,
            last_login: None,
            failed_attempts: 0,
            locked_until: None,
        }
    }
}

impl Default for AuthStatus {
    fn default() -> (r: Self)
        ensures
            r == AuthStatus::initial(),
    {
        AuthStatus {
            is_authenticated: false,
            method: None,
            last_login: None,
            failed_attempts: 0,
            locked_until: None,
        }
    }
}

/// Second factor of a multi-factor login.
#[derive(Debug, Clone, Copy, PartialEq, Eq, Structural)]
pub enum MfaMethod {
    Totp,
    Sms,
    Email,
    App,
}

/// Multi-factor authentication settings. Backup codes are held as hashes.
#[derive(Debug)]
pub struct MfaSettings {
    pub enabled: bool,
    pub method: MfaMethod,
    pub backup_codes: Vec<String>,
}

impl Clone for MfaSettings {
    fn clone(&self) -> (r: Self)
        ensures
            r.enabled == self.enabled,
            r.method == self.method,
            r.backup_codes@ == self.backup_codes@,
    {
        MfaSettings {
            enabled: self.enabled,
            method: self.method,
            backup_codes: clone_texts(&self.backup_codes),
        }
    }
}

impl Default for MfaSettings {
    fn default() -> (r: Self)
        ensures
            !r.enabled,
            r.method == MfaMethod::Totp,
            r.backup_codes@ == Seq::<String>::empty(),
    {
        MfaSettings { enabled: false, method: MfaMethod::Totp, backup_codes: Vec::new() }
    }
}

/// API key for service authentication, held as a hash.
#[derive(Debug)]
pub struct ApiKey {
    pub key_hash: String,
    pub name: String,
    pub permissions: Vec<String>,
    pub expires_at: Option<Timestamp>,
    pub created_at: Timestamp,
    pub last_used: Option<Timestamp>,
}

impl Clone for ApiKey {
    fn clone(&self) -> (r: Self)
        ensures
            r.key_hash == self.key_hash,
            r.name == self.name,
            r.permissions@ == self.permissions@,
            r.expires_at == self.expires_at,
            r.created_at == self.created_at,
            r.last_used == self.last_used,
    {
        ApiKey {
            key_hash: self.key_hash.clone(),
            name: self.name.clone(),
            permissions: clone_texts(&self.permissions),
            expires_at: self.expires_at,
            created_at: self.created_at,
            last_used: self.last_used,
        }
    }
}

/// What a component holds: a text, a number or a flag.
#[derive(Debug, PartialEq, Eq)]
pub enum ComponentValue {
    Text(String),
    Number(i64),
    Flag(bool),
}

impl Clone for ComponentValue {
    fn clone(&self) -> (r: Self)
        ensures
            r == *self,
    {
        match self {
            ComponentValue::Text(text) => ComponentValue::Text(text.clone()),
            ComponentValue::Number(number) => ComponentValue::Number(*number),
            ComponentValue::Flag(flag) => ComponentValue::Flag(*flag),
        }
    }
}

/// A component attached to an aggregate: a value under a name, by which an
/// aggregate carries what its own fields do not provide for.
#[derive(Debug, PartialEq, Eq)]
pub struct Component {
    pub name: String,
    pub value: ComponentValue,
}

impl Clone for Component {
    fn clone(&self) -> (r: Self)
        ensures
            r == *self,
    {
        Component { name: self.name.clone(), value: self.value.clone() }
    }
}

/// A copy of each component, in the same order.
pub fn clone_components(components: &Vec<Component>) -> (r: Vec<Component>)
    ensures
        r@ == components@,
{
    let mut out: Vec<Component> = Vec::new();
    let mut i: usize = 0;
    while i < components.len()
        invariant
            i <= components@.len(),
            out@ == components@.subrange(0, i as int),
        decreases components@.len() - i,
    {
        out.push(components[i].clone());
        i += 1;
    }
    assert(components@.subrange(0, components@.len() as int) == components@);
    out
}

} // verus!
