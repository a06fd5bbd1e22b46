//! The person aggregate: its commands, its events and its state.

use crate::domain::organization::OrganizationId;
use crate::domain::value_objects::{
    clone_components, Address, AuthMethod, AuthStatus, Component, Credentials, Email, MfaMethod, MfaSettings, Name, PhoneNumber,
    TrustLevel,
};
use crate::error::IdentityResult;
use crate::ids::random_id_bits;
use crate::time::Timestamp;
use vstd::prelude::*;

verus! {

/// Person identifier.
#[derive(Debug, Clone, Copy, PartialEq, Eq, Hash, Structural)]
pub struct PersonId(pub u128);

/// Marker type for person entities.
#[derive(Debug, Clone, Copy, PartialEq, Eq, Hash, Structural)]
pub struct PersonMarker;

impl PersonId {
    /// A fresh random identifier.
    pub fn new() -> Self {
        PersonId(random_id_bits())
    }

    pub fn from_u128(value: u128) -> (r: Self)
        ensures
            r == PersonId(value),
    {
        PersonId(value)
    }

    pub fn as_u128(&self) -> (r: u128)
        ensures
            r == self.0,
    {
        self.0
    }
    /// The identifier of the entity that the person is, as a number.
    pub fn as_entity_id(&self) -> (r: u128)
        ensures
            r == self.0,
    {
        self.0
    }
}

/// Commands that can be sent to a person aggregate.
#[derive(Debug)]
pub enum PersonCommand {
    /// Register a new person
    RegisterPerson { name: Name, email: Email },
    /// Change person's email address
    ChangeEmail { new_email: Email },
    /// Change person's phone number
    ChangePhone { phone_number: PhoneNumber },
    /// Change person's address
    ChangeAddress { address: Address },
    /// Change person's trust level
    ChangeTrustLevel { trust_level: TrustLevel },
    /// Join an organization
    JoinOrganization { organization_id: OrganizationId },
    /// Leave an organization
    LeaveOrganization { organization_id: OrganizationId },
    /// Set authentication credentials
    SetCredentials { credentials: Credentials },
    /// Authenticate the person
    Authenticate { username: String, password_hash: String },
    /// Record failed authentication attempt
    RecordFailedAuth { username: String },
    /// Lock account after too many failed attempts
    LockAccount { until: Timestamp },
    /// Unlock account
    UnlockAccount,
    /// Enable MFA
    EnableMfa { method: MfaMethod, backup_codes: Vec<String> },
    /// Disable MFA
    DisableMfa,
    /// Record login event
    RecordLogin { timestamp: Timestamp },
}

/// Events that can be emitted by a person aggregate.
#[derive(Debug)]
#[allow(inconsistent_fields)]
pub enum PersonEvent {
    /// Person was registered
    PersonRegistered { person_id: PersonId, name: Name, email: Email },
    /// Person's former email address was given up
    EmailRemoved { person_id: PersonId, old_email: Email },
    /// Person's email address was set
    EmailAdded { person_id: PersonId, new_email: Email },
    /// Person's former phone number was given up
    PhoneRemoved { person_id: PersonId, old_phone: PhoneNumber },
    /// Person's phone number was set
    PhoneAdded { person_id: PersonId, phone_number: PhoneNumber },
    /// Person's former address was given up
    AddressRemoved { person_id: PersonId, old_address: Address },
    /// Person's address was set
    AddressAdded { person_id: PersonId, address: Address },
    /// Person's trust level changed
    TrustLevelChanged { person_id: PersonId, old_level: TrustLevel, new_level: TrustLevel },
    /// Person joined an organization
    JoinedOrganization { person_id: PersonId, organization_id: OrganizationId },
    /// Person left an organization
    LeftOrganization { person_id: PersonId, organization_id: OrganizationId },
    /// Credentials were set
    CredentialsSet { person_id: PersonId, username: String },
    /// Authentication succeeded
    AuthenticationSucceeded { person_id: PersonId, method: AuthMethod, timestamp: Timestamp },
    /// Authentication failed
    AuthenticationFailed {
        person_id: PersonId,
        username: String,
        timestamp: Timestamp,
        failed_attempts: u32,
    },
    /// Account was locked
    AccountLocked { person_id: PersonId, locked_until: Timestamp, reason: String },
    /// Account was unlocked
    AccountUnlocked { person_id: PersonId, timestamp: Timestamp },
    /// MFA was enabled
    MfaEnabled { person_id: PersonId, method: MfaMethod, timestamp: Timestamp },
    /// MFA was disabled
    MfaDisabled { person_id: PersonId, timestamp: Timestamp },
}

/// Person aggregate representing a human actor in the system.
#[derive(Debug)]
pub struct Person {
    pub id: PersonId,
    pub version: u64,
    pub name: Name,
    pub email: Email,
    pub phone: Option<PhoneNumber>,
    pub address: Option<Address>,
    pub trust_level: TrustLevel,
    pub organization_ids: Vec<OrganizationId>,
    pub credentials: Option<Credentials>,
    pub auth_status: AuthStatus,
    pub mfa_settings: MfaSettings,
    pub components: Vec<Component>,
}

/// What a person aggregate holds.
pub struct PersonState {
    pub id: PersonId,
    pub version: u64,
    pub name: Name,
    pub email: Email,
    pub phone: Option<PhoneNumber>,
    pub address: Option<Address>,
    pub trust_level: TrustLevel,
    pub organization_ids: Seq<OrganizationId>,
    pub credentials: Option<Credentials>,
    pub auth_status: AuthStatus,
    pub mfa_enabled: bool,
    pub mfa_method: MfaMethod,
    pub backup_codes: Seq<String>,
    pub components: Seq<Component>,
}

impl View for Person {
    type V = PersonState;

    open spec fn view(&self) -> PersonState {
        PersonState {
            id: self.id,
            version: self.version,
            name: self.name,
            email: self.email,
            phone: self.phone,
            address: self.address,
            trust_level: self.trust_level,
            organization_ids: self.organization_ids@,
            credentials: self.credentials,
            auth_status: self.auth_status,
            mfa_enabled: self.mfa_settings.enabled,
            mfa_method: self.mfa_settings.method,
            backup_codes: self.mfa_settings.backup_codes@,
            components: self.components@,
        }
    }
}

/// The organizations among the first `n` other than the given one, in their
/// order.
pub open spec fn organizations_without(ids: Seq<OrganizationId>, id: OrganizationId, n: int) -> Seq<
    OrganizationId,
>
    decreases n,
{
    if n <= 0 {
        Seq::empty()
    } else if ids[n - 1] == id {
        organizations_without(ids, id, n - 1)
    } else {
        organizations_without(ids, id, n - 1).push(ids[n - 1])
    }
}

/// A counter after one more count; it stays at the largest number once it
/// has reached it.
pub open spec fn one_more(count: u32) -> u32 {
    if count < u32::MAX {
        (count + 1) as u32
    } else {
        count
    }
}

/// A version after one more change; it stays at the largest number once it
/// has reached it.
pub open spec fn next_version(version: u64) -> u64 {
    if version < u64::MAX {
        (version + 1) as u64
    } else {
        version
    }
}

/// The login that a command asks for is the one that the credentials allow.
pub open spec fn login_accepted(state: PersonState, username: String, password_hash: String) -> bool {
    state.credentials matches Some(credentials) && credentials.matches_login(
        username@,
        password_hash@,
    )
}

/// The state of a person after a command that is handled at `now`.
pub open spec fn person_after(state: PersonState, command: PersonCommand, now: Timestamp) -> PersonState {
    match command {
        PersonCommand::RegisterPerson { .. } => state,
        PersonCommand::ChangeEmail { new_email } => PersonState { email: new_email, ..state },
        PersonCommand::ChangePhone { phone_number } => PersonState {
            phone: Some(phone_number),
            ..state
        },
        PersonCommand::ChangeAddress { address } => PersonState { address: Some(address), ..state },
        PersonCommand::ChangeTrustLevel { trust_level } => PersonState { trust_level, ..state },
        PersonCommand::JoinOrganization { organization_id } => if state.organization_ids.contains(
            organization_id,
        ) {
            state
        } else {
            PersonState { organization_ids: state.organization_ids.push(organization_id), ..state }
        },
        PersonCommand::LeaveOrganization { organization_id } => PersonState {
            organization_ids: organizations_without(
                state.organization_ids,
                organization_id,
                state.organization_ids.len() as int,
            ),
            ..state
        },
        PersonCommand::SetCredentials { credentials } => PersonState {
            credentials: Some(credentials),
            ..state
        },
        PersonCommand::Authenticate { username, password_hash } => if state.credentials is None {
            state
        } else if login_accepted(state, username, password_hash) {
            PersonState {
                auth_status: AuthStatus {
                    is_authenticated: true,
                    method: Some(AuthMethod::Password),
                    last_login: Some(now),
                    failed_attempts: 0,
                    ..state.auth_status
                },
                ..state
            }
        } else {
            PersonState {
                auth_status: AuthStatus {
                    failed_attempts: one_more(state.auth_status.failed_attempts),
                    ..state.auth_status
                },
                ..state
            }
        },
        PersonCommand::RecordFailedAuth { .. } => PersonState {
            auth_status: AuthStatus {
                failed_attempts: one_more(state.auth_status.failed_attempts),
                ..state.auth_status
            },
            ..state
        },
        PersonCommand::LockAccount { until } => PersonState {
            auth_status: AuthStatus {
                locked_until: Some(until),
                is_authenticated: false,
                ..state.auth_status
            },
            ..state
        },
        PersonCommand::UnlockAccount => PersonState {
            auth_status: AuthStatus { locked_until: None, failed_attempts: 0, ..state.auth_status },
            ..state
        },
        PersonCommand::EnableMfa { method, backup_codes } => PersonState {
            mfa_enabled: true,
            mfa_method: method,
            backup_codes: backup_codes@,
            ..state
        },
        PersonCommand::DisableMfa => PersonState {
            mfa_enabled: false,
            backup_codes: Seq::empty(),
            ..state
        },
        PersonCommand::RecordLogin { timestamp } => PersonState {
            auth_status: AuthStatus { last_login: Some(timestamp), ..state.auth_status },
            ..state
        },
    }
}

/// The events that a person gives for a command that is handled at `now`.
/// A change of email gives up the old address and sets the new one; a change
/// of phone or address does the same where there was one before. Joining an
/// organization twice, leaving one that the person is not in, logging in
/// without credentials and recording a login give no event.
pub open spec fn person_emits(
    state: PersonState,
    command: PersonCommand,
    now: Timestamp,
    events: Seq<PersonEvent>,
) -> bool {
    let person_id = state.id;
    match command {
        PersonCommand::RegisterPerson { name, email } => events == seq![
            PersonEvent::PersonRegistered { person_id, name, email },
        ],
        PersonCommand::ChangeEmail { new_email } => events == seq![
            PersonEvent::EmailRemoved { person_id, old_email: state.email },
            PersonEvent::EmailAdded { person_id, new_email },
        ],
        PersonCommand::ChangePhone { phone_number } => match state.phone {
            Some(old_phone) => events == seq![
                PersonEvent::PhoneRemoved { person_id, old_phone },
                PersonEvent::PhoneAdded { person_id, phone_number },
            ],
            None => events == seq![PersonEvent::PhoneAdded { person_id, phone_number }],
        },
        PersonCommand::ChangeAddress { address } => match state.address {
            Some(old_address) => events == seq![
                PersonEvent::AddressRemoved { person_id, old_address },
                PersonEvent::AddressAdded { person_id, address },
            ],
            None => events == seq![PersonEvent::AddressAdded { person_id, address }],
        },
        PersonCommand::ChangeTrustLevel { trust_level } => events == seq![
            PersonEvent::TrustLevelChanged {
                person_id,
                old_level: state.trust_level,
                new_level: trust_level,
            },
        ],
        PersonCommand::JoinOrganization { organization_id } => if state.organization_ids.contains(
            organization_id,
        ) {
            events.len() == 0
        } else {
            events == seq![PersonEvent::JoinedOrganization { person_id, organization_id }]
        },
        PersonCommand::LeaveOrganization { organization_id } => if state.organization_ids.contains(
            organization_id,
        ) {
            events == seq![PersonEvent::LeftOrganization { person_id, organization_id }]
        } else {
            events.len() == 0
        },
        PersonCommand::SetCredentials { credentials } => events == seq![
            PersonEvent::CredentialsSet { person_id, username: credentials.username },
        ],
        PersonCommand::Authenticate { username, password_hash } => if state.credentials is None {
            events.len() == 0
        } else if login_accepted(state, username, password_hash) {
            events == seq![
                PersonEvent::AuthenticationSucceeded {
                    person_id,
                    method: AuthMethod::Password,
                    timestamp: now,
                },
            ]
        } else {
            events == seq![
                PersonEvent::AuthenticationFailed {
                    person_id,
                    username,
                    timestamp: now,
                    failed_attempts: one_more(state.auth_status.failed_attempts),
                },
            ]
        },
        PersonCommand::RecordFailedAuth { username } => events == seq![
            PersonEvent::AuthenticationFailed {
                person_id,
                username,
                timestamp: now,
                failed_attempts: one_more(state.auth_status.failed_attempts),
            },
        ],
        PersonCommand::LockAccount { until } => {
            &&& events.len() == 1
            &&& events[0] matches PersonEvent::AccountLocked { person_id: locked, locked_until, reason }
            &&& locked == person_id
            &&& locked_until == until
            &&& reason@ == "Too many failed authentication attempts"@
        },
        PersonCommand::UnlockAccount => events == seq![
            PersonEvent::AccountUnlocked { person_id, timestamp: now },
        ],
        PersonCommand::EnableMfa { method, .. } => events == seq![
            PersonEvent::MfaEnabled { person_id, method, timestamp: now },
        ],
        PersonCommand::DisableMfa => events == seq![
            PersonEvent::MfaDisabled { person_id, timestamp: now },
        ],
        PersonCommand::RecordLogin { .. } => events.len() == 0,
    }
}

/// The state of a person after an event was applied. Every event makes a new
/// version; what else it changes is what the event tells.
pub open spec fn person_applied(state: PersonState, event: PersonEvent) -> PersonState {
    let state = PersonState { version: next_version(state.version), ..state };
    match event {
        PersonEvent::EmailAdded { new_email, .. } => PersonState { email: new_email, ..state },
        PersonEvent::PhoneRemoved { .. } => PersonState { phone: None, ..state },
        PersonEvent::PhoneAdded { phone_number, .. } => PersonState {
            phone: Some(phone_number),
            ..state
        },
        PersonEvent::AddressRemoved { .. } => PersonState { address: None, ..state },
        PersonEvent::AddressAdded { address, .. } => PersonState { address: Some(address), ..state },
        PersonEvent::TrustLevelChanged { new_level, .. } => PersonState {
            trust_level: new_level,
            ..state
        },
        PersonEvent::JoinedOrganization { organization_id, .. } => if state.organization_ids.contains(
            organization_id,
        ) {
            state
        } else {
            PersonState { organization_ids: state.organization_ids.push(organization_id), ..state }
        },
        PersonEvent::LeftOrganization { organization_id, .. } => PersonState {
            organization_ids: organizations_without(
                state.organization_ids,
                organization_id,
                state.organization_ids.len() as int,
            ),
            ..state
        },
        PersonEvent::AuthenticationSucceeded { method, timestamp, .. } => PersonState {
            auth_status: AuthStatus {
                is_authenticated: true,
                method: Some(method),
                last_login: Some(timestamp),
                failed_attempts: 0,
                ..state.auth_status
            },
            ..state
        },
        PersonEvent::AuthenticationFailed { failed_attempts, .. } => PersonState {
            auth_status: AuthStatus { failed_attempts, ..state.auth_status },
            ..state
        },
        PersonEvent::AccountLocked { locked_until, .. } => PersonState {
            auth_status: AuthStatus {
                locked_until: Some(locked_until),
                is_authenticated: false,
                ..state.auth_status
            },
            ..state
        },
        PersonEvent::AccountUnlocked { .. } => PersonState {
            auth_status: AuthStatus { locked_until: None, failed_attempts: 0, ..state.auth_status },
            ..state
        },
        PersonEvent::MfaEnabled { method, .. } => PersonState {
            mfa_enabled: true,
            mfa_method: method,
            ..state
        },
        PersonEvent::MfaDisabled { .. } => PersonState {
            mfa_enabled: false,
            backup_codes: Seq::empty(),
            ..state
        },
        _ => state,
    }
}

/// Whether the list holds the organization.
pub fn holds_organization(ids: &Vec<OrganizationId>, id: OrganizationId) -> (r: bool)
    ensures
        r == ids@.contains(id),
{
    let mut k: usize = 0;
    while k < ids.len()
        invariant
            k <= ids@.len(),
            forall|j: int| 0 <= j < k ==> ids@[j] != id,
        decreases ids@.len() - k,
    {
        if ids[k] == id {
            return true;
        }
        k += 1;
    }
    false
}

fn drop_organization(ids: &mut Vec<OrganizationId>, id: OrganizationId)
    ensures
        final(ids)@ == organizations_without(old(ids)@, id, old(ids)@.len() as int),
{
    let mut kept: Vec<OrganizationId> = Vec::new();
    let mut k: usize = 0;
    while k < ids.len()
        invariant
            k <= ids@.len(),
            ids@ == old(ids)@,
            kept@ == organizations_without(ids@, id, k as int),
        decreases ids@.len() - k,
    {
        if ids[k] != id {
            kept.push(ids[k]);
        }
        k += 1;
    }
    *ids = kept;
}

fn one(event: PersonEvent) -> (r: Vec<PersonEvent>)
    ensures
        r@ == seq![event],
{
    let mut events: Vec<PersonEvent> = Vec::new();
    events.push(event);
    assert(events@ =~= seq![event]);
    events
}

fn two(first: PersonEvent, second: PersonEvent) -> (r: Vec<PersonEvent>)
    ensures
        r@ == seq![first, second],
{
    let mut events: Vec<PersonEvent> = Vec::new();
    events.push(first);
    events.push(second);
    assert(events@ =~= seq![first, second]);
    events
}

fn count_up(count: u32) -> (r: u32)
    ensures
        r == one_more(count),
{
    if count < u32::MAX {
        count + 1
    } else {
        count
    }
}

impl Person {
    /// Create a new person under the given identifier: in the first version,
    /// unverified, without phone, address, organizations or credentials.
    pub fn with_id(id: PersonId, name: Name, email: Email) -> (r: Self)
        ensures
            r@ == (PersonState {
                id,
                version: 0,
                name,
                email,
                phone: None,
                address: None,
                trust_level: TrustLevel::Unverified,
                organization_ids: Seq::empty(),
                credentials: None,
                auth_status: AuthStatus::initial(),
                mfa_enabled: false,
                mfa_method: MfaMethod::Totp,
                backup_codes: Seq::empty(),
                components: Seq::empty(),
            }),
    {
        Person {
            id,
            version: 0,
            name,
            email,
            phone: None,
            address: None,
            trust_level: TrustLevel::default(),
            organization_ids: Vec::new(),
            credentials: None,
            auth_status: AuthStatus::default(),
            mfa_settings: MfaSettings::default(),
            components: Vec::new(),
        }
    }

    /// Create a new person under a fresh identifier.
    pub fn new(name: Name, email: Email) -> (r: Self)
        ensures
            exists|id: PersonId|
                r@ == (PersonState {
                    id,
                    version: 0,
                    name,
                    email,
                    phone: None,
                    address: None,
                    trust_level: TrustLevel::Unverified,
                    organization_ids: Seq::empty(),
                    credentials: None,
                    auth_status: AuthStatus::initial(),
                    mfa_enabled: false,
                    mfa_method: MfaMethod::Totp,
                    backup_codes: Seq::empty(),
                    components: Seq::empty(),
                }),
    {
        let id = PersonId::new();
        Self::with_id(id, name, email)
    }

    /// The identifier of the person.
    pub fn id(&self) -> (r: PersonId)
        ensures
            r == self@.id,
    {
        self.id
    }

    /// The version of the aggregate: the number of events applied to it.
    pub fn version(&self) -> (r: u64)
        ensures
            r == self@.version,
    {
        self.version
    }

    /// Counts one more version.
    pub fn increment_version(&mut self)
        ensures
            final(self)@ == (PersonState { version: next_version(old(self)@.version), ..old(self)@ }),
    {
        if self.version < u64::MAX {
            self.version = self.version + 1;
        }
    }

    /// Add a component.
    pub fn add_component(&mut self, component: Component)
        ensures
            final(self)@ == (PersonState {
                components: old(self)@.components.push(component),
                ..old(self)@
            }),
    {
        self.components.push(component);
    }

    /// Get components, in the order in which they were added.
    pub fn components(&self) -> (r: &Vec<Component>)
        ensures
            r@ == self@.components,
    {
        &self.components
    }

    /// Handle a command at the given time. Every command is accepted.
    pub fn handle_command_at(&mut self, command: PersonCommand, now: Timestamp) -> (r: IdentityResult<
        Vec<PersonEvent>,
    >)
        ensures
            r matches Ok(events) && person_emits(old(self)@, command, now, events@),
            final(self)@ == person_after(old(self)@, command, now),
    {
        let person_id = self.id;
        match command {
            PersonCommand::RegisterPerson { name, email } => Ok(
                one(PersonEvent::PersonRegistered { person_id, name, email }),
            ),
            PersonCommand::ChangeEmail { new_email } => {
                let old_email = self.email.clone();
                self.email = new_email.clone();
                Ok(
                    two(
                        PersonEvent::EmailRemoved { person_id, old_email },
                        PersonEvent::EmailAdded { person_id, new_email },
                    ),
                )
            },
            PersonCommand::ChangePhone { phone_number } => {
                let events = match &self.phone {
                    Some(old_phone) => two(
                        PersonEvent::PhoneRemoved { person_id, old_phone: old_phone.clone() },
                        PersonEvent::PhoneAdded { person_id, phone_number: phone_number.clone() },
                    ),
                    None => one(
                        PersonEvent::PhoneAdded { person_id, phone_number: phone_number.clone() },
                    ),
                };
                self.phone = Some(phone_number);
                Ok(events)
            },
            PersonCommand::ChangeAddress { address } => {
                let events = match &self.address {
                    Some(old_address) => two(
                        PersonEvent::AddressRemoved { person_id, old_address: old_address.clone() },
                        PersonEvent::AddressAdded { person_id, address: address.clone() },
                    ),
                    None => one(PersonEvent::AddressAdded { person_id, address: address.clone() }),
                };
                self.address = Some(address);
                Ok(events)
            },
            PersonCommand::ChangeTrustLevel { trust_level } => {
                let old_level = self.trust_level;
                self.trust_level = trust_level;
                Ok(
                    one(
                        PersonEvent::TrustLevelChanged {
                            person_id,
                            old_level,
                            new_level: trust_level,
                        },
                    ),
                )
            },
            PersonCommand::JoinOrganization { organization_id } => {
                if holds_organization(&self.organization_ids, organization_id) {
                    Ok(Vec::new())
                } else {
                    self.organization_ids.push(organization_id);
                    Ok(one(PersonEvent::JoinedOrganization { person_id, organization_id }))
                }
            },
            PersonCommand::LeaveOrganization { organization_id } => {
                let member = holds_organization(&self.organization_ids, organization_id);
                drop_organization(&mut self.organization_ids, organization_id);
                if member {
                    Ok(one(PersonEvent::LeftOrganization { person_id, organization_id }))
                } else {
                    Ok(Vec::new())
                }
            },
            PersonCommand::SetCredentials { credentials } => {
                let username = credentials.username.clone();
                self.credentials = Some(credentials);
                Ok(one(PersonEvent::CredentialsSet { person_id, username }))
            },
            PersonCommand::Authenticate { username, password_hash } => {
                let accepted = match &self.credentials {
                    Some(credentials) => Some(
                        credentials.is_login(username.as_str(), password_hash.as_str()),
                    ),
                    None => None,
                };
                match accepted {
                    Some(true) => {
                        self.auth_status.is_authenticated = true;
                        self.auth_status.method = Some(AuthMethod::Password);
                        self.auth_status.last_login = Some(now);
                        self.auth_status.failed_attempts = 0;
                        Ok(
                            one(
                                PersonEvent::AuthenticationSucceeded {
                                    person_id,
                                    method: AuthMethod::Password,
                                    timestamp: now,
                                },
                            ),
                        )
                    },
                    Some(false) => {
                        self.auth_status.failed_attempts = count_up(
                            self.auth_status.failed_attempts,
                        );
                        Ok(
                            one(
                                PersonEvent::AuthenticationFailed {
                                    person_id,
                                    username,
                                    timestamp: now,
                                    failed_attempts: self.auth_status.failed_attempts,
                                },
                            ),
                        )
                    },
                    None => Ok(Vec::new()),
                }
            },
            PersonCommand::RecordFailedAuth { username } => {
                self.auth_status.failed_attempts = count_up(self.auth_status.failed_attempts);
                Ok(
                    one(
                        PersonEvent::AuthenticationFailed {
                            person_id,
                            username,
                            timestamp: now,
                            failed_attempts: self.auth_status.failed_attempts,
                        },
                    ),
                )
            },
            PersonCommand::LockAccount { until } => {
                self.auth_status.locked_until = Some(until);
                self.auth_status.is_authenticated = false;
                Ok(
                    one(
                        PersonEvent::AccountLocked {
                            person_id,
                            locked_until: until,
                            reason: "Too many failed authentication attempts".to_string(),
                        },
                    ),
                )
            },
            PersonCommand::UnlockAccount => {
                self.auth_status.locked_until = None;
                self.auth_status.failed_attempts = 0;
                Ok(one(PersonEvent::AccountUnlocked { person_id, timestamp: now }))
            },
            PersonCommand::EnableMfa { method, backup_codes } => {
                self.mfa_settings.enabled = true;
                self.mfa_settings.method = method;
                self.mfa_settings.backup_codes = backup_codes;
                Ok(one(PersonEvent::MfaEnabled { person_id, method, timestamp: now }))
            },
            PersonCommand::DisableMfa => {
                self.mfa_settings.enabled = false;
                self.mfa_settings.backup_codes = Vec::new();
                Ok(one(PersonEvent::MfaDisabled { person_id, timestamp: now }))
            },
            PersonCommand::RecordLogin { timestamp } => {
                self.auth_status.last_login = Some(timestamp);
                Ok(Vec::new())
            },
        }
    }

    /// Handle a command, now.
    pub fn handle_command(&mut self, command: PersonCommand) -> (r: IdentityResult<Vec<PersonEvent>>)
        ensures
            exists|now: Timestamp|
                {
                    &&& r matches Ok(events) && person_emits(old(self)@, command, now, events@)
                    &&& final(self)@ == #[trigger] person_after(old(self)@, command, now)
                },
    {
        let now = Timestamp::now();
        self.handle_command_at(command, now)
    }

    /// Apply an event to update the state.
    pub fn apply_event(&mut self, event: &PersonEvent)
        ensures
            final(self)@ == person_applied(old(self)@, *event),
    {
        self.increment_version();
        match event {
            PersonEvent::EmailAdded { new_email, .. } => {
                self.email = new_email.clone();
            },
            PersonEvent::PhoneRemoved { .. } => {
                self.phone = None;
            },
            PersonEvent::PhoneAdded { phone_number, .. } => {
                self.phone = Some(phone_number.clone());
            },
            PersonEvent::AddressRemoved { .. } => {
                self.address = None;
            },
            PersonEvent::AddressAdded { address, .. } => {
                self.address = Some(address.clone());
            },
            PersonEvent::TrustLevelChanged { new_level, .. } => {
                self.trust_level = *new_level;
            },
            PersonEvent::JoinedOrganization { organization_id, .. } => {
                if !holds_organization(&self.organization_ids, *organization_id) {
                    self.organization_ids.push(*organization_id);
                }
            },
            PersonEvent::LeftOrganization { organization_id, .. } => {
                drop_organization(&mut self.organization_ids, *organization_id);
            },
            PersonEvent::AuthenticationSucceeded { method, timestamp, .. } => {
                self.auth_status.is_authenticated = true;
                self.auth_status.method = Some(*method);
                self.auth_status.last_login = Some(*timestamp);
                self.auth_status.failed_attempts = 0;
            },
            PersonEvent::AuthenticationFailed { failed_attempts, .. } => {
                self.auth_status.failed_attempts = *failed_attempts;
            },
            PersonEvent::AccountLocked { locked_until, .. } => {
                self.auth_status.locked_until = Some(*locked_until);
                self.auth_status.is_authenticated = false;
            },
            PersonEvent::AccountUnlocked { .. } => {
                self.auth_status.locked_until = None;
                self.auth_status.failed_attempts = 0;
            },
            PersonEvent::MfaEnabled { method, .. } => {
                self.mfa_settings.enabled = true;
                self.mfa_settings.method = *method;
            },
            PersonEvent::MfaDisabled { .. } => {
                self.mfa_settings.enabled = false;
                self.mfa_settings.backup_codes = Vec::new();
            },
            _ => {},
        }
    }
}

impl Clone for Person {
    fn clone(&self) -> (r: Self)
        ensures
            r@ == self@,
    {
        let mut organization_ids: Vec<OrganizationId> = Vec::new();
        let mut k: usize = 0;
        while k < self.organization_ids.len()
            invariant
                k <= self.organization_ids@.len(),
                organization_ids@ == self.organization_ids@.subrange(0, k as int),
            decreases self.organization_ids@.len() - k,
        {
            organization_ids.push(self.organization_ids[k]);
            k += 1;
        }
        assert(self.organization_ids@.subrange(0, self.organization_ids@.len() as int)
            == self.organization_ids@);
        Person {
            id: self.id,
            version: self.version,
            name: self.name.clone(),
            email: self.email.clone(),
            phone: match &self.phone {
                Some(phone) => Some(phone.clone()),
                None => None,
            },
            address: match &self.address {
                Some(address) => Some(address.clone()),
                None => None,
            },
            trust_level: self.trust_level,
            organization_ids,
            credentials: match &self.credentials {
                Some(credentials) => Some(credentials.clone()),
                None => None,
            },
            auth_status: self.auth_status,
            mfa_settings: self.mfa_settings.clone(),
            components: clone_components(&self.components),
        }
    }
}

} // verus!
