//! Person and organization aggregates and the value objects they share.

pub mod organization;
pub mod person;
pub mod value_objects;

pub use organization::{
    Organization, OrganizationCommand, OrganizationEvent, OrganizationId, OrganizationType,
};
pub use person::{Person, PersonCommand, PersonEvent, PersonId};
pub use value_objects::{
    Address, ApiKey, AuthMethod, AuthStatus, Component, ComponentValue, Credentials, Email, MfaMethod, MfaSettings, Name,
    PhoneNumber, TrustLevel,
};
