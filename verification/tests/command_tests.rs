//! Command tests for the identity domain.
//!
//! User Story I2: Authentication Flow
//! As a registered person, I want to authenticate my identity
//! So that I can access my authorized resources and capabilities

use cim_domain_identity::domain::{Address, Email, MfaMethod, PhoneNumber};
use cim_domain_identity::{
    OrganizationCommand, OrganizationId, OrganizationType, PersonCommand, PersonId, Timestamp,
};

/// Test for User Story I2: Authentication Commands
#[test]
fn test_authentication_command_structure() {
    // Given: Authentication command data
    let username = "testuser".to_string();
    let password_hash = "hashed_password_123".to_string();

    // When: Creating authentication command
    let command = PersonCommand::Authenticate {
        username: username.clone(),
        password_hash: password_hash.clone(),
    };

    // Then: Command contains authentication data
    match command {
        PersonCommand::Authenticate { username: u, password_hash: p } => {
            assert_eq!(u, username);
            assert_eq!(p, password_hash);
        }
        _ => panic!("Expected Authenticate command"),
    }
}

/// Test for User Story I3: Profile Update Commands
#[test]
fn test_profile_update_commands() {
    // Test email change command
    let new_email = Email::new("newemail@example.com".to_string()).unwrap();
    let email_cmd = PersonCommand::ChangeEmail { new_email: new_email.clone() };

    match email_cmd {
        PersonCommand::ChangeEmail { new_email: email } => {
            assert_eq!(email.as_str(), "newemail@example.com");
        }
        _ => panic!("Expected ChangeEmail command"),
    }

    // Test phone change command
    let new_phone =
        PhoneNumber { country_code: "+44".to_string(), number: "7700900123".to_string() };
    let phone_cmd = PersonCommand::ChangePhone { phone_number: new_phone.clone() };

    match phone_cmd {
        PersonCommand::ChangePhone { phone_number } => {
            assert_eq!(phone_number.country_code, "+44");
            assert_eq!(phone_number.number, "7700900123");
        }
        _ => panic!("Expected ChangePhone command"),
    }

    // Test address change command
    let new_address = Address {
        street: "123 Main St".to_string(),
        city: "London".to_string(),
        state: "England".to_string(),
        postal_code: "SW1A 1AA".to_string(),
        country: "UK".to_string(),
    };
    let address_cmd = PersonCommand::ChangeAddress { address: new_address.clone() };

    match address_cmd {
        PersonCommand::ChangeAddress { address } => {
            assert_eq!(address.city, "London");
        }
        _ => panic!("Expected ChangeAddress command"),
    }
}

/// Test for User Story I4: MFA Commands
#[test]
fn test_mfa_enablement_commands() {
    // Given: MFA configuration
    let method = MfaMethod::Totp;
    let backup_codes = vec!["12345".to_string(), "67890".to_string(), "11111".to_string()];

    // When: Creating MFA enablement command
    let command = PersonCommand::EnableMfa { method, backup_codes: backup_codes.clone() };

    // Then: Command contains MFA configuration
    match command {
        PersonCommand::EnableMfa { method: m, backup_codes: codes } => {
            assert_eq!(m, MfaMethod::Totp);
            assert_eq!(codes.len(), 3);
            assert_eq!(codes[0], "12345");
        }
        _ => panic!("Expected EnableMfa command"),
    }
}

/// Test for User Story I5: Session Management Commands
#[test]
fn test_session_management_commands() {
    // Given: Session management data
    let timestamp = Timestamp::from_millis(chrono::Utc::now().timestamp_millis());

    // When: Creating record login command
    let command = PersonCommand::RecordLogin { timestamp };

    // Then: Command contains timestamp
    match command {
        PersonCommand::RecordLogin { timestamp: ts } => {
            assert_eq!(ts, timestamp);
        }
        _ => panic!("Expected RecordLogin command"),
    }

    // Test account locking
    let lock_until = Timestamp::from_millis(
        (chrono::Utc::now() + chrono::Duration::hours(1)).timestamp_millis(),
    );
    let lock_command = PersonCommand::LockAccount { until: lock_until };

    match lock_command {
        PersonCommand::LockAccount { until } => {
            assert!(until > Timestamp::now());
        }
        _ => panic!("Expected LockAccount command"),
    }
}

/// Test for clearing optional fields
#[test]
fn test_clear_optional_fields_commands() {
    // Test clearing phone - using empty strings
    let clear_phone_cmd = PersonCommand::ChangePhone {
        phone_number: PhoneNumber { country_code: "".to_string(), number: "".to_string() },
    };
    match clear_phone_cmd {
        PersonCommand::ChangePhone { phone_number } => {
            assert_eq!(phone_number.country_code, "");
            assert_eq!(phone_number.number, "");
        }
        _ => panic!("Expected ChangePhone command"),
    }
}

/// Test for Organization member management commands
#[test]
fn test_member_management_commands() {
    // Test add member command
    let person_id = PersonId::new();
    let add_cmd = OrganizationCommand::AddMember { person_id };

    match add_cmd {
        OrganizationCommand::AddMember { person_id: id } => {
            assert_eq!(id, person_id);
        }
        _ => panic!("Expected AddMember command"),
    }

    // Test remove member command
    let remove_cmd = OrganizationCommand::RemoveMember { person_id };

    match remove_cmd {
        OrganizationCommand::RemoveMember { person_id: id } => {
            assert_eq!(id, person_id);
        }
        _ => panic!("Expected RemoveMember command"),
    }
}

/// Test for Organization creation command
#[test]
fn test_organization_creation_command() {
    // Given: Organization data
    let name = "Tech Corp".to_string();
    let org_type = OrganizationType::Company;

    // When: Creating organization command
    let command = OrganizationCommand::CreateOrganization { name: name.clone(), org_type };

    // Then: Command contains organization data
    match command {
        OrganizationCommand::CreateOrganization { name: n, org_type: t } => {
            assert_eq!(n, name);
            assert_eq!(t, OrganizationType::Company);
        }
        _ => panic!("Expected CreateOrganization command"),
    }
}

/// Test for Organization hierarchy commands
#[test]
fn test_organization_hierarchy_commands() {
    // Given: Parent and child organization IDs
    let parent_id = OrganizationId::new();
    let child_id = OrganizationId::new();

    // When: Creating set parent command
    let command = OrganizationCommand::SetParent { parent_id: Some(parent_id) };

    // Then: Command contains parent ID
    match command {
        OrganizationCommand::SetParent { parent_id: pid } => {
            assert_eq!(pid, Some(parent_id));
        }
        _ => panic!("Expected SetParent command"),
    }

    // Test add child organization
    let add_child_cmd = OrganizationCommand::AddChild { child_id };

    match add_child_cmd {
        OrganizationCommand::AddChild { child_id: cid } => {
            assert_eq!(cid, child_id);
        }
        _ => panic!("Expected AddChild command"),
    }
}

/// Test for command validation patterns
#[test]
fn test_email_validation_in_commands() {
    // Test valid email formats
    let valid_emails = vec![
        "user@example.com",
        "user.name@example.com",
        "user+tag@example.co.uk",
        "user123@subdomain.example.com",
    ];

    for email_str in valid_emails {
        let email = Email::new(email_str.to_string());
        assert!(email.is_ok(), "Email {} should be valid", email_str);
    }

    // Test invalid email formats based on actual validation logic
    // The validation only checks: contains '@', contains '.', and length >= 5
    let invalid_emails = vec![
        "user",  // No @ symbol
        "user@", // No . symbol
        "a@b",   // Too short (< 5 chars)
        "@.",    // Too short
        "test",  // No @ symbol
    ];

    for email_str in invalid_emails {
        let email = Email::new(email_str.to_string());
        assert!(email.is_err(), "Email {} should be invalid", email_str);
    }
}

/// Test for phone number structure in commands
#[test]
fn test_phone_structure_in_commands() {
    // Test phone number structure
    let phone = PhoneNumber { country_code: "+1".to_string(), number: "555-1234".to_string() };

    assert_eq!(phone.country_code, "+1");
    assert_eq!(phone.number, "555-1234");

    // Test phone in command
    let command = PersonCommand::ChangePhone { phone_number: phone.clone() };

    match command {
        PersonCommand::ChangePhone { phone_number: p } => {
            assert_eq!(p.country_code, phone.country_code);
            assert_eq!(p.number, phone.number);
        }
        _ => panic!("Expected ChangePhone command"),
    }
}
