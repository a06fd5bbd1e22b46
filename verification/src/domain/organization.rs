//! The organization aggregate: its commands, its events and its state.

use crate::domain::person::{next_version, PersonId};
use crate::domain::value_objects::{clone_components, ApiKey, Component};
use crate::error::IdentityResult;
use crate::ids::random_id_bits;
use crate::text::clone_optional_text;
use vstd::prelude::*;

verus! {

/// Organization identifier.
#[derive(Debug, Clone, Copy, PartialEq, Eq, Hash, Structural)]
pub struct OrganizationId(pub u128);

/// Marker type for organization entities.
#[derive(Debug, Clone, Copy, PartialEq, Eq, Hash, Structural)]
pub struct OrganizationMarker;

impl OrganizationId {
    /// A fresh random identifier.
    pub fn new() -> Self {
        OrganizationId(random_id_bits())
    }

    pub fn from_u128(value: u128) -> (r: Self)
        ensures
            r == OrganizationId(value),
    {
        OrganizationId(value)
    }

    pub fn as_u128(&self) -> (r: u128)
        ensures
            r == self.0,
    {
        self.0
    }
    /// The identifier of the entity that the organization is, as a number.
    pub fn as_entity_id(&self) -> (r: u128)
        ensures
            r == self.0,
    {
        self.0
    }
}

/// Organization type.
#[derive(Debug, Clone, Copy, PartialEq, Eq, Structural)]
pub enum OrganizationType {
    Company,
    NonProfit,
    Government,
    Educational,
    Other,
}

/// Commands that can be sent to an organization aggregate.
#[derive(Debug)]
pub enum OrganizationCommand {
    /// Create a new organization
    CreateOrganization { name: String, org_type: OrganizationType },
    /// Change organization name
    ChangeName { new_name: String },
    /// Change organization description
    ChangeDescription { description: String },
    /// Add a member to the organization
    AddMember { person_id: PersonId },
    /// Remove a member from the organization
    RemoveMember { person_id: PersonId },
    /// Promote a member to admin
    PromoteToAdmin { person_id: PersonId },
    /// Demote an admin to regular member
    DemoteFromAdmin { person_id: PersonId },
    /// Set parent organization
    SetParent { parent_id: Option<OrganizationId> },
    /// Add a child organization
    AddChild { child_id: OrganizationId },
    /// Remove a child organization
    RemoveChild { child_id: OrganizationId },
}

/// Events that can be emitted by an organization aggregate.
#[derive(Debug)]
pub enum OrganizationEvent {
    /// Organization was created
    OrganizationCreated { organization_id: OrganizationId, name: String, org_type: OrganizationType },
    /// Organization name was removed
    NameRemoved { organization_id: OrganizationId, old_name: String },
    /// Organization name was changed
    NameChanged { organization_id: OrganizationId, new_name: String },
    /// Organization description was removed
    DescriptionRemoved { organization_id: OrganizationId, old_description: Option<String> },
    /// Organization description was set
    DescriptionSet { organization_id: OrganizationId, description: String },
    /// Member was added to organization
    MemberAdded { organization_id: OrganizationId, person_id: PersonId },
    /// Member was removed from organization
    MemberRemoved { organization_id: OrganizationId, person_id: PersonId },
    /// Member was promoted to admin
    MemberPromotedToAdmin { organization_id: OrganizationId, person_id: PersonId },
    /// Admin was demoted to regular member
    AdminDemoted { organization_id: OrganizationId, person_id: PersonId },
    /// Parent organization changed
    ParentChanged {
        organization_id: OrganizationId,
        old_parent_id: Option<OrganizationId>,
        new_parent_id: Option<OrganizationId>,
    },
    /// Child organization added
    ChildAdded { organization_id: OrganizationId, child_id: OrganizationId },
    /// Child organization removed
    ChildRemoved { organization_id: OrganizationId, child_id: OrganizationId },
}

/// Organization aggregate root.
#[derive(Debug)]
pub struct Organization {
    pub id: OrganizationId,
    pub version: u64,
    pub name: String,
    pub org_type: OrganizationType,
    pub description: Option<String>,
    pub parent_id: Option<OrganizationId>,
    pub child_ids: Vec<OrganizationId>,
    pub member_ids: Vec<PersonId>,
    pub admin_ids: Vec<PersonId>,
    pub api_keys: Vec<ApiKey>,
    pub components: Vec<Component>,
}

/// What an organization aggregate holds.
pub struct OrganizationState {
    pub id: OrganizationId,
    pub version: u64,
    pub name: String,
    pub org_type: OrganizationType,
    pub description: Option<String>,
    pub parent_id: Option<OrganizationId>,
    pub child_ids: Seq<OrganizationId>,
    pub member_ids: Seq<PersonId>,
    pub admin_ids: Seq<PersonId>,
    pub api_keys: Seq<ApiKey>,
    pub components: Seq<Component>,
}

impl View for Organization {
    type V = OrganizationState;

    open spec fn view(&self) -> OrganizationState {
        OrganizationState {
            id: self.id,
            version: self.version,
            name: self.name,
            org_type: self.org_type,
            description: self.description,
            parent_id: self.parent_id,
            child_ids: self.child_ids@,
            member_ids: self.member_ids@,
            admin_ids: self.admin_ids@,
            api_keys: self.api_keys@,
            components: self.components@,
        }
    }
}

/// The persons among the first `n` other than the given one, in their order.
pub open spec fn persons_without(ids: Seq<PersonId>, id: PersonId, n: int) -> Seq<PersonId>
    decreases n,
{
    if n <= 0 {
        Seq::empty()
    } else if ids[n - 1] == id {
        persons_without(ids, id, n - 1)
    } else {
        persons_without(ids, id, n - 1).push(ids[n - 1])
    }
}

/// The organizations among the first `n` other than the given one, in their
/// order.
pub open spec fn children_without(ids: Seq<OrganizationId>, id: OrganizationId, n: int) -> Seq<
    OrganizationId,
>
    decreases n,
{
    if n <= 0 {
        Seq::empty()
    } else if ids[n - 1] == id {
        children_without(ids, id, n - 1)
    } else {
        children_without(ids, id, n - 1).push(ids[n - 1])
    }
}

/// The state of an organization after a command. Members, admins and
/// children are each held once; only a member can become admin, and a member
/// that leaves is no longer admin.
pub open spec fn organization_after(state: OrganizationState, command: OrganizationCommand) -> OrganizationState {
    match command {
        OrganizationCommand::CreateOrganization { .. } => state,
        OrganizationCommand::ChangeName { new_name } => OrganizationState { name: new_name, ..state },
        OrganizationCommand::ChangeDescription { description } => OrganizationState {
            description: Some(description),
            ..state
        },
        OrganizationCommand::AddMember { person_id } => if state.member_ids.contains(person_id) {
            state
        } else {
            OrganizationState { member_ids: state.member_ids.push(person_id), ..state }
        },
        OrganizationCommand::RemoveMember { person_id } => if state.member_ids.contains(person_id) {
            OrganizationState {
                member_ids: persons_without(
                    state.member_ids,
                    person_id,
                    state.member_ids.len() as int,
                ),
                admin_ids: persons_without(state.admin_ids, person_id, state.admin_ids.len() as int),
                ..state
            }
        } else {
            state
        },
        OrganizationCommand::PromoteToAdmin { person_id } => if state.member_ids.contains(person_id)
            && !state.admin_ids.contains(person_id) {
            OrganizationState { admin_ids: state.admin_ids.push(person_id), ..state }
        } else {
            state
        },
        OrganizationCommand::DemoteFromAdmin { person_id } => OrganizationState {
            admin_ids: persons_without(state.admin_ids, person_id, state.admin_ids.len() as int),
            ..state
        },
        OrganizationCommand::SetParent { parent_id } => OrganizationState { parent_id, ..state },
        OrganizationCommand::AddChild { child_id } => if state.child_ids.contains(child_id) {
            state
        } else {
            OrganizationState { child_ids: state.child_ids.push(child_id), ..state }
        },
        OrganizationCommand::RemoveChild { child_id } => OrganizationState {
            child_ids: children_without(state.child_ids, child_id, state.child_ids.len() as int),
            ..state
        },
    }
}

/// The events that an organization gives for a command. A change of name
/// gives up the old name and sets the new one; a change of description does
/// the same where there was one before. A command that changes nothing gives
/// no event.
pub open spec fn organization_emits(state: OrganizationState, command: OrganizationCommand) -> Seq<
    OrganizationEvent,
> {
    let organization_id = state.id;
    match command {
        OrganizationCommand::CreateOrganization { name, org_type } => seq![
            OrganizationEvent::OrganizationCreated { organization_id, name, org_type },
        ],
        OrganizationCommand::ChangeName { new_name } => seq![
            OrganizationEvent::NameRemoved { organization_id, old_name: state.name },
            OrganizationEvent::NameChanged { organization_id, new_name },
        ],
        OrganizationCommand::ChangeDescription { description } => if state.description is Some {
            seq![
                OrganizationEvent::DescriptionRemoved {
                    organization_id,
                    old_description: state.description,
                },
                OrganizationEvent::DescriptionSet { organization_id, description },
            ]
        } else {
            seq![OrganizationEvent::DescriptionSet { organization_id, description }]
        },
        OrganizationCommand::AddMember { person_id } => if state.member_ids.contains(person_id) {
            Seq::empty()
        } else {
            seq![OrganizationEvent::MemberAdded { organization_id, person_id }]
        },
        OrganizationCommand::RemoveMember { person_id } => if state.member_ids.contains(person_id) {
            seq![OrganizationEvent::MemberRemoved { organization_id, person_id }]
        } else {
            Seq::empty()
        },
        OrganizationCommand::PromoteToAdmin { person_id } => if state.member_ids.contains(person_id)
            && !state.admin_ids.contains(person_id) {
            seq![OrganizationEvent::MemberPromotedToAdmin { organization_id, person_id }]
        } else {
            Seq::empty()
        },
        OrganizationCommand::DemoteFromAdmin { person_id } => if state.admin_ids.contains(person_id) {
            seq![OrganizationEvent::AdminDemoted { organization_id, person_id }]
        } else {
            Seq::empty()
        },
        OrganizationCommand::SetParent { parent_id } => seq![
            OrganizationEvent::ParentChanged {
                organization_id,
                old_parent_id: state.parent_id,
                new_parent_id: parent_id,
            },
        ],
        OrganizationCommand::AddChild { child_id } => if state.child_ids.contains(child_id) {
            Seq::empty()
        } else {
            seq![OrganizationEvent::ChildAdded { organization_id, child_id }]
        },
        OrganizationCommand::RemoveChild { child_id } => if state.child_ids.contains(child_id) {
            seq![OrganizationEvent::ChildRemoved { organization_id, child_id }]
        } else {
            Seq::empty()
        },
    }
}

/// The state of an organization after an event was applied. Every event makes
/// a new version; what else it changes is what the event tells.
pub open spec fn organization_applied(state: OrganizationState, event: OrganizationEvent) -> OrganizationState {
    let state = OrganizationState { version: next_version(state.version), ..state };
    match event {
        OrganizationEvent::NameChanged { new_name, .. } => OrganizationState {
            name: new_name,
            ..state
        },
        OrganizationEvent::DescriptionRemoved { .. } => OrganizationState {
            description: None,
            ..state
        },
        OrganizationEvent::DescriptionSet { description, .. } => OrganizationState {
            description: Some(description),
            ..state
        },
        OrganizationEvent::MemberAdded { person_id, .. } => if state.member_ids.contains(person_id) {
            state
        } else {
            OrganizationState { member_ids: state.member_ids.push(person_id), ..state }
        },
        OrganizationEvent::MemberRemoved { person_id, .. } => OrganizationState {
            member_ids: persons_without(state.member_ids, person_id, state.member_ids.len() as int),
            admin_ids: persons_without(state.admin_ids, person_id, state.admin_ids.len() as int),
            ..state
        },
        OrganizationEvent::MemberPromotedToAdmin { person_id, .. } => if state.admin_ids.contains(
            person_id,
        ) {
            state
        } else {
            OrganizationState { admin_ids: state.admin_ids.push(person_id), ..state }
        },
        OrganizationEvent::AdminDemoted { person_id, .. } => OrganizationState {
            admin_ids: persons_without(state.admin_ids, person_id, state.admin_ids.len() as int),
            ..state
        },
        OrganizationEvent::ParentChanged { new_parent_id, .. } => OrganizationState {
            parent_id: new_parent_id,
            ..state
        },
        OrganizationEvent::ChildAdded { child_id, .. } => if state.child_ids.contains(child_id) {
            state
        } else {
            OrganizationState { child_ids: state.child_ids.push(child_id), ..state }
        },
        OrganizationEvent::ChildRemoved { child_id, .. } => OrganizationState {
            child_ids: children_without(state.child_ids, child_id, state.child_ids.len() as int),
            ..state
        },
        _ => state,
    }
}

/// Whether the list holds the person.
pub fn holds_person(ids: &Vec<PersonId>, id: PersonId) -> (r: bool)
    ensures
        r == ids@.contains(id),
{
    let mut k: usize = 0;
    while k < ids.len()
        invariant
            k <= ids@.len(),
            forall|j: int| 0 <= j < k ==> ids@[j] != id,
        decreases ids@.len() - k,
    {
        if ids[k] == id {
            return true;
        }
        k += 1;
    }
    false
}

fn drop_person(ids: &mut Vec<PersonId>, id: PersonId)
    ensures
        final(ids)@ == persons_without(old(ids)@, id, old(ids)@.len() as int),
{
    let mut kept: Vec<PersonId> = Vec::new();
    let mut k: usize = 0;
    while k < ids.len()
        invariant
            k <= ids@.len(),
            ids@ == old(ids)@,
            kept@ == persons_without(ids@, id, k as int),
        decreases ids@.len() - k,
    {
        if ids[k] != id {
            kept.push(ids[k]);
        }
        k += 1;
    }
    *ids = kept;
}

fn holds_child(ids: &Vec<OrganizationId>, id: OrganizationId) -> (r: bool)
    ensures
        r == ids@.contains(id),
{
    let mut k: usize = 0;
    while k < ids.len()
        invariant
            k <= ids@.len(),
            forall|j: int| 0 <= j < k ==> ids@[j] != id,
        decreases ids@.len() - k,
    {
        if ids[k] == id {
            return true;
        }
        k += 1;
    }
    false
}

fn drop_child(ids: &mut Vec<OrganizationId>, id: OrganizationId)
    ensures
        final(ids)@ == children_without(old(ids)@, id, old(ids)@.len() as int),
{
    let mut kept: Vec<OrganizationId> = Vec::new();
    let mut k: usize = 0;
    while k < ids.len()
        invariant
            k <= ids@.len(),
            ids@ == old(ids)@,
            kept@ == children_without(ids@, id, k as int),
        decreases ids@.len() - k,
    {
        if ids[k] != id {
            kept.push(ids[k]);
        }
        k += 1;
    }
    *ids = kept;
}

fn none() -> (r: Vec<OrganizationEvent>)
    ensures
        r@ == Seq::<OrganizationEvent>::empty(),
{
    Vec::new()
}

fn one(event: OrganizationEvent) -> (r: Vec<OrganizationEvent>)
    ensures
        r@ == seq![event],
{
    let mut events: Vec<OrganizationEvent> = Vec::new();
    events.push(event);
    assert(events@ =~= seq![event]);
    events
}

fn two(first: OrganizationEvent, second: OrganizationEvent) -> (r: Vec<OrganizationEvent>)
    ensures
        r@ == seq![first, second],
{
    let mut events: Vec<OrganizationEvent> = Vec::new();
    events.push(first);
    events.push(second);
    assert(events@ =~= seq![first, second]);
    events
}

impl Organization {
    /// Create a new organization under the given identifier: in the first
    /// version, without description, parent, children, members or keys.
    pub fn with_id(id: OrganizationId, name: String, org_type: OrganizationType) -> (r: Self)
        ensures
            r@ == (OrganizationState {
                id,
                version: 0,
                name,
                org_type,
                description: None,
                parent_id: None,
                child_ids: Seq::empty(),
                member_ids: Seq::empty(),
                admin_ids: Seq::empty(),
                api_keys: Seq::empty(),
                components: Seq::empty(),
            }),
    {
        Organization {
            id,
            version: 0,
            name,
            org_type,
            description: None,
            parent_id: None,
            child_ids: Vec::new(),
            member_ids: Vec::new(),
            admin_ids: Vec::new(),
            api_keys: Vec::new(),
            components: Vec::new(),
        }
    }

    /// Create a new organization under a fresh identifier.
    pub fn new(name: String, org_type: OrganizationType) -> (r: Self)
        ensures
            exists|id: OrganizationId|
                r@ == (OrganizationState {
                    id,
                    version: 0,
                    name,
                    org_type,
                    description: None,
                    parent_id: None,
                    child_ids: Seq::empty(),
                    member_ids: Seq::empty(),
                    admin_ids: Seq::empty(),
                    api_keys: Seq::empty(),
                    components: Seq::empty(),
                }),
    {
        let id = OrganizationId::new();
        Self::with_id(id, name, org_type)
    }

    /// The identifier of the organization.
    pub fn id(&self) -> (r: OrganizationId)
        ensures
            r == self@.id,
    {
        self.id
    }

    /// The version of the aggregate: the number of events applied to it.
    pub fn version(&self) -> (r: u64)
        ensures
            r == self@.version,
    {
        self.version
    }

    /// Counts one more version.
    pub fn increment_version(&mut self)
        ensures
            final(self)@ == (OrganizationState {
                version: next_version(old(self)@.version),
                ..old(self)@
            }),
    {
        if self.version < u64::MAX {
            self.version = self.version + 1;
        }
    }

    /// Add a component.
    pub fn add_component(&mut self, component: Component)
        ensures
            final(self)@ == (OrganizationState {
                components: old(self)@.components.push(component),
                ..old(self)@
            }),
    {
        self.components.push(component);
    }

    /// Get components, in the order in which they were added.
    pub fn components(&self) -> (r: &Vec<Component>)
        ensures
            r@ == self@.components,
    {
        &self.components
    }

    /// Handle a command. Every command is accepted.
    pub fn handle_command(&mut self, command: OrganizationCommand) -> (r: IdentityResult<
        Vec<OrganizationEvent>,
    >)
        ensures
            r matches Ok(events) && events@ == organization_emits(old(self)@, command),
            final(self)@ == organization_after(old(self)@, command),
    {
        let organization_id = self.id;
        match command {
            OrganizationCommand::CreateOrganization { name, org_type } => Ok(
                one(OrganizationEvent::OrganizationCreated { organization_id, name, org_type }),
            ),
            OrganizationCommand::ChangeName { new_name } => {
                let old_name = self.name.clone();
                self.name = new_name.clone();
                Ok(
                    two(
                        OrganizationEvent::NameRemoved { organization_id, old_name },
                        OrganizationEvent::NameChanged { organization_id, new_name },
                    ),
                )
            },
            OrganizationCommand::ChangeDescription { description } => {
                let events = match &self.description {
                    Some(_) => two(
                        OrganizationEvent::DescriptionRemoved {
                            organization_id,
                            old_description: clone_optional_text(&self.description),
                        },
                        OrganizationEvent::DescriptionSet {
                            organization_id,
                            description: description.clone(),
                        },
                    ),
                    None => one(
                        OrganizationEvent::DescriptionSet {
                            organization_id,
                            description: description.clone(),
                        },
                    ),
                };
                self.description = Some(description);
                Ok(events)
            },
            OrganizationCommand::AddMember { person_id } => {
                if holds_person(&self.member_ids, person_id) {
                    Ok(none())
                } else {
                    self.member_ids.push(person_id);
                    Ok(one(OrganizationEvent::MemberAdded { organization_id, person_id }))
                }
            },
            OrganizationCommand::RemoveMember { person_id } => {
                if holds_person(&self.member_ids, person_id) {
                    drop_person(&mut self.member_ids, person_id);
                    drop_person(&mut self.admin_ids, person_id);
                    Ok(one(OrganizationEvent::MemberRemoved { organization_id, person_id }))
                } else {
                    Ok(none())
                }
            },
            OrganizationCommand::PromoteToAdmin { person_id } => {
                if holds_person(&self.member_ids, person_id) && !holds_person(
                    &self.admin_ids,
                    person_id,
                ) {
                    self.admin_ids.push(person_id);
                    Ok(
                        one(
                            OrganizationEvent::MemberPromotedToAdmin { organization_id, person_id },
                        ),
                    )
                } else {
                    Ok(none())
                }
            },
            OrganizationCommand::DemoteFromAdmin { person_id } => {
                let admin = holds_person(&self.admin_ids, person_id);
                drop_person(&mut self.admin_ids, person_id);
                if admin {
                    Ok(one(OrganizationEvent::AdminDemoted { organization_id, person_id }))
                } else {
                    Ok(none())
                }
            },
            OrganizationCommand::SetParent { parent_id } => {
                let old_parent_id = self.parent_id;
                self.parent_id = parent_id;
                Ok(
                    one(
                        OrganizationEvent::ParentChanged {
                            organization_id,
                            old_parent_id,
                            new_parent_id: parent_id,
                        },
                    ),
                )
            },
            OrganizationCommand::AddChild { child_id } => {
                if holds_child(&self.child_ids, child_id) {
                    Ok(none())
                } else {
                    self.child_ids.push(child_id);
                    Ok(one(OrganizationEvent::ChildAdded { organization_id, child_id }))
                }
            },
            OrganizationCommand::RemoveChild { child_id } => {
                let child = holds_child(&self.child_ids, child_id);
                drop_child(&mut self.child_ids, child_id);
                if child {
                    Ok(one(OrganizationEvent::ChildRemoved { organization_id, child_id }))
                } else {
                    Ok(none())
                }
            },
        }
    }

    /// Apply an event to update the state.
    pub fn apply_event(&mut self, event: &OrganizationEvent)
        ensures
            final(self)@ == organization_applied(old(self)@, *event),
    {
        self.increment_version();
        match event {
            OrganizationEvent::NameChanged { new_name, .. } => {
                self.name = new_name.clone();
            },
            OrganizationEvent::DescriptionRemoved { .. } => {
                self.description = None;
            },
            OrganizationEvent::DescriptionSet { description, .. } => {
                self.description = Some(description.clone());
            },
            OrganizationEvent::MemberAdded { person_id, .. } => {
                if !holds_person(&self.member_ids, *person_id) {
                    self.member_ids.push(*person_id);
                }
            },
            OrganizationEvent::MemberRemoved { person_id, .. } => {
                drop_person(&mut self.member_ids, *person_id);
                drop_person(&mut self.admin_ids, *person_id);
            },
            OrganizationEvent::MemberPromotedToAdmin { person_id, .. } => {
                if !holds_person(&self.admin_ids, *person_id) {
                    self.admin_ids.push(*person_id);
                }
            },
            OrganizationEvent::AdminDemoted { person_id, .. } => {
                drop_person(&mut self.admin_ids, *person_id);
            },
            OrganizationEvent::ParentChanged { new_parent_id, .. } => {
                self.parent_id = *new_parent_id;
            },
            OrganizationEvent::ChildAdded { child_id, .. } => {
                if !holds_child(&self.child_ids, *child_id) {
                    self.child_ids.push(*child_id);
                }
            },
            OrganizationEvent::ChildRemoved { child_id, .. } => {
                drop_child(&mut self.child_ids, *child_id);
            },
            _ => {},
        }
    }
}

fn copy_persons(ids: &Vec<PersonId>) -> (r: Vec<PersonId>)
    ensures
        r@ == ids@,
{
    let mut out: Vec<PersonId> = Vec::new();
    let mut k: usize = 0;
    while k < ids.len()
        invariant
            k <= ids@.len(),
            out@ == ids@.subrange(0, k as int),
        decreases ids@.len() - k,
    {
        out.push(ids[k]);
        k += 1;
    }
    assert(ids@.subrange(0, ids@.len() as int) == ids@);
    out
}

impl Clone for Organization {
    /// A copy that holds the same, with a copy of every key.
    fn clone(&self) -> (r: Self)
        ensures
            r@.id == self@.id,
            r@.version == self@.version,
            r@.name == self@.name,
            r@.org_type == self@.org_type,
            r@.description == self@.description,
            r@.parent_id == self@.parent_id,
            r@.child_ids == self@.child_ids,
            r@.member_ids == self@.member_ids,
            r@.admin_ids == self@.admin_ids,
            r@.components == self@.components,
            r@.api_keys.len() == self@.api_keys.len(),
            forall|k: int|
                0 <= k < self@.api_keys.len() ==> (#[trigger] r@.api_keys[k]).key_hash
                    == self@.api_keys[k].key_hash && r@.api_keys[k].name == self@.api_keys[k].name
                    && r@.api_keys[k].permissions@ == self@.api_keys[k].permissions@,
    {
        let mut child_ids: Vec<OrganizationId> = Vec::new();
        let mut k: usize = 0;
        while k < self.child_ids.len()
            invariant
                k <= self.child_ids@.len(),
                child_ids@ == self.child_ids@.subrange(0, k as int),
            decreases self.child_ids@.len() - k,
        {
            child_ids.push(self.child_ids[k]);
            k += 1;
        }
        assert(self.child_ids@.subrange(0, self.child_ids@.len() as int) == self.child_ids@);
        let mut api_keys: Vec<ApiKey> = Vec::new();
        let mut j: usize = 0;
        while j < self.api_keys.len()
            invariant
                j <= self.api_keys@.len(),
                api_keys@.len() == j,
                forall|k: int|
                    0 <= k < j ==> (#[trigger] api_keys@[k]).key_hash == self.api_keys@[k].key_hash
                        && api_keys@[k].name == self.api_keys@[k].name && api_keys@[k].permissions@
                        == self.api_keys@[k].permissions@,
            decreases self.api_keys@.len() - j,
        {
            api_keys.push(self.api_keys[j].clone());
            j += 1;
        }
        Organization {
            id: self.id,
            version: self.version,
            name: self.name.clone(),
            org_type: self.org_type,
            description: clone_optional_text(&self.description),
            parent_id: self.parent_id,
            child_ids,
            member_ids: copy_persons(&self.member_ids),
            admin_ids: copy_persons(&self.admin_ids),
            api_keys,
            components: clone_components(&self.components),
        }
    }
}

} // verus!
