//! Credentials and the rules that they are held against.

use crate::address::same_resource;
use crate::error::Error;
use scrypto::types::ComponentAddress;
use scrypto::types::ResourceAddress;
use vstd::prelude::*;

verus! {

/// What a caller presents to show that it holds a badge: the badge's
/// resource address.
#[derive(Clone, Copy, Debug)]
pub struct Credential {
    pub resource: ResourceAddress,
}

/// A rule that guards an operation or an identity.
#[derive(Clone, Copy, Debug)]
pub enum AccessRule {
    /// Every caller passes.
    AllowAll,
    /// No caller passes.
    DenyAll,
    /// A caller passes by presenting the badge of this resource.
    Require(ResourceAddress),
}

/// Who owns a component, and whether the owner may hand it on.
#[derive(Clone, Copy, Debug)]
pub enum OwnerRole {
    /// Nobody owns the component.
    Unowned,
    /// The owner is set once and for all.
    Fixed(AccessRule),
    /// The owner may name another owner.
    Updatable(AccessRule),
}

/// An identity: an account's address together with the role that guards it.
#[derive(Clone, Copy, Debug)]
pub struct Account {
    pub address: ComponentAddress,
    pub owner_role: OwnerRole,
}

impl Credential {
    /// Whether this credential is the badge of `expected`.
    pub open spec fn proves(self, expected: ResourceAddress) -> bool {
        self.resource == expected
    }

    /// Holds the credential against the badge that is asked for.
    pub fn check(&self, expected: &ResourceAddress) -> (r: Result<(), Error>)
        ensures
            r == (if self.proves(*expected) {
                Ok::<(), Error>(())
            } else {
                Err::<(), Error>(Error::Unauthorized)
            }),
    {
        if same_resource(&self.resource, expected) {
            Ok(())
        } else {
            Err(Error::Unauthorized)
        }
    }
}

impl AccessRule {
    /// Whether a caller that presents `credential` passes the rule.
    pub open spec fn permits(self, credential: Credential) -> bool {
        match self {
            AccessRule::AllowAll => true,
            AccessRule::DenyAll => false,
            AccessRule::Require(resource) => credential.proves(resource),
        }
    }

    /// Holds a credential against the rule.
    pub fn check(&self, credential: &Credential) -> (r: Result<(), Error>)
        ensures
            r == (if self.permits(*credential) {
                Ok::<(), Error>(())
            } else {
                Err::<(), Error>(Error::Unauthorized)
            }),
    {
        match self {
            AccessRule::AllowAll => Ok(()),
            AccessRule::DenyAll => Err(Error::Unauthorized),
            AccessRule::Require(resource) => credential.check(resource),
        }
    }
}

impl OwnerRole {
    /// The rule that a caller must pass to act as the owner. Nobody passes
    /// for a component without an owner.
    pub open spec fn spec_rule(&self) -> AccessRule {
        match self {
            OwnerRole::Unowned => AccessRule::DenyAll,
            OwnerRole::Fixed(rule) => *rule,
            OwnerRole::Updatable(rule) => *rule,
        }
    }

    /// The rule that a caller must pass to act as the owner.
    #[verifier::when_used_as_spec(spec_rule)]
    pub fn rule(&self) -> (r: AccessRule)
        ensures
            r == self.spec_rule(),
    {
        match self {
            OwnerRole::Unowned => AccessRule::DenyAll,
            OwnerRole::Fixed(rule) => *rule,
            OwnerRole::Updatable(rule) => *rule,
        }
    }
}

impl Account {
    /// Whether a caller that presents `credential` controls this identity.
    pub open spec fn controlled_by(self, credential: Credential) -> bool {
        self.owner_role.spec_rule().permits(credential)
    }

    /// Holds a credential against the identity's own rule.
    pub fn authorize(&self, credential: &Credential) -> (r: Result<(), Error>)
        ensures
            r == (if self.controlled_by(*credential) {
                Ok::<(), Error>(())
            } else {
                Err::<(), Error>(Error::Unauthorized)
            }),
    {
        self.owner_role.rule().check(credential)
    }
}

} // verus!
