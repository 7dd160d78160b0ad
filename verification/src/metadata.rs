//! What a component tells the outside about itself, and the account that
//! lists a poll in the portal.

use crate::auth::AccessRule;
use crate::auth::OwnerRole;
use scrypto::types::ComponentAddress;
use scrypto::types::ResourceAddress;
use vstd::prelude::*;

verus! {

/// The name under which the registry, its polls and their listings appear.
pub const NAME: &'static str = "Here Here";

/// The description under which they appear.
pub const DESCRIPTION: &'static str = "Will the ayes or the noes have it?";

/// The picture of the registry and of the listings.
pub const ICON_URL: &'static str =
    "https://e3.365dm.com/23/09/2048x1152/skynews-john-bercow-speaker_6293239.jpg";

/// The picture of a poll: none.
pub const NO_ICON_URL: &'static str = "";

/// The kind of account that lists a poll.
pub const ACCOUNT_TYPE: &'static str = "dapp definition";

/// Who may change a component's metadata, and who may change that.
#[derive(Clone, Copy, Debug)]
pub struct MetadataRoles {
    pub metadata_setter: AccessRule,
    pub metadata_setter_updater: AccessRule,
    pub metadata_locker: AccessRule,
    pub metadata_locker_updater: AccessRule,
}

/// The metadata that a component is published with.
#[derive(Debug)]
pub struct Metadata {
    pub name: String,
    pub description: String,
    /// The account under which the component is listed.
    pub dapp_definition: ComponentAddress,
    pub icon_url: String,
    /// Whether the entries can never be written again.
    pub locked: bool,
    pub roles: MetadataRoles,
}

/// The account that lists one poll in the portal.
#[derive(Debug)]
pub struct DappDefinition {
    pub address: ComponentAddress,
    pub owner_role: OwnerRole,
    pub account_type: String,
    pub name: String,
    pub description: String,
    pub icon_url: String,
    /// The components that the account vouches for.
    pub claimed_entities: Vec<ComponentAddress>,
}

impl MetadataRoles {
    /// Whether nobody may change the metadata, now or later.
    pub open spec fn denies_all(self) -> bool {
        &&& self.metadata_setter is DenyAll
        &&& self.metadata_setter_updater is DenyAll
        &&& self.metadata_locker is DenyAll
        &&& self.metadata_locker_updater is DenyAll
    }

    /// The roles under which nobody may change the metadata.
    pub fn deny_all() -> (roles: MetadataRoles)
        ensures
            roles.denies_all(),
    {
        MetadataRoles {
            metadata_setter: AccessRule::DenyAll,
            metadata_setter_updater: AccessRule::DenyAll,
            metadata_locker: AccessRule::DenyAll,
            metadata_locker_updater: AccessRule::DenyAll,
        }
    }
}

impl Metadata {
    /// Whether this is the sealed entry of a component listed under
    /// `dapp_definition` with the picture `icon_url`: the common name and
    /// description, locked, with every role denied.
    pub open spec fn is_sealed_entry(
        self,
        dapp_definition: ComponentAddress,
        icon_url: Seq<char>,
    ) -> bool {
        &&& self.name@ == NAME@
        &&& self.description@ == DESCRIPTION@
        &&& self.dapp_definition == dapp_definition
        &&& self.icon_url@ == icon_url
        &&& self.locked
        &&& self.roles.denies_all()
    }

    /// The sealed entry of a component listed under `dapp_definition`.
    pub fn sealed_entry(dapp_definition: ComponentAddress, icon_url: &str) -> (entry: Metadata)
        ensures
            entry.is_sealed_entry(dapp_definition, icon_url@),
    {
        Metadata {
            name: NAME.to_owned(),
            description: DESCRIPTION.to_owned(),
            dapp_definition,
            icon_url: icon_url.to_owned(),
            locked: true,
            roles: MetadataRoles::deny_all(),
        }
    }
}

impl DappDefinition {
    /// Whether this is the account at `address` that lists `poll` and no other
    /// component, described as a listing, and owned by whoever holds the badge
    /// `owner`.
    pub open spec fn lists(
        self,
        address: ComponentAddress,
        poll: ComponentAddress,
        owner: ResourceAddress,
    ) -> bool {
        &&& self.address == address
        &&& self.owner_role == OwnerRole::Updatable(AccessRule::Require(owner))
        &&& self.account_type@ == ACCOUNT_TYPE@
        &&& self.name@ == NAME@
        &&& self.description@ == DESCRIPTION@
        &&& self.icon_url@ == ICON_URL@
        &&& self.claimed_entities@ == seq![poll]
    }

    /// The account at `address` that lists `poll`, in the hands of `owner`.
    pub fn listing(
        address: ComponentAddress,
        poll: ComponentAddress,
        owner: ResourceAddress,
    ) -> (account: DappDefinition)
        ensures
            account.lists(address, poll, owner),
    {
        let mut claimed_entities: Vec<ComponentAddress> = Vec::new();
        claimed_entities.push(poll);
        DappDefinition {
            address,
            owner_role: OwnerRole::Updatable(AccessRule::Require(owner)),
            account_type: ACCOUNT_TYPE.to_owned(),
            name: NAME.to_owned(),
            description: DESCRIPTION.to_owned(),
            icon_url: ICON_URL.to_owned(),
            claimed_entities,
        }
    }
}

} // verus!
