//! Ledger addresses.
//!
//! Assets and components are named by `scrypto` addresses. An address is an
//! opaque value here; two addresses are the same value exactly when `scrypto`
//! compares them equal.

use scrypto::constants::XRD;
use scrypto::types::ComponentAddress;
use scrypto::types::ResourceAddress;
use vstd::prelude::*;

verus! {

/// `scrypto::types::ResourceAddress`, carried as an opaque value.
#[verifier::external_type_specification]
#[verifier::external_body]
pub struct ExResourceAddress(ResourceAddress);

/// `scrypto::types::ComponentAddress`, carried as an opaque value.
#[verifier::external_type_specification]
#[verifier::external_body]
pub struct ExComponentAddress(ComponentAddress);

/// The resource address that `ResourceAddress::new_or_panic` builds from the
/// thirty bytes of a node id.
pub uninterp spec fn resource_at(node_id: Seq<u8>) -> ResourceAddress;

/// The node id of the ledger's native token.
pub open spec fn native_token_node_id() -> Seq<u8> {
    seq![
        93u8, 166u8, 99u8, 24u8, 198u8, 49u8, 140u8, 97u8, 245u8, 166u8,
        27u8, 76u8, 99u8, 24u8, 198u8, 49u8, 140u8, 247u8, 148u8, 170u8,
        141u8, 41u8, 95u8, 20u8, 230u8, 49u8, 140u8, 99u8, 24u8, 198u8,
    ]
}

/// The settlement currency: the ledger's native token.
pub open spec fn settlement_currency() -> ResourceAddress {
    resource_at(native_token_node_id())
}

/// Reads the constant `XRD`, which `scrypto` defines as
/// `ResourceAddress::new_or_panic` of the native token's node id.
#[verifier::external_body]
pub(crate) fn native_token() -> (r: ResourceAddress)
    ensures
        r == resource_at(native_token_node_id()),
{
    XRD
}

/// Calls `==` of `ResourceAddress`, which compares the node ids byte by byte.
#[verifier::external_body]
pub(crate) fn same_resource(a: &ResourceAddress, b: &ResourceAddress) -> (r: bool)
    ensures
        r == (*a == *b),
{
    a == b
}

/// Calls `==` of `ComponentAddress`, which compares the node ids byte by byte.
#[verifier::external_body]
pub(crate) fn same_component(a: &ComponentAddress, b: &ComponentAddress) -> (r: bool)
    ensures
        r == (*a == *b),
{
    a == b
}

} // verus!
