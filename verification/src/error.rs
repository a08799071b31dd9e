//! The ways in which resolving a package or a type can fail.

use crate::address::AccountAddress;
use crate::bytecode::DatatypeKey;
use vstd::prelude::*;

verus! {

/// Failure of a package lookup, of a materialization or of a type resolution.
#[derive(Clone, Debug, PartialEq, Eq)]
pub enum Error {
    /// No object is known under the address.
    PackageNotFound(AccountAddress),
    /// The object under the address is not a package.
    NotAPackage(AccountAddress),
    /// The package under the address holds no module.
    EmptyPackage(AccountAddress),
    /// The bytes of a module are not well-formed bytecode; the decoder's message.
    Deserialize(String),
    /// The package holds a module that defines a struct for which its
    /// type-origin table has no entry: the package, the module, the struct.
    NoTypeOrigin(AccountAddress, String, String),
    /// The durable table failed; the message of that failure.
    TypedStore(String),
    /// The database failed; the message of that failure.
    Database(String),
    /// The bytes held for an object are not a well-formed object; the
    /// decoder's message.
    Bcs(String),
    /// A type refers to a struct that cannot be resolved against the
    /// packages at hand: the struct.
    UnresolvedType(DatatypeKey),
}

} // verus!
