//! What the resolver reads of a compiled module: its own address, and the
//! structs it defines with their fields.

use crate::address::AccountAddress;
use vstd::prelude::*;

verus! {

/// Names a struct by the package and the module that hold it.
#[derive(Clone, Debug, PartialEq, Eq)]
pub struct DatatypeKey {
    pub package: AccountAddress,
    pub module: String,
    pub name: String,
}

impl DatatypeKey {
    /// A copy of the key.
    pub fn duplicate(&self) -> (copy: DatatypeKey)
        ensures
            copy == *self,
    {
        DatatypeKey { package: self.package, module: self.module.clone(), name: self.name.clone() }
    }
}

/// The declared type of a field. It may mention the type parameters of the
/// struct that the field belongs to.
#[derive(Debug, PartialEq, Eq)]
pub enum Signature {
    Address,
    Bool,
    U8,
    U16,
    U32,
    U64,
    U128,
    U256,
    Signer,
    Vector(Box<Signature>),
    /// A struct, with one type argument for each of its type parameters. The
    /// key's package is the address that the referring module was compiled
    /// against.
    Datatype(DatatypeKey, Vec<Signature>),
    /// The type parameter with the given index.
    TypeParameter(u16),
    /// A reference. No field can hold one: a struct that declares such a
    /// field has no layout.
    Reference(Box<Signature>),
}

/// A field of a struct.
#[derive(Debug, PartialEq, Eq)]
pub struct FieldDef {
    pub name: String,
    pub signature: Signature,
}

/// A struct as a module defines it.
#[derive(Debug, PartialEq, Eq)]
pub struct StructDef {
    pub name: String,
    /// The number of type parameters.
    pub type_params: usize,
    pub fields: Vec<FieldDef>,
}

/// A module in structured form.
#[derive(Debug, PartialEq, Eq)]
pub struct CompiledModule {
    /// The address that the module names as its own: the runtime id of its package.
    pub address: AccountAddress,
    pub name: String,
    pub structs: Vec<StructDef>,
}

} // verus!
