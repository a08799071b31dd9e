//! On-chain objects, as far as the resolver reads them.

use crate::address::AccountAddress;
use crate::bytecode::CompiledModule;
use vstd::prelude::*;

verus! {

/// One line of a package's type-origin table: the package that first
/// defined the struct `struct_name` of the module `module_name`.
#[derive(Clone, Debug, PartialEq, Eq)]
pub struct TypeOrigin {
    pub module_name: String,
    pub struct_name: String,
    pub package: AccountAddress,
}

/// Where a dependency of a package is found at that package's version.
#[derive(Clone, Copy, Debug, PartialEq, Eq)]
pub struct UpgradeInfo {
    pub upgraded_id: AccountAddress,
    pub upgraded_version: u64,
}

/// What the bytecode decoder made of the bytes of a module.
#[derive(Debug, PartialEq, Eq)]
pub enum Bytecode {
    /// The module in structured form.
    Wellformed(CompiledModule),
    /// The bytes are not well-formed bytecode; the decoder's message.
    Malformed(String),
}

/// A module of a package object, under the name that the package files it by.
#[derive(Debug, PartialEq, Eq)]
pub struct DecodedModule {
    pub name: String,
    pub bytecode: Bytecode,
}

/// The contents of a package object.
#[derive(Debug, PartialEq, Eq)]
pub struct MovePackage {
    /// The modules, in the order of their names.
    pub modules: Vec<DecodedModule>,
    /// Where later lines speak of the same struct as earlier ones, the last counts.
    pub type_origin_table: Vec<TypeOrigin>,
    /// For each dependency, by its runtime id, where it is found.
    pub linkage_table: Vec<(AccountAddress, UpgradeInfo)>,
}

impl MovePackage {
    /// The object files its modules by name and its dependencies by runtime
    /// id: no two modules have the same name, and no dependency is linked
    /// twice.
    pub open spec fn wf(&self) -> bool {
        &&& forall|i: int, j: int|
            0 <= i < j < self.modules@.len() ==> (#[trigger] self.modules@[i]).name@ != (
            #[trigger] self.modules@[j]).name@
        &&& forall|i: int, j: int|
            0 <= i < j < self.linkage_table@.len() ==> (#[trigger] self.linkage_table@[i]).0 != (
            #[trigger] self.linkage_table@[j]).0
    }
}

/// What an object holds.
#[derive(Debug, PartialEq, Eq)]
pub enum Data {
    /// A value of some struct type. The resolver does not read it.
    Move,
    /// A package.
    Package(MovePackage),
}

/// An object with its identity and version.
#[derive(Debug, PartialEq, Eq)]
pub struct Object {
    pub id: AccountAddress,
    pub version: u64,
    pub data: Data,
}

impl Object {
    /// Whether the object is a package.
    pub open spec fn is_package(&self) -> bool {
        self.data is Package
    }

    /// The package that the object holds, if it holds one.
    pub fn try_as_package(&self) -> (package: Option<&MovePackage>)
        ensures
            match package {
                Some(package) => self.data == Data::Package(*package),
                None => !self.is_package(),
            },
    {
        match &self.data {
            Data::Package(package) => Some(package),
            Data::Move => None,
        }
    }

    /// The address of the object.
    pub fn id(&self) -> (id: AccountAddress)
        ensures
            id == self.id,
    {
        self.id
    }

    /// The version of the object.
    pub fn version(&self) -> (version: u64)
        ensures
            version == self.version,
    {
        self.version
    }
}

} // verus!
