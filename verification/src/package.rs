//! Materialized packages, and the materializer that builds them from objects.

use crate::address::AccountAddress;
use crate::bytecode::{CompiledModule, StructDef};
use crate::error::Error;
use crate::object::{Bytecode, Data, DecodedModule, MovePackage, Object, TypeOrigin, UpgradeInfo};
use crate::recency::{distinct_keys, lemma_position_distinct, position, position_from, value_of};
use vstd::prelude::*;

verus! {

/// A module of a materialized package: its bytecode and, for each struct that
/// the bytecode defines, the package that first defined it.
#[derive(Debug, PartialEq, Eq)]
pub struct Module {
    /// The name that the package files the module by.
    pub name: String,
    pub bytecode: CompiledModule,
    /// The defining package of `bytecode.structs[i]` is `origins[i]`.
    pub origins: Vec<AccountAddress>,
}

/// A package in structured form.
#[derive(Debug, PartialEq, Eq)]
pub struct Package {
    /// The address of the object that holds the package.
    pub storage_id: AccountAddress,
    /// The address that the modules of the package name as their own.
    pub runtime_id: AccountAddress,
    pub version: u64,
    /// The modules, in the order in which the object holds them.
    pub modules: Vec<Module>,
    /// For each dependency, its runtime id and the address of the object that
    /// holds it at this package's version.
    pub linkage: Vec<(AccountAddress, AccountAddress)>,
}

/// Whether a line of a type-origin table speaks of the struct `name` of `module`.
pub open spec fn origin_matches(origin: TypeOrigin, module: Seq<char>, name: Seq<char>) -> bool {
    origin.module_name@ == module && origin.struct_name@ == name
}

/// The defining package that `table` gives for the struct `name` of `module`:
/// that of the last line that speaks of the struct.
pub open spec fn type_origin(table: Seq<TypeOrigin>, module: Seq<char>, name: Seq<char>) -> Option<
    AccountAddress,
>
    decreases table.len(),
{
    if table.len() == 0 {
        None
    } else if origin_matches(table.last(), module, name) {
        Some(table.last().package)
    } else {
        type_origin(table.drop_last(), module, name)
    }
}

/// The index of the first struct at or after `from` for which `table` has no
/// defining package.
pub open spec fn first_missing_origin(
    table: Seq<TypeOrigin>,
    module: Seq<char>,
    structs: Seq<StructDef>,
    from: int,
) -> Option<int>
    decreases structs.len() - from,
{
    if from < 0 || from >= structs.len() {
        None
    } else if type_origin(table, module, structs[from].name@) is None {
        Some(from)
    } else {
        first_missing_origin(table, module, structs, from + 1)
    }
}

/// Why the module `decoded` of the package `id` cannot be read, if it cannot.
pub open spec fn module_error(id: AccountAddress, table: Seq<TypeOrigin>, decoded: DecodedModule) -> Option<
    Error,
> {
    match decoded.bytecode {
        Bytecode::Malformed(message) => Some(Error::Deserialize(message)),
        Bytecode::Wellformed(bytecode) => match first_missing_origin(
            table,
            decoded.name@,
            bytecode.structs@,
            0,
        ) {
            Some(index) => Some(
                Error::NoTypeOrigin(id, decoded.name, bytecode.structs@[index].name),
            ),
            None => None,
        },
    }
}

/// The error of the first module at or after `from` that cannot be read.
pub open spec fn first_module_error(
    id: AccountAddress,
    table: Seq<TypeOrigin>,
    modules: Seq<DecodedModule>,
    from: int,
) -> Option<Error>
    decreases modules.len() - from,
{
    if from < 0 || from >= modules.len() {
        None
    } else {
        match module_error(id, table, modules[from]) {
            Some(error) => Some(error),
            None => first_module_error(id, table, modules, from + 1),
        }
    }
}

/// Why `object` cannot be materialized as the package `id`, if it cannot.
pub open spec fn materialize_error(id: AccountAddress, object: Object) -> Option<Error> {
    match object.data {
        Data::Move => Some(Error::NotAPackage(id)),
        Data::Package(package) => match first_module_error(
            id,
            package.type_origin_table@,
            package.modules@,
            0,
        ) {
            Some(error) => Some(error),
            None => if package.modules@.len() == 0 {
                Some(Error::EmptyPackage(id))
            } else {
                None
            },
        },
    }
}

impl Module {
    /// There is one defining package for each struct.
    pub open spec fn wf(&self) -> bool {
        self.origins@.len() == self.bytecode.structs@.len()
    }

    /// Whether the module is `decoded` read against `table`: the same name
    /// and bytecode, and for each struct the defining package that `table`
    /// gives for it.
    pub open spec fn reads(&self, decoded: DecodedModule, table: Seq<TypeOrigin>) -> bool {
        &&& self.name == decoded.name
        &&& decoded.bytecode == Bytecode::Wellformed(self.bytecode)
        &&& self.wf()
        &&& forall|i: int|
            0 <= i < self.origins@.len() ==> type_origin(
                table,
                self.name@,
                #[trigger] self.bytecode.structs@[i].name@,
            ) == Some(self.origins@[i])
    }

    /// Reads the module `name` with the given bytecode against a type-origin
    /// table. Where the table lacks a struct of the module, the module's name
    /// comes back with the name of the first such struct.
    pub fn read(name: String, bytecode: CompiledModule, table: &Vec<TypeOrigin>) -> (result: Result<
        Module,
        (String, String),
    >)
        ensures
            match result {
                Ok(module) => {
                    &&& module.reads(
                        DecodedModule { name, bytecode: Bytecode::Wellformed(bytecode) },
                        table@,
                    )
                    &&& first_missing_origin(table@, name@, bytecode.structs@, 0) is None
                },
                Err((module, missing)) => {
                    &&& module == name
                    &&& first_missing_origin(table@, name@, bytecode.structs@, 0) matches Some(index)
                    &&& missing == bytecode.structs@[index].name
                },
            },
    {
        let mut origins: Vec<AccountAddress> = Vec::new();
        let mut i: usize = 0;
        while i < bytecode.structs.len()
            invariant
                i <= bytecode.structs@.len(),
                origins@.len() == i,
                first_missing_origin(table@, name@, bytecode.structs@, 0) == first_missing_origin(
                    table@,
                    name@,
                    bytecode.structs@,
                    i as int,
                ),
                forall|j: int|
                    0 <= j < i ==> type_origin(table@, name@, #[trigger] bytecode.structs@[j].name@)
                        == Some(origins@[j]),
            decreases bytecode.structs@.len() - i,
        {
            match find_type_origin(table, &name, &bytecode.structs[i].name) {
                Some(origin) => origins.push(origin),
                None => {
                    let missing = bytecode.structs[i].name.clone();
                    return Err((name, missing));
                },
            }
            i += 1;
        }
        Ok(Module { name, bytecode, origins })
    }

    /// The struct `name` of the module with its defining package: the first
    /// struct of that name, if the module has a defining package for it.
    pub open spec fn struct_named(&self, name: Seq<char>) -> Option<(AccountAddress, StructDef)> {
        match struct_index(self.bytecode.structs@, name, 0) {
            Some(index) => if index < self.origins@.len() {
                Some((self.origins@[index], self.bytecode.structs@[index]))
            } else {
                None
            },
            None => None,
        }
    }

    /// Computes [`Module::struct_named`].
    pub fn struct_def(&self, name: &String) -> (found: Option<(AccountAddress, &StructDef)>)
        ensures
            match found {
                Some((origin, def)) => self.struct_named(name@) == Some((origin, *def)),
                None => self.struct_named(name@) is None,
            },
    {
        let mut i: usize = 0;
        while i < self.bytecode.structs.len()
            invariant
                i <= self.bytecode.structs@.len(),
                struct_index(self.bytecode.structs@, name@, 0) == struct_index(
                    self.bytecode.structs@,
                    name@,
                    i as int,
                ),
            decreases self.bytecode.structs@.len() - i,
        {
            if self.bytecode.structs[i].name == *name {
                if i < self.origins.len() {
                    return Some((self.origins[i], &self.bytecode.structs[i]));
                } else {
                    return None;
                }
            }
            i += 1;
        }
        None
    }
}

/// The index of the first struct at or after `from` that has the name `name`.
pub open spec fn struct_index(structs: Seq<StructDef>, name: Seq<char>, from: int) -> Option<int>
    decreases structs.len() - from,
{
    if from < 0 || from >= structs.len() {
        None
    } else if structs[from].name@ == name {
        Some(from)
    } else {
        struct_index(structs, name, from + 1)
    }
}

/// The index of the first module at or after `from` that has the name `name`.
pub open spec fn module_index(modules: Seq<Module>, name: Seq<char>, from: int) -> Option<int>
    decreases modules.len() - from,
{
    if from < 0 || from >= modules.len() {
        None
    } else if modules[from].name@ == name {
        Some(from)
    } else {
        module_index(modules, name, from + 1)
    }
}

/// Looks up the defining package of a struct in a type-origin table.
pub fn find_type_origin(table: &Vec<TypeOrigin>, module: &String, name: &String) -> (origin: Option<
    AccountAddress,
>)
    ensures
        origin == type_origin(table@, module@, name@),
{
    let mut i: usize = table.len();
    assert(table@.take(i as int) =~= table@);
    while i > 0
        invariant
            i <= table@.len(),
            type_origin(table@, module@, name@) == type_origin(
                table@.take(i as int),
                module@,
                name@,
            ),
        decreases i,
    {
        i -= 1;
        proof {
            let prefix = table@.take(i + 1);
            assert(prefix.last() == table@[i as int]);
            assert(prefix.drop_last() =~= table@.take(i as int));
        }
        if table[i].module_name == *module && table[i].struct_name == *name {
            return Some(table[i].package);
        }
    }
    None
}

impl Package {
    /// There is at least one module, every module has one defining package
    /// for each of its structs, no two modules have the same name, and no
    /// dependency is linked twice.
    pub open spec fn wf(&self) -> bool {
        &&& self.modules@.len() > 0
        &&& forall|i: int| 0 <= i < self.modules@.len() ==> (#[trigger] self.modules@[i]).wf()
        &&& forall|i: int, j: int|
            0 <= i < j < self.modules@.len() ==> (#[trigger] self.modules@[i]).name@ != (
            #[trigger] self.modules@[j]).name@
        &&& distinct_keys(self.linkage@)
    }

    /// The first module that has the name `name`.
    pub open spec fn module_named(&self, name: Seq<char>) -> Option<Module> {
        match module_index(self.modules@, name, 0) {
            Some(index) => Some(self.modules@[index]),
            None => None,
        }
    }

    /// Computes [`Package::module_named`].
    pub fn module(&self, name: &String) -> (found: Option<&Module>)
        ensures
            match found {
                Some(module) => self.module_named(name@) == Some(*module),
                None => self.module_named(name@) is None,
            },
    {
        let mut i: usize = 0;
        while i < self.modules.len()
            invariant
                i <= self.modules@.len(),
                module_index(self.modules@, name@, 0) == module_index(self.modules@, name@, i as int),
            decreases self.modules@.len() - i,
        {
            if self.modules[i].name == *name {
                return Some(&self.modules[i]);
            }
            i += 1;
        }
        None
    }

    /// The struct `name` of the module `module`, with its defining package.
    pub open spec fn struct_named(&self, module: Seq<char>, name: Seq<char>) -> Option<
        (AccountAddress, StructDef),
    > {
        match self.module_named(module) {
            Some(found) => found.struct_named(name),
            None => None,
        }
    }

    /// Computes [`Package::struct_named`].
    pub fn struct_def(&self, module: &String, name: &String) -> (found: Option<
        (AccountAddress, &StructDef),
    >)
        ensures
            match found {
                Some((origin, def)) => self.struct_named(module@, name@) == Some((origin, *def)),
                None => self.struct_named(module@, name@) is None,
            },
    {
        match self.module(module) {
            Some(found) => found.struct_def(name),
            None => None,
        }
    }

    /// The address of the object that holds the package which the modules
    /// of this package know under the address `runtime_id`: this package
    /// itself, or one of its dependencies, as its linkage says.
    pub open spec fn relocated(&self, runtime_id: AccountAddress) -> Option<AccountAddress> {
        if runtime_id == self.runtime_id {
            Some(self.storage_id)
        } else {
            value_of(self.linkage@, runtime_id)
        }
    }

    /// Computes [`Package::relocated`].
    pub fn relocate(&self, runtime_id: AccountAddress) -> (found: Option<AccountAddress>)
        ensures
            found == self.relocated(runtime_id),
    {
        if runtime_id == self.runtime_id {
            return Some(self.storage_id);
        }
        let mut i: usize = 0;
        while i < self.linkage.len()
            invariant
                runtime_id != self.runtime_id,
                i <= self.linkage@.len(),
                position(self.linkage@, runtime_id) == position_from(
                    self.linkage@,
                    runtime_id,
                    i as int,
                ),
            decreases self.linkage@.len() - i,
        {
            let entry: &(AccountAddress, AccountAddress) = &self.linkage[i];
            if entry.0 == runtime_id {
                return Some(entry.1);
            }
            i += 1;
        }
        None
    }

    /// Whether the package is what `object` holds, materialized under the
    /// address `id` and the version `version`: module for module what the
    /// object holds, read against its type-origin table; the runtime id of
    /// the last module; and the linkage that the object declares.
    pub open spec fn materializes(&self, id: AccountAddress, version: u64, object: Object) -> bool {
        &&& object.data matches Data::Package(source)
        &&& self.storage_id == id
        &&& self.version == version
        &&& self.modules@.len() == source.modules@.len()
        &&& self.modules@.len() > 0
        &&& forall|i: int|
            0 <= i < self.modules@.len() ==> (#[trigger] self.modules@[i]).reads(
                source.modules@[i],
                source.type_origin_table@,
            )
        &&& self.runtime_id == self.modules@.last().bytecode.address
        &&& self.linkage@.len() == source.linkage_table@.len()
        &&& forall|i: int|
            0 <= i < self.linkage@.len() ==> #[trigger] self.linkage@[i] == (
                source.linkage_table@[i].0,
                source.linkage_table@[i].1.upgraded_id,
            )
    }
}

/// A package materialized from a well-formed object is well-formed: the names
/// of its modules and the runtime ids of its dependencies are those of the
/// object, which files modules and dependencies by them.
pub proof fn law_materialized_is_wf(package: Package, id: AccountAddress, version: u64, object: Object)
    requires
        package.materializes(id, version, object),
        object.data matches Data::Package(source) && source.wf(),
    ensures
        package.wf(),
{
    let source = object.data->Package_0;
    assert forall|i: int, j: int| 0 <= i < j < package.modules@.len() implies (
    #[trigger] package.modules@[i]).name@ != (#[trigger] package.modules@[j]).name@ by {
        assert(package.modules@[i].reads(source.modules@[i], source.type_origin_table@));
        assert(package.modules@[j].reads(source.modules@[j], source.type_origin_table@));
    }
    assert forall|i: int, j: int| 0 <= i < j < package.linkage@.len() implies (
    #[trigger] package.linkage@[i]).0 != (#[trigger] package.linkage@[j]).0 by {
        assert(package.linkage@[i].0 == source.linkage_table@[i].0);
        assert(package.linkage@[j].0 == source.linkage_table@[j].0);
    }
    assert forall|i: int| 0 <= i < package.modules@.len() implies (
    #[trigger] package.modules@[i]).wf() by {
        assert(package.modules@[i].reads(source.modules@[i], source.type_origin_table@));
    }
}

/// In a well-formed package a module is found by its name, wherever it
/// stands: no other module has that name.
pub proof fn law_module_is_found_by_name(package: Package, index: int)
    requires
        package.wf(),
        0 <= index < package.modules@.len(),
    ensures
        package.module_named(package.modules@[index].name@) == Some(package.modules@[index]),
{
    lemma_module_index(package.modules@, package.modules@[index].name@, 0);
}

/// In a well-formed package a dependency is found by its runtime id,
/// wherever its entry stands in the linkage: no other entry has that id.
pub proof fn law_dependency_is_found_by_runtime_id(package: Package, index: int)
    requires
        package.wf(),
        0 <= index < package.linkage@.len(),
        package.linkage@[index].0 != package.runtime_id,
    ensures
        package.relocated(package.linkage@[index].0) == Some(package.linkage@[index].1),
{
    lemma_position_distinct(package.linkage@, package.linkage@[index].0, index);
}

/// What `module_index` finds is the first module with the name, and it finds
/// nothing only where no module has the name.
pub proof fn lemma_module_index(modules: Seq<Module>, name: Seq<char>, from: int)
    requires
        0 <= from,
    ensures
        match module_index(modules, name, from) {
            Some(index) => {
                &&& from <= index < modules.len()
                &&& modules[index].name@ == name
                &&& forall|j: int| from <= j < index ==> (#[trigger] modules[j]).name@ != name
            },
            None => forall|j: int| from <= j < modules.len() ==> (#[trigger] modules[j]).name@ != name,
        },
    decreases modules.len() - from,
{
    if from < modules.len() && modules[from].name@ != name {
        lemma_module_index(modules, name, from + 1);
    }
}

/// Materializes the package that `object` holds, under the address `id` and
/// the version `version`.
///
/// Fails with `NotAPackage` where the object is no package; with the error of
/// the first module that cannot be read, `Deserialize` for bytes that are not
/// well-formed and `NoTypeOrigin` for a struct that the type-origin table
/// lacks; and with `EmptyPackage` where there is no module at all.
pub fn make_package(id: AccountAddress, version: u64, object: Object) -> (result: Result<
    Package,
    Error,
>)
    ensures
        match result {
            Ok(package) => materialize_error(id, object) is None && package.materializes(
                id,
                version,
                object,
            ),
            Err(error) => materialize_error(id, object) == Some(error),
        },
        result matches Ok(package) ==> (object.data matches Data::Package(source) && source.wf()
            ==> package.wf()),
{
    let source = match object.data {
        Data::Package(source) => source,
        Data::Move => {
            return Err(Error::NotAPackage(id));
        },
    };
    let MovePackage { modules: decoded, type_origin_table, linkage_table } = source;
    let ghost table = type_origin_table@;
    let ghost sources = decoded@;

    let mut runtime_id: Option<AccountAddress> = None;
    let mut modules: Vec<Module> = Vec::new();
    for entry in it: decoded
        invariant
            object.data matches Data::Package(held) && held.modules@ == sources
                && held.type_origin_table@ == table,
            table == type_origin_table@,
            modules@.len() == it.index(),
            it.seq() == sources,
            first_module_error(id, table, sources, 0) == first_module_error(
                id,
                table,
                sources,
                it.index() as int,
            ),
            forall|i: int|
                0 <= i < modules@.len() ==> (#[trigger] modules@[i]).reads(sources[i], table),
            match runtime_id {
                Some(address) => modules@.len() > 0 && address == modules@.last().bytecode.address,
                None => modules@.len() == 0,
            },
    {
        let DecodedModule { name, bytecode } = entry;
        let bytecode = match bytecode {
            Bytecode::Wellformed(bytecode) => bytecode,
            Bytecode::Malformed(message) => {
                return Err(Error::Deserialize(message));
            },
        };
        runtime_id = Some(bytecode.address);
        match Module::read(name, bytecode, &type_origin_table) {
            Ok(module) => modules.push(module),
            Err((module, missing)) => {
                return Err(Error::NoTypeOrigin(id, module, missing));
            },
        }
    }

    let runtime_id = match runtime_id {
        Some(runtime_id) => runtime_id,
        None => {
            return Err(Error::EmptyPackage(id));
        },
    };

    let mut linkage: Vec<(AccountAddress, AccountAddress)> = Vec::new();
    let mut i: usize = 0;
    while i < linkage_table.len()
        invariant
            i <= linkage_table@.len(),
            linkage@.len() == i,
            forall|j: int|
                0 <= j < i ==> #[trigger] linkage@[j] == (
                    linkage_table@[j].0,
                    linkage_table@[j].1.upgraded_id,
                ),
        decreases linkage_table@.len() - i,
    {
        let entry: &(AccountAddress, UpgradeInfo) = &linkage_table[i];
        linkage.push((entry.0, entry.1.upgraded_id));
        i += 1;
    }

    let package = Package { storage_id: id, runtime_id, version, modules, linkage };
    proof {
        if object.data->Package_0.wf() {
            law_materialized_is_wf(package, id, version, object);
        }
    }
    Ok(package)
}

} // verus!

