use package_resolver::address::AccountAddress;
use package_resolver::bytecode::{CompiledModule, DatatypeKey, FieldDef, Signature, StructDef};
use package_resolver::cache::PackageCache;
use package_resolver::error::Error;
use package_resolver::layout::{
    MoveFieldLayout, MoveStructLayout, MoveTypeLayout, StructTag, TypeTag,
};
use package_resolver::object::{
    Bytecode, Data, DecodedModule, MovePackage, Object, TypeOrigin, UpgradeInfo,
};
use package_resolver::package::{make_package, Package};
use package_resolver::resolve::{ResolutionContext, Unresolved};
use package_resolver::store::PackageStore;
use std::cell::RefCell;
use std::rc::Rc;
use std::sync::Arc;

fn addr(n: u128) -> AccountAddress {
    AccountAddress::new(0, n)
}

fn key(package: u128, module: &str, name: &str) -> DatatypeKey {
    DatatypeKey { package: addr(package), module: module.to_string(), name: name.to_string() }
}

fn datatype(package: u128, module: &str, name: &str, arguments: Vec<Signature>) -> Signature {
    Signature::Datatype(key(package, module, name), arguments)
}

fn strukt(name: &str, type_params: usize, fields: Vec<(&str, Signature)>) -> StructDef {
    StructDef {
        name: name.to_string(),
        type_params,
        fields: fields
            .into_iter()
            .map(|(name, signature)| FieldDef { name: name.to_string(), signature })
            .collect(),
    }
}

/// A package of one module. Each struct comes with the package that first
/// defined it.
fn package(
    id: u128,
    runtime: u128,
    module: &str,
    structs: Vec<(u128, StructDef)>,
    linkage: Vec<(u128, u128)>,
) -> Object {
    let type_origin_table = structs
        .iter()
        .map(|(origin, def)| TypeOrigin {
            module_name: module.to_string(),
            struct_name: def.name.clone(),
            package: addr(*origin),
        })
        .collect();
    Object {
        id: addr(id),
        version: 1,
        data: Data::Package(MovePackage {
            modules: vec![DecodedModule {
                name: module.to_string(),
                bytecode: Bytecode::Wellformed(CompiledModule {
                    address: addr(runtime),
                    name: module.to_string(),
                    structs: structs.into_iter().map(|(_, def)| def).collect(),
                }),
            }],
            type_origin_table,
            linkage_table: linkage
                .into_iter()
                .map(|(dep, upgraded)| {
                    (addr(dep), UpgradeInfo { upgraded_id: addr(upgraded), upgraded_version: 1 })
                })
                .collect(),
        }),
    }
}

fn materialized(object: Object) -> Arc<Package> {
    Arc::new(make_package(object.id, object.version, object).unwrap())
}

fn tag(address: u128, module: &str, name: &str, type_params: Vec<TypeTag>) -> TypeTag {
    TypeTag::Struct(StructTag {
        address: addr(address),
        module: module.to_string(),
        name: name.to_string(),
        type_params,
    })
}

fn layout(
    address: u128,
    module: &str,
    name: &str,
    type_params: Vec<TypeTag>,
    fields: Vec<(&str, MoveTypeLayout)>,
) -> MoveTypeLayout {
    MoveTypeLayout::Struct(MoveStructLayout {
        type_: StructTag {
            address: addr(address),
            module: module.to_string(),
            name: name.to_string(),
            type_params,
        },
        fields: fields
            .into_iter()
            .map(|(name, layout)| MoveFieldLayout { name: name.to_string(), layout })
            .collect(),
    })
}

fn unresolved(package: u128, module: &str, name: &str) -> Unresolved {
    Unresolved::Failed(Error::UnresolvedType(key(package, module, name)))
}

fn context(packages: Vec<Object>) -> ResolutionContext {
    let mut context = ResolutionContext::new();
    for object in packages {
        context.add_package(object.id, materialized(object));
    }
    context
}

/// The dependency as it was first published: `B` has one field.
fn dep_v0() -> Object {
    package(0xd0, 0xd0, "dep", vec![(0xd0, strukt("B", 0, vec![("x", Signature::U64)]))], vec![])
}

/// An upgrade of the dependency. It adds `C`. Its own text of `B` differs
/// from the first one, which no upgrade could do: the difference shows
/// which text a layout was built from.
fn dep_v1() -> Object {
    package(
        0xd1,
        0xd0,
        "dep",
        vec![
            (0xd0, strukt("B", 0, vec![("stale", Signature::U8)])),
            (0xd1, strukt("C", 0, vec![("y", Signature::Bool)])),
        ],
        vec![],
    )
}

/// A package whose struct `A` holds a `B` of the dependency, which it links
/// at the upgrade.
fn app() -> Object {
    package(
        0xa0,
        0xa0,
        "app",
        vec![(
            0xa0,
            strukt("A", 0, vec![("b", datatype(0xd0, "dep", "B", vec![])), ("n", Signature::U8)]),
        )],
        vec![(0xd0, 0xd1)],
    )
}

#[test]
fn primitive_tags_resolve_without_packages() {
    let context = ResolutionContext::new();
    assert_eq!(context.resolve_type_tag(&TypeTag::Bool), Ok(MoveTypeLayout::Bool));
    assert_eq!(context.resolve_type_tag(&TypeTag::U8), Ok(MoveTypeLayout::U8));
    assert_eq!(context.resolve_type_tag(&TypeTag::U16), Ok(MoveTypeLayout::U16));
    assert_eq!(context.resolve_type_tag(&TypeTag::U32), Ok(MoveTypeLayout::U32));
    assert_eq!(context.resolve_type_tag(&TypeTag::U64), Ok(MoveTypeLayout::U64));
    assert_eq!(context.resolve_type_tag(&TypeTag::U128), Ok(MoveTypeLayout::U128));
    assert_eq!(context.resolve_type_tag(&TypeTag::U256), Ok(MoveTypeLayout::U256));
    assert_eq!(context.resolve_type_tag(&TypeTag::Address), Ok(MoveTypeLayout::Address));
    assert_eq!(context.resolve_type_tag(&TypeTag::Signer), Ok(MoveTypeLayout::Signer));
    assert_eq!(
        context.resolve_type_tag(&TypeTag::Vector(Box::new(TypeTag::Vector(Box::new(TypeTag::U8))))),
        Ok(MoveTypeLayout::Vector(Box::new(MoveTypeLayout::Vector(Box::new(MoveTypeLayout::U8)))))
    );
}

#[test]
fn a_struct_needs_its_package() {
    let context = ResolutionContext::new();
    assert_eq!(
        context.resolve_type_tag(&tag(0xd0, "dep", "B", vec![])),
        Err(Unresolved::Missing(addr(0xd0)))
    );
    assert_eq!(
        context.resolve_type_tag(&TypeTag::Vector(Box::new(tag(0xd0, "dep", "B", vec![])))),
        Err(Unresolved::Missing(addr(0xd0)))
    );
}

#[test]
fn a_struct_is_laid_out_field_by_field() {
    let context = context(vec![dep_v0()]);
    assert_eq!(
        context.resolve_type_tag(&tag(0xd0, "dep", "B", vec![])),
        Ok(layout(0xd0, "dep", "B", vec![], vec![("x", MoveTypeLayout::U64)]))
    );
}

#[test]
fn a_tag_that_names_an_upgrade_is_laid_out_by_the_defining_package() {
    let upgrade_only = context(vec![dep_v1()]);
    assert_eq!(
        upgrade_only.resolve_type_tag(&tag(0xd1, "dep", "B", vec![])),
        Err(Unresolved::Missing(addr(0xd0)))
    );
    let both = context(vec![dep_v1(), dep_v0()]);
    assert_eq!(
        both.resolve_type_tag(&tag(0xd1, "dep", "B", vec![])),
        Ok(layout(0xd0, "dep", "B", vec![], vec![("x", MoveTypeLayout::U64)]))
    );
    assert_eq!(
        both.resolve_type_tag(&tag(0xd1, "dep", "C", vec![])),
        Ok(layout(0xd1, "dep", "C", vec![], vec![("y", MoveTypeLayout::Bool)]))
    );
}

#[test]
fn a_nested_struct_is_gathered_through_the_linkage_and_laid_out_by_its_defining_package() {
    let a = tag(0xa0, "app", "A", vec![]);
    let mut context = ResolutionContext::new();
    assert_eq!(context.resolve_type_tag(&a), Err(Unresolved::Missing(addr(0xa0))));
    context.add_package(addr(0xa0), materialized(app()));
    assert_eq!(context.resolve_type_tag(&a), Err(Unresolved::Missing(addr(0xd1))));
    context.add_package(addr(0xd1), materialized(dep_v1()));
    assert_eq!(context.resolve_type_tag(&a), Err(Unresolved::Missing(addr(0xd0))));
    context.add_package(addr(0xd0), materialized(dep_v0()));
    assert_eq!(
        context.resolve_type_tag(&a),
        Ok(layout(
            0xa0,
            "app",
            "A",
            vec![],
            vec![
                ("b", layout(0xd0, "dep", "B", vec![], vec![("x", MoveTypeLayout::U64)])),
                ("n", MoveTypeLayout::U8),
            ],
        ))
    );
}

/// A later upgrade of the dependency, which names the same defining
/// package for `B`.
fn dep_v2() -> Object {
    package(
        0xd2,
        0xd0,
        "dep",
        vec![
            (0xd0, strukt("B", 0, vec![("staler", Signature::Bool)])),
            (0xd1, strukt("C", 0, vec![("y", Signature::Bool)])),
            (0xd2, strukt("D", 0, vec![])),
        ],
        vec![],
    )
}

/// The package of `app`, linking the dependency at its later upgrade.
fn app_linking_v2() -> Object {
    package(
        0xa0,
        0xa0,
        "app",
        vec![(
            0xa0,
            strukt("A", 0, vec![("b", datatype(0xd0, "dep", "B", vec![])), ("n", Signature::U8)]),
        )],
        vec![(0xd0, 0xd2)],
    )
}

#[test]
fn the_linked_version_of_a_dependency_does_not_change_the_layout() {
    let a = tag(0xa0, "app", "A", vec![]);
    let older = context(vec![app(), dep_v1(), dep_v0()]);
    let newer = context(vec![app_linking_v2(), dep_v2(), dep_v0()]);
    let first = older.resolve_type_tag(&a).unwrap();
    let second = newer.resolve_type_tag(&a).unwrap();
    assert_eq!(first, second);
    assert_eq!(
        second,
        layout(
            0xa0,
            "app",
            "A",
            vec![],
            vec![
                ("b", layout(0xd0, "dep", "B", vec![], vec![("x", MoveTypeLayout::U64)])),
                ("n", MoveTypeLayout::U8),
            ],
        )
    );
}

#[derive(Clone, Default)]
struct Chain {
    fetched: Rc<RefCell<Vec<AccountAddress>>>,
}

impl PackageStore for Chain {
    fn version(&self, id: AccountAddress) -> Result<u64, Error> {
        self.fetch(id).map(|package| package.version)
    }

    fn fetch(&self, id: AccountAddress) -> Result<Package, Error> {
        self.fetched.borrow_mut().push(id);
        let object = match id.lo {
            0xa0 => app(),
            0xd0 => dep_v0(),
            0xd1 => dep_v1(),
            _ => return Err(Error::PackageNotFound(id)),
        };
        make_package(id, object.version, object)
    }

    fn update(&self, _object: &Object) -> Result<(), Error> {
        Ok(())
    }
}

#[test]
fn the_cache_gathers_the_packages_that_a_layout_needs() {
    let store = Chain::default();
    let mut cache = PackageCache::with_store(store.clone(), vec![]);
    let a = tag(0xa0, "app", "A", vec![]);
    assert_eq!(
        cache.type_layout(&a, 8),
        Ok(layout(
            0xa0,
            "app",
            "A",
            vec![],
            vec![
                ("b", layout(0xd0, "dep", "B", vec![], vec![("x", MoveTypeLayout::U64)])),
                ("n", MoveTypeLayout::U8),
            ],
        ))
    );
    assert_eq!(*store.fetched.borrow(), vec![addr(0xa0), addr(0xd1), addr(0xd0)]);
    assert!(cache.type_layout(&a, 8).is_ok());
    assert_eq!(store.fetched.borrow().len(), 3);
}

#[test]
fn the_cache_gathers_no_more_packages_than_it_may() {
    let store = Chain::default();
    let mut cache = PackageCache::with_store(store.clone(), vec![]);
    let a = tag(0xa0, "app", "A", vec![]);
    assert_eq!(cache.type_layout(&a, 0), Err(Unresolved::Missing(addr(0xa0))));
    assert_eq!(cache.type_layout(&a, 2), Err(Unresolved::Missing(addr(0xd0))));
    assert_eq!(store.fetched.borrow().len(), 2);
    assert!(cache.type_layout(&a, 3).is_ok());
    assert_eq!(cache.type_layout(&TypeTag::U8, 0), Ok(MoveTypeLayout::U8));
}

#[derive(Clone, Default)]
struct WithoutDependency;

impl PackageStore for WithoutDependency {
    fn version(&self, id: AccountAddress) -> Result<u64, Error> {
        self.fetch(id).map(|package| package.version)
    }

    fn fetch(&self, id: AccountAddress) -> Result<Package, Error> {
        match id.lo {
            0xa0 => make_package(id, 1, app()),
            0xd1 => Err(Error::Database("gone".to_string())),
            0xb0 => make_package(id, 1, package(0xb0, 0xb0, "g", vec![], vec![])),
            0xb1 => make_package(id, 1, Object { id, version: 1, data: Data::Move }),
            _ => Err(Error::PackageNotFound(id)),
        }
    }

    fn update(&self, _object: &Object) -> Result<(), Error> {
        Ok(())
    }
}

#[test]
fn the_error_of_the_call_for_a_needed_package_is_the_result() {
    let mut cache = PackageCache::with_store(WithoutDependency, vec![]);
    assert_eq!(
        cache.type_layout(&tag(0xa0, "app", "A", vec![]), 8),
        Err(Unresolved::Failed(Error::Database("gone".to_string())))
    );
    assert_eq!(
        cache.type_layout(&tag(0xb1, "m", "S", vec![]), 8),
        Err(Unresolved::Failed(Error::NotAPackage(addr(0xb1))))
    );
    assert_eq!(
        cache.type_layout(&TypeTag::Vector(Box::new(tag(0xc7, "m", "S", vec![]))), 8),
        Err(Unresolved::Failed(Error::PackageNotFound(addr(0xc7))))
    );
    assert_eq!(
        cache.type_layout(&tag(0xb0, "g", "S", vec![]), 8),
        Err(Unresolved::Failed(Error::UnresolvedType(key(0xb0, "g", "S"))))
    );
}

#[test]
fn the_cache_hands_on_the_error_of_the_store() {
    let mut cache = PackageCache::with_store(Chain::default(), vec![]);
    assert_eq!(
        cache.type_layout(&tag(0xee, "m", "S", vec![]), 8),
        Err(Unresolved::Failed(Error::PackageNotFound(addr(0xee))))
    );
}

fn generics() -> Object {
    package(
        0xb0,
        0xb0,
        "g",
        vec![
            (
                0xb0,
                strukt(
                    "Wrapper",
                    1,
                    vec![
                        ("inner", Signature::TypeParameter(0)),
                        ("items", Signature::Vector(Box::new(Signature::TypeParameter(0)))),
                    ],
                ),
            ),
            (
                0xb0,
                strukt(
                    "Pair",
                    2,
                    vec![
                        ("first", datatype(0xb0, "g", "Wrapper", vec![Signature::TypeParameter(1)])),
                        ("second", Signature::TypeParameter(0)),
                    ],
                ),
            ),
            (0xb0, strukt("Loose", 1, vec![("x", Signature::TypeParameter(3))])),
            (0xb0, strukt("Knot", 0, vec![("next", datatype(0xb0, "g", "Knot", vec![]))])),
            (0xb0, strukt("Stray", 0, vec![("x", datatype(0xcc, "far", "Away", vec![]))])),
            (0xb0, strukt("Short", 0, vec![("x", datatype(0xb0, "g", "Wrapper", vec![]))])),
            (0xb0, strukt("Lost", 0, vec![("x", datatype(0xb0, "g", "Nowhere", vec![]))])),
            (0xb0, strukt("Borrow", 0, vec![("x", Signature::Reference(Box::new(Signature::U8)))])),
        ],
        vec![],
    )
}

#[test]
fn type_parameters_stand_for_the_type_arguments() {
    let context = context(vec![generics()]);
    assert_eq!(
        context.resolve_type_tag(&tag(0xb0, "g", "Wrapper", vec![TypeTag::U64])),
        Ok(layout(
            0xb0,
            "g",
            "Wrapper",
            vec![TypeTag::U64],
            vec![
                ("inner", MoveTypeLayout::U64),
                ("items", MoveTypeLayout::Vector(Box::new(MoveTypeLayout::U64))),
            ],
        ))
    );
    assert_eq!(
        context.resolve_type_tag(&tag(0xb0, "g", "Pair", vec![TypeTag::Bool, TypeTag::Address])),
        Ok(layout(
            0xb0,
            "g",
            "Pair",
            vec![TypeTag::Bool, TypeTag::Address],
            vec![
                (
                    "first",
                    layout(
                        0xb0,
                        "g",
                        "Wrapper",
                        vec![TypeTag::Address],
                        vec![
                            ("inner", MoveTypeLayout::Address),
                            ("items", MoveTypeLayout::Vector(Box::new(MoveTypeLayout::Address))),
                        ],
                    ),
                ),
                ("second", MoveTypeLayout::Bool),
            ],
        ))
    );
}

#[test]
fn struct_arguments_are_named_by_their_defining_package() {
    let context = context(vec![generics(), dep_v1(), dep_v0()]);
    let b = || layout(0xd0, "dep", "B", vec![], vec![("x", MoveTypeLayout::U64)]);
    assert_eq!(
        context.resolve_type_tag(&tag(0xb0, "g", "Wrapper", vec![tag(0xd1, "dep", "B", vec![])])),
        Ok(layout(
            0xb0,
            "g",
            "Wrapper",
            vec![tag(0xd0, "dep", "B", vec![])],
            vec![("inner", b()), ("items", MoveTypeLayout::Vector(Box::new(b())))],
        ))
    );
}

#[test]
fn a_struct_that_its_package_lacks_is_unresolved() {
    let context = context(vec![generics()]);
    assert_eq!(
        context.resolve_type_tag(&tag(0xb0, "g", "Absent", vec![])),
        Err(unresolved(0xb0, "g", "Absent"))
    );
    assert_eq!(
        context.resolve_type_tag(&tag(0xb0, "h", "Wrapper", vec![TypeTag::U8])),
        Err(unresolved(0xb0, "h", "Wrapper"))
    );
    assert_eq!(
        context.resolve_type_tag(&tag(0xb0, "g", "Lost", vec![])),
        Err(unresolved(0xb0, "g", "Nowhere"))
    );
}

#[test]
fn a_wrong_number_of_type_arguments_is_unresolved() {
    let context = context(vec![generics()]);
    assert_eq!(
        context.resolve_type_tag(&tag(0xb0, "g", "Wrapper", vec![])),
        Err(unresolved(0xb0, "g", "Wrapper"))
    );
    assert_eq!(
        context.resolve_type_tag(&tag(0xb0, "g", "Wrapper", vec![TypeTag::U8, TypeTag::U8])),
        Err(unresolved(0xb0, "g", "Wrapper"))
    );
    assert_eq!(
        context.resolve_type_tag(&tag(0xb0, "g", "Short", vec![])),
        Err(unresolved(0xb0, "g", "Wrapper"))
    );
}

#[test]
fn a_type_parameter_without_argument_is_unresolved() {
    let context = context(vec![generics()]);
    assert_eq!(
        context.resolve_type_tag(&tag(0xb0, "g", "Loose", vec![TypeTag::U8])),
        Err(unresolved(0xb0, "g", "Loose"))
    );
}

#[test]
fn a_field_that_is_a_reference_is_unresolved() {
    let context = context(vec![generics()]);
    assert_eq!(
        context.resolve_type_tag(&tag(0xb0, "g", "Borrow", vec![])),
        Err(unresolved(0xb0, "g", "Borrow"))
    );
}

#[test]
fn a_struct_that_holds_itself_is_unresolved() {
    let context = context(vec![generics()]);
    assert_eq!(
        context.resolve_type_tag(&tag(0xb0, "g", "Knot", vec![])),
        Err(unresolved(0xb0, "g", "Knot"))
    );
}

#[test]
fn a_field_of_a_package_that_is_not_linked_is_unresolved() {
    let context = context(vec![generics()]);
    assert_eq!(
        context.resolve_type_tag(&tag(0xb0, "g", "Stray", vec![])),
        Err(unresolved(0xcc, "far", "Away"))
    );
}

#[test]
fn the_first_type_argument_that_fails_decides() {
    let context = context(vec![generics()]);
    assert_eq!(
        context.resolve_type_tag(&tag(
            0xb0,
            "g",
            "Pair",
            vec![tag(0xe1, "m", "S", vec![]), tag(0xe2, "m", "S", vec![])],
        )),
        Err(Unresolved::Missing(addr(0xe1)))
    );
}

#[test]
fn a_chain_of_structs_as_long_as_the_packages_define_resolves() {
    let chain = package(
        0xc0,
        0xc0,
        "c",
        vec![
            (0xc0, strukt("One", 0, vec![("next", datatype(0xc0, "c", "Two", vec![]))])),
            (0xc0, strukt("Two", 0, vec![("next", datatype(0xc0, "c", "Three", vec![]))])),
            (0xc0, strukt("Three", 0, vec![("end", Signature::Signer)])),
        ],
        vec![],
    );
    let context = context(vec![chain]);
    let three = layout(0xc0, "c", "Three", vec![], vec![("end", MoveTypeLayout::Signer)]);
    let two = layout(0xc0, "c", "Two", vec![], vec![("next", three)]);
    assert_eq!(
        context.resolve_type_tag(&tag(0xc0, "c", "One", vec![])),
        Ok(layout(0xc0, "c", "One", vec![], vec![("next", two)]))
    );
}

#[test]
fn copies_say_the_same() {
    let tag = tag(0xb0, "g", "Pair", vec![TypeTag::Vector(Box::new(TypeTag::U8)), TypeTag::U256]);
    assert_eq!(tag.duplicate(), tag);
    let layout = layout(
        0xb0,
        "g",
        "W",
        vec![TypeTag::U16],
        vec![("a", MoveTypeLayout::Vector(Box::new(MoveTypeLayout::U32)))],
    );
    assert_eq!(layout.duplicate(), layout);
    let key = key(1, "m", "S");
    assert_eq!(key.duplicate(), key);
}

#[test]
fn a_package_finds_modules_structs_and_dependencies() {
    let package = materialized(app());
    assert!(package.module(&"app".to_string()).is_some());
    assert!(package.module(&"dep".to_string()).is_none());
    let (origin, def) = package.struct_def(&"app".to_string(), &"A".to_string()).unwrap();
    assert_eq!(origin, addr(0xa0));
    assert_eq!(def.fields.len(), 2);
    assert!(package.struct_def(&"app".to_string(), &"B".to_string()).is_none());
    assert_eq!(package.relocate(addr(0xa0)), Some(addr(0xa0)));
    assert_eq!(package.relocate(addr(0xd0)), Some(addr(0xd1)));
    assert_eq!(package.relocate(addr(0xd1)), None);
    let upgrade = materialized(dep_v1());
    assert_eq!(upgrade.relocate(addr(0xd0)), Some(addr(0xd1)));
}
