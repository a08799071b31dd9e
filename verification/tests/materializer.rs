use package_resolver::address::AccountAddress;
use package_resolver::bytecode::{CompiledModule, FieldDef, Signature, StructDef};
use package_resolver::error::Error;
use package_resolver::object::{
    Bytecode, Data, DecodedModule, MovePackage, Object, TypeOrigin, UpgradeInfo,
};
use package_resolver::package::{find_type_origin, make_package, Module};

fn addr(n: u128) -> AccountAddress {
    AccountAddress::new(0, n)
}

fn strukt(name: &str, fields: Vec<(&str, Signature)>) -> StructDef {
    StructDef {
        name: name.to_string(),
        type_params: 0,
        fields: fields
            .into_iter()
            .map(|(name, signature)| FieldDef { name: name.to_string(), signature })
            .collect(),
    }
}

fn module(address: u128, name: &str, structs: Vec<StructDef>) -> DecodedModule {
    DecodedModule {
        name: name.to_string(),
        bytecode: Bytecode::Wellformed(CompiledModule {
            address: addr(address),
            name: name.to_string(),
            structs,
        }),
    }
}

fn origin(module: &str, name: &str, package: u128) -> TypeOrigin {
    TypeOrigin {
        module_name: module.to_string(),
        struct_name: name.to_string(),
        package: addr(package),
    }
}

fn package_object(
    id: u128,
    version: u64,
    modules: Vec<DecodedModule>,
    origins: Vec<TypeOrigin>,
    linkage: Vec<(u128, u128, u64)>,
) -> Object {
    Object {
        id: addr(id),
        version,
        data: Data::Package(MovePackage {
            modules,
            type_origin_table: origins,
            linkage_table: linkage
                .into_iter()
                .map(|(dep, upgraded_id, upgraded_version)| {
                    (addr(dep), UpgradeInfo { upgraded_id: addr(upgraded_id), upgraded_version })
                })
                .collect(),
        }),
    }
}

#[test]
fn an_object_that_is_no_package_is_refused() {
    let object = Object { id: addr(7), version: 3, data: Data::Move };
    assert_eq!(make_package(addr(7), 3, object), Err(Error::NotAPackage(addr(7))));
}

#[test]
fn a_package_without_modules_is_refused() {
    let object = package_object(7, 1, vec![], vec![origin("m", "S", 7)], vec![]);
    assert_eq!(make_package(addr(7), 1, object), Err(Error::EmptyPackage(addr(7))));
}

#[test]
fn malformed_bytecode_is_refused_with_the_decoder_message() {
    let modules = vec![
        module(7, "a", vec![]),
        DecodedModule { name: "b".to_string(), bytecode: Bytecode::Malformed("bad magic".to_string()) },
    ];
    let object = package_object(7, 1, modules, vec![], vec![]);
    assert_eq!(make_package(addr(7), 1, object), Err(Error::Deserialize("bad magic".to_string())));
}

#[test]
fn a_struct_without_type_origin_is_refused() {
    let modules = vec![module(7, "m", vec![strukt("S", vec![]), strukt("T", vec![]), strukt("U", vec![])])];
    let object = package_object(7, 1, modules, vec![origin("m", "S", 7), origin("n", "T", 7)], vec![]);
    assert_eq!(
        make_package(addr(7), 1, object),
        Err(Error::NoTypeOrigin(addr(7), "m".to_string(), "T".to_string()))
    );
}

#[test]
fn the_first_module_that_cannot_be_read_decides_the_error() {
    let modules = vec![
        module(7, "a", vec![strukt("S", vec![])]),
        DecodedModule { name: "b".to_string(), bytecode: Bytecode::Malformed("truncated".to_string()) },
    ];
    let object = package_object(7, 1, modules, vec![], vec![]);
    assert_eq!(
        make_package(addr(7), 1, object),
        Err(Error::NoTypeOrigin(addr(7), "a".to_string(), "S".to_string()))
    );

    let modules = vec![
        DecodedModule { name: "a".to_string(), bytecode: Bytecode::Malformed("truncated".to_string()) },
        module(7, "b", vec![strukt("S", vec![])]),
    ];
    let object = package_object(7, 1, modules, vec![], vec![]);
    assert_eq!(make_package(addr(7), 1, object), Err(Error::Deserialize("truncated".to_string())));
}

#[test]
fn a_malformed_module_counts_before_an_empty_package() {
    let modules =
        vec![DecodedModule { name: "a".to_string(), bytecode: Bytecode::Malformed("x".to_string()) }];
    let object = package_object(7, 1, modules, vec![], vec![]);
    assert_eq!(make_package(addr(7), 1, object), Err(Error::Deserialize("x".to_string())));
}

#[test]
fn materializing_reproduces_what_the_object_holds() {
    let modules = vec![
        module(5, "coin", vec![strukt("Coin", vec![("value", Signature::U64)]), strukt("Cap", vec![])]),
        module(5, "vault", vec![strukt("Vault", vec![("open", Signature::Bool)])]),
    ];
    let origins = vec![
        origin("coin", "Coin", 5),
        origin("vault", "Vault", 9),
        origin("coin", "Cap", 9),
        origin("other", "Unused", 5),
    ];
    let object = package_object(9, 4, modules, origins, vec![(1, 0x11, 3), (2, 0x22, 8)]);
    let package = make_package(addr(9), 4, object).unwrap();

    assert_eq!(package.storage_id, addr(9));
    assert_eq!(package.runtime_id, addr(5));
    assert_eq!(package.version, 4);
    let names: Vec<&str> = package.modules.iter().map(|m| m.name.as_str()).collect();
    assert_eq!(names, vec!["coin", "vault"]);
    assert_eq!(package.modules[0].origins, vec![addr(5), addr(9)]);
    assert_eq!(package.modules[1].origins, vec![addr(9)]);
    assert_eq!(package.modules[0].bytecode.structs.len(), 2);
    assert_eq!(package.modules[0].bytecode.structs[0].name, "Coin");
    assert_eq!(package.modules[0].bytecode.structs[0].fields[0].signature, Signature::U64);
    assert_eq!(package.linkage, vec![(addr(1), addr(0x11)), (addr(2), addr(0x22))]);
}

#[test]
fn the_runtime_id_is_that_of_the_last_module() {
    let modules = vec![module(5, "a", vec![]), module(6, "b", vec![])];
    let object = package_object(9, 1, modules, vec![], vec![]);
    assert_eq!(make_package(addr(9), 1, object).unwrap().runtime_id, addr(6));
}

#[test]
fn the_package_takes_the_address_and_version_it_is_materialized_under() {
    let object = package_object(9, 1, vec![module(5, "a", vec![])], vec![], vec![]);
    let package = make_package(addr(0x42), 17, object).unwrap();
    assert_eq!(package.storage_id, addr(0x42));
    assert_eq!(package.version, 17);
}

#[test]
fn the_last_line_of_the_type_origin_table_counts() {
    let table = vec![origin("m", "S", 1), origin("m", "T", 2), origin("m", "S", 3)];
    let m = "m".to_string();
    assert_eq!(find_type_origin(&table, &m, &"S".to_string()), Some(addr(3)));
    assert_eq!(find_type_origin(&table, &m, &"T".to_string()), Some(addr(2)));
    assert_eq!(find_type_origin(&table, &m, &"U".to_string()), None);
    assert_eq!(find_type_origin(&table, &"n".to_string(), &"S".to_string()), None);
    assert_eq!(find_type_origin(&vec![], &m, &"S".to_string()), None);
}

#[test]
fn reading_a_module_names_the_first_struct_without_origin() {
    let bytecode = CompiledModule {
        address: addr(1),
        name: "m".to_string(),
        structs: vec![strukt("A", vec![]), strukt("B", vec![]), strukt("C", vec![])],
    };
    let table = vec![origin("m", "A", 1)];
    assert_eq!(
        Module::read("m".to_string(), bytecode, &table),
        Err(("m".to_string(), "B".to_string()))
    );
}

#[test]
fn a_module_finds_its_structs_by_name() {
    let bytecode = CompiledModule {
        address: addr(1),
        name: "m".to_string(),
        structs: vec![strukt("A", vec![]), strukt("B", vec![("x", Signature::U8)])],
    };
    let table = vec![origin("m", "A", 1), origin("m", "B", 2)];
    let module = Module::read("m".to_string(), bytecode, &table).unwrap();
    let (origin, def) = module.struct_def(&"B".to_string()).unwrap();
    assert_eq!(origin, addr(2));
    assert_eq!(def.fields.len(), 1);
    assert!(module.struct_def(&"C".to_string()).is_none());
}
