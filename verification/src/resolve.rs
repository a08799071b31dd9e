//! Resolution of type tags to layouts, against packages gathered beforehand.
//!
//! A layout is resolved in rounds. Each round works on the packages that were
//! gathered so far and needs no store: it yields the layout, or the address
//! of a package that is missing, or the reason why the tag has no layout. The
//! caller fetches the missing package, adds it, and asks again.
//!
//! A struct is laid out as the package that first defined it declares it,
//! also where the tag, or the field of another struct, refers to a later
//! version of that package.

use crate::address::AccountAddress;
use crate::bytecode::{DatatypeKey, FieldDef, Signature, StructDef};
use crate::error::Error;
use crate::layout::{
    FieldLayoutView, LayoutView, MoveFieldLayout, MoveStructLayout, MoveTypeLayout, StructLayoutView,
    StructTag, StructTagView, TypeTag, TypeTagView,
};
use crate::package::{Module, Package};
use crate::recency::{position, position_from, value_of};
use std::sync::Arc;
use vstd::prelude::*;

verus! {

/// Why a round did not yield a layout.
#[derive(Debug, PartialEq, Eq)]
pub enum Unresolved {
    /// The package at this address is needed and was not gathered yet.
    Missing(AccountAddress),
    /// The tag has no layout.
    Failed(Error),
}

/// A struct as its defining package declares it.
pub struct Definition {
    /// The address of the package that first defined the struct.
    pub defining_id: AccountAddress,
    /// That package.
    pub home: Arc<Package>,
    /// The struct as that package declares it.
    pub def: StructDef,
}

/// The definition of the struct that `key` refers to. The package that `key`
/// names says which package first defined the struct; that package says how
/// the struct is declared. Both must have been gathered.
pub open spec fn definition(packages: Seq<(AccountAddress, Arc<Package>)>, key: DatatypeKey) -> Result<
    Definition,
    Unresolved,
> {
    match value_of(packages, key.package) {
        None => Err(Unresolved::Missing(key.package)),
        Some(package) => match package.struct_named(key.module@, key.name@) {
            None => Err(Unresolved::Failed(Error::UnresolvedType(key))),
            Some((defining_id, _)) => match value_of(packages, defining_id) {
                None => Err(Unresolved::Missing(defining_id)),
                Some(home) => match home.struct_named(key.module@, key.name@) {
                    None => Err(
                        Unresolved::Failed(
                            Error::UnresolvedType(
                                DatatypeKey {
                                    package: defining_id,
                                    module: key.module,
                                    name: key.name,
                                },
                            ),
                        ),
                    ),
                    Some((_, def)) => Ok(Definition { defining_id, home, def }),
                },
            },
        },
    }
}

/// A vector of what `element` resolved to.
pub open spec fn vector_of(element: Result<(TypeTagView, LayoutView), Unresolved>) -> Result<
    (TypeTagView, LayoutView),
    Unresolved,
> {
    match element {
        Ok((tag, layout)) => Ok(
            (TypeTagView::Vector(Box::new(tag)), LayoutView::Vector(Box::new(layout))),
        ),
        Err(unresolved) => Err(unresolved),
    }
}

/// The struct `name` of `module`, first defined by `defining_id`, with the
/// given type arguments and fields.
pub open spec fn struct_of(
    defining_id: AccountAddress,
    module: Seq<char>,
    name: Seq<char>,
    arguments: Seq<(TypeTagView, LayoutView)>,
    fields: Seq<FieldLayoutView>,
) -> (TypeTagView, LayoutView) {
    let type_ = StructTagView {
        address: defining_id,
        module,
        name,
        type_params: Seq::new(arguments.len(), |i: int| arguments[i].0),
    };
    (TypeTagView::Struct(type_), LayoutView::Struct(StructLayoutView { type_, fields }))
}

/// `done`, followed by `rest` where there is a rest.
pub open spec fn followed_by<T>(done: Seq<T>, rest: Result<Seq<T>, Unresolved>) -> Result<
    Seq<T>,
    Unresolved,
> {
    match rest {
        Ok(rest) => Ok(done + rest),
        Err(unresolved) => Err(unresolved),
    }
}

/// The tag and the layout that a field's declared type stands for in a
/// struct `owner` of the package `home` whose type parameters stand for
/// `arguments`. Struct definitions are followed `fuel` levels deep.
pub open spec fn signature_layout(
    packages: Seq<(AccountAddress, Arc<Package>)>,
    home: Package,
    owner: DatatypeKey,
    signature: Signature,
    arguments: Seq<(TypeTagView, LayoutView)>,
    fuel: nat,
) -> Result<(TypeTagView, LayoutView), Unresolved>
    decreases fuel, 0nat, signature, 0nat,
{
    match signature {
        Signature::Address => Ok((TypeTagView::Address, LayoutView::Address)),
        Signature::Bool => Ok((TypeTagView::Bool, LayoutView::Bool)),
        Signature::U8 => Ok((TypeTagView::U8, LayoutView::U8)),
        Signature::U16 => Ok((TypeTagView::U16, LayoutView::U16)),
        Signature::U32 => Ok((TypeTagView::U32, LayoutView::U32)),
        Signature::U64 => Ok((TypeTagView::U64, LayoutView::U64)),
        Signature::U128 => Ok((TypeTagView::U128, LayoutView::U128)),
        Signature::U256 => Ok((TypeTagView::U256, LayoutView::U256)),
        Signature::Signer => Ok((TypeTagView::Signer, LayoutView::Signer)),
        Signature::Vector(inner) => vector_of(
            signature_layout(packages, home, owner, *inner, arguments, fuel),
        ),
        Signature::TypeParameter(index) => if index < arguments.len() {
            Ok(arguments[index as int])
        } else {
            Err(Unresolved::Failed(Error::UnresolvedType(owner)))
        },
        Signature::Reference(_) => Err(Unresolved::Failed(Error::UnresolvedType(owner))),
        Signature::Datatype(key, inner) => match home.relocated(key.package) {
            None => Err(Unresolved::Failed(Error::UnresolvedType(key))),
            Some(address) => {
                let located = DatatypeKey { package: address, module: key.module, name: key.name };
                match definition(packages, located) {
                    Err(unresolved) => Err(unresolved),
                    Ok(found) => match signatures_layouts(
                        packages,
                        home,
                        owner,
                        inner@,
                        arguments,
                        fuel,
                        0,
                    ) {
                        Err(unresolved) => Err(unresolved),
                        Ok(inner_arguments) => if inner_arguments.len() != found.def.type_params
                            || fuel == 0 {
                            Err(Unresolved::Failed(Error::UnresolvedType(located)))
                        } else {
                            match fields_layouts(
                                packages,
                                *found.home,
                                DatatypeKey {
                                    package: found.defining_id,
                                    module: key.module,
                                    name: key.name,
                                },
                                found.def.fields@,
                                inner_arguments,
                                (fuel - 1) as nat,
                                0,
                            ) {
                                Err(unresolved) => Err(unresolved),
                                Ok(fields) => Ok(
                                    struct_of(
                                        found.defining_id,
                                        key.module@,
                                        key.name@,
                                        inner_arguments,
                                        fields,
                                    ),
                                ),
                            }
                        },
                    },
                }
            },
        },
    }
}

/// What the signatures from `from` on stand for, or the reason why the first
/// of them that stands for nothing does so.
pub open spec fn signatures_layouts(
    packages: Seq<(AccountAddress, Arc<Package>)>,
    home: Package,
    owner: DatatypeKey,
    signatures: Seq<Signature>,
    arguments: Seq<(TypeTagView, LayoutView)>,
    fuel: nat,
    from: int,
) -> Result<Seq<(TypeTagView, LayoutView)>, Unresolved>
    decreases fuel, 0nat, signatures, signatures.len() - from,
{
    if from < 0 || from >= signatures.len() {
        Ok(Seq::empty())
    } else {
        match signature_layout(packages, home, owner, signatures[from], arguments, fuel) {
            Err(unresolved) => Err(unresolved),
            Ok(first) => followed_by(
                seq![first],
                signatures_layouts(packages, home, owner, signatures, arguments, fuel, from + 1),
            ),
        }
    }
}

/// The layouts of the fields from `from` on, or the reason why the first of
/// them that has no layout has none.
pub open spec fn fields_layouts(
    packages: Seq<(AccountAddress, Arc<Package>)>,
    home: Package,
    owner: DatatypeKey,
    fields: Seq<FieldDef>,
    arguments: Seq<(TypeTagView, LayoutView)>,
    fuel: nat,
    from: int,
) -> Result<Seq<FieldLayoutView>, Unresolved>
    decreases fuel, 1nat, fields, fields.len() - from,
{
    if from < 0 || from >= fields.len() {
        Ok(Seq::empty())
    } else {
        match signature_layout(packages, home, owner, fields[from].signature, arguments, fuel) {
            Err(unresolved) => Err(unresolved),
            Ok((_, layout)) => followed_by(
                seq![FieldLayoutView { name: fields[from].name@, layout }],
                fields_layouts(packages, home, owner, fields, arguments, fuel, from + 1),
            ),
        }
    }
}

/// The tag, with every struct under the address of its defining package,
/// and the layout that `tag` resolves to against `packages`. Struct
/// definitions are followed `budget` levels below the structs of the tag.
pub open spec fn tag_layout(
    packages: Seq<(AccountAddress, Arc<Package>)>,
    tag: TypeTag,
    budget: nat,
) -> Result<(TypeTagView, LayoutView), Unresolved>
    decreases tag, 0nat,
{
    match tag {
        TypeTag::Address => Ok((TypeTagView::Address, LayoutView::Address)),
        TypeTag::Bool => Ok((TypeTagView::Bool, LayoutView::Bool)),
        TypeTag::U8 => Ok((TypeTagView::U8, LayoutView::U8)),
        TypeTag::U16 => Ok((TypeTagView::U16, LayoutView::U16)),
        TypeTag::U32 => Ok((TypeTagView::U32, LayoutView::U32)),
        TypeTag::U64 => Ok((TypeTagView::U64, LayoutView::U64)),
        TypeTag::U128 => Ok((TypeTagView::U128, LayoutView::U128)),
        TypeTag::U256 => Ok((TypeTagView::U256, LayoutView::U256)),
        TypeTag::Signer => Ok((TypeTagView::Signer, LayoutView::Signer)),
        TypeTag::Vector(inner) => vector_of(tag_layout(packages, *inner, budget)),
        TypeTag::Struct(tag) => {
            let key = DatatypeKey { package: tag.address, module: tag.module, name: tag.name };
            match definition(packages, key) {
                Err(unresolved) => Err(unresolved),
                Ok(found) => match tags_layouts(packages, tag.type_params@, budget, 0) {
                    Err(unresolved) => Err(unresolved),
                    Ok(arguments) => if arguments.len() != found.def.type_params {
                        Err(Unresolved::Failed(Error::UnresolvedType(key)))
                    } else {
                        match fields_layouts(
                            packages,
                            *found.home,
                            DatatypeKey {
                                package: found.defining_id,
                                module: tag.module,
                                name: tag.name,
                            },
                            found.def.fields@,
                            arguments,
                            budget,
                            0,
                        ) {
                            Err(unresolved) => Err(unresolved),
                            Ok(fields) => Ok(
                                struct_of(
                                    found.defining_id,
                                    tag.module@,
                                    tag.name@,
                                    arguments,
                                    fields,
                                ),
                            ),
                        }
                    },
                },
            }
        },
    }
}

/// What the tags from `from` on resolve to, or the reason why the first of
/// them that does not resolve does not.
pub open spec fn tags_layouts(
    packages: Seq<(AccountAddress, Arc<Package>)>,
    tags: Seq<TypeTag>,
    budget: nat,
    from: int,
) -> Result<Seq<(TypeTagView, LayoutView)>, Unresolved>
    decreases tags, tags.len() - from,
{
    if from < 0 || from >= tags.len() {
        Ok(Seq::empty())
    } else {
        match tag_layout(packages, tags[from], budget) {
            Err(unresolved) => Err(unresolved),
            Ok(first) => followed_by(
                seq![first],
                tags_layouts(packages, tags, budget, from + 1),
            ),
        }
    }
}

} // verus!

verus! {

/// What each of `pairs` says.
pub open spec fn pairs_view(pairs: Seq<(TypeTag, MoveTypeLayout)>) -> Seq<(TypeTagView, LayoutView)> {
    Seq::new(pairs.len(), |i: int| (pairs[i].0@, pairs[i].1@))
}

/// What a resolved tag and layout say.
pub open spec fn resolved_view(result: Result<(TypeTag, MoveTypeLayout), Unresolved>) -> Result<
    (TypeTagView, LayoutView),
    Unresolved,
> {
    match result {
        Ok((tag, layout)) => Ok((tag@, layout@)),
        Err(unresolved) => Err(unresolved),
    }
}

/// The package gathered under `id`.
fn find_package(packages: &Vec<(AccountAddress, Arc<Package>)>, id: AccountAddress) -> (found: Option<
    &Arc<Package>,
>)
    ensures
        match found {
            Some(package) => value_of(packages@, id) == Some(*package),
            None => value_of(packages@, id) is None,
        },
{
    let mut i: usize = 0;
    while i < packages.len()
        invariant
            i <= packages@.len(),
            position(packages@, id) == position_from(packages@, id, i as int),
        decreases packages@.len() - i,
    {
        let entry: &(AccountAddress, Arc<Package>) = &packages[i];
        if entry.0 == id {
            return Some(&entry.1);
        }
        i += 1;
    }
    None
}

/// Computes [`definition`].
fn find_definition<'a>(packages: &'a Vec<(AccountAddress, Arc<Package>)>, key: &DatatypeKey) -> (result:
    Result<(AccountAddress, &'a Arc<Package>, &'a StructDef), Unresolved>)
    ensures
        match result {
            Ok((defining_id, home, def)) => definition(packages@, *key) == Ok::<
                Definition,
                Unresolved,
            >(Definition { defining_id, home: *home, def: *def }),
            Err(unresolved) => definition(packages@, *key) == Err::<Definition, Unresolved>(
                unresolved,
            ),
        },
{
    let package = match find_package(packages, key.package) {
        Some(package) => package,
        None => {
            return Err(Unresolved::Missing(key.package));
        },
    };
    let defining_id = match package.struct_def(&key.module, &key.name) {
        Some((defining_id, _)) => defining_id,
        None => {
            return Err(Unresolved::Failed(Error::UnresolvedType(key.duplicate())));
        },
    };
    let home = match find_package(packages, defining_id) {
        Some(home) => home,
        None => {
            return Err(Unresolved::Missing(defining_id));
        },
    };
    match home.struct_def(&key.module, &key.name) {
        Some((_, def)) => Ok((defining_id, home, def)),
        None => Err(
            Unresolved::Failed(
                Error::UnresolvedType(
                    DatatypeKey {
                        package: defining_id,
                        module: key.module.clone(),
                        name: key.name.clone(),
                    },
                ),
            ),
        ),
    }
}

/// Computes [`struct_of`].
fn make_struct(
    defining_id: AccountAddress,
    module: &String,
    name: &String,
    arguments: &Vec<(TypeTag, MoveTypeLayout)>,
    fields: Vec<MoveFieldLayout>,
) -> (made: (TypeTag, MoveTypeLayout))
    ensures
        (made.0@, made.1@) == struct_of(
            defining_id,
            module@,
            name@,
            pairs_view(arguments@),
            crate::layout::fields_view(fields@),
        ),
{
    let mut type_params: Vec<TypeTag> = Vec::new();
    let mut i: usize = 0;
    while i < arguments.len()
        invariant
            i <= arguments@.len(),
            type_params@.len() == i,
            forall|j: int| 0 <= j < i ==> (#[trigger] type_params@[j])@ == arguments@[j].0@,
        decreases arguments@.len() - i,
    {
        let pair: &(TypeTag, MoveTypeLayout) = &arguments[i];
        type_params.push(pair.0.duplicate());
        i += 1;
    }
    let type_ = StructTag {
        address: defining_id,
        module: module.clone(),
        name: name.clone(),
        type_params,
    };
    assert(type_@.type_params =~= Seq::new(
        pairs_view(arguments@).len(),
        |i: int| pairs_view(arguments@)[i].0,
    ));
    let tag = TypeTag::Struct(type_.duplicate());
    (tag, MoveTypeLayout::Struct(MoveStructLayout { type_, fields }))
}

/// Computes [`signature_layout`].
#[verifier::loop_isolation(false)]
fn resolve_signature(
    packages: &Vec<(AccountAddress, Arc<Package>)>,
    home: &Package,
    owner: &DatatypeKey,
    signature: &Signature,
    arguments: &Vec<(TypeTag, MoveTypeLayout)>,
    fuel: usize,
) -> (result: Result<(TypeTag, MoveTypeLayout), Unresolved>)
    ensures
        resolved_view(result) == signature_layout(
            packages@,
            *home,
            *owner,
            *signature,
            pairs_view(arguments@),
            fuel as nat,
        ),
    decreases fuel, 0nat, signature, 0nat,
{
    match signature {
        Signature::Address => Ok((TypeTag::Address, MoveTypeLayout::Address)),
        Signature::Bool => Ok((TypeTag::Bool, MoveTypeLayout::Bool)),
        Signature::U8 => Ok((TypeTag::U8, MoveTypeLayout::U8)),
        Signature::U16 => Ok((TypeTag::U16, MoveTypeLayout::U16)),
        Signature::U32 => Ok((TypeTag::U32, MoveTypeLayout::U32)),
        Signature::U64 => Ok((TypeTag::U64, MoveTypeLayout::U64)),
        Signature::U128 => Ok((TypeTag::U128, MoveTypeLayout::U128)),
        Signature::U256 => Ok((TypeTag::U256, MoveTypeLayout::U256)),
        Signature::Signer => Ok((TypeTag::Signer, MoveTypeLayout::Signer)),
        Signature::Vector(inner) => match resolve_signature(
            packages,
            home,
            owner,
            inner,
            arguments,
            fuel,
        ) {
            Ok((tag, layout)) => Ok(
                (TypeTag::Vector(Box::new(tag)), MoveTypeLayout::Vector(Box::new(layout))),
            ),
            Err(unresolved) => Err(unresolved),
        },
        Signature::TypeParameter(index) => {
            let index = *index as usize;
            if index < arguments.len() {
                let pair: &(TypeTag, MoveTypeLayout) = &arguments[index];
                Ok((pair.0.duplicate(), pair.1.duplicate()))
            } else {
                Err(Unresolved::Failed(Error::UnresolvedType(owner.duplicate())))
            }
        },
        Signature::Reference(_) => Err(Unresolved::Failed(Error::UnresolvedType(owner.duplicate()))),
        Signature::Datatype(key, inner) => {
            let address = match home.relocate(key.package) {
                Some(address) => address,
                None => {
                    return Err(Unresolved::Failed(Error::UnresolvedType(key.duplicate())));
                },
            };
            let located = DatatypeKey {
                package: address,
                module: key.module.clone(),
                name: key.name.clone(),
            };
            let (defining_id, found_home, def) = match find_definition(packages, &located) {
                Ok(found) => found,
                Err(unresolved) => {
                    return Err(unresolved);
                },
            };
            let ghost all = signatures_layouts(
                packages@,
                *home,
                *owner,
                inner@,
                pairs_view(arguments@),
                fuel as nat,
                0,
            );
            let mut inner_arguments: Vec<(TypeTag, MoveTypeLayout)> = Vec::new();
            let mut i: usize = 0;
            assert(pairs_view(inner_arguments@) =~= Seq::empty());
            while i < inner.len()
                invariant
                    i <= inner@.len(),
                    all == followed_by(
                        pairs_view(inner_arguments@),
                        signatures_layouts(
                            packages@,
                            *home,
                            *owner,
                            inner@,
                            pairs_view(arguments@),
                            fuel as nat,
                            i as int,
                        ),
                    ),
                decreases inner@.len() - i,
            {
                let ghost before = pairs_view(inner_arguments@);
                match resolve_signature(packages, home, owner, &inner[i], arguments, fuel) {
                    Ok(pair) => {
                        inner_arguments.push(pair);
                        proof {
                            let one = (pair.0@, pair.1@);
                            assert(pairs_view(inner_arguments@) =~= before.push(one));
                            let rest = signatures_layouts(
                                packages@,
                                *home,
                                *owner,
                                inner@,
                                pairs_view(arguments@),
                                fuel as nat,
                                i + 1,
                            );
                            if let Ok(rest) = rest {
                                assert(before + (seq![one] + rest) =~= before.push(one) + rest);
                            }
                        }
                    },
                    Err(unresolved) => {
                        return Err(unresolved);
                    },
                }
                i += 1;
            }
            assert(pairs_view(inner_arguments@) + Seq::empty() =~= pairs_view(inner_arguments@));
            if inner_arguments.len() != def.type_params || fuel == 0 {
                return Err(Unresolved::Failed(Error::UnresolvedType(located)));
            }
            let defined = DatatypeKey {
                package: defining_id,
                module: key.module.clone(),
                name: key.name.clone(),
            };
            let fields = match resolve_fields(
                packages,
                found_home,
                &defined,
                &def.fields,
                &inner_arguments,
                fuel - 1,
            ) {
                Ok(fields) => fields,
                Err(unresolved) => {
                    return Err(unresolved);
                },
            };
            Ok(make_struct(defining_id, &key.module, &key.name, &inner_arguments, fields))
        },
    }
}

/// Computes [`fields_layouts`].
#[verifier::loop_isolation(false)]
fn resolve_fields(
    packages: &Vec<(AccountAddress, Arc<Package>)>,
    home: &Package,
    owner: &DatatypeKey,
    fields: &Vec<FieldDef>,
    arguments: &Vec<(TypeTag, MoveTypeLayout)>,
    fuel: usize,
) -> (result: Result<Vec<MoveFieldLayout>, Unresolved>)
    ensures
        match result {
            Ok(layouts) => fields_layouts(
                packages@,
                *home,
                *owner,
                fields@,
                pairs_view(arguments@),
                fuel as nat,
                0,
            ) == Ok::<Seq<FieldLayoutView>, Unresolved>(crate::layout::fields_view(layouts@)),
            Err(unresolved) => fields_layouts(
                packages@,
                *home,
                *owner,
                fields@,
                pairs_view(arguments@),
                fuel as nat,
                0,
            ) == Err::<Seq<FieldLayoutView>, Unresolved>(unresolved),
        },
    decreases fuel, 1nat, fields@, 0nat,
{
    let ghost all = fields_layouts(
        packages@,
        *home,
        *owner,
        fields@,
        pairs_view(arguments@),
        fuel as nat,
        0,
    );
    let mut layouts: Vec<MoveFieldLayout> = Vec::new();
    let mut i: usize = 0;
    assert(crate::layout::fields_view(layouts@) =~= Seq::empty());
    while i < fields.len()
        invariant
            i <= fields@.len(),
            all == followed_by(
                crate::layout::fields_view(layouts@),
                fields_layouts(
                    packages@,
                    *home,
                    *owner,
                    fields@,
                    pairs_view(arguments@),
                    fuel as nat,
                    i as int,
                ),
            ),
        decreases fields@.len() - i,
    {
        let ghost before = crate::layout::fields_view(layouts@);
        match resolve_signature(packages, home, owner, &fields[i].signature, arguments, fuel) {
            Ok((_, layout)) => {
                let field = MoveFieldLayout { name: fields[i].name.clone(), layout };
                layouts.push(field);
                proof {
                    let one = field@;
                    assert(crate::layout::fields_view(layouts@) =~= before.push(one));
                    let rest = fields_layouts(
                        packages@,
                        *home,
                        *owner,
                        fields@,
                        pairs_view(arguments@),
                        fuel as nat,
                        i + 1,
                    );
                    if let Ok(rest) = rest {
                        assert(before + (seq![one] + rest) =~= before.push(one) + rest);
                    }
                }
            },
            Err(unresolved) => {
                return Err(unresolved);
            },
        }
        i += 1;
    }
    assert(crate::layout::fields_view(layouts@) + Seq::empty() =~= crate::layout::fields_view(
        layouts@,
    ));
    Ok(layouts)
}

/// Computes [`tag_layout`].
#[verifier::loop_isolation(false)]
fn resolve_tag(packages: &Vec<(AccountAddress, Arc<Package>)>, tag: &TypeTag, budget: usize) -> (result:
    Result<(TypeTag, MoveTypeLayout), Unresolved>)
    ensures
        resolved_view(result) == tag_layout(packages@, *tag, budget as nat),
    decreases tag,
{
    match tag {
        TypeTag::Address => Ok((TypeTag::Address, MoveTypeLayout::Address)),
        TypeTag::Bool => Ok((TypeTag::Bool, MoveTypeLayout::Bool)),
        TypeTag::U8 => Ok((TypeTag::U8, MoveTypeLayout::U8)),
        TypeTag::U16 => Ok((TypeTag::U16, MoveTypeLayout::U16)),
        TypeTag::U32 => Ok((TypeTag::U32, MoveTypeLayout::U32)),
        TypeTag::U64 => Ok((TypeTag::U64, MoveTypeLayout::U64)),
        TypeTag::U128 => Ok((TypeTag::U128, MoveTypeLayout::U128)),
        TypeTag::U256 => Ok((TypeTag::U256, MoveTypeLayout::U256)),
        TypeTag::Signer => Ok((TypeTag::Signer, MoveTypeLayout::Signer)),
        TypeTag::Vector(inner) => match resolve_tag(packages, inner, budget) {
            Ok((tag, layout)) => Ok(
                (TypeTag::Vector(Box::new(tag)), MoveTypeLayout::Vector(Box::new(layout))),
            ),
            Err(unresolved) => Err(unresolved),
        },
        TypeTag::Struct(tag) => {
            let key = DatatypeKey {
                package: tag.address,
                module: tag.module.clone(),
                name: tag.name.clone(),
            };
            let (defining_id, home, def) = match find_definition(packages, &key) {
                Ok(found) => found,
                Err(unresolved) => {
                    return Err(unresolved);
                },
            };
            let ghost all = tags_layouts(packages@, tag.type_params@, budget as nat, 0);
            let mut arguments: Vec<(TypeTag, MoveTypeLayout)> = Vec::new();
            let mut i: usize = 0;
            assert(pairs_view(arguments@) =~= Seq::empty());
            while i < tag.type_params.len()
                invariant
                    i <= tag.type_params@.len(),
                    all == followed_by(
                        pairs_view(arguments@),
                        tags_layouts(packages@, tag.type_params@, budget as nat, i as int),
                    ),
                decreases tag.type_params@.len() - i,
            {
                let ghost before = pairs_view(arguments@);
                match resolve_tag(packages, &tag.type_params[i], budget) {
                    Ok(pair) => {
                        arguments.push(pair);
                        proof {
                            let one = (pair.0@, pair.1@);
                            assert(pairs_view(arguments@) =~= before.push(one));
                            let rest = tags_layouts(
                                packages@,
                                tag.type_params@,
                                budget as nat,
                                i + 1,
                            );
                            if let Ok(rest) = rest {
                                assert(before + (seq![one] + rest) =~= before.push(one) + rest);
                            }
                        }
                    },
                    Err(unresolved) => {
                        return Err(unresolved);
                    },
                }
                i += 1;
            }
            assert(pairs_view(arguments@) + Seq::empty() =~= pairs_view(arguments@));
            if arguments.len() != def.type_params {
                return Err(Unresolved::Failed(Error::UnresolvedType(key)));
            }
            let defined = DatatypeKey {
                package: defining_id,
                module: tag.module.clone(),
                name: tag.name.clone(),
            };
            let fields = match resolve_fields(
                packages,
                home,
                &defined,
                &def.fields,
                &arguments,
                budget,
            ) {
                Ok(fields) => fields,
                Err(unresolved) => {
                    return Err(unresolved);
                },
            };
            Ok(make_struct(defining_id, &tag.module, &tag.name, &arguments, fields))
        },
    }
}

} // verus!

verus! {

/// `count`, or the largest `usize` where `count` is larger.
pub open spec fn capped(count: nat) -> nat {
    if count > usize::MAX {
        usize::MAX as nat
    } else {
        count
    }
}

/// The number of structs that the first `upto` of `modules` define.
pub open spec fn modules_structs(modules: Seq<Module>, upto: int) -> nat
    decreases upto,
{
    if upto <= 0 || upto > modules.len() {
        0
    } else {
        modules_structs(modules, upto - 1) + modules[upto - 1].bytecode.structs@.len()
    }
}

/// The number of structs that the first `upto` of `packages` define.
pub open spec fn packages_structs(packages: Seq<(AccountAddress, Arc<Package>)>, upto: int) -> nat
    decreases upto,
{
    if upto <= 0 || upto > packages.len() {
        0
    } else {
        packages_structs(packages, upto - 1) + modules_structs(
            packages[upto - 1].1.modules@,
            packages[upto - 1].1.modules@.len() as int,
        )
    }
}

/// How many levels deep struct definitions are followed below the structs
/// of a tag: as many as `packages` define structs. Structs that are nested
/// deeper than that contain themselves, and have no layout.
pub open spec fn depth_budget(packages: Seq<(AccountAddress, Arc<Package>)>) -> nat {
    capped(packages_structs(packages, packages.len() as int))
}

/// Computes [`depth_budget`].
fn count_structs(packages: &Vec<(AccountAddress, Arc<Package>)>) -> (budget: usize)
    ensures
        budget == depth_budget(packages@),
{
    let mut total: usize = 0;
    let mut i: usize = 0;
    while i < packages.len()
        invariant
            i <= packages@.len(),
            total == capped(packages_structs(packages@, i as int)),
        decreases packages@.len() - i,
    {
        let entry: &(AccountAddress, Arc<Package>) = &packages[i];
        let ghost before = packages_structs(packages@, i as int);
        let mut j: usize = 0;
        while j < entry.1.modules.len()
            invariant
                j <= entry.1.modules@.len(),
                total == capped(before + modules_structs(entry.1.modules@, j as int)),
            decreases entry.1.modules@.len() - j,
        {
            let defined: usize = entry.1.modules[j].bytecode.structs.len();
            total = if defined > usize::MAX - total {
                usize::MAX
            } else {
                total + defined
            };
            j += 1;
        }
        i += 1;
    }
    total
}

/// The packages gathered for the resolution of a tag.
pub struct ResolutionContext {
    packages: Vec<(AccountAddress, Arc<Package>)>,
}

impl ResolutionContext {
    /// The gathered packages, each under the address that it was asked for
    /// by, in the order in which they were added.
    pub closed spec fn packages(&self) -> Seq<(AccountAddress, Arc<Package>)> {
        self.packages@
    }

    /// A context without packages.
    pub fn new() -> (context: ResolutionContext)
        ensures
            context.packages() == Seq::<(AccountAddress, Arc<Package>)>::empty(),
    {
        ResolutionContext { packages: Vec::new() }
    }

    /// Adds the package that was fetched for the address `id`.
    pub fn add_package(&mut self, id: AccountAddress, package: Arc<Package>)
        ensures
            final(self).packages() == old(self).packages().push((id, package)),
    {
        self.packages.push((id, package));
    }

    /// The layout of `tag` against the gathered packages, as [`tag_layout`]
    /// defines it; or the address of a package that has to be added first;
    /// or the reason why `tag` has no layout.
    pub fn resolve_type_tag(&self, tag: &TypeTag) -> (result: Result<MoveTypeLayout, Unresolved>)
        ensures
            match result {
                Ok(layout) => tag_layout(self.packages(), *tag, depth_budget(self.packages()))
                    matches Ok(resolved) && resolved.1 == layout@,
                Err(unresolved) => tag_layout(
                    self.packages(),
                    *tag,
                    depth_budget(self.packages()),
                ) == Err::<(TypeTagView, LayoutView), Unresolved>(unresolved),
            },
    {
        let budget = count_structs(&self.packages);
        match resolve_tag(&self.packages, tag, budget) {
            Ok((_, layout)) => Ok(layout),
            Err(unresolved) => Err(unresolved),
        }
    }
}

} // verus!
