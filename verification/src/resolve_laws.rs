//! What holds of every resolution: a struct is laid out as its defining
//! package declares it, whichever version of that package a reference goes
//! through.

use crate::address::AccountAddress;
use crate::bytecode::{DatatypeKey, FieldDef, Signature};
use crate::layout::{LayoutView, TypeTag, TypeTagView};
use crate::package::Package;
use crate::recency::value_of;
use crate::resolve::{
    definition, depth_budget, fields_layouts, signature_layout, signatures_layouts, tag_layout,
    tags_layouts, Definition,
};
use std::sync::Arc;
use vstd::prelude::*;

verus! {

/// The package that `package` names as the one that first defined the
/// struct of `key`.
pub open spec fn defining_package(package: Package, key: DatatypeKey) -> Option<AccountAddress> {
    match package.struct_named(key.module@, key.name@) {
        Some((defining_id, _)) => Some(defining_id),
        None => None,
    }
}

/// The struct of `key`, referred to through the package at `address`.
pub open spec fn located_at(key: DatatypeKey, address: AccountAddress) -> DatatypeKey {
    DatatypeKey { package: address, module: key.module, name: key.name }
}

/// A struct is declared by its defining package. Two references to a struct
/// that go through two gathered packages, such as two versions of one
/// package, find the same definition where both packages name the same
/// defining package for it.
pub proof fn law_definition_goes_by_defining_package(
    packages: Seq<(AccountAddress, Arc<Package>)>,
    key: DatatypeKey,
    first: AccountAddress,
    second: AccountAddress,
)
    requires
        value_of(packages, first) matches Some(package) && defining_package(*package, key) is Some,
        value_of(packages, second) matches Some(package) && defining_package(*package, key)
            == defining_package(*value_of(packages, first)->0, key),
    ensures
        definition(packages, located_at(key, first)) == definition(
            packages,
            located_at(key, second),
        ),
{
}

/// The layout of a field that holds a struct does not depend on the version
/// that the linkage names. Where two packages link the package of the
/// field's struct at two gathered versions, and both versions name the same
/// defining package for the struct, the field is laid out alike in both,
/// given that its type arguments are.
pub proof fn law_field_layout_goes_by_defining_package(
    packages: Seq<(AccountAddress, Arc<Package>)>,
    first: Package,
    second: Package,
    owner: DatatypeKey,
    key: DatatypeKey,
    inner: Vec<Signature>,
    arguments: Seq<(TypeTagView, LayoutView)>,
    fuel: nat,
)
    requires
        first.relocated(key.package) matches Some(address) && value_of(packages, address)
            matches Some(package) && defining_package(*package, key) is Some,
        second.relocated(key.package) matches Some(address) && value_of(packages, address)
            matches Some(package) && defining_package(*package, key) == defining_package(
            *value_of(packages, first.relocated(key.package)->0)->0,
            key,
        ),
        signatures_layouts(packages, first, owner, inner@, arguments, fuel, 0) == signatures_layouts(
            packages,
            second,
            owner,
            inner@,
            arguments,
            fuel,
            0,
        ),
        signature_layout(
            packages,
            first,
            owner,
            Signature::Datatype(key, inner),
            arguments,
            fuel,
        ) is Ok,
    ensures
        signature_layout(packages, second, owner, Signature::Datatype(key, inner), arguments, fuel)
            == signature_layout(
            packages,
            first,
            owner,
            Signature::Datatype(key, inner),
            arguments,
            fuel,
        ),
{
    law_definition_goes_by_defining_package(
        packages,
        key,
        first.relocated(key.package)->0,
        second.relocated(key.package)->0,
    );
}

/// The defining package in which a definition was found.
pub open spec fn home_of(found: Definition) -> Package {
    *found.home
}

/// The same struct of the same defining package, declared alike.
pub open spec fn same_struct(first: Definition, second: Definition) -> bool {
    first.defining_id == second.defining_id && first.def == second.def
}

/// Whether two settings find the same structs wherever the resolution of
/// `signature` looks one up, `fuel` levels deep. A setting is the gathered
/// packages and the package whose linkage the signature is read against.
/// The packages that the definitions are found in may differ, and so may
/// the versions that the linkages name.
pub open spec fn signature_agrees(
    packages: Seq<(AccountAddress, Arc<Package>)>,
    home: Package,
    other_packages: Seq<(AccountAddress, Arc<Package>)>,
    other_home: Package,
    signature: Signature,
    fuel: nat,
) -> bool
    decreases fuel, 0nat, signature, 0nat,
{
    match signature {
        Signature::Vector(inner) => signature_agrees(
            packages,
            home,
            other_packages,
            other_home,
            *inner,
            fuel,
        ),
        Signature::Datatype(key, inner) => {
            &&& home.relocated(key.package) matches Some(address)
            &&& other_home.relocated(key.package) matches Some(other_address)
            &&& definition(packages, located_at(key, address)) matches Ok(found)
            &&& definition(other_packages, located_at(key, other_address)) matches Ok(other_found)
            &&& same_struct(found, other_found)
            &&& forall|i: int|
                0 <= i < inner@.len() ==> signature_agrees(
                    packages,
                    home,
                    other_packages,
                    other_home,
                    #[trigger] inner@[i],
                    fuel,
                )
            &&& fuel > 0 ==> forall|j: int|
                0 <= j < found.def.fields@.len() ==> signature_agrees(
                    packages,
                    home_of(found),
                    other_packages,
                    home_of(other_found),
                    (#[trigger] found.def.fields@[j]).signature,
                    (fuel - 1) as nat,
                )
        },
        _ => true,
    }
}

/// Whether two sets of gathered packages find the same structs wherever the
/// resolution of `tag` looks one up, with struct definitions followed
/// `budget` levels below the structs of the tag.
pub open spec fn tag_agrees(
    packages: Seq<(AccountAddress, Arc<Package>)>,
    other_packages: Seq<(AccountAddress, Arc<Package>)>,
    tag: TypeTag,
    budget: nat,
) -> bool
    decreases tag,
{
    match tag {
        TypeTag::Vector(inner) => tag_agrees(packages, other_packages, *inner, budget),
        TypeTag::Struct(tag) => {
            let key = DatatypeKey { package: tag.address, module: tag.module, name: tag.name };
            &&& definition(packages, key) matches Ok(found)
            &&& definition(other_packages, key) matches Ok(other_found)
            &&& same_struct(found, other_found)
            &&& forall|i: int|
                0 <= i < tag.type_params@.len() ==> tag_agrees(
                    packages,
                    other_packages,
                    #[trigger] tag.type_params@[i],
                    budget,
                )
            &&& forall|j: int|
                0 <= j < found.def.fields@.len() ==> signature_agrees(
                    packages,
                    home_of(found),
                    other_packages,
                    home_of(other_found),
                    (#[trigger] found.def.fields@[j]).signature,
                    budget,
                )
        },
        _ => true,
    }
}

/// What a signature stands for goes by the structs that are found, not by
/// where they are found: two settings that agree give the same tag and
/// layout, where the first gives one and the second has at least its fuel.
pub proof fn lemma_signature_layout_agrees(
    packages: Seq<(AccountAddress, Arc<Package>)>,
    home: Package,
    other_packages: Seq<(AccountAddress, Arc<Package>)>,
    other_home: Package,
    owner: DatatypeKey,
    signature: Signature,
    arguments: Seq<(TypeTagView, LayoutView)>,
    fuel: nat,
    other_fuel: nat,
)
    requires
        signature_agrees(packages, home, other_packages, other_home, signature, fuel),
        fuel <= other_fuel,
        signature_layout(packages, home, owner, signature, arguments, fuel) is Ok,
    ensures
        signature_layout(other_packages, other_home, owner, signature, arguments, other_fuel)
            == signature_layout(packages, home, owner, signature, arguments, fuel),
    decreases fuel, 0nat, signature, 0nat,
{
    match signature {
        Signature::Vector(inner) => {
            lemma_signature_layout_agrees(
                packages,
                home,
                other_packages,
                other_home,
                owner,
                *inner,
                arguments,
                fuel,
                other_fuel,
            );
        },
        Signature::Datatype(key, inner) => {
            let found = definition(packages, located_at(key, home.relocated(key.package)->0))->Ok_0;
            let other_found = definition(
                other_packages,
                located_at(key, other_home.relocated(key.package)->0),
            )->Ok_0;
            lemma_signatures_layouts_agree(
                packages,
                home,
                other_packages,
                other_home,
                owner,
                inner@,
                arguments,
                fuel,
                other_fuel,
                0,
            );
            let inner_arguments = signatures_layouts(
                packages,
                home,
                owner,
                inner@,
                arguments,
                fuel,
                0,
            )->Ok_0;
            lemma_fields_layouts_agree(
                packages,
                home_of(found),
                other_packages,
                home_of(other_found),
                located_at(key, found.defining_id),
                found.def.fields@,
                inner_arguments,
                (fuel - 1) as nat,
                (other_fuel - 1) as nat,
                0,
            );
        },
        _ => {},
    }
}

/// [`lemma_signature_layout_agrees`], for the signatures from `from` on.
pub proof fn lemma_signatures_layouts_agree(
    packages: Seq<(AccountAddress, Arc<Package>)>,
    home: Package,
    other_packages: Seq<(AccountAddress, Arc<Package>)>,
    other_home: Package,
    owner: DatatypeKey,
    signatures: Seq<Signature>,
    arguments: Seq<(TypeTagView, LayoutView)>,
    fuel: nat,
    other_fuel: nat,
    from: int,
)
    requires
        forall|i: int|
            0 <= i < signatures.len() ==> signature_agrees(
                packages,
                home,
                other_packages,
                other_home,
                #[trigger] signatures[i],
                fuel,
            ),
        fuel <= other_fuel,
        signatures_layouts(packages, home, owner, signatures, arguments, fuel, from) is Ok,
    ensures
        signatures_layouts(
            other_packages,
            other_home,
            owner,
            signatures,
            arguments,
            other_fuel,
            from,
        ) == signatures_layouts(packages, home, owner, signatures, arguments, fuel, from),
    decreases fuel, 0nat, signatures, signatures.len() - from,
{
    if 0 <= from < signatures.len() {
        lemma_signature_layout_agrees(
            packages,
            home,
            other_packages,
            other_home,
            owner,
            signatures[from],
            arguments,
            fuel,
            other_fuel,
        );
        lemma_signatures_layouts_agree(
            packages,
            home,
            other_packages,
            other_home,
            owner,
            signatures,
            arguments,
            fuel,
            other_fuel,
            from + 1,
        );
    }
}

/// [`lemma_signature_layout_agrees`], for the fields from `from` on.
pub proof fn lemma_fields_layouts_agree(
    packages: Seq<(AccountAddress, Arc<Package>)>,
    home: Package,
    other_packages: Seq<(AccountAddress, Arc<Package>)>,
    other_home: Package,
    owner: DatatypeKey,
    fields: Seq<FieldDef>,
    arguments: Seq<(TypeTagView, LayoutView)>,
    fuel: nat,
    other_fuel: nat,
    from: int,
)
    requires
        forall|j: int|
            0 <= j < fields.len() ==> signature_agrees(
                packages,
                home,
                other_packages,
                other_home,
                (#[trigger] fields[j]).signature,
                fuel,
            ),
        fuel <= other_fuel,
        fields_layouts(packages, home, owner, fields, arguments, fuel, from) is Ok,
    ensures
        fields_layouts(other_packages, other_home, owner, fields, arguments, other_fuel, from)
            == fields_layouts(packages, home, owner, fields, arguments, fuel, from),
    decreases fuel, 1nat, fields, fields.len() - from,
{
    if 0 <= from < fields.len() {
        lemma_signature_layout_agrees(
            packages,
            home,
            other_packages,
            other_home,
            owner,
            fields[from].signature,
            arguments,
            fuel,
            other_fuel,
        );
        lemma_fields_layouts_agree(
            packages,
            home,
            other_packages,
            other_home,
            owner,
            fields,
            arguments,
            fuel,
            other_fuel,
            from + 1,
        );
    }
}

/// A layout goes by the structs that are found, not by the packages that
/// they are found through. Where two sets of gathered packages find the
/// same structs wherever the resolution of `tag` looks one up, and the first
/// gives a layout, the second gives the same tag and layout, given at least
/// the budget of the first. So two packages that differ in the version of a
/// dependency that they link give the same layout to a struct, as long as
/// both versions name the same defining packages.
pub proof fn law_layout_goes_by_definitions(
    packages: Seq<(AccountAddress, Arc<Package>)>,
    other_packages: Seq<(AccountAddress, Arc<Package>)>,
    tag: TypeTag,
    budget: nat,
    other_budget: nat,
)
    requires
        tag_agrees(packages, other_packages, tag, budget),
        budget <= other_budget,
        tag_layout(packages, tag, budget) is Ok,
    ensures
        tag_layout(other_packages, tag, other_budget) == tag_layout(packages, tag, budget),
    decreases tag, 0nat,
{
    match tag {
        TypeTag::Vector(inner) => {
            law_layout_goes_by_definitions(packages, other_packages, *inner, budget, other_budget);
        },
        TypeTag::Struct(tag) => {
            let key = DatatypeKey { package: tag.address, module: tag.module, name: tag.name };
            let found = definition(packages, key)->Ok_0;
            let other_found = definition(other_packages, key)->Ok_0;
            lemma_tags_layouts_agree(
                packages,
                other_packages,
                tag.type_params@,
                budget,
                other_budget,
                0,
            );
            let arguments = tags_layouts(packages, tag.type_params@, budget, 0)->Ok_0;
            lemma_fields_layouts_agree(
                packages,
                home_of(found),
                other_packages,
                home_of(other_found),
                located_at(key, found.defining_id),
                found.def.fields@,
                arguments,
                budget,
                other_budget,
                0,
            );
        },
        _ => {},
    }
}

/// [`law_layout_goes_by_definitions`], for the tags from `from` on.
pub proof fn lemma_tags_layouts_agree(
    packages: Seq<(AccountAddress, Arc<Package>)>,
    other_packages: Seq<(AccountAddress, Arc<Package>)>,
    tags: Seq<TypeTag>,
    budget: nat,
    other_budget: nat,
    from: int,
)
    requires
        forall|i: int|
            0 <= i < tags.len() ==> tag_agrees(packages, other_packages, #[trigger] tags[i], budget),
        budget <= other_budget,
        tags_layouts(packages, tags, budget, from) is Ok,
    ensures
        tags_layouts(other_packages, tags, other_budget, from) == tags_layouts(
            packages,
            tags,
            budget,
            from,
        ),
    decreases tags, tags.len() - from,
{
    if 0 <= from < tags.len() {
        law_layout_goes_by_definitions(packages, other_packages, tags[from], budget, other_budget);
        lemma_tags_layouts_agree(packages, other_packages, tags, budget, other_budget, from + 1);
    }
}

/// Two rounds of resolution against two sets of gathered packages yield
/// the same layout where both yield one and the sets find the same structs
/// wherever the resolution of `tag` looks one up: one set may hold a newer
/// version of a dependency than the other, and a package of one set may link
/// another version than its counterpart in the other.
pub proof fn law_rounds_agree(
    packages: Seq<(AccountAddress, Arc<Package>)>,
    other_packages: Seq<(AccountAddress, Arc<Package>)>,
    tag: TypeTag,
)
    requires
        tag_agrees(packages, other_packages, tag, depth_budget(packages)),
        tag_agrees(other_packages, packages, tag, depth_budget(other_packages)),
        tag_layout(packages, tag, depth_budget(packages)) is Ok,
        tag_layout(other_packages, tag, depth_budget(other_packages)) is Ok,
    ensures
        tag_layout(other_packages, tag, depth_budget(other_packages)) == tag_layout(
            packages,
            tag,
            depth_budget(packages),
        ),
{
    if depth_budget(packages) <= depth_budget(other_packages) {
        law_layout_goes_by_definitions(
            packages,
            other_packages,
            tag,
            depth_budget(packages),
            depth_budget(other_packages),
        );
    } else {
        law_layout_goes_by_definitions(
            other_packages,
            packages,
            tag,
            depth_budget(other_packages),
            depth_budget(packages),
        );
    }
}

} // verus!
