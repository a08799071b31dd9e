//! Type tags and the layouts that they resolve to.

use crate::address::AccountAddress;
use vstd::prelude::*;

verus! {

/// A reference to a type.
#[derive(Debug, PartialEq, Eq)]
pub enum TypeTag {
    Bool,
    U8,
    U16,
    U32,
    U64,
    U128,
    U256,
    Address,
    Signer,
    Vector(Box<TypeTag>),
    Struct(StructTag),
}

/// A reference to a struct type, with its type arguments.
#[derive(Debug, PartialEq, Eq)]
pub struct StructTag {
    pub address: AccountAddress,
    pub module: String,
    pub name: String,
    pub type_params: Vec<TypeTag>,
}

/// How the values of a type are laid out.
#[derive(Debug, PartialEq, Eq)]
pub enum MoveTypeLayout {
    Bool,
    U8,
    U16,
    U32,
    U64,
    U128,
    U256,
    Address,
    Signer,
    Vector(Box<MoveTypeLayout>),
    Struct(MoveStructLayout),
}

/// The layout of a struct: its type, by the package that first defined it,
/// and its fields in the order of their declaration.
#[derive(Debug, PartialEq, Eq)]
pub struct MoveStructLayout {
    pub type_: StructTag,
    pub fields: Vec<MoveFieldLayout>,
}

/// A field of a struct with the layout of its values.
#[derive(Debug, PartialEq, Eq)]
pub struct MoveFieldLayout {
    pub name: String,
    pub layout: MoveTypeLayout,
}

/// What a [`TypeTag`] says.
pub enum TypeTagView {
    Bool,
    U8,
    U16,
    U32,
    U64,
    U128,
    U256,
    Address,
    Signer,
    Vector(Box<TypeTagView>),
    Struct(StructTagView),
}

/// What a [`StructTag`] says.
pub struct StructTagView {
    pub address: AccountAddress,
    pub module: Seq<char>,
    pub name: Seq<char>,
    pub type_params: Seq<TypeTagView>,
}

/// What a [`MoveTypeLayout`] says.
pub enum LayoutView {
    Bool,
    U8,
    U16,
    U32,
    U64,
    U128,
    U256,
    Address,
    Signer,
    Vector(Box<LayoutView>),
    Struct(StructLayoutView),
}

/// What a [`MoveStructLayout`] says.
pub struct StructLayoutView {
    pub type_: StructTagView,
    pub fields: Seq<FieldLayoutView>,
}

/// What a [`MoveFieldLayout`] says.
pub struct FieldLayoutView {
    pub name: Seq<char>,
    pub layout: LayoutView,
}

/// What `tag` says.
pub open spec fn tag_view(tag: TypeTag) -> TypeTagView
    decreases tag,
{
    match tag {
        TypeTag::Bool => TypeTagView::Bool,
        TypeTag::U8 => TypeTagView::U8,
        TypeTag::U16 => TypeTagView::U16,
        TypeTag::U32 => TypeTagView::U32,
        TypeTag::U64 => TypeTagView::U64,
        TypeTag::U128 => TypeTagView::U128,
        TypeTag::U256 => TypeTagView::U256,
        TypeTag::Address => TypeTagView::Address,
        TypeTag::Signer => TypeTagView::Signer,
        TypeTag::Vector(inner) => TypeTagView::Vector(Box::new(tag_view(*inner))),
        TypeTag::Struct(tag) => TypeTagView::Struct(
            StructTagView {
                address: tag.address,
                module: tag.module@,
                name: tag.name@,
                type_params: tags_view(tag.type_params@),
            },
        ),
    }
}

/// What each of `tags` says.
pub open spec fn tags_view(tags: Seq<TypeTag>) -> Seq<TypeTagView>
    decreases tags,
{
    Seq::new(
        tags.len(),
        |i: int|
            if 0 <= i < tags.len() {
                tag_view(tags[i])
            } else {
                TypeTagView::Bool
            },
    )
}

/// What `layout` says.
pub open spec fn layout_view(layout: MoveTypeLayout) -> LayoutView
    decreases layout,
{
    match layout {
        MoveTypeLayout::Bool => LayoutView::Bool,
        MoveTypeLayout::U8 => LayoutView::U8,
        MoveTypeLayout::U16 => LayoutView::U16,
        MoveTypeLayout::U32 => LayoutView::U32,
        MoveTypeLayout::U64 => LayoutView::U64,
        MoveTypeLayout::U128 => LayoutView::U128,
        MoveTypeLayout::U256 => LayoutView::U256,
        MoveTypeLayout::Address => LayoutView::Address,
        MoveTypeLayout::Signer => LayoutView::Signer,
        MoveTypeLayout::Vector(inner) => LayoutView::Vector(Box::new(layout_view(*inner))),
        MoveTypeLayout::Struct(layout) => LayoutView::Struct(
            StructLayoutView {
                type_: layout.type_@,
                fields: fields_view(layout.fields@),
            },
        ),
    }
}

/// What each of `fields` says.
pub open spec fn fields_view(fields: Seq<MoveFieldLayout>) -> Seq<FieldLayoutView>
    decreases fields,
{
    Seq::new(
        fields.len(),
        |i: int|
            if 0 <= i < fields.len() {
                FieldLayoutView { name: fields[i].name@, layout: layout_view(fields[i].layout) }
            } else {
                FieldLayoutView { name: Seq::empty(), layout: LayoutView::Bool }
            },
    )
}

impl View for TypeTag {
    type V = TypeTagView;

    open spec fn view(&self) -> TypeTagView {
        tag_view(*self)
    }
}

impl View for StructTag {
    type V = StructTagView;

    open spec fn view(&self) -> StructTagView {
        StructTagView {
            address: self.address,
            module: self.module@,
            name: self.name@,
            type_params: tags_view(self.type_params@),
        }
    }
}

impl View for MoveTypeLayout {
    type V = LayoutView;

    open spec fn view(&self) -> LayoutView {
        layout_view(*self)
    }
}

impl View for MoveFieldLayout {
    type V = FieldLayoutView;

    open spec fn view(&self) -> FieldLayoutView {
        FieldLayoutView { name: self.name@, layout: layout_view(self.layout) }
    }
}

impl View for MoveStructLayout {
    type V = StructLayoutView;

    open spec fn view(&self) -> StructLayoutView {
        StructLayoutView { type_: self.type_@, fields: fields_view(self.fields@) }
    }
}

impl TypeTag {
    /// A copy of the tag.
    pub fn duplicate(&self) -> (copy: TypeTag)
        ensures
            copy@ == self@,
        decreases self,
    {
        match self {
            TypeTag::Bool => TypeTag::Bool,
            TypeTag::U8 => TypeTag::U8,
            TypeTag::U16 => TypeTag::U16,
            TypeTag::U32 => TypeTag::U32,
            TypeTag::U64 => TypeTag::U64,
            TypeTag::U128 => TypeTag::U128,
            TypeTag::U256 => TypeTag::U256,
            TypeTag::Address => TypeTag::Address,
            TypeTag::Signer => TypeTag::Signer,
            TypeTag::Vector(inner) => TypeTag::Vector(Box::new(inner.duplicate())),
            TypeTag::Struct(tag) => TypeTag::Struct(tag.duplicate()),
        }
    }
}

impl StructTag {
    /// A copy of the tag.
    pub fn duplicate(&self) -> (copy: StructTag)
        ensures
            copy@ == self@,
        decreases self,
    {
        let mut type_params: Vec<TypeTag> = Vec::new();
        let mut i: usize = 0;
        while i < self.type_params.len()
            invariant
                i <= self.type_params@.len(),
                type_params@.len() == i,
                forall|j: int| 0 <= j < i ==> (#[trigger] type_params@[j])@ == self.type_params@[j]@,
            decreases self.type_params@.len() - i,
        {
            type_params.push(self.type_params[i].duplicate());
            i += 1;
        }
        assert(tags_view(type_params@) =~= tags_view(self.type_params@));
        StructTag {
            address: self.address,
            module: self.module.clone(),
            name: self.name.clone(),
            type_params,
        }
    }
}

impl MoveTypeLayout {
    /// A copy of the layout.
    pub fn duplicate(&self) -> (copy: MoveTypeLayout)
        ensures
            copy@ == self@,
        decreases self,
    {
        match self {
            MoveTypeLayout::Bool => MoveTypeLayout::Bool,
            MoveTypeLayout::U8 => MoveTypeLayout::U8,
            MoveTypeLayout::U16 => MoveTypeLayout::U16,
            MoveTypeLayout::U32 => MoveTypeLayout::U32,
            MoveTypeLayout::U64 => MoveTypeLayout::U64,
            MoveTypeLayout::U128 => MoveTypeLayout::U128,
            MoveTypeLayout::U256 => MoveTypeLayout::U256,
            MoveTypeLayout::Address => MoveTypeLayout::Address,
            MoveTypeLayout::Signer => MoveTypeLayout::Signer,
            MoveTypeLayout::Vector(inner) => MoveTypeLayout::Vector(Box::new(inner.duplicate())),
            MoveTypeLayout::Struct(layout) => MoveTypeLayout::Struct(layout.duplicate()),
        }
    }
}

impl MoveStructLayout {
    /// A copy of the layout.
    pub fn duplicate(&self) -> (copy: MoveStructLayout)
        ensures
            copy@ == self@,
        decreases self,
    {
        let mut fields: Vec<MoveFieldLayout> = Vec::new();
        let mut i: usize = 0;
        while i < self.fields.len()
            invariant
                i <= self.fields@.len(),
                fields@.len() == i,
                forall|j: int| 0 <= j < i ==> (#[trigger] fields@[j])@ == self.fields@[j]@,
            decreases self.fields@.len() - i,
        {
            fields.push(
                MoveFieldLayout {
                    name: self.fields[i].name.clone(),
                    layout: self.fields[i].layout.duplicate(),
                },
            );
            i += 1;
        }
        assert(fields_view(fields@) =~= fields_view(self.fields@));
        MoveStructLayout { type_: self.type_.duplicate(), fields }
    }
}

} // verus!
