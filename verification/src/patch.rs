//! State patches: the attributes that are published to HomeCore.

use crate::number::Number;
use vstd::prelude::*;

verus! {

/// The value of an attribute, as a final value or as the level it is computed from.
#[derive(Clone, Debug)]
pub enum PatchValue {
    /// A boolean.
    Flag(bool),
    /// A text.
    Text(String),
    /// An integer.
    Integer(u64),
    /// This number, rounded to one decimal.
    Tenths(Number),
    /// One hundred less this number, rounded to one decimal.
    InvertedTenths(Number),
    /// This percentage of 255, rounded to an integer.
    Byte(Number),
}

/// A `PatchValue`, with texts as sequences.
pub enum PatchValueView {
    Flag(bool),
    Text(Seq<char>),
    Integer(u64),
    Tenths(Number),
    InvertedTenths(Number),
    Byte(Number),
}

impl View for PatchValue {
    type V = PatchValueView;

    open spec fn view(&self) -> PatchValueView {
        match self {
            PatchValue::Flag(b) => PatchValueView::Flag(*b),
            PatchValue::Text(s) => PatchValueView::Text(s@),
            PatchValue::Integer(n) => PatchValueView::Integer(*n),
            PatchValue::Tenths(x) => PatchValueView::Tenths(*x),
            PatchValue::InvertedTenths(x) => PatchValueView::InvertedTenths(*x),
            PatchValue::Byte(x) => PatchValueView::Byte(*x),
        }
    }
}

/// A named value.
#[derive(Clone, Debug)]
pub struct Attribute {
    pub name: String,
    pub value: PatchValue,
}

/// An `Attribute`, with texts as sequences.
pub struct AttributeView {
    pub name: Seq<char>,
    pub value: PatchValueView,
}

impl View for Attribute {
    type V = AttributeView;

    open spec fn view(&self) -> AttributeView {
        AttributeView { name: self.name@, value: self.value@ }
    }
}

/// A patch by the views of its attributes.
pub open spec fn patch_view(patch: Seq<Attribute>) -> Seq<AttributeView> {
    patch.map_values(|a: Attribute| a@)
}

/// An optional patch by the views of its attributes.
pub open spec fn optional_patch_view(patch: Option<Vec<Attribute>>) -> Option<Seq<AttributeView>> {
    match patch {
        Some(p) => Some(patch_view(p@)),
        None => None,
    }
}

/// A boolean attribute.
pub fn flag(name: &str, value: bool) -> (r: Attribute)
    ensures
        r@ == (AttributeView { name: name@, value: PatchValueView::Flag(value) }),
{
    Attribute { name: name.to_owned(), value: PatchValue::Flag(value) }
}

/// The view of an attribute keeps its name and its value, whatever kind of value that is.
pub proof fn views_keep_names_and_values(a: Attribute)
    ensures
        a@.name == a.name@,
        a.value matches PatchValue::Flag(b) ==> a@.value == PatchValueView::Flag(b),
        a.value matches PatchValue::Text(s) ==> a@.value == PatchValueView::Text(s@),
        a.value matches PatchValue::Integer(n) ==> a@.value == PatchValueView::Integer(n),
        a.value matches PatchValue::Tenths(x) ==> a@.value == PatchValueView::Tenths(x),
        a.value matches PatchValue::InvertedTenths(x) ==> a@.value
            == PatchValueView::InvertedTenths(x),
        a.value matches PatchValue::Byte(x) ==> a@.value == PatchValueView::Byte(x),
{
}

/// The view of a patch keeps every attribute in its place, and the absence of a patch.
pub proof fn patch_views_keep_every_attribute(patch: Vec<Attribute>, i: int)
    requires
        0 <= i < patch@.len(),
    ensures
        patch_view(patch@).len() == patch@.len(),
        patch_view(patch@)[i] == patch@[i]@,
        optional_patch_view(Some(patch)) == Some(patch_view(patch@)),
        optional_patch_view(None) is None,
{
}

} // verus!
