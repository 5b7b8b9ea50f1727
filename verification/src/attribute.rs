//! The attribute micro-grammar: finding a field's attribute by its key and
//! reading the forms `key(name = "value")` and `key = "value"`.

use vstd::prelude::*;
use crate::diagnostic::AttributePart;
use crate::model::{
    views,
    FieldAttribute,
    FieldAttributeView,
    Lit,
    LitView,
    MetaItem,
    MetaItemView,
    NameValue,
    NameValueView,
    NestedItem,
    NestedItemView,
};
use crate::text::{is_some_text, is_text};

verus! {

/// Whether the attribute's path is the single identifier `key`.
pub open spec fn is_keyed(attr: FieldAttributeView, key: Seq<char>) -> bool {
    attr.path.len() == 1 && attr.path[0] == key
}

/// The index of the first attribute at or after `start` that is keyed `key`.
pub open spec fn first_keyed_from(
    attrs: Seq<FieldAttributeView>,
    key: Seq<char>,
    start: int,
) -> Option<int>
    decreases attrs.len() - start,
{
    if start < 0 || start >= attrs.len() {
        None
    } else if is_keyed(attrs[start], key) {
        Some(start)
    } else {
        first_keyed_from(attrs, key, start + 1)
    }
}

/// The index of the first attribute keyed `key`, if there is one.
pub open spec fn find_attribute_spec(attrs: Seq<FieldAttributeView>, key: Seq<char>) -> Option<
    int,
> {
    first_keyed_from(attrs, key, 0)
}

/// What `find_attribute_spec` picks is the least index of an attribute keyed
/// `key`, and it picks none only where no attribute is keyed so.
pub proof fn lemma_find_attribute(attrs: Seq<FieldAttributeView>, key: Seq<char>)
    ensures
        match find_attribute_spec(attrs, key) {
            Some(i) => {
                &&& 0 <= i < attrs.len()
                &&& is_keyed(attrs[i], key)
                &&& forall|j: int| 0 <= j < i ==> !is_keyed(#[trigger] attrs[j], key)
            },
            None => forall|j: int| 0 <= j < attrs.len() ==> !is_keyed(#[trigger] attrs[j], key),
        },
{
    lemma_first_keyed_from(attrs, key, 0);
}

proof fn lemma_first_keyed_from(attrs: Seq<FieldAttributeView>, key: Seq<char>, start: int)
    requires
        0 <= start,
    ensures
        match first_keyed_from(attrs, key, start) {
            Some(i) => {
                &&& start <= i < attrs.len()
                &&& is_keyed(attrs[i], key)
                &&& forall|j: int| start <= j < i ==> !is_keyed(#[trigger] attrs[j], key)
            },
            None => forall|j: int|
                start <= j < attrs.len() ==> !is_keyed(#[trigger] attrs[j], key),
        },
    decreases attrs.len() - start,
{
    if start < attrs.len() && !is_keyed(attrs[start], key) {
        lemma_first_keyed_from(attrs, key, start + 1);
    }
}

/// Finds the first attribute whose path is the single identifier `key`:
/// the least index of such an attribute, or `None` where there is none.
pub fn find_attribute(attrs: &Vec<FieldAttribute>, key: &str) -> (r: Option<usize>)
    ensures
        match r {
            Some(i) => {
                &&& i < attrs.len()
                &&& find_attribute_spec(views(attrs@), key@) == Some(i as int)
                &&& is_keyed(attrs@[i as int]@, key@)
                &&& forall|j: int| 0 <= j < i ==> !is_keyed((#[trigger] attrs@[j])@, key@)
            },
            None => {
                &&& find_attribute_spec(views(attrs@), key@) is None
                &&& forall|j: int|
                    0 <= j < attrs.len() ==> !is_keyed((#[trigger] attrs@[j])@, key@)
            },
        },
{
    let mut i: usize = 0;
    while i < attrs.len()
        invariant
            i <= attrs.len(),
            find_attribute_spec(views(attrs@), key@) == first_keyed_from(
                views(attrs@),
                key@,
                i as int,
            ),
        decreases attrs.len() - i,
    {
        let attr = &attrs[i];
        assert(views(attrs@)[i as int] == attr@);
        if attr.path.len() == 1 && is_text(&attr.path[0], key) {
            proof {
                lemma_keyed_views(attrs@, key@);
            }
            return Some(i);
        }
        i = i + 1;
    }
    proof {
        lemma_keyed_views(attrs@, key@);
    }
    None
}

proof fn lemma_keyed_views(attrs: Seq<FieldAttribute>, key: Seq<char>)
    ensures
        match find_attribute_spec(views(attrs), key) {
            Some(i) => {
                &&& 0 <= i < attrs.len()
                &&& is_keyed(attrs[i]@, key)
                &&& forall|j: int| 0 <= j < i ==> !is_keyed((#[trigger] attrs[j])@, key)
            },
            None => forall|j: int| 0 <= j < attrs.len() ==> !is_keyed((#[trigger] attrs[j])@, key),
        },
{
    let all = views(attrs);
    lemma_find_attribute(all, key);
    assert forall|j: int| 0 <= j < attrs.len() implies all[j] == (#[trigger] attrs[j])@ by {}
}

/// The string value of `name = "value"`, where the entry has that key and a
/// string literal on the right.
pub open spec fn string_value_spec(name: Seq<char>, nv: NameValueView) -> Option<Seq<char>> {
    match (nv.key, nv.value) {
        (Some(key), LitView::Str(value)) => if key == name {
            Some(value)
        } else {
            None
        },
        _ => None,
    }
}

/// Reads the value of `name = "value"`; `None` where the key is another or
/// the literal is not a string.
pub fn string_value(name: &str, nv: &NameValue) -> (r: Option<String>)
    ensures
        match r {
            Some(value) => string_value_spec(name@, nv@) == Some(value@),
            None => string_value_spec(name@, nv@) is None,
        },
{
    if is_some_text(&nv.key, name) {
        match &nv.value {
            Lit::Str(s) => Some(s.clone()),
            Lit::Other => None,
        }
    } else {
        None
    }
}

/// What the list form `key(name = "value")` yields: the value where the list
/// holds exactly that one entry, and else the part of the attribute at fault.
pub open spec fn nested_value_spec(name: Seq<char>, attr: FieldAttributeView) -> Result<
    Seq<char>,
    AttributePart,
> {
    match attr.meta {
        Some(MetaItemView::List(nested)) => if nested.len() != 1 {
            Err(AttributePart::Nested)
        } else {
            match nested[0] {
                NestedItemView::NameValue(nv) => match string_value_spec(name, nv) {
                    Some(value) => Ok(value),
                    None => Err(AttributePart::Nested),
                },
                NestedItemView::Other => Err(AttributePart::Nested),
            }
        },
        _ => Err(AttributePart::Arguments),
    }
}

/// Reads the list form `key(name = "value")`.
///
/// The attribute must be a list with exactly one entry, that entry must be
/// `name = ..`, and its right-hand side a string literal. Anything else is
/// refused with the part of the attribute to blame: the list's entries where
/// it is a list, and otherwise whatever follows the attribute's path.
pub fn nested_value(name: &str, attr: &FieldAttribute) -> (r: Result<String, AttributePart>)
    ensures
        match r {
            Ok(value) => nested_value_spec(name@, attr@) == Ok::<Seq<char>, AttributePart>(value@),
            Err(part) => nested_value_spec(name@, attr@) == Err::<Seq<char>, AttributePart>(part),
        },
{
    match &attr.meta {
        Some(MetaItem::List(nested)) => {
            if nested.len() != 1 {
                return Err(AttributePart::Nested);
            }
            assert(views(nested@)[0] == nested@[0]@);
            match &nested[0] {
                NestedItem::NameValue(nv) => match string_value(name, nv) {
                    Some(value) => Ok(value),
                    None => Err(AttributePart::Nested),
                },
                NestedItem::Other => Err(AttributePart::Nested),
            }
        },
        _ => Err(AttributePart::Arguments),
    }
}

/// What the form `name = "value"` yields: the value, or the part of the
/// attribute at fault.
pub open spec fn direct_value_spec(name: Seq<char>, attr: FieldAttributeView) -> Result<
    Seq<char>,
    AttributePart,
> {
    match attr.meta {
        Some(MetaItemView::NameValue(nv)) => match string_value_spec(name, nv) {
            Some(value) => Ok(value),
            None => Err(AttributePart::Content),
        },
        _ => Err(AttributePart::Whole),
    }
}

/// Reads the form `name = "value"`.
///
/// A name-value attribute with another key or a literal that is no string is
/// refused at its content; any other form is refused at the attribute as a
/// whole.
pub fn direct_value(name: &str, attr: &FieldAttribute) -> (r: Result<String, AttributePart>)
    ensures
        match r {
            Ok(value) => direct_value_spec(name@, attr@) == Ok::<Seq<char>, AttributePart>(value@),
            Err(part) => direct_value_spec(name@, attr@) == Err::<Seq<char>, AttributePart>(part),
        },
{
    match &attr.meta {
        Some(MetaItem::NameValue(nv)) => match string_value(name, nv) {
            Some(value) => Ok(value),
            None => Err(AttributePart::Content),
        },
        _ => Err(AttributePart::Whole),
    }
}

} // verus!
