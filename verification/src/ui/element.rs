//! The tree of elements that shows a screen.
//!
//! An [`Element`] is a value that says what is on the screen and which message
//! each button sends when it is pressed. It is laid out, painted and fed with
//! pointer events elsewhere. [`SpecElement`] is the same tree in mathematical
//! terms, which contracts speak of.

use vstd::prelude::*;
use crate::ui::layout::{Length, Padding};
use crate::ui::widgets::button::{ButtonSize, Variant};

verus! {

/// One element of a screen, with the elements inside it.
#[allow(inconsistent_fields)]
#[derive(Debug, PartialEq, Eq)]
pub enum Element<Message> {
    /// A line of text, in the given size or else in the size that the theme
    /// gives to text.
    Text { content: String, size: Option<u16> },
    /// A field that shows `value`, or `placeholder` while `value` is empty, and
    /// reports each edit with the field's whole new text.
    TextInput { placeholder: String, value: String, size: u16 },
    /// A button around `content`. It is styled as a button of role `variant`
    /// and size `size` in whatever phase of interaction it is in, and as a
    /// disabled one exactly if `disabled` is set. Pressing it sends `on_press`;
    /// where there is none, pressing it does nothing.
    Button {
        content: Box<Element<Message>>,
        padding: Padding,
        width: Length,
        height: Length,
        variant: Variant,
        size: ButtonSize,
        disabled: bool,
        on_press: Option<Message>,
    },
    /// Elements side by side, `spacing` pixels apart.
    Row { children: Vec<Element<Message>>, spacing: u16, height: Length },
    /// Elements one below the other, `spacing` pixels apart.
    Column { children: Vec<Element<Message>>, spacing: u16 },
}

/// What an [`Element`] stands for: the same tree, with texts as sequences of
/// characters and children as sequences of trees.
#[allow(inconsistent_fields)]
pub enum SpecElement<Message> {
    Text { content: Seq<char>, size: Option<u16> },
    TextInput { placeholder: Seq<char>, value: Seq<char>, size: u16 },
    Button {
        content: Box<SpecElement<Message>>,
        padding: Padding,
        width: Length,
        height: Length,
        variant: Variant,
        size: ButtonSize,
        disabled: bool,
        on_press: Option<Message>,
    },
    Row { children: Seq<SpecElement<Message>>, spacing: u16, height: Length },
    Column { children: Seq<SpecElement<Message>>, spacing: u16 },
}

impl<Message> SpecElement<Message> {
    /// Whether `part` is the tree itself or a tree somewhere inside it.
    pub open spec fn contains(self, part: SpecElement<Message>) -> bool
        decreases self,
    {
        self == part || match self {
            SpecElement::Text { .. } => false,
            SpecElement::TextInput { .. } => false,
            SpecElement::Button { content, .. } => content.contains(part),
            SpecElement::Row { children, .. } => exists|i: int|
                0 <= i < children.len() && (#[trigger] children[i]).contains(part),
            SpecElement::Column { children, .. } => exists|i: int|
                0 <= i < children.len() && (#[trigger] children[i]).contains(part),
        }
    }

    /// Whether pressing some button in the tree sends `message`.
    pub open spec fn offers(self, message: Message) -> bool
        decreases self,
    {
        match self {
            SpecElement::Text { .. } => false,
            SpecElement::TextInput { .. } => false,
            SpecElement::Button { content, on_press, .. } => on_press == Some(message)
                || content.offers(message),
            SpecElement::Row { children, .. } => exists|i: int|
                0 <= i < children.len() && (#[trigger] children[i]).offers(message),
            SpecElement::Column { children, .. } => exists|i: int|
                0 <= i < children.len() && (#[trigger] children[i]).offers(message),
        }
    }
}

/// The trees that the elements of a list stand for, in the list's order.
pub open spec fn trees<Message: View>(elements: Vec<Element<Message>>) -> Seq<
    SpecElement<Message::V>,
>
    decreases elements,
{
    Seq::new(
        elements.len() as nat,
        |i: int|
            if 0 <= i < elements.len() {
                elements[i].tree()
            } else {
                arbitrary()
            },
    )
}

impl<Message: View> Element<Message> {
    /// The tree that this element stands for.
    pub open spec fn tree(&self) -> SpecElement<Message::V>
        decreases self,
    {
        match self {
            Element::Text { content, size } => SpecElement::Text { content: content@, size: *size },
            Element::TextInput { placeholder, value, size } => SpecElement::TextInput {
                placeholder: placeholder@,
                value: value@,
                size: *size,
            },
            Element::Button {
                content,
                padding,
                width,
                height,
                variant,
                size,
                disabled,
                on_press,
            } => {
                SpecElement::Button {
                    content: Box::new((**content).tree()),
                    padding: *padding,
                    width: *width,
                    height: *height,
                    variant: *variant,
                    size: *size,
                    disabled: *disabled,
                    on_press: match on_press {
                        Some(message) => Some(message@),
                        None => None,
                    },
                }
            },
            Element::Row { children, spacing, height } => SpecElement::Row {
                children: trees(*children),
                spacing: *spacing,
                height: *height,
            },
            Element::Column { children, spacing } => SpecElement::Column {
                children: trees(*children),
                spacing: *spacing,
            },
        }
    }
}

impl<Message: View> View for Element<Message> {
    type V = SpecElement<Message::V>;

    open spec fn view(&self) -> SpecElement<Message::V> {
        self.tree()
    }
}

/// A list of children with nothing in it.
pub fn no_children<Message: View>() -> (children: Vec<Element<Message>>)
    ensures
        children@ == Seq::<Element<Message>>::empty(),
        trees(children) == Seq::<SpecElement<Message::V>>::empty(),
{
    let children: Vec<Element<Message>> = Vec::new();
    children
}

/// Puts `child` after the children that are there.
pub fn push_child<Message: View>(children: &mut Vec<Element<Message>>, child: Element<Message>)
    ensures
        final(children)@ == old(children)@.push(child),
        trees(*final(children)) == trees(*old(children)).push(child@),
{
    children.push(child);
}

} // verus!
