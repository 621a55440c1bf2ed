//! Toasts: short messages with an optional click handler.

use crate::text::same_text;
use std::borrow::Cow;
use std::sync::Arc;
use vstd::prelude::*;

verus! {

/// A message on the screen. `F` is what happens on a click.
pub struct Toast<F> {
    id: usize,
    msg: Cow<'static, str>,
    on_click: Option<(Cow<'static, str>, Arc<F>)>,
}

/// A borrowed text stays borrowed, an owned one is copied.
fn clone_text(text: &Cow<'static, str>) -> (copy: Cow<'static, str>)
    ensures
        copy == *text,
{
    match text {
        Cow::Borrowed(text) => Cow::Borrowed(*text),
        Cow::Owned(text) => Cow::Owned(text.clone()),
    }
}

fn as_text<'a>(text: &'a Cow<'static, str>) -> (content: &'a str)
    ensures
        content@ == text@,
{
    match text {
        Cow::Borrowed(text) => *text,
        Cow::Owned(text) => text.as_str(),
    }
}

impl<F> Toast<F> {
    /// The number by which the toast is found again.
    pub closed spec fn number(&self) -> usize {
        self.id
    }

    /// The message that it shows.
    pub closed spec fn message(&self) -> Cow<'static, str> {
        self.msg
    }

    /// What can be clicked on, and what happens then.
    pub closed spec fn click(&self) -> Option<(Cow<'static, str>, Arc<F>)> {
        self.on_click
    }

    /// A toast without a click handler.
    pub fn new(id: usize, msg: Cow<'static, str>) -> (toast: Self)
        ensures
            toast.number() == id,
            toast.message() == msg,
            toast.click() is None,
    {
        Toast { id, msg, on_click: None }
    }

    /// The same toast with a click handler, in place of any that it had.
    pub fn on_click(self, message: Cow<'static, str>, on_click: F) -> (toast: Self)
        ensures
            toast.number() == self.number(),
            toast.message() == self.message(),
            toast.click() == Some((message, Arc::new(on_click))),
    {
        let mut toast = self;
        toast.on_click = Some((message, Arc::new(on_click)));
        toast
    }
}

/// Two toasts are equal if they have the same number, show the same message, and
/// both or neither can be clicked on. What happens on a click is not compared.
impl<F> PartialEq for Toast<F> {
    fn eq(&self, other: &Self) -> (equal: bool) {
        self.id == other.id && same_text(as_text(&self.msg), as_text(&other.msg))
            && self.on_click.is_some() == other.on_click.is_some()
    }
}

impl<F> vstd::std_specs::cmp::PartialEqSpecImpl for Toast<F> {
    open spec fn obeys_eq_spec() -> bool {
        true
    }

    open spec fn eq_spec(&self, other: &Self) -> bool {
        self.number() == other.number() && self.message()@ == other.message()@ && self.click()
            is Some == other.click() is Some
    }
}

impl<F> Clone for Toast<F> {
    fn clone(&self) -> (copy: Self)
        ensures
            copy == *self,
    {
        let on_click = match &self.on_click {
            Some((message, on_click)) => Some((clone_text(message), on_click.clone())),
            None => None,
        };
        Toast { id: self.id, msg: clone_text(&self.msg), on_click }
    }
}

/// Equality of toasts is an equivalence, and a copy of a toast, which is the same
/// in all its parts, equals it.
pub proof fn law_equality_is_an_equivalence<F>(a: &Toast<F>, b: &Toast<F>, c: &Toast<F>)
    ensures
        vstd::std_specs::cmp::PartialEqSpec::eq_spec(a, a),
        vstd::std_specs::cmp::PartialEqSpec::eq_spec(a, b)
            == vstd::std_specs::cmp::PartialEqSpec::eq_spec(b, a),
        vstd::std_specs::cmp::PartialEqSpec::eq_spec(a, b)
            && vstd::std_specs::cmp::PartialEqSpec::eq_spec(b, c)
            ==> vstd::std_specs::cmp::PartialEqSpec::eq_spec(a, c),
{
}

/// Toasts differ if they have different numbers, show different messages, or only one
/// of them can be clicked on, and for no other reason: what can be clicked on and
/// what happens then are not compared.
pub proof fn law_toasts_differ_in_number_message_or_clickability<F>(a: &Toast<F>, b: &Toast<F>)
    ensures
        a.number() != b.number() ==> !vstd::std_specs::cmp::PartialEqSpec::eq_spec(a, b),
        a.message()@ != b.message()@ ==> !vstd::std_specs::cmp::PartialEqSpec::eq_spec(a, b),
        a.click() is Some != b.click() is Some ==> !vstd::std_specs::cmp::PartialEqSpec::eq_spec(
            a,
            b,
        ),
        !vstd::std_specs::cmp::PartialEqSpec::eq_spec(a, b) ==> a.number() != b.number()
            || a.message()@ != b.message()@ || a.click() is Some != b.click() is Some,
{
}

} // verus!
