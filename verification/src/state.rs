use vstd::prelude::*;

use crate::error::ClientError;

verus! {

/// A single client-lifetime value of caller-chosen type, attached once at
/// build time and read many times. Reading through `get` is checked
/// statically; `downcast_ref` is for call sites that only learn the type
/// dynamically and is answered with a typed error, never a panic, when
/// the types differ.
#[derive(Debug)]
pub struct State<S> {
    value: S,
}

impl<S> View for State<S> {
    type V = S;

    closed spec fn view(&self) -> S {
        self.value
    }
}

/// Relies on core::any::TypeId::of and its Debug writing: a label that
/// identifies the type within one program, used only inside error
/// messages.
#[verifier::external_body]
fn type_label_of<T: 'static>() -> String {
    format!("{:?}", core::any::TypeId::of::<T>())
}

/// Relies on <dyn core::any::Any>::downcast_ref: the result is Some
/// exactly when the value's runtime type is T, and never panics.
#[verifier::external_body]
fn any_downcast_ref<'a, S: 'static, T: 'static>(value: &'a S) -> Option<&'a T> {
    (value as &dyn core::any::Any).downcast_ref::<T>()
}

impl<S: 'static> State<S> {
    /// Wraps the value; `get` returns exactly it.
    pub fn new(value: S) -> (r: Self)
        ensures
            r@ == value,
    {
        State { value }
    }

    /// The stored value, read under its static type.
    pub fn get(&self) -> (r: &S)
        ensures
            *r == self@,
    {
        &self.value
    }

    /// The stored value, read under a type only known at the call site.
    /// When the requested type is not the stored one, the error names
    /// both.
    pub fn downcast_ref<T: 'static>(&self) -> (r: Result<&T, ClientError>)
        ensures
            r matches Err(e) ==> e matches ClientError::StateDowncast { .. },
    {
        match any_downcast_ref::<S, T>(&self.value) {
            Some(v) => Ok(v),
            None => Err(
                ClientError::StateDowncast {
                    have: type_label_of::<S>(),
                    want: type_label_of::<T>(),
                },
            ),
        }
    }
}

} // verus!
