//! What the host hands over in a buffer of its own.

use vstd::prelude::*;

verus! {

/// The contents of a buffer that the host allocated and handed across the
/// boundary, or nothing where the host handed over a null buffer.
///
/// The embedding module reads the buffer into this value and gives the
/// allocation back to the host; the value itself owns plain data.
#[derive(Debug)]
pub struct Extern<T> {
    contents: Option<T>,
}

impl<T> View for Extern<T> {
    type V = Option<T>;

    /// What the buffer held; `None` for the null buffer.
    closed spec fn view(&self) -> Option<T> {
        self.contents
    }
}

impl<T> Extern<T> {
    /// The null buffer.
    pub fn null() -> (r: Self)
        ensures
            r@ is None,
    {
        Extern { contents: None }
    }

    /// A buffer that held `value`.
    pub fn holding(value: T) -> (r: Self)
        ensures
            r@ == Some(value),
    {
        Extern { contents: Some(value) }
    }

    /// Whether the host handed over no buffer.
    pub fn is_null(&self) -> (r: bool)
        ensures
            r == (self@ is None),
    {
        self.contents.is_none()
    }

    /// The contents, unless the buffer is null.
    pub fn get(&self) -> (r: Option<&T>)
        ensures
            self@ is None <==> r is None,
            r is Some ==> *r.unwrap() == self@.unwrap(),
    {
        self.contents.as_ref()
    }
}

impl Extern<String> {
    /// The string in the buffer, unless the buffer is null.
    pub fn to_str(&self) -> (r: Option<&str>)
        ensures
            self@ is None <==> r is None,
            r is Some ==> r.unwrap()@ == self@.unwrap()@,
    {
        match self.get() {
            Some(data) => Some(data.as_str()),
            None => None,
        }
    }
}

} // verus!
