//! The error of the providers of cloud resources.

use vstd::prelude::*;
use vstd::string::*;

use crate::models::meta::{copy_option, text_option};
use crate::text::concat2;

verus! {

/// An error with the message and the cause that it was given. A cause is held as its text.
#[derive(Debug)]
pub struct ProviderError {
    context: Option<String>,
    inner: Option<String>,
}

/// The contents of a `ProviderError`.
pub struct ProviderErrorView {
    /// Any message to be included with the error.
    pub context: Option<Seq<char>>,
    /// The error that caused this error.
    pub inner: Option<Seq<char>>,
}

impl View for ProviderError {
    type V = ProviderErrorView;

    closed spec fn view(&self) -> ProviderErrorView {
        ProviderErrorView { context: text_option(self.context), inner: text_option(self.inner) }
    }
}

/// The result type returned by instance create and termiante operations.
pub type ProviderResult<T> = std::result::Result<T, ProviderError>;

impl ProviderErrorView {
    /// An error with a message and no cause.
    pub open spec fn because(context: Seq<char>) -> ProviderErrorView {
        ProviderErrorView { context: Some(context), inner: None }
    }

    /// An error with a message and a cause.
    pub open spec fn caused(context: Seq<char>, source: Seq<char>) -> ProviderErrorView {
        ProviderErrorView { context: Some(context), inner: Some(source) }
    }

    /// The error in words: the message before the cause.
    pub open spec fn message(self) -> Seq<char> {
        (match self.context {
            Some(c) => ", "@ + c,
            None => Seq::empty(),
        }) + (match self.inner {
            Some(i) => ": "@ + i,
            None => Seq::empty(),
        })
    }
}

/// A reference to an optional text.
fn text_ref(o: &Option<String>) -> (r: Option<&str>)
    ensures
        text_option(*o) == match r {
            Some(s) => Some(s@),
            None => None,
        },
{
    match o {
        Some(s) => Some(s.as_str()),
        None => None,
    }
}

impl ProviderError {
    /// An error with a message and a cause.
    pub fn new_with_source_and_context(context: String, source: String) -> (r: Self)
        ensures
            r@ == ProviderErrorView::caused(context@, source@),
    {
        ProviderError { context: Some(context), inner: Some(source) }
    }

    /// An error with a cause and no message.
    pub fn new_with_source(source: String) -> (r: Self)
        ensures
            r@ == (ProviderErrorView { context: None, inner: Some(source@) }),
    {
        ProviderError { context: None, inner: Some(source) }
    }

    /// An error with a message and no cause.
    pub fn new_with_context(context: String) -> (r: Self)
        ensures
            r@ == ProviderErrorView::because(context@),
    {
        ProviderError { context: Some(context), inner: None }
    }

    /// The message.
    pub fn context(&self) -> (r: Option<&str>)
        ensures
            self@.context == match r {
                Some(s) => Some(s@),
                None => None,
            },
    {
        text_ref(&self.context)
    }

    /// The cause.
    pub fn inner(&self) -> (r: Option<&str>)
        ensures
            self@.inner == match r {
                Some(s) => Some(s@),
                None => None,
            },
    {
        text_ref(&self.inner)
    }

    /// A copy of the error.
    pub fn copy(&self) -> (r: Self)
        ensures
            r@ == self@,
    {
        ProviderError { context: copy_option(&self.context), inner: copy_option(&self.inner) }
    }

    /// The error in words.
    pub fn to_text(&self) -> (r: String)
        ensures
            r@ == self@.message(),
    {
        let head = match &self.context {
            Some(c) => concat2(", ", c.as_str()),
            None => String::new(),
        };
        let tail = match &self.inner {
            Some(i) => concat2(": ", i.as_str()),
            None => String::new(),
        };
        concat2(head.as_str(), tail.as_str())
    }
}

/// A trait that makes it possible to convert error types to `ProviderError` using a familiar
/// `context` function.
pub trait IntoProviderError<T>: Sized {
    /// The value, where there is no error.
    spec fn value(self) -> Option<T>;

    /// The text of the error, where there is one.
    spec fn cause(self) -> Option<Seq<char>>;

    /// Convert `self` into a `ProviderError`.
    fn context(self, message: &str) -> (r: ProviderResult<T>)
        ensures
            match r {
                Ok(v) => self.value() == Some(v),
                Err(e) => {
                    &&& self.value() is None
                    &&& e@.context == Some(message@)
                    &&& e@.inner == self.cause()
                },
            },
    ;
}

impl<T> IntoProviderError<T> for Result<T, String> {
    open spec fn value(self) -> Option<T> {
        match self {
            Ok(v) => Some(v),
            Err(_) => None,
        }
    }

    open spec fn cause(self) -> Option<Seq<char>> {
        match self {
            Ok(_) => None,
            Err(e) => Some(e@),
        }
    }

    fn context(self, message: &str) -> (r: ProviderResult<T>) {
        match self {
            Ok(v) => Ok(v),
            Err(e) => Err(
                ProviderError::new_with_source_and_context(String::from_str(message), e),
            ),
        }
    }
}

impl<T> IntoProviderError<T> for Option<T> {
    open spec fn value(self) -> Option<T> {
        self
    }

    open spec fn cause(self) -> Option<Seq<char>> {
        None
    }

    fn context(self, message: &str) -> (r: ProviderResult<T>) {
        match self {
            Some(v) => Ok(v),
            None => Err(ProviderError::new_with_context(String::from_str(message))),
        }
    }
}

} // verus!
