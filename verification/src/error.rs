use crate::lcd_error::{spec_error_message, Error};
use crate::text::{decimal, push_decimal};
use vstd::prelude::*;

verus! {

/// Errors of the UI framework.
#[derive(Debug)]
pub enum UiError {
    /// The display backend failed.
    Backend(Error),
    /// The navigation stack is empty.
    NoPages,
    /// A row or column cannot fit its spacing; the text says which.
    InvalidLayout(&'static str),
    /// Two buttons of one view share an id.
    DuplicateWidgetId(u32),
    /// The focused id is not a button of the current layout.
    FocusedWidgetNotFound(u32),
}

/// Result of a UI operation.
pub type UiResult<T> = Result<T, UiError>;

/// The text that describes an error.
pub open spec fn spec_ui_error_message(e: UiError) -> Seq<char> {
    match e {
        UiError::Backend(err) => "backend error: "@ + spec_error_message(err),
        UiError::NoPages => "app has no pages in navigation stack"@,
        UiError::InvalidLayout(msg) => "invalid layout: "@ + msg@,
        UiError::DuplicateWidgetId(id) => "duplicate widget id in page view: "@ + decimal(id as nat),
        UiError::FocusedWidgetNotFound(id) => "focused widget id was not found in current layout: "@
            + decimal(id as nat),
    }
}

impl UiError {
    /// The description of the error.
    pub fn message(&self) -> (r: String)
        ensures
            r@ == spec_ui_error_message(*self),
    {
        match self {
            UiError::Backend(err) => {
                let mut s = String::from_str("backend error: ");
                s.append(err.message().as_str());
                s
            },
            UiError::NoPages => String::from_str("app has no pages in navigation stack"),
            UiError::InvalidLayout(msg) => {
                let mut s = String::from_str("invalid layout: ");
                s.append(msg);
                s
            },
            UiError::DuplicateWidgetId(id) => {
                let mut s = String::from_str("duplicate widget id in page view: ");
                push_decimal(&mut s, *id);
                s
            },
            UiError::FocusedWidgetNotFound(id) => {
                let mut s = String::from_str("focused widget id was not found in current layout: ");
                push_decimal(&mut s, *id);
                s
            },
        }
    }
}

impl From<Error> for UiError {
    fn from(value: Error) -> (r: Self)
        ensures
            r == UiError::Backend(value),
    {
        UiError::Backend(value)
    }
}

impl vstd::std_specs::convert::FromSpecImpl<Error> for UiError {
    open spec fn obeys_from_spec() -> bool {
        true
    }

    open spec fn from_spec(v: Error) -> UiError {
        UiError::Backend(v)
    }
}

} // verus!
