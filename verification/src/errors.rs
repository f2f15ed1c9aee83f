//! Failures of the profile store.

use vstd::prelude::*;
use crate::text::{decimal, push_decimal};

verus! {

/// Why a store operation was refused.
#[derive(Debug)]
pub enum EnvironmentError {
    /// No profile carries the given name.
    NotFound(String),
    /// Another profile already carries the given name.
    DuplicateName(String),
    /// The index lies outside the store.
    InvalidIndex(usize),
}

/// A failure with its name as a character sequence.
pub enum ErrorView {
    NotFound(Seq<char>),
    DuplicateName(Seq<char>),
    InvalidIndex(nat),
}

impl ErrorView {
    /// The message shown to the user for this failure.
    pub open spec fn message_text(self) -> Seq<char> {
        match self {
            ErrorView::NotFound(name) => "Environment not found: "@ + name,
            ErrorView::DuplicateName(name) => "Environment with duplicate name: "@ + name,
            ErrorView::InvalidIndex(index) => "Invalid environment index: "@ + decimal(index),
        }
    }
}

impl View for EnvironmentError {
    type V = ErrorView;

    open spec fn view(&self) -> ErrorView {
        match self {
            EnvironmentError::NotFound(name) => ErrorView::NotFound(name@),
            EnvironmentError::DuplicateName(name) => ErrorView::DuplicateName(name@),
            EnvironmentError::InvalidIndex(index) => ErrorView::InvalidIndex(*index as nat),
        }
    }
}

impl EnvironmentError {

    /// Renders the failure as the line that the status area shows.
    pub fn message(&self) -> (text: String)
        ensures
            text@ == self@.message_text(),
    {
        match self {
            EnvironmentError::NotFound(name) => {
                let mut text = "Environment not found: ".to_owned();
                text.append(name.as_str());
                text
            },
            EnvironmentError::DuplicateName(name) => {
                let mut text = "Environment with duplicate name: ".to_owned();
                text.append(name.as_str());
                text
            },
            EnvironmentError::InvalidIndex(index) => {
                let mut text = "Invalid environment index: ".to_owned();
                push_decimal(&mut text, *index);
                text
            },
        }
    }
}

} // verus!
