//! The words on the screen: what is written for each screen and field.
//! Layout, colour and drawing are the embedding program's.

use vstd::prelude::*;
use crate::components::focus::{CurrentInput, CurrentScreen};
use crate::error::PipelineError;

verus! {

/// The name of the mode that `screen` stands for.
pub open spec fn mode_caption(screen: CurrentScreen) -> Seq<char> {
    match screen {
        CurrentScreen::Main => "Input Mode"@,
        CurrentScreen::Success => "Display Mode"@,
        CurrentScreen::Failure => "Failure Mode"@,
        CurrentScreen::Exiting => "Exiting"@,
    }
}

/// What is said of the field that is edited.
pub open spec fn input_caption(input: Option<CurrentInput>) -> Seq<char> {
    match input {
        Some(CurrentInput::Expression) => "Inputting Expression"@,
        Some(CurrentInput::Xdomain) => "Inputting X-Domain"@,
        None => "Not Inputting Anything"@,
    }
}

/// The keys that `screen` offers.
pub open spec fn keys_caption(screen: CurrentScreen) -> Seq<char> {
    match screen {
        CurrentScreen::Main => "(Tab) to change input field, (Enter) to complete"@,
        CurrentScreen::Success => "<q> to quit app | <r> to reset app"@,
        CurrentScreen::Failure => "<q> to quit app | <r> to reset app"@,
        CurrentScreen::Exiting => "<y> to confirm | <n> to cancel"@,
    }
}

/// What is said of the error `e`.
pub open spec fn error_caption(e: PipelineError) -> Seq<char> {
    match e {
        PipelineError::ExpressionParseError => "the expression is not well formed"@,
        PipelineError::ExpressionBindError => "the expression uses a name other than x that is not known"@,
        PipelineError::DomainFormatError => "the domain is not of the form <integer>..<integer>"@,
        PipelineError::DomainTooLargeError => "the domain holds too many integers"@,
        PipelineError::EvaluationError => "the expression has no finite value somewhere in the domain"@,
    }
}

/// The name of the mode that `screen` stands for.
pub fn mode_label(screen: CurrentScreen) -> (label: String)
    ensures
        label@ == mode_caption(screen),
{
    match screen {
        CurrentScreen::Main => "Input Mode".to_owned(),
        CurrentScreen::Success => "Display Mode".to_owned(),
        CurrentScreen::Failure => "Failure Mode".to_owned(),
        CurrentScreen::Exiting => "Exiting".to_owned(),
    }
}

/// What is said of the field that is edited.
pub fn input_label(input: Option<CurrentInput>) -> (label: String)
    ensures
        label@ == input_caption(input),
{
    match input {
        Some(CurrentInput::Expression) => "Inputting Expression".to_owned(),
        Some(CurrentInput::Xdomain) => "Inputting X-Domain".to_owned(),
        None => "Not Inputting Anything".to_owned(),
    }
}

/// The keys that `screen` offers.
pub fn keys_hint(screen: CurrentScreen) -> (hint: String)
    ensures
        hint@ == keys_caption(screen),
{
    match screen {
        CurrentScreen::Main => "(Tab) to change input field, (Enter) to complete".to_owned(),
        CurrentScreen::Success => "<q> to quit app | <r> to reset app".to_owned(),
        CurrentScreen::Failure => "<q> to quit app | <r> to reset app".to_owned(),
        CurrentScreen::Exiting => "<y> to confirm | <n> to cancel".to_owned(),
    }
}

/// What is said of the error `e`, for a log or a status line.
pub fn error_message(e: PipelineError) -> (message: String)
    ensures
        message@ == error_caption(e),
{
    match e {
        PipelineError::ExpressionParseError => "the expression is not well formed".to_owned(),
        PipelineError::ExpressionBindError => "the expression uses a name other than x that is not known".to_owned(),
        PipelineError::DomainFormatError => "the domain is not of the form <integer>..<integer>".to_owned(),
        PipelineError::DomainTooLargeError => "the domain holds too many integers".to_owned(),
        PipelineError::EvaluationError => "the expression has no finite value somewhere in the domain".to_owned(),
    }
}

} // verus!
