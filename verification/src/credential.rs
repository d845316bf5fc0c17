//! The stored credential: how it is loaded when the translator starts, and
//! what the setup screen does with a credential that the user has entered.

use crate::translation::{is_api_key_valid, key_accepted, Exchange, ExchangeView};
use vstd::prelude::*;

verus! {

/// The file that holds the credential, and nothing else.
pub const KEY_FILE: &'static str = "./api_key.txt";

/// What the caller reports of the credential file.
#[derive(Debug, PartialEq, Eq)]
pub enum StoreReport {
    /// The file was read, and this is all that it holds.
    Read(String),
    /// The file could not be read.
    ReadFailed,
    /// An empty file was put in its place.
    Created,
    /// No file could be put in its place.
    CreateFailed,
}

/// The mathematical value of a [`StoreReport`].
pub enum StoreReportView {
    Read(Seq<char>),
    ReadFailed,
    Created,
    CreateFailed,
}

impl View for StoreReport {
    type V = StoreReportView;

    open spec fn view(&self) -> StoreReportView {
        match self {
            StoreReport::Read(content) => StoreReportView::Read(content@),
            StoreReport::ReadFailed => StoreReportView::ReadFailed,
            StoreReport::Created => StoreReportView::Created,
            StoreReport::CreateFailed => StoreReportView::CreateFailed,
        }
    }
}

/// What follows a report of the credential file.
#[derive(Debug, PartialEq, Eq)]
pub enum LoadStep {
    /// The credential is known: go on with it.
    Use(String),
    /// Put an empty file in place of the one that could not be read.
    CreateEmpty,
    /// There is no credential and no place to keep one: do not start.
    GiveUp,
}

/// The mathematical value of a [`LoadStep`].
pub enum LoadStepView {
    Use(Seq<char>),
    CreateEmpty,
    GiveUp,
}

impl View for LoadStep {
    type V = LoadStepView;

    open spec fn view(&self) -> LoadStepView {
        match self {
            LoadStep::Use(key) => LoadStepView::Use(key@),
            LoadStep::CreateEmpty => LoadStepView::CreateEmpty,
            LoadStep::GiveUp => LoadStepView::GiveUp,
        }
    }
}

/// How the credential is loaded. What the file holds is the credential, to
/// the letter. A file that cannot be read is replaced by an empty one, once,
/// and the credential is then empty.
pub open spec fn load_step(report: StoreReportView) -> LoadStepView {
    match report {
        StoreReportView::Read(content) => LoadStepView::Use(content),
        StoreReportView::ReadFailed => LoadStepView::CreateEmpty,
        StoreReportView::Created => LoadStepView::Use(Seq::empty()),
        StoreReportView::CreateFailed => LoadStepView::GiveUp,
    }
}

/// Says what to do next while the credential is loaded.
pub fn next_load_step(report: StoreReport) -> (step: LoadStep)
    ensures
        step@ == load_step(report@),
{
    match report {
        StoreReport::Read(content) => LoadStep::Use(content),
        StoreReport::ReadFailed => LoadStep::CreateEmpty,
        StoreReport::Created => LoadStep::Use(String::new()),
        StoreReport::CreateFailed => LoadStep::GiveUp,
    }
}

/// What the setup screen does once the user has confirmed a credential.
#[derive(Debug, PartialEq, Eq)]
pub enum SetupStep {
    /// The credential is valid: store it.
    Save(String),
    /// The credential is not valid: say so, and store nothing.
    Reject,
}

/// The mathematical value of a [`SetupStep`].
pub enum SetupStepView {
    Save(Seq<char>),
    Reject,
}

impl View for SetupStep {
    type V = SetupStepView;

    open spec fn view(&self) -> SetupStepView {
        match self {
            SetupStep::Save(key) => SetupStepView::Save(key@),
            SetupStep::Reject => SetupStepView::Reject,
        }
    }
}

/// A credential that the user has entered is stored exactly when its trial
/// request was answered with success, and then as it was entered.
pub open spec fn setup_step(entered: Seq<char>, trial: ExchangeView) -> SetupStepView {
    if key_accepted(trial) {
        SetupStepView::Save(entered)
    } else {
        SetupStepView::Reject
    }
}

/// Decides what the setup screen does with the credential `entered`, given
/// what became of its trial request.
pub fn confirm_entry(entered: String, trial: &Exchange) -> (step: SetupStep)
    ensures
        step@ == setup_step(entered@, trial@),
{
    if is_api_key_valid(trial) {
        SetupStep::Save(entered)
    } else {
        SetupStep::Reject
    }
}

} // verus!
