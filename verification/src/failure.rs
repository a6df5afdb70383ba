//! What can go wrong, as data.

use crate::arguments::Argument;
use crate::binary64::Binary64;
use crate::options::Evidence;
use vstd::prelude::*;

verus! {

/// A failure of one of this crate's operations.
#[derive(Debug, PartialEq, Eq)]
pub enum Failure {
    /// A value offered as a probability is not a number from zero to one.
    InvalidProbability(Binary64),
    /// The denominator of Bayes' rule is not positive for the evidence given,
    /// so no posterior is defined.
    ZeroMarginalProbability {
        name: String,
        prior: Binary64,
        likelihood: Binary64,
        likelihood_null: Binary64,
        evidence: Evidence,
    },
    /// The store holds no prior under this name.
    HypothesisNotFound(String),
    /// The store could not be opened, read or written.
    StoreUnavailable,
    /// The record under a name is not eight bytes long.
    MalformedStoredValue,
    /// A word that names no kind of evidence.
    InvalidEvidence(String),
    /// A word that names no update choice.
    InvalidUpdateHypothesis(String),
    /// A word that names no output format.
    InvalidOutputFormat(String),
    /// An argument that the operation cannot do without was not given.
    MissingArgument(Argument),
}

/// A [`Failure`] with each string taken as its sequence of characters.
pub enum FailureView {
    InvalidProbability(Binary64),
    ZeroMarginalProbability {
        name: Seq<char>,
        prior: Binary64,
        likelihood: Binary64,
        likelihood_null: Binary64,
        evidence: Evidence,
    },
    HypothesisNotFound(Seq<char>),
    StoreUnavailable,
    MalformedStoredValue,
    InvalidEvidence(Seq<char>),
    InvalidUpdateHypothesis(Seq<char>),
    InvalidOutputFormat(Seq<char>),
    MissingArgument(Argument),
}

impl View for Failure {
    type V = FailureView;

    open spec fn view(&self) -> FailureView {
        match *self {
            Failure::InvalidProbability(value) => FailureView::InvalidProbability(value),
            Failure::ZeroMarginalProbability { name, prior, likelihood, likelihood_null, evidence } =>
                FailureView::ZeroMarginalProbability {
                    name: name@,
                    prior,
                    likelihood,
                    likelihood_null,
                    evidence,
                },
            Failure::HypothesisNotFound(name) => FailureView::HypothesisNotFound(name@),
            Failure::StoreUnavailable => FailureView::StoreUnavailable,
            Failure::MalformedStoredValue => FailureView::MalformedStoredValue,
            Failure::InvalidEvidence(word) => FailureView::InvalidEvidence(word@),
            Failure::InvalidUpdateHypothesis(word) => FailureView::InvalidUpdateHypothesis(word@),
            Failure::InvalidOutputFormat(word) => FailureView::InvalidOutputFormat(word@),
            Failure::MissingArgument(argument) => FailureView::MissingArgument(argument),
        }
    }
}

/// A result with its error, if it is one, taken by its view.
pub open spec fn outcome<T>(result: Result<T, Failure>) -> Result<T, FailureView> {
    match result {
        Ok(value) => Ok(value),
        Err(error) => Err(error@),
    }
}

} // verus!
