//! The command words: kinds of evidence, update choices and output formats,
//! each with the spellings it is written in.

use crate::failure::{outcome, Failure, FailureView};
use crate::text::str_eq;
use vstd::prelude::*;
use vstd::string::StringExecFns;

verus! {

/// Whether or not evidence supporting the hypothesis was observed.
#[derive(Debug, Clone, Copy, PartialEq, Eq, Structural)]
#[non_exhaustive]
pub enum Evidence {
    /// Evidence supporting the hypothesis was observed.
    Observed,
    /// Evidence supporting the hypothesis was not observed.
    NotObserved,
}

/// Whether or not the stored prior should be replaced by the posterior.
#[derive(Debug, Clone, Copy, PartialEq, Eq, Structural)]
#[non_exhaustive]
pub enum UpdateHypothesis {
    /// The stored prior should be replaced.
    Update,
    /// The stored prior should be left as it is.
    NoUpdate,
}

/// The format in which results are shown.
#[derive(Debug, Clone, Copy, PartialEq, Eq, Structural)]
#[non_exhaustive]
pub enum OutputFormat {
    /// A table.
    Table,
    /// A JSON object.
    Json,
    /// A few lines of text.
    Simple,
}

impl Evidence {
    /// The kind of evidence that a word names, if it names one.
    pub open spec fn named_by(word: Seq<char>) -> Option<Evidence> {
        if word == "o"@ || word == "observed"@ || word == "Observed"@ || word == "y"@ || word
            == "Y"@ {
            Some(Evidence::Observed)
        } else if word == "n"@ || word == "not-observed"@ || word == "NotObserved"@ || word
            == "N"@ || word == "not observed"@ {
            Some(Evidence::NotObserved)
        } else {
            None
        }
    }

    /// What parsing a word gives: the kind it names, or the word back in an
    /// error.
    pub open spec fn parsed(word: Seq<char>) -> Result<Evidence, FailureView> {
        match Evidence::named_by(word) {
            Some(evidence) => Ok(evidence),
            None => Err(FailureView::InvalidEvidence(word)),
        }
    }

    /// The canonical spelling.
    pub open spec fn name(self) -> Seq<char> {
        match self {
            Evidence::Observed => "Observed"@,
            Evidence::NotObserved => "NotObserved"@,
        }
    }

    /// The spelling used in structured output.
    pub open spec fn label(self) -> Seq<char> {
        match self {
            Evidence::Observed => "observed"@,
            Evidence::NotObserved => "not observed"@,
        }
    }

    /// Reads a kind of evidence from any of its spellings.
    pub fn from_str(s: &str) -> (result: Result<Evidence, Failure>)
        ensures
            outcome(result) == Evidence::parsed(s@),
    {
        if str_eq(s, "o") || str_eq(s, "observed") || str_eq(s, "Observed") || str_eq(s, "y")
            || str_eq(s, "Y") {
            Ok(Evidence::Observed)
        } else if str_eq(s, "n") || str_eq(s, "not-observed") || str_eq(s, "NotObserved")
            || str_eq(s, "N") || str_eq(s, "not observed") {
            Ok(Evidence::NotObserved)
        } else {
            Err(Failure::InvalidEvidence(String::from_str(s)))
        }
    }

    /// The canonical spelling, as a string.
    pub fn to_string(&self) -> (text: String)
        ensures
            text@ == self.name(),
    {
        match self {
            Evidence::Observed => String::from_str("Observed"),
            Evidence::NotObserved => String::from_str("NotObserved"),
        }
    }

    /// The spelling used in structured output, as a string.
    pub fn to_label(&self) -> (text: String)
        ensures
            text@ == self.label(),
    {
        match self {
            Evidence::Observed => String::from_str("observed"),
            Evidence::NotObserved => String::from_str("not observed"),
        }
    }
}

impl UpdateHypothesis {
    /// The choice that a word names, if it names one.
    pub open spec fn named_by(word: Seq<char>) -> Option<UpdateHypothesis> {
        if word == "u"@ || word == "update"@ || word == "Update"@ || word == "y"@ || word
            == "Y"@ {
            Some(UpdateHypothesis::Update)
        } else if word == "n"@ || word == "no-update"@ || word == "NoUpdate"@ || word == "N"@ {
            Some(UpdateHypothesis::NoUpdate)
        } else {
            None
        }
    }

    /// What parsing a word gives: the choice it names, or the word back in an
    /// error.
    pub open spec fn parsed(word: Seq<char>) -> Result<UpdateHypothesis, FailureView> {
        match UpdateHypothesis::named_by(word) {
            Some(choice) => Ok(choice),
            None => Err(FailureView::InvalidUpdateHypothesis(word)),
        }
    }

    /// The canonical spelling.
    pub open spec fn name(self) -> Seq<char> {
        match self {
            UpdateHypothesis::Update => "Update"@,
            UpdateHypothesis::NoUpdate => "NoUpdate"@,
        }
    }

    /// Reads an update choice from any of its spellings.
    pub fn from_str(s: &str) -> (result: Result<UpdateHypothesis, Failure>)
        ensures
            outcome(result) == UpdateHypothesis::parsed(s@),
    {
        if str_eq(s, "u") || str_eq(s, "update") || str_eq(s, "Update") || str_eq(s, "y")
            || str_eq(s, "Y") {
            Ok(UpdateHypothesis::Update)
        } else if str_eq(s, "n") || str_eq(s, "no-update") || str_eq(s, "NoUpdate") || str_eq(
            s,
            "N",
        ) {
            Ok(UpdateHypothesis::NoUpdate)
        } else {
            Err(Failure::InvalidUpdateHypothesis(String::from_str(s)))
        }
    }

    /// The canonical spelling, as a string.
    pub fn to_string(&self) -> (text: String)
        ensures
            text@ == self.name(),
    {
        match self {
            UpdateHypothesis::Update => String::from_str("Update"),
            UpdateHypothesis::NoUpdate => String::from_str("NoUpdate"),
        }
    }
}

impl OutputFormat {
    /// The format that a word names, if it names one.
    pub open spec fn named_by(word: Seq<char>) -> Option<OutputFormat> {
        if word == "table"@ || word == "Table"@ || word == "t"@ || word == "T"@ {
            Some(OutputFormat::Table)
        } else if word == "json"@ || word == "Json"@ || word == "j"@ || word == "J"@ {
            Some(OutputFormat::Json)
        } else if word == "simple"@ || word == "Simple"@ || word == "s"@ || word == "S"@ {
            Some(OutputFormat::Simple)
        } else {
            None
        }
    }

    /// What parsing a word gives: the format it names, or the word back in an
    /// error.
    pub open spec fn parsed(word: Seq<char>) -> Result<OutputFormat, FailureView> {
        match OutputFormat::named_by(word) {
            Some(format) => Ok(format),
            None => Err(FailureView::InvalidOutputFormat(word)),
        }
    }

    /// The canonical spelling.
    pub open spec fn name(self) -> Seq<char> {
        match self {
            OutputFormat::Table => "Table"@,
            OutputFormat::Json => "Json"@,
            OutputFormat::Simple => "Simple"@,
        }
    }

    /// Reads an output format from any of its spellings.
    pub fn from_str(s: &str) -> (result: Result<OutputFormat, Failure>)
        ensures
            outcome(result) == OutputFormat::parsed(s@),
    {
        if str_eq(s, "table") || str_eq(s, "Table") || str_eq(s, "t") || str_eq(s, "T") {
            Ok(OutputFormat::Table)
        } else if str_eq(s, "json") || str_eq(s, "Json") || str_eq(s, "j") || str_eq(s, "J") {
            Ok(OutputFormat::Json)
        } else if str_eq(s, "simple") || str_eq(s, "Simple") || str_eq(s, "s") || str_eq(
            s,
            "S",
        ) {
            Ok(OutputFormat::Simple)
        } else {
            Err(Failure::InvalidOutputFormat(String::from_str(s)))
        }
    }

    /// The canonical spelling, as a string.
    pub fn to_string(&self) -> (text: String)
        ensures
            text@ == self.name(),
    {
        match self {
            OutputFormat::Table => String::from_str("Table"),
            OutputFormat::Json => String::from_str("Json"),
            OutputFormat::Simple => String::from_str("Simple"),
        }
    }
}

} // verus!
