//! The words of a report and of a failure.
//!
//! Numbers arrive here already written out: a caller renders each figure as
//! text and this module sets the texts into their sentences.

use crate::arguments::Argument;
use crate::failure::{Failure, FailureView};
use crate::options::{Evidence, OutputFormat};
use vstd::prelude::*;
use vstd::string::StringExecFns;

verus! {

/// The figures of one computation, each written out as text.
pub struct Figures<'a> {
    /// P(H).
    pub prior: &'a str,
    /// P(E | H).
    pub likelihood: &'a str,
    /// P(E | not H).
    pub likelihood_null: &'a str,
    /// One minus the prior.
    pub negated_prior: &'a str,
    /// One minus the likelihood.
    pub negated_likelihood: &'a str,
    /// One minus the null likelihood.
    pub negated_likelihood_null: &'a str,
}

/// The names of the members of the JSON report.
pub const JSON_NAME: &'static str = "name";

pub const JSON_PRIOR: &'static str = "prior";

pub const JSON_LIKELIHOOD: &'static str = "likelihood";

pub const JSON_LIKELIHOOD_NULL: &'static str = "likelihood_null";

pub const JSON_EVIDENCE: &'static str = "evidence";

pub const JSON_POSTERIOR: &'static str = "posterior_probability";

/// A report, ready to be shown.
#[derive(Debug, PartialEq, Eq)]
pub enum Report {
    /// A table: the titles of its columns, then its rows.
    Table { titles: Vec<String>, rows: Vec<Vec<String>> },
    /// A JSON object of the name, the figures as numbers, the posterior and
    /// the evidence under the label given here.
    Json { evidence: String },
    /// A text.
    Simple(String),
}

/// A [`Report`] with each string taken as its sequence of characters.
pub enum ReportView {
    Table { titles: Seq<Seq<char>>, rows: Seq<Seq<Seq<char>>> },
    Json { evidence: Seq<char> },
    Simple(Seq<char>),
}

impl View for Report {
    type V = ReportView;

    open spec fn view(&self) -> ReportView {
        match *self {
            Report::Table { titles, rows } => ReportView::Table {
                titles: titles.deep_view(),
                rows: rows.deep_view(),
            },
            Report::Json { evidence } => ReportView::Json { evidence: evidence@ },
            Report::Simple(text) => ReportView::Simple(text@),
        }
    }
}

/// The report of a posterior in a format.
pub open spec fn report(
    name: Seq<char>,
    figures: Figures,
    marginal: Seq<char>,
    evidence: Evidence,
    posterior: Seq<char>,
    format: OutputFormat,
) -> ReportView {
    match format {
        OutputFormat::Table => ReportView::Table {
            titles: titles(),
            rows: rows(name, figures, marginal, evidence, posterior),
        },
        OutputFormat::Json => ReportView::Json { evidence: evidence.label() },
        OutputFormat::Simple => ReportView::Simple(simple(name, figures, posterior)),
    }
}

/// The line that shows a stored prior.
pub open spec fn prior_shown(name: Seq<char>, prior: Seq<char>) -> Seq<char> {
    "P("@ + name + ") = "@ + prior
}

/// The line that says that a stored prior was removed.
pub open spec fn prior_removed(name: Seq<char>) -> Seq<char> {
    "P("@ + name + ") removed"@
}

/// The line that says that the posterior was stored as the new prior.
pub open spec fn prior_updated(name: Seq<char>, posterior: Seq<char>) -> Seq<char> {
    "P("@ + name + ") has been updated to "@ + posterior
}

/// The titles of the three columns of the table.
pub open spec fn titles() -> Seq<Seq<char>> {
    seq!["Name"@, "Probability"@, "Value"@]
}

/// The last row of the table: the posterior, which is labelled only where
/// the evidence was observed.
pub open spec fn posterior_row(name: Seq<char>, evidence: Evidence, posterior: Seq<char>) -> Seq<
    Seq<char>,
> {
    match evidence {
        Evidence::Observed => seq![
            "Posterior Probability"@,
            "P("@ + name + "|E)"@,
            posterior,
        ],
        Evidence::NotObserved => seq!["P("@ + name + "|\u{ac}E)"@, posterior],
    }
}

/// The rows of the table, from the prior down to the posterior.
pub open spec fn rows(
    name: Seq<char>,
    figures: Figures,
    marginal: Seq<char>,
    evidence: Evidence,
    posterior: Seq<char>,
) -> Seq<Seq<Seq<char>>> {
    seq![
        seq!["Prior"@, "P("@ + name + ")"@, figures.prior@],
        seq!["Likelihood"@, "P(E|"@ + name + ")"@, figures.likelihood@],
        seq!["Likelihood Null"@, "P(E|\u{ac}"@ + name + ")"@, figures.likelihood_null@],
        seq!["Marginal Likelihood"@, "P(E)"@, marginal],
        posterior_row(name, evidence, posterior),
    ]
}

/// The report in a few lines of text.
pub open spec fn simple(name: Seq<char>, figures: Figures, posterior: Seq<char>) -> Seq<char> {
    "\n                P("@ + name + ") = "@ + figures.prior@ + "\n                P(E|"@ + name
        + ") = "@ + figures.likelihood@ + "\n                P(E|\u{ac}"@ + name + ") = "@
        + figures.likelihood_null@ + "\n                P("@ + name + "|E) = "@ + posterior
        + "\n                "@
}

/// Why no posterior is defined: the sentence, then the marginal written out
/// term by term with the figures set in.
pub open spec fn zero_marginal(name: Seq<char>, evidence: Evidence, figures: Figures) -> Seq<
    char,
> {
    match evidence {
        Evidence::Observed =>
            "The total probability of observing evidence P(E) must be greater than 0 if evidence is observed.  \r\nP(E) = P("@
                + name + ")["@ + figures.prior@ + "] * P(E|"@ + name + ")["@ + figures.likelihood@
                + "] + P(\u{ac}"@ + name + ")["@ + figures.negated_prior@ + "] * P(E|\u{ac}"@
                + name + ")["@ + figures.likelihood_null@ + "] = 0"@,
        Evidence::NotObserved =>
            "The total probability of not observing evidence P(\u{ac}E) must be greater than 0 if evidence is not observed.  \r\nP(\u{ac}E) = P(\u{ac}E|"@
                + name + ")["@ + figures.negated_likelihood@ + "] * P("@ + name + ")["@
                + figures.prior@ + "] + P(\u{ac}"@ + name + ")["@ + figures.negated_prior@
                + "] * P(\u{ac}E|\u{ac}"@ + name + ")["@ + figures.negated_likelihood_null@
                + "] = 0"@,
    }
}

/// What a failure says to the user.
pub open spec fn message(failure: FailureView, figures: Figures) -> Seq<char> {
    match failure {
        FailureView::InvalidProbability(_) => "Probability must be between 0 and 1"@,
        FailureView::ZeroMarginalProbability { name, evidence, .. } => zero_marginal(
            name,
            evidence,
            figures,
        ),
        FailureView::HypothesisNotFound(name) => "Could not find hypothesis "@ + name,
        FailureView::StoreUnavailable => "Could not open the store of hypotheses"@,
        FailureView::MalformedStoredValue => "The stored prior is not a number of eight bytes"@,
        FailureView::InvalidEvidence(word) => "Invalid evidence: "@ + word,
        FailureView::InvalidUpdateHypothesis(word) => "Invalid update hypothesis: "@ + word,
        FailureView::InvalidOutputFormat(word) => "Invalid output format: "@ + word,
        FailureView::MissingArgument(argument) => missing(argument),
    }
}

/// What is said of an argument that was not given.
pub open spec fn missing(argument: Argument) -> Seq<char> {
    match argument {
        Argument::Name => "name is required"@,
        Argument::Prior => "prior is required"@,
        Argument::Likelihood => "likelihood is required"@,
        Argument::LikelihoodNull => "likelihood_not is required"@,
        Argument::Evidence => "evidence is required"@,
        Argument::Output => "output is required"@,
    }
}

/// A piece of text between two others.
fn enclose(before: &str, inner: &str, after: &str) -> (text: String)
    ensures
        text@ == before@ + inner@ + after@,
{
    let mut text = String::from_str(before);
    text.append(inner);
    text.append(after);
    text
}

/// One piece of text after another.
fn follow(before: &str, after: &str) -> (text: String)
    ensures
        text@ == before@ + after@,
{
    let mut text = String::from_str(before);
    text.append(after);
    text
}

/// A row of three cells.
fn row_of_three(first: &str, second: String, third: &str) -> (row: Vec<String>)
    ensures
        row.deep_view() == seq![first@, second@, third@],
{
    let mut row: Vec<String> = Vec::new();
    row.push(String::from_str(first));
    row.push(second);
    row.push(String::from_str(third));
    assert(row.deep_view() =~= seq![first@, second@, third@]);
    row
}

/// The titles of the three columns of the table.
pub fn table_titles() -> (cells: Vec<String>)
    ensures
        cells.deep_view() == titles(),
{
    row_of_three("Name", String::from_str("Probability"), "Value")
}

/// The rows of the table, from the prior down to the posterior.
pub fn table_rows(
    name: &str,
    figures: &Figures,
    marginal: &str,
    evidence: &Evidence,
    posterior: &str,
) -> (table: Vec<Vec<String>>)
    ensures
        table.deep_view() == rows(name@, *figures, marginal@, *evidence, posterior@),
{
    let mut table: Vec<Vec<String>> = Vec::new();
    table.push(row_of_three("Prior", enclose("P(", name, ")"), figures.prior));
    table.push(row_of_three("Likelihood", enclose("P(E|", name, ")"), figures.likelihood));
    table.push(
        row_of_three("Likelihood Null", enclose("P(E|\u{ac}", name, ")"), figures.likelihood_null),
    );
    table.push(row_of_three("Marginal Likelihood", String::from_str("P(E)"), marginal));
    match evidence {
        Evidence::Observed => {
            table.push(row_of_three("Posterior Probability", enclose("P(", name, "|E)"), posterior));
        },
        Evidence::NotObserved => {
            let mut row: Vec<String> = Vec::new();
            row.push(enclose("P(", name, "|\u{ac}E)"));
            row.push(String::from_str(posterior));
            assert(row.deep_view() =~= posterior_row(name@, *evidence, posterior@));
            table.push(row);
        },
    }
    assert(table.deep_view() =~= rows(name@, *figures, marginal@, *evidence, posterior@));
    table
}

/// The report in a few lines of text.
pub fn simple_report(name: &str, figures: &Figures, posterior: &str) -> (text: String)
    ensures
        text@ == simple(name@, *figures, posterior@),
{
    let mut text = String::from_str("\n                P(");
    text.append(name);
    text.append(") = ");
    text.append(figures.prior);
    text.append("\n                P(E|");
    text.append(name);
    text.append(") = ");
    text.append(figures.likelihood);
    text.append("\n                P(E|\u{ac}");
    text.append(name);
    text.append(") = ");
    text.append(figures.likelihood_null);
    text.append("\n                P(");
    text.append(name);
    text.append("|E) = ");
    text.append(posterior);
    text.append("\n                ");
    text
}

/// The report of a posterior in the format asked for.
pub fn report_posterior_probability(
    figures: &Figures,
    marginal: &str,
    evidence: &Evidence,
    posterior: &str,
    name: &str,
    output_format: &OutputFormat,
) -> (shown: Report)
    ensures
        shown@ == report(name@, *figures, marginal@, *evidence, posterior@, *output_format),
{
    match output_format {
        OutputFormat::Table => Report::Table {
            titles: table_titles(),
            rows: table_rows(name, figures, marginal, evidence, posterior),
        },
        OutputFormat::Json => Report::Json { evidence: evidence.to_label() },
        OutputFormat::Simple => Report::Simple(simple_report(name, figures, posterior)),
    }
}

/// The line that shows a stored prior.
pub fn prior_shown_line(name: &str, prior: &str) -> (text: String)
    ensures
        text@ == prior_shown(name@, prior@),
{
    let mut text = enclose("P(", name, ") = ");
    text.append(prior);
    text
}

/// The line that says that a stored prior was removed.
pub fn prior_removed_line(name: &str) -> (text: String)
    ensures
        text@ == prior_removed(name@),
{
    enclose("P(", name, ") removed")
}

/// The line that says that the posterior was stored as the new prior.
pub fn prior_updated_line(name: &str, posterior: &str) -> (text: String)
    ensures
        text@ == prior_updated(name@, posterior@),
{
    let mut text = enclose("P(", name, ") has been updated to ");
    text.append(posterior);
    text
}

/// Why no posterior is defined, for the user to read.
pub fn zero_marginal_message(name: &str, evidence: &Evidence, figures: &Figures) -> (text: String)
    ensures
        text@ == zero_marginal(name@, *evidence, *figures),
{
    match evidence {
        Evidence::Observed => {
            let mut text = String::from_str(
                "The total probability of observing evidence P(E) must be greater than 0 if evidence is observed.  \r\nP(E) = P(",
            );
            text.append(name);
            text.append(")[");
            text.append(figures.prior);
            text.append("] * P(E|");
            text.append(name);
            text.append(")[");
            text.append(figures.likelihood);
            text.append("] + P(\u{ac}");
            text.append(name);
            text.append(")[");
            text.append(figures.negated_prior);
            text.append("] * P(E|\u{ac}");
            text.append(name);
            text.append(")[");
            text.append(figures.likelihood_null);
            text.append("] = 0");
            text
        },
        Evidence::NotObserved => {
            let mut text = String::from_str(
                "The total probability of not observing evidence P(\u{ac}E) must be greater than 0 if evidence is not observed.  \r\nP(\u{ac}E) = P(\u{ac}E|",
            );
            text.append(name);
            text.append(")[");
            text.append(figures.negated_likelihood);
            text.append("] * P(");
            text.append(name);
            text.append(")[");
            text.append(figures.prior);
            text.append("] + P(\u{ac}");
            text.append(name);
            text.append(")[");
            text.append(figures.negated_prior);
            text.append("] * P(\u{ac}E|\u{ac}");
            text.append(name);
            text.append(")[");
            text.append(figures.negated_likelihood_null);
            text.append("] = 0");
            text
        },
    }
}

/// What a failure says to the user. The figures are read only where no
/// posterior is defined.
pub fn failure_message(failure: &Failure, figures: &Figures) -> (text: String)
    ensures
        text@ == message(failure@, *figures),
{
    match failure {
        Failure::InvalidProbability(_) => String::from_str("Probability must be between 0 and 1"),
        Failure::ZeroMarginalProbability { name, evidence, .. } => zero_marginal_message(
            name.as_str(),
            evidence,
            figures,
        ),
        Failure::HypothesisNotFound(name) => follow("Could not find hypothesis ", name.as_str()),
        Failure::StoreUnavailable => String::from_str("Could not open the store of hypotheses"),
        Failure::MalformedStoredValue => String::from_str(
            "The stored prior is not a number of eight bytes",
        ),
        Failure::InvalidEvidence(word) => follow("Invalid evidence: ", word.as_str()),
        Failure::InvalidUpdateHypothesis(word) => follow(
            "Invalid update hypothesis: ",
            word.as_str(),
        ),
        Failure::InvalidOutputFormat(word) => follow("Invalid output format: ", word.as_str()),
        Failure::MissingArgument(argument) => match argument {
            Argument::Name => String::from_str("name is required"),
            Argument::Prior => String::from_str("prior is required"),
            Argument::Likelihood => String::from_str("likelihood is required"),
            Argument::LikelihoodNull => String::from_str("likelihood_not is required"),
            Argument::Evidence => String::from_str("evidence is required"),
            Argument::Output => String::from_str("output is required"),
        },
    }
}

} // verus!
