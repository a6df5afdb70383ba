//! The wizard: the questions it asks, in their order, and what it does
//! between them.
//!
//! The wizard is a short program of steps. This module says which step
//! follows which; the caller does what a step asks and comes back for the
//! next one.

use crate::binary64::{lemma_unit_interval, Binary64};
use crate::options::{Evidence, OutputFormat, UpdateHypothesis};
use vstd::prelude::*;
use vstd::string::StringExecFns;

verus! {

/// The pattern of one half, the probability offered where none is typed.
pub const HALF_BITS: u64 = 0x3fe0_0000_0000_0000;

/// Something that the wizard asks the user.
#[derive(Debug, Clone, Copy, PartialEq, Eq, Structural)]
pub enum Question {
    Name,
    Prior,
    Likelihood,
    LikelihoodNull,
    Evidence,
    OutputFormat,
    Update,
}

/// One step of the wizard.
#[derive(Debug, Clone, Copy, PartialEq, Eq, Structural)]
pub enum Step {
    /// Put a question to the user.
    Ask(Question),
    /// Compute the posterior from the answers so far.
    Compute,
    /// Report the posterior in the format that was chosen.
    Report,
    /// Store the posterior as the new prior.
    Save,
    /// Nothing is left to do.
    Finish,
}

/// How a step went.
#[derive(Debug, Clone, Copy, PartialEq, Eq, Structural)]
pub enum Outcome {
    /// The step was done.
    Done,
    /// The step failed: a question could not be put, no posterior is
    /// defined, or the posterior could not be stored.
    Failed,
}

/// The step that follows a step. Only the last question branches: the
/// posterior is stored if the answer was to update, and not otherwise.
pub open spec fn following(step: Step, update: UpdateHypothesis) -> Step {
    match step {
        Step::Ask(Question::Name) => Step::Ask(Question::Prior),
        Step::Ask(Question::Prior) => Step::Ask(Question::Likelihood),
        Step::Ask(Question::Likelihood) => Step::Ask(Question::LikelihoodNull),
        Step::Ask(Question::LikelihoodNull) => Step::Ask(Question::Evidence),
        Step::Ask(Question::Evidence) => Step::Compute,
        Step::Compute => Step::Ask(Question::OutputFormat),
        Step::Ask(Question::OutputFormat) => Step::Report,
        Step::Report => Step::Ask(Question::Update),
        Step::Ask(Question::Update) => match update {
            UpdateHypothesis::Update => Step::Save,
            UpdateHypothesis::NoUpdate => Step::Finish,
        },
        Step::Save => Step::Finish,
        Step::Finish => Step::Finish,
    }
}

/// The step that follows a step, given how the step went: a failure ends the
/// wizard at once.
pub open spec fn following_outcome(step: Step, outcome: Outcome, update: UpdateHypothesis) -> Step {
    match outcome {
        Outcome::Failed => Step::Finish,
        Outcome::Done => following(step, update),
    }
}

/// How many steps are left after a step, at most.
pub open spec fn steps_left(step: Step) -> nat {
    match step {
        Step::Ask(Question::Name) => 10,
        Step::Ask(Question::Prior) => 9,
        Step::Ask(Question::Likelihood) => 8,
        Step::Ask(Question::LikelihoodNull) => 7,
        Step::Ask(Question::Evidence) => 6,
        Step::Compute => 5,
        Step::Ask(Question::OutputFormat) => 4,
        Step::Report => 3,
        Step::Ask(Question::Update) => 2,
        Step::Save => 1,
        Step::Finish => 0,
    }
}

/// The words of a question, about the hypothesis of the given name.
pub open spec fn prompt(question: Question, name: Seq<char>) -> Seq<char> {
    match question {
        Question::Name => "Enter the name of the hypothesis"@,
        Question::Prior => "Enter the prior probability of the hypothesis P("@ + name + ")"@,
        Question::Likelihood => "Enter the likelihood of observing evidence given "@ + name
            + " is true P(E|"@ + name + ")"@,
        Question::LikelihoodNull => "Enter the likelihood of observing evidence given "@ + name
            + " is false P(E|\u{ac}"@ + name + ")"@,
        Question::Evidence => "Is evidence observed or not observed?"@,
        Question::OutputFormat => "How would you like the output?"@,
        Question::Update => "Would you like to update the prior probability?"@,
    }
}

/// The step that the wizard starts with.
pub fn first_step() -> (step: Step)
    ensures
        step == Step::Ask(Question::Name),
{
    Step::Ask(Question::Name)
}

/// The step that follows a step, given the answer to the last question, or
/// any answer where that question has not been put yet.
pub fn next_step(step: Step, update: UpdateHypothesis) -> (next: Step)
    ensures
        next == following(step, update),
        step != Step::Finish ==> steps_left(next) < steps_left(step),
{
    match step {
        Step::Ask(Question::Name) => Step::Ask(Question::Prior),
        Step::Ask(Question::Prior) => Step::Ask(Question::Likelihood),
        Step::Ask(Question::Likelihood) => Step::Ask(Question::LikelihoodNull),
        Step::Ask(Question::LikelihoodNull) => Step::Ask(Question::Evidence),
        Step::Ask(Question::Evidence) => Step::Compute,
        Step::Compute => Step::Ask(Question::OutputFormat),
        Step::Ask(Question::OutputFormat) => Step::Report,
        Step::Report => Step::Ask(Question::Update),
        Step::Ask(Question::Update) => match update {
            UpdateHypothesis::Update => Step::Save,
            UpdateHypothesis::NoUpdate => Step::Finish,
        },
        Step::Save => Step::Finish,
        Step::Finish => Step::Finish,
    }
}

/// The step that follows a step, given how the step went and the answer to
/// the last question, or any answer where that question has not been put
/// yet. After a step that failed nothing is left to do.
pub fn step_after(step: Step, outcome: Outcome, update: UpdateHypothesis) -> (next: Step)
    ensures
        next == following_outcome(step, outcome, update),
        step != Step::Finish ==> steps_left(next) < steps_left(step),
{
    match outcome {
        Outcome::Failed => Step::Finish,
        Outcome::Done => next_step(step, update),
    }
}

/// The words of a question, about the hypothesis of the given name. The
/// first question is put before there is a name and does not read it.
pub fn prompt_text(question: Question, name: &str) -> (text: String)
    ensures
        text@ == prompt(question, name@),
{
    match question {
        Question::Name => String::from_str("Enter the name of the hypothesis"),
        Question::Prior => {
            let mut text = String::from_str("Enter the prior probability of the hypothesis P(");
            text.append(name);
            text.append(")");
            text
        },
        Question::Likelihood => {
            let mut text = String::from_str("Enter the likelihood of observing evidence given ");
            text.append(name);
            text.append(" is true P(E|");
            text.append(name);
            text.append(")");
            text
        },
        Question::LikelihoodNull => {
            let mut text = String::from_str("Enter the likelihood of observing evidence given ");
            text.append(name);
            text.append(" is false P(E|\u{ac}");
            text.append(name);
            text.append(")");
            text
        },
        Question::Evidence => String::from_str("Is evidence observed or not observed?"),
        Question::OutputFormat => String::from_str("How would you like the output?"),
        Question::Update => String::from_str("Would you like to update the prior probability?"),
    }
}

/// The probability offered where none is typed: one half.
pub fn default_probability() -> (value: Binary64)
    ensures
        value.bits == HALF_BITS,
        value.in_unit_interval(),
{
    let value = Binary64::from_bits(HALF_BITS);
    proof {
        lemma_unit_interval(value);
    }
    value
}

/// The evidence offered where none is typed: observed.
pub fn default_evidence() -> (evidence: Evidence)
    ensures
        evidence == Evidence::Observed,
{
    Evidence::Observed
}

/// The output format offered where none is typed: a table.
pub fn default_output_format() -> (format: OutputFormat)
    ensures
        format == OutputFormat::Table,
{
    OutputFormat::Table
}

/// The update choice offered where none is typed: no update.
pub fn default_update() -> (update: UpdateHypothesis)
    ensures
        update == UpdateHypothesis::NoUpdate,
{
    UpdateHypothesis::NoUpdate
}

/// From its first step the wizard asks for the name, the three
/// probabilities and the evidence, computes, asks for the format, reports
/// and asks whether to update; it then stores the posterior if and only if
/// the answer was to update, and ends.
pub proof fn lemma_course(update: UpdateHypothesis)
    ensures
        ({
            let s1 = following(Step::Ask(Question::Name), update);
            let s2 = following(s1, update);
            let s3 = following(s2, update);
            let s4 = following(s3, update);
            let s5 = following(s4, update);
            let s6 = following(s5, update);
            let s7 = following(s6, update);
            let s8 = following(s7, update);
            let s9 = following(s8, update);
            let s10 = following(s9, update);
            &&& s1 == Step::Ask(Question::Prior)
            &&& s2 == Step::Ask(Question::Likelihood)
            &&& s3 == Step::Ask(Question::LikelihoodNull)
            &&& s4 == Step::Ask(Question::Evidence)
            &&& s5 == Step::Compute
            &&& s6 == Step::Ask(Question::OutputFormat)
            &&& s7 == Step::Report
            &&& s8 == Step::Ask(Question::Update)
            &&& (s9 == Step::Save <==> update == UpdateHypothesis::Update)
            &&& (s9 == Step::Finish <==> update == UpdateHypothesis::NoUpdate)
            &&& s10 == Step::Finish
        }),
{
}

/// After a computation that failed the wizard asks for no format, reports
/// nothing, asks for no update and stores nothing: it is finished, and stays
/// so whatever is said to have happened next.
pub proof fn lemma_failure_ends(step: Step, update: UpdateHypothesis, later: Outcome)
    ensures
        following_outcome(step, Outcome::Failed, update) == Step::Finish,
        following_outcome(Step::Finish, later, update) == Step::Finish,
{
}

} // verus!
