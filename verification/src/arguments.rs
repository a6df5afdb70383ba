//! The arguments of the command, and the one operation that they ask for.

use crate::binary64::Binary64;
use crate::failure::{outcome, Failure, FailureView};
use crate::options::{Evidence, OutputFormat, UpdateHypothesis};
use vstd::prelude::*;

verus! {

/// An argument that an operation cannot do without.
#[derive(Debug, Clone, Copy, PartialEq, Eq, Structural)]
pub enum Argument {
    Name,
    Prior,
    Likelihood,
    LikelihoodNull,
    Evidence,
    Output,
}

/// The arguments of the command, as they were given.
#[derive(Debug, PartialEq, Eq)]
#[non_exhaustive]
pub struct Args {
    /// Name of the hypothesis.
    pub name: Option<String>,
    /// The prior probability of the hypothesis, P(H).
    pub prior: Option<Binary64>,
    /// The likelihood of the evidence, P(E | H).
    pub likelihood: Option<Binary64>,
    /// The likelihood of the evidence under the null, P(E | not H).
    pub likelihood_null: Option<Binary64>,
    /// Whether supporting evidence was observed.
    pub evidence: Option<Evidence>,
    /// Whether the posterior is to be stored as the new prior.
    pub update_prior: Option<UpdateHypothesis>,
    /// Asks for the stored prior of the hypothesis.
    pub get_prior: bool,
    /// Asks to store this value as the prior of the hypothesis.
    pub set_prior: Option<Binary64>,
    /// Asks to remove the stored prior of the hypothesis.
    pub remove_prior: bool,
    /// Asks for the wizard.
    pub wizard: bool,
    /// The format of the report.
    pub output: Option<OutputFormat>,
}

/// What a posterior is computed from, and what is to be done with it.
#[derive(Debug, PartialEq, Eq)]
pub struct Computation {
    pub name: String,
    pub prior: Binary64,
    pub likelihood: Binary64,
    pub likelihood_null: Binary64,
    pub evidence: Evidence,
    /// The format of the report, which is asked for only once the posterior
    /// is known.
    pub output: Option<OutputFormat>,
    /// Whether the posterior is to be stored as the new prior.
    pub update: bool,
}

/// The one thing that the command is to do.
#[derive(Debug, PartialEq, Eq)]
pub enum Operation {
    /// Ask for everything, one question at a time.
    Wizard,
    /// Show the stored prior of a hypothesis.
    GetPrior { name: String },
    /// Remove the stored prior of a hypothesis.
    RemovePrior { name: String },
    /// Store a prior for a hypothesis.
    SetPrior { name: String, prior: Binary64 },
    /// Compute a posterior and report it.
    Compute(Computation),
}

/// A [`Computation`] with its name taken as a sequence of characters.
pub struct ComputationView {
    pub name: Seq<char>,
    pub prior: Binary64,
    pub likelihood: Binary64,
    pub likelihood_null: Binary64,
    pub evidence: Evidence,
    pub output: Option<OutputFormat>,
    pub update: bool,
}

/// An [`Operation`] with each name taken as a sequence of characters.
pub enum OperationView {
    Wizard,
    GetPrior { name: Seq<char> },
    RemovePrior { name: Seq<char> },
    SetPrior { name: Seq<char>, prior: Binary64 },
    Compute(ComputationView),
}

impl View for Computation {
    type V = ComputationView;

    open spec fn view(&self) -> ComputationView {
        ComputationView {
            name: self.name@,
            prior: self.prior,
            likelihood: self.likelihood,
            likelihood_null: self.likelihood_null,
            evidence: self.evidence,
            output: self.output,
            update: self.update,
        }
    }
}

impl View for Operation {
    type V = OperationView;

    open spec fn view(&self) -> OperationView {
        match *self {
            Operation::Wizard => OperationView::Wizard,
            Operation::GetPrior { name } => OperationView::GetPrior { name: name@ },
            Operation::RemovePrior { name } => OperationView::RemovePrior { name: name@ },
            Operation::SetPrior { name, prior } => OperationView::SetPrior { name: name@, prior },
            Operation::Compute(computation) => OperationView::Compute(computation@),
        }
    }
}

/// A result with both sides taken by their views.
pub open spec fn resolution(result: Result<Operation, Failure>) -> Result<
    OperationView,
    FailureView,
> {
    match result {
        Ok(operation) => Ok(operation@),
        Err(failure) => Err(failure@),
    }
}

/// The computation that the arguments describe, or the first of its
/// arguments that is missing: the prior, the likelihood, the null likelihood,
/// the evidence, in this order.
pub open spec fn computation(args: Args, name: Seq<char>) -> Result<OperationView, FailureView> {
    if args.prior is None {
        Err(FailureView::MissingArgument(Argument::Prior))
    } else if args.likelihood is None {
        Err(FailureView::MissingArgument(Argument::Likelihood))
    } else if args.likelihood_null is None {
        Err(FailureView::MissingArgument(Argument::LikelihoodNull))
    } else if args.evidence is None {
        Err(FailureView::MissingArgument(Argument::Evidence))
    } else {
        Ok(
            OperationView::Compute(
                ComputationView {
                    name,
                    prior: args.prior->0,
                    likelihood: args.likelihood->0,
                    likelihood_null: args.likelihood_null->0,
                    evidence: args.evidence->0,
                    output: args.output,
                    update: args.update_prior == Some(UpdateHypothesis::Update),
                },
            ),
        )
    }
}

/// The operation that the arguments ask for. The wizard comes before all
/// else and needs no name; then, in this order, a prior is shown, removed or
/// stored; what is left is a computation.
pub open spec fn resolved(args: Args) -> Result<OperationView, FailureView> {
    if args.wizard {
        Ok(OperationView::Wizard)
    } else {
        match args.name {
            None => Err(FailureView::MissingArgument(Argument::Name)),
            Some(name) => if args.get_prior {
                Ok(OperationView::GetPrior { name: name@ })
            } else if args.remove_prior {
                Ok(OperationView::RemovePrior { name: name@ })
            } else if args.set_prior is Some {
                Ok(OperationView::SetPrior { name: name@, prior: args.set_prior->0 })
            } else {
                computation(args, name@)
            },
        }
    }
}

impl Args {
    /// No argument given.
    pub fn new() -> (args: Args)
        ensures
            args.name is None,
            args.prior is None,
            args.likelihood is None,
            args.likelihood_null is None,
            args.evidence is None,
            args.update_prior is None,
            !args.get_prior,
            args.set_prior is None,
            !args.remove_prior,
            !args.wizard,
            args.output is None,
    {
        Args {
            name: None,
            prior: None,
            likelihood: None,
            likelihood_null: None,
            evidence: None,
            update_prior: None,
            get_prior: false,
            set_prior: None,
            remove_prior: false,
            wizard: false,
            output: None,
        }
    }

    /// The one operation that the arguments ask for.
    pub fn resolve(self) -> (result: Result<Operation, Failure>)
        ensures
            resolution(result) == resolved(self),
    {
        if self.wizard {
            return Ok(Operation::Wizard);
        }
        let update = match self.update_prior {
            Some(UpdateHypothesis::Update) => true,
            _ => false,
        };
        let name = match self.name {
            Some(name) => name,
            None => {
                return Err(Failure::MissingArgument(Argument::Name));
            },
        };
        if self.get_prior {
            return Ok(Operation::GetPrior { name });
        }
        if self.remove_prior {
            return Ok(Operation::RemovePrior { name });
        }
        if let Some(prior) = self.set_prior {
            return Ok(Operation::SetPrior { name, prior });
        }
        let prior = match self.prior {
            Some(prior) => prior,
            None => {
                return Err(Failure::MissingArgument(Argument::Prior));
            },
        };
        let likelihood = match self.likelihood {
            Some(likelihood) => likelihood,
            None => {
                return Err(Failure::MissingArgument(Argument::Likelihood));
            },
        };
        let likelihood_null = match self.likelihood_null {
            Some(likelihood_null) => likelihood_null,
            None => {
                return Err(Failure::MissingArgument(Argument::LikelihoodNull));
            },
        };
        let evidence = match self.evidence {
            Some(evidence) => evidence,
            None => {
                return Err(Failure::MissingArgument(Argument::Evidence));
            },
        };
        Ok(
            Operation::Compute(
                Computation {
                    name,
                    prior,
                    likelihood,
                    likelihood_null,
                    evidence,
                    output: self.output,
                    update,
                },
            ),
        )
    }
}

/// The format of the report, which a computation cannot do without.
pub fn required_output(output: Option<OutputFormat>) -> (result: Result<OutputFormat, Failure>)
    ensures
        outcome(result) == (match output {
            Some(format) => Ok::<OutputFormat, FailureView>(format),
            None => Err(FailureView::MissingArgument(Argument::Output)),
        }),
{
    match output {
        Some(format) => Ok(format),
        None => Err(Failure::MissingArgument(Argument::Output)),
    }
}

} // verus!
