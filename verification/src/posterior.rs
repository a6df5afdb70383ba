//! The rules of Bayes' rule: which values are probabilities, when a
//! posterior is defined, and which quotient it is.
//!
//! The arithmetic itself is the caller's. The caller computes the marginal
//! likelihood P(E), its complement and the complement of the likelihood, and
//! asks here whether a posterior is defined and of which three numbers it is
//! made.

use crate::binary64::{lemma_le_zero, Binary64, NEGATIVE_ZERO_BITS, ZERO_BITS};
use crate::failure::{outcome, Failure, FailureView};
use crate::options::Evidence;
use vstd::prelude::*;
use vstd::string::StringExecFns;

verus! {

/// What the caller has computed from a prior and two likelihoods.
#[derive(Clone, Copy, Debug, PartialEq, Eq, Structural)]
pub struct Marginals {
    /// P(E): the likelihood times the prior, plus the null likelihood times
    /// the complement of the prior.
    pub marginal: Binary64,
    /// P(not E): one minus `marginal`.
    pub negated_marginal: Binary64,
    /// P(not E | H): one minus the likelihood.
    pub negated_likelihood: Binary64,
}

/// A posterior yet to be evaluated: `factor` times `prior`, divided by
/// `divisor`.
#[derive(Clone, Copy, Debug, PartialEq, Eq, Structural)]
pub struct Quotient {
    pub factor: Binary64,
    pub prior: Binary64,
    pub divisor: Binary64,
}

/// What the check of a probability gives.
pub open spec fn probability_checked(value: Binary64) -> Result<(), FailureView> {
    if value.in_unit_interval() {
        Ok(())
    } else {
        Err(FailureView::InvalidProbability(value))
    }
}

/// The denominator of Bayes' rule for the evidence given: P(E) where the
/// evidence was observed, P(not E) where it was not.
pub open spec fn denominator(evidence: Evidence, marginals: Marginals) -> Binary64 {
    match evidence {
        Evidence::Observed => marginals.marginal,
        Evidence::NotObserved => marginals.negated_marginal,
    }
}

/// The probability of the evidence as it was given, under the hypothesis:
/// P(E | H) where the evidence was observed, P(not E | H) where it was not.
pub open spec fn factor(evidence: Evidence, likelihood: Binary64, marginals: Marginals) -> Binary64 {
    match evidence {
        Evidence::Observed => likelihood,
        Evidence::NotObserved => marginals.negated_likelihood,
    }
}

/// The failure that says that no posterior is defined.
pub open spec fn undefined_posterior(
    prior: Binary64,
    likelihood: Binary64,
    likelihood_null: Binary64,
    evidence: Evidence,
    name: Seq<char>,
) -> FailureView {
    FailureView::ZeroMarginalProbability { name, prior, likelihood, likelihood_null, evidence }
}

/// What the check of the denominator gives: a failure where the denominator
/// is at most zero.
pub open spec fn denominator_checked(
    prior: Binary64,
    likelihood: Binary64,
    likelihood_null: Binary64,
    evidence: Evidence,
    name: Seq<char>,
    marginals: Marginals,
) -> Result<(), FailureView> {
    if denominator(evidence, marginals).le_zero() {
        Err(undefined_posterior(prior, likelihood, likelihood_null, evidence, name))
    } else {
        Ok(())
    }
}

/// The posterior as a quotient, where one is defined.
pub open spec fn posterior(
    prior: Binary64,
    likelihood: Binary64,
    likelihood_null: Binary64,
    evidence: Evidence,
    name: Seq<char>,
    marginals: Marginals,
) -> Result<Quotient, FailureView> {
    if denominator(evidence, marginals).le_zero() {
        Err(undefined_posterior(prior, likelihood, likelihood_null, evidence, name))
    } else {
        Ok(
            Quotient {
                factor: factor(evidence, likelihood, marginals),
                prior,
                divisor: denominator(evidence, marginals),
            },
        )
    }
}

/// Checks that a value is a probability: a number from zero to one, both
/// included.
pub fn validate_probability(value: Binary64) -> (result: Result<(), Failure>)
    ensures
        outcome(result) == probability_checked(value),
{
    if value.is_probability() {
        Ok(())
    } else {
        Err(Failure::InvalidProbability(value))
    }
}

/// Checks that the denominator of Bayes' rule is positive for the evidence
/// given.
///
/// A NaN passes: it is not at most zero.
pub fn validate_likelihoods_and_prior(
    prior: Binary64,
    likelihood: Binary64,
    likelihood_null: Binary64,
    evidence: &Evidence,
    name: &str,
    marginals: &Marginals,
) -> (result: Result<(), Failure>)
    ensures
        outcome(result) == denominator_checked(
            prior,
            likelihood,
            likelihood_null,
            *evidence,
            name@,
            *marginals,
        ),
{
    let divisor = match evidence {
        Evidence::Observed => marginals.marginal,
        Evidence::NotObserved => marginals.negated_marginal,
    };
    if divisor.is_non_positive() {
        Err(
            Failure::ZeroMarginalProbability {
                name: String::from_str(name),
                prior,
                likelihood,
                likelihood_null,
                evidence: *evidence,
            },
        )
    } else {
        Ok(())
    }
}

/// The posterior of a hypothesis, as the quotient that the caller is to
/// evaluate: P(H | E) where the evidence was observed, P(H | not E) where it
/// was not.
pub fn calculate_posterior_probability(
    prior: Binary64,
    likelihood: Binary64,
    likelihood_null: Binary64,
    evidence: &Evidence,
    name: &str,
    marginals: &Marginals,
) -> (result: Result<Quotient, Failure>)
    ensures
        outcome(result) == posterior(
            prior,
            likelihood,
            likelihood_null,
            *evidence,
            name@,
            *marginals,
        ),
{
    match validate_likelihoods_and_prior(
        prior,
        likelihood,
        likelihood_null,
        evidence,
        name,
        marginals,
    ) {
        Err(failure) => Err(failure),
        Ok(_) => match evidence {
            Evidence::Observed => Ok(
                Quotient { factor: likelihood, prior, divisor: marginals.marginal },
            ),
            Evidence::NotObserved => Ok(
                Quotient {
                    factor: marginals.negated_likelihood,
                    prior,
                    divisor: marginals.negated_marginal,
                },
            ),
        },
    }
}

/// No posterior is defined where the denominator is zero, of either sign.
pub proof fn lemma_zero_denominator_rejected(
    prior: Binary64,
    likelihood: Binary64,
    likelihood_null: Binary64,
    evidence: Evidence,
    name: Seq<char>,
    marginals: Marginals,
)
    requires
        denominator(evidence, marginals).bits == ZERO_BITS || denominator(evidence, marginals).bits
            == NEGATIVE_ZERO_BITS,
    ensures
        posterior(prior, likelihood, likelihood_null, evidence, name, marginals) is Err,
        denominator_checked(prior, likelihood, likelihood_null, evidence, name, marginals) is Err,
{
    lemma_le_zero(denominator(evidence, marginals));
}

/// The computation fails exactly where the check of the denominator fails,
/// and with the same failure; where it succeeds it divides by a denominator
/// that is not at most zero, and multiplies by the prior as it was given.
pub proof fn lemma_check_decides(
    prior: Binary64,
    likelihood: Binary64,
    likelihood_null: Binary64,
    evidence: Evidence,
    name: Seq<char>,
    marginals: Marginals,
)
    ensures
        match denominator_checked(prior, likelihood, likelihood_null, evidence, name, marginals) {
            Err(failure) => posterior(prior, likelihood, likelihood_null, evidence, name, marginals)
                == Err::<Quotient, FailureView>(failure),
            Ok(_) => posterior(
                prior,
                likelihood,
                likelihood_null,
                evidence,
                name,
                marginals,
            ) matches Ok(quotient) && !quotient.divisor.le_zero() && quotient.prior == prior
                && quotient.divisor == denominator(evidence, marginals),
        },
{
}

} // verus!
