use ask_bayes::posterior::{
    validate_likelihoods_and_prior, validate_probability, Marginals, Quotient,
};
use ask_bayes::{Binary64, Evidence, Failure};

fn epsilon_compare(a: f64, b: f64) -> bool {
    (a - b).abs() < f64::EPSILON
}

fn pattern(value: f64) -> Binary64 {
    Binary64::from_bits(value.to_bits())
}

fn negate(value: f64) -> f64 {
    1.0_f64 - value
}

fn marginal_likelihood(prior: f64, likelihood: f64, likelihood_null: f64) -> f64 {
    likelihood.mul_add(prior, likelihood_null * negate(prior))
}

fn marginals(prior: f64, likelihood: f64, likelihood_null: f64) -> Marginals {
    let p_e = marginal_likelihood(prior, likelihood, likelihood_null);
    Marginals {
        marginal: pattern(p_e),
        negated_marginal: pattern(negate(p_e)),
        negated_likelihood: pattern(negate(likelihood)),
    }
}

fn parse_validate_probability(value: &str) -> Result<f64, String> {
    let float = value.parse::<f64>().map_err(|error| error.to_string())?;
    validate_probability(pattern(float)).map_err(|failure| format!("{failure:?}"))?;
    Ok(float)
}

fn validate(
    prior: f64,
    likelihood: f64,
    likelihood_null: f64,
    evidence: &Evidence,
    name: &str,
) -> Result<(), Failure> {
    validate_likelihoods_and_prior(
        pattern(prior),
        pattern(likelihood),
        pattern(likelihood_null),
        evidence,
        name,
        &marginals(prior, likelihood, likelihood_null),
    )
}

fn posterior_of(
    prior: f64,
    likelihood: f64,
    likelihood_null: f64,
    evidence: &Evidence,
    name: &str,
) -> Result<f64, Failure> {
    let quotient = ask_bayes::calculate_posterior_probability(
        pattern(prior),
        pattern(likelihood),
        pattern(likelihood_null),
        evidence,
        name,
        &marginals(prior, likelihood, likelihood_null),
    )?;
    Ok(f64::from_bits(quotient.factor.to_bits()) * f64::from_bits(quotient.prior.to_bits())
        / f64::from_bits(quotient.divisor.to_bits()))
}

fn undefined(
    prior: f64,
    likelihood: f64,
    likelihood_null: f64,
    evidence: Evidence,
    name: &str,
) -> Failure {
    Failure::ZeroMarginalProbability {
        name: name.to_string(),
        prior: pattern(prior),
        likelihood: pattern(likelihood),
        likelihood_null: pattern(likelihood_null),
        evidence,
    }
}

#[test]
fn it_validates_a_valid_probability() -> Result<(), String> {
    let prob = "0.75";
    let result = parse_validate_probability(prob)?;
    assert!(epsilon_compare(result, 0.75_f64));
    Ok(())
}

#[test]
fn it_fails_to_validate_a_probability_greater_than_1() {
    let prob = "1.1";
    let result = parse_validate_probability(prob);
    assert!(result.is_err());
}

#[test]
fn it_fails_to_validate_a_probability_less_than_0() {
    let prob = "-0.1";
    let result = parse_validate_probability(prob);
    assert!(result.is_err());
}

#[test]
fn it_fails_to_validate_an_invalid_float() {
    let prob = "invalid";
    let result = parse_validate_probability(prob);
    assert!(result.is_err());
}

#[test]
fn it_validates_a_valid_pair_of_likelihoods() -> Result<(), Failure> {
    let likelihood = 0.75_f64;
    let likelihood_null = 0.25_f64;
    let prior = 0.5_f64;
    let evidence = Evidence::Observed;
    let name = "test";
    validate(prior, likelihood, likelihood_null, &evidence, name)
}

#[test]
fn it_validates_a_valid_pair_of_negated_likelihoods() -> Result<(), Failure> {
    let prior = 0.5_f64;
    let likelihood = 0.75_f64;
    let likelihood_null = 0.25_f64;
    let evidence = Evidence::NotObserved;
    let name = "test";
    validate(prior, likelihood, likelihood_null, &evidence, name)
}

#[test]
fn it_fails_to_validate_a_pair_of_likelihoods_with_evidence_observed_when_the_sum_is_less_than_or_equal_to_0(
) {
    let prior = 0.5_f64;
    let likelihood = 0.0_f64;
    let likelihood_null = 0.0_f64;
    let evidence = Evidence::Observed;
    let name = "test";
    let result = validate(prior, likelihood, likelihood_null, &evidence, name);
    assert!(result.is_err());
}

#[test]
fn it_fails_to_validate_a_pair_of_negated_likelihoods_with_evidence_not_observed_when_the_negated_sum_is_less_than_or_equal_to_0(
) {
    let prior = 0.5_f64;
    let likelihood = 1.0_f64;
    let likelihood_null = 1.0_f64;
    let evidence = Evidence::NotObserved;
    let name = "test";
    let result = validate(prior, likelihood, likelihood_null, &evidence, name);
    assert!(result.is_err());
}

#[test]
fn it_calculates_the_posterior_probability_when_evidence_is_observed() -> Result<(), Failure> {
    let prior = 0.75_f64;
    let likelihood = 0.75_f64;
    let likelihood_null = 0.5_f64;
    let evidence = Evidence::Observed;
    let name = "test";
    let result =
        posterior_of(prior, likelihood, likelihood_null, &evidence, name)?;
    assert!(epsilon_compare(result, 0.818_181_818_181_818_2_f64));
    Ok(())
}

#[test]
fn it_calculates_the_posterior_probability_when_evidence_is_not_observed() -> Result<(), Failure> {
    let prior = 0.75_f64;
    let likelihood = 0.75_f64;
    let likelihood_null = 0.5_f64;
    let evidence = Evidence::NotObserved;
    let name = "test";
    let result =
        posterior_of(prior, likelihood, likelihood_null, &evidence, name)?;
    assert!(epsilon_compare(result, 0.6));
    Ok(())
}

#[test]
fn it_fails_to_validate_likelihoods_and_hypothesis_when_the_negated_prior_is_zero() {
    let name = "test";
    let prior = 1.0_f64;
    let likelihood = 1.0_f64;
    let likelihood_null = 0.5_f64;
    let evidence = Evidence::NotObserved;
    let result = validate(prior, likelihood, likelihood_null, &evidence, name);
    assert!(result.is_err());
}

#[test]
fn it_fails_to_validate_likelihoods_and_hypothesis_when_the_prior_is_zero() {
    let name = "test";
    let prior = 0.0_f64;
    let likelihood = 0.5_f64;
    let likelihood_null = 0.0_f64;
    let evidence = Evidence::Observed;
    let result = validate(prior, likelihood, likelihood_null, &evidence, name);
    assert!(result.is_err());
}

#[test]
fn a_value_that_is_no_probability_comes_back_in_the_failure() {
    assert_eq!(validate_probability(pattern(0.0)), Ok(()));
    assert_eq!(validate_probability(pattern(1.0)), Ok(()));
    assert_eq!(validate_probability(pattern(-0.0)), Ok(()));
    assert_eq!(
        validate_probability(pattern(1.1)),
        Err(Failure::InvalidProbability(pattern(1.1)))
    );
    assert_eq!(
        validate_probability(pattern(-0.1)),
        Err(Failure::InvalidProbability(pattern(-0.1)))
    );
    assert_eq!(
        validate_probability(pattern(f64::INFINITY)),
        Err(Failure::InvalidProbability(pattern(f64::INFINITY)))
    );
    assert!(validate_probability(pattern(f64::NAN)).is_err());
}

#[test]
fn the_failure_of_the_denominator_carries_the_inputs() {
    assert_eq!(
        validate(0.5, 0.0, 0.0, &Evidence::Observed, "rain"),
        Err(undefined(0.5, 0.0, 0.0, Evidence::Observed, "rain"))
    );
    assert_eq!(
        validate(0.5, 1.0, 1.0, &Evidence::NotObserved, "rain"),
        Err(undefined(0.5, 1.0, 1.0, Evidence::NotObserved, "rain"))
    );
    assert_eq!(
        posterior_of(0.0, 0.5, 0.0, &Evidence::Observed, "rain"),
        Err(undefined(0.0, 0.5, 0.0, Evidence::Observed, "rain"))
    );
    assert_eq!(
        posterior_of(1.0, 1.0, 0.5, &Evidence::NotObserved, "rain"),
        Err(undefined(1.0, 1.0, 0.5, Evidence::NotObserved, "rain"))
    );
}

#[test]
fn the_check_reads_the_denominator_of_the_evidence_given() {
    let only_observed_defined = Marginals {
        marginal: pattern(1.0),
        negated_marginal: pattern(0.0),
        negated_likelihood: pattern(0.25),
    };
    let p = pattern(0.5);
    assert_eq!(
        validate_likelihoods_and_prior(p, p, p, &Evidence::Observed, "h", &only_observed_defined),
        Ok(())
    );
    assert!(validate_likelihoods_and_prior(
        p,
        p,
        p,
        &Evidence::NotObserved,
        "h",
        &only_observed_defined
    )
    .is_err());
    let only_not_observed_defined = Marginals {
        marginal: pattern(-0.0),
        negated_marginal: pattern(1.0),
        negated_likelihood: pattern(0.25),
    };
    assert!(validate_likelihoods_and_prior(
        p,
        p,
        p,
        &Evidence::Observed,
        "h",
        &only_not_observed_defined
    )
    .is_err());
    assert_eq!(
        validate_likelihoods_and_prior(
            p,
            p,
            p,
            &Evidence::NotObserved,
            "h",
            &only_not_observed_defined
        ),
        Ok(())
    );
}

#[test]
fn a_negative_denominator_is_rejected_and_a_nan_is_not() {
    let p = pattern(0.5);
    let negative = Marginals {
        marginal: pattern(-0.25),
        negated_marginal: pattern(1.25),
        negated_likelihood: p,
    };
    assert!(ask_bayes::calculate_posterior_probability(p, p, p, &Evidence::Observed, "h", &negative).is_err());
    let nan = Marginals {
        marginal: pattern(f64::NAN),
        negated_marginal: pattern(f64::NAN),
        negated_likelihood: p,
    };
    assert_eq!(
        ask_bayes::calculate_posterior_probability(p, p, p, &Evidence::Observed, "h", &nan),
        Ok(Quotient { factor: p, prior: p, divisor: pattern(f64::NAN) })
    );
}

#[test]
fn the_quotient_is_made_of_the_terms_of_the_evidence_given() {
    let m = marginals(0.75, 0.75, 0.5);
    assert_eq!(
        ask_bayes::calculate_posterior_probability(
            pattern(0.75),
            pattern(0.75),
            pattern(0.5),
            &Evidence::Observed,
            "test",
            &m
        ),
        Ok(Quotient { factor: pattern(0.75), prior: pattern(0.75), divisor: pattern(0.6875) })
    );
    assert_eq!(
        ask_bayes::calculate_posterior_probability(
            pattern(0.75),
            pattern(0.75),
            pattern(0.5),
            &Evidence::NotObserved,
            "test",
            &m
        ),
        Ok(Quotient { factor: pattern(0.25), prior: pattern(0.75), divisor: pattern(0.3125) })
    );
}

#[test]
fn a_posterior_of_observed_evidence_is_a_probability() {
    let grid = [0.0, 0.1, 0.25, 0.3, 0.5, 0.75, 0.9, 1.0];
    for prior in grid {
        for likelihood in grid {
            for likelihood_null in grid {
                match posterior_of(
                    prior,
                    likelihood,
                    likelihood_null,
                    &Evidence::Observed,
                    "h",
                ) {
                    Ok(posterior) => {
                        assert!(marginal_likelihood(prior, likelihood, likelihood_null) > 0.0);
                        assert!(
                            validate_probability(pattern(posterior)).is_ok(),
                            "{prior} {likelihood} {likelihood_null} {posterior}"
                        );
                    }
                    Err(failure) => {
                        assert!(marginal_likelihood(prior, likelihood, likelihood_null) <= 0.0);
                        assert_eq!(
                            failure,
                            undefined(prior, likelihood, likelihood_null, Evidence::Observed, "h")
                        );
                    }
                }
            }
        }
    }
}

#[test]
fn a_posterior_of_unobserved_evidence_is_defined_where_the_complement_is_positive() {
    let grid = [0.0, 0.1, 0.25, 0.3, 0.5, 0.75, 0.9, 1.0];
    for prior in grid {
        for likelihood in grid {
            for likelihood_null in grid {
                let complement = negate(marginal_likelihood(prior, likelihood, likelihood_null));
                let result = posterior_of(
                    prior,
                    likelihood,
                    likelihood_null,
                    &Evidence::NotObserved,
                    "h",
                );
                if complement <= 0.0 {
                    assert_eq!(
                        result,
                        Err(undefined(
                            prior,
                            likelihood,
                            likelihood_null,
                            Evidence::NotObserved,
                            "h"
                        ))
                    );
                } else {
                    assert_eq!(result, Ok(negate(likelihood) * prior / complement));
                }
            }
        }
    }
}

#[test]
fn the_marginal_and_its_complement_make_one() {
    for (prior, likelihood, likelihood_null) in
        [(0.75, 0.75, 0.5), (0.5, 0.25, 0.25), (0.0, 1.0, 0.0), (1.0, 0.5, 0.125)]
    {
        let m = marginals(prior, likelihood, likelihood_null);
        let sum = f64::from_bits(m.marginal.to_bits()) + f64::from_bits(m.negated_marginal.to_bits());
        assert!(epsilon_compare(sum, 1.0));
    }
}
