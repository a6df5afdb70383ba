use ask_bayes::arguments::{required_output, Argument, Computation};
use ask_bayes::{Args, Binary64, Evidence, Failure, Operation, OutputFormat, UpdateHypothesis};

fn pattern(value: f64) -> Binary64 {
    Binary64::from_bits(value.to_bits())
}

fn named() -> Args {
    let mut args = Args::new();
    args.name = Some("rain".to_string());
    args
}

fn complete() -> Args {
    let mut args = named();
    args.prior = Some(pattern(0.75));
    args.likelihood = Some(pattern(0.25));
    args.likelihood_null = Some(pattern(0.5));
    args.evidence = Some(Evidence::NotObserved);
    args.output = Some(OutputFormat::Json);
    args
}

fn computation(update: bool) -> Computation {
    Computation {
        name: "rain".to_string(),
        prior: pattern(0.75),
        likelihood: pattern(0.25),
        likelihood_null: pattern(0.5),
        evidence: Evidence::NotObserved,
        output: Some(OutputFormat::Json),
        update,
    }
}

#[test]
fn the_wizard_needs_no_name_and_comes_first() {
    let mut args = Args::new();
    args.wizard = true;
    assert_eq!(args.resolve(), Ok(Operation::Wizard));
    let mut args = complete();
    args.wizard = true;
    args.get_prior = true;
    assert_eq!(args.resolve(), Ok(Operation::Wizard));
}

#[test]
fn every_other_operation_needs_a_name() {
    assert_eq!(Args::new().resolve(), Err(Failure::MissingArgument(Argument::Name)));
    let mut args = complete();
    args.name = None;
    assert_eq!(args.resolve(), Err(Failure::MissingArgument(Argument::Name)));
}

#[test]
fn a_prior_is_shown_removed_or_stored_in_this_order() {
    let mut args = named();
    args.get_prior = true;
    args.remove_prior = true;
    args.set_prior = Some(pattern(0.5));
    assert_eq!(args.resolve(), Ok(Operation::GetPrior { name: "rain".to_string() }));
    let mut args = named();
    args.remove_prior = true;
    args.set_prior = Some(pattern(0.5));
    assert_eq!(args.resolve(), Ok(Operation::RemovePrior { name: "rain".to_string() }));
    let mut args = complete();
    args.set_prior = Some(pattern(0.5));
    assert_eq!(
        args.resolve(),
        Ok(Operation::SetPrior { name: "rain".to_string(), prior: pattern(0.5) })
    );
}

#[test]
fn a_computation_takes_all_that_was_given() {
    assert_eq!(complete().resolve(), Ok(Operation::Compute(computation(false))));
    let mut args = complete();
    args.update_prior = Some(UpdateHypothesis::NoUpdate);
    assert_eq!(args.resolve(), Ok(Operation::Compute(computation(false))));
    let mut args = complete();
    args.update_prior = Some(UpdateHypothesis::Update);
    assert_eq!(args.resolve(), Ok(Operation::Compute(computation(true))));
}

#[test]
fn the_first_missing_argument_of_a_computation_is_named() {
    let mut args = complete();
    args.prior = None;
    args.likelihood = None;
    assert_eq!(args.resolve(), Err(Failure::MissingArgument(Argument::Prior)));
    let mut args = complete();
    args.likelihood = None;
    args.evidence = None;
    assert_eq!(args.resolve(), Err(Failure::MissingArgument(Argument::Likelihood)));
    let mut args = complete();
    args.likelihood_null = None;
    assert_eq!(args.resolve(), Err(Failure::MissingArgument(Argument::LikelihoodNull)));
    let mut args = complete();
    args.evidence = None;
    args.output = None;
    assert_eq!(args.resolve(), Err(Failure::MissingArgument(Argument::Evidence)));
}

#[test]
fn a_computation_without_a_format_is_resolved_and_fails_later() {
    let mut args = complete();
    args.output = None;
    match args.resolve() {
        Ok(Operation::Compute(computation)) => {
            assert_eq!(computation.output, None);
            assert_eq!(
                required_output(computation.output),
                Err(Failure::MissingArgument(Argument::Output))
            );
        }
        other => panic!("{other:?}"),
    }
    assert_eq!(required_output(Some(OutputFormat::Simple)), Ok(OutputFormat::Simple));
}
