use clap_link::expr::Expr;
use clap_link::from_expr::DecodeError;
use clap_link::pipeline::{clap_parse, evaluate, PipelineError};
use clap_link::results::{CommandMatch, Outcome, Value};

fn command(elements: Vec<Expr>) -> Expr {
    Expr::headed("ConnorGray`ClapLink`ClapCommand", elements)
}

fn arg(elements: Vec<Expr>) -> Expr {
    Expr::headed("ConnorGray`ClapLink`ClapArg", elements)
}

fn rule(key: &str, value: Expr) -> Expr {
    Expr::rule(Expr::string(key), value)
}

fn argv(words: &[&str]) -> Vec<String> {
    words.iter().map(|word| word.to_string()).collect()
}

fn matched(name: &str, args: Vec<(&str, Value)>) -> CommandMatch {
    CommandMatch {
        name: name.to_string(),
        args: args.into_iter().map(|(id, value)| (id.to_string(), value)).collect(),
    }
}

#[test]
fn verbose_flag_is_set() {
    let spec = command(vec![
        Expr::string("demo"),
        Expr::list(vec![arg(vec![
            Expr::string("verbose"),
            Expr::string("SetTrue"),
            Expr::list(vec![Expr::string("Long")]),
        ])]),
    ]);
    let outcome = evaluate(&argv(&["--verbose"]), &spec).unwrap();
    assert_eq!(
        outcome,
        Outcome::Matched(vec![matched("demo", vec![("verbose", Value::Boolean(true))])])
    );
}

#[test]
fn name_option_takes_its_value() {
    let spec = command(vec![
        Expr::string("demo"),
        Expr::list(vec![arg(vec![
            Expr::string("name"),
            Expr::string("Set"),
            Expr::list(vec![Expr::string("Long")]),
        ])]),
    ]);
    let outcome = evaluate(&argv(&["--name", "alice"]), &spec).unwrap();
    assert_eq!(
        outcome,
        Outcome::Matched(vec![matched(
            "demo",
            vec![("name", Value::String("alice".to_string()))]
        )])
    );
}

#[test]
fn subcommand_counts_its_flag() {
    let spec = command(vec![
        Expr::string("app"),
        Expr::list(vec![]),
        Expr::list(vec![command(vec![
            Expr::string("sub"),
            Expr::list(vec![arg(vec![
                Expr::string("count"),
                Expr::string("Count"),
                Expr::list(vec![rule("Short", Expr::string("c"))]),
            ])]),
        ])]),
    ]);
    let outcome = evaluate(&argv(&["sub", "-c", "-c"]), &spec).unwrap();
    assert_eq!(
        outcome,
        Outcome::Matched(vec![
            matched("app", vec![]),
            matched("sub", vec![("count", Value::Integer(2))]),
        ])
    );
}

#[test]
fn argument_with_four_elements_is_refused() {
    let spec = command(vec![
        Expr::string("demo"),
        Expr::list(vec![arg(vec![
            Expr::string("name"),
            Expr::string("Set"),
            Expr::list(vec![Expr::string("Long")]),
            Expr::string("extra"),
        ])]),
    ]);
    assert_eq!(
        evaluate(&argv(&[]), &spec),
        Err(PipelineError::Decode(DecodeError::WrongArity))
    );
}

#[test]
fn unknown_subcommand_is_a_failure() {
    let spec = command(vec![Expr::string("app"), Expr::list(vec![])]);
    match evaluate(&argv(&["missing"]), &spec).unwrap() {
        Outcome::Failure { kind, message } => {
            assert_eq!(kind, "ClapError");
            assert!(message.contains("missing"));
            assert!(message.contains("Usage"));
        }
        other => panic!("expected a failure, got {:?}", other),
    }
}

#[test]
fn whole_call_on_expressions() {
    let spec = command(vec![
        Expr::string("app"),
        Expr::list(vec![]),
        Expr::list(vec![command(vec![
            Expr::string("sub"),
            Expr::list(vec![arg(vec![
                Expr::string("count"),
                Expr::string("Count"),
                Expr::list(vec![rule("Short", Expr::string("c"))]),
            ])]),
        ])]),
    ]);
    let line = Expr::list(vec![Expr::string("sub"), Expr::string("-c"), Expr::string("-c")]);
    let result = clap_parse(&vec![line, spec]).unwrap();
    let expected = Expr::list(vec![
        Expr::list(vec![Expr::string("app"), Expr::headed("System`Association", vec![])]),
        Expr::list(vec![
            Expr::string("sub"),
            Expr::headed(
                "System`Association",
                vec![Expr::rule(Expr::string("count"), Expr::integer(2))],
            ),
        ]),
    ]);
    assert_eq!(result, expected);
}
