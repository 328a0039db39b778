use clap_link::expr::Expr;
use clap_link::from_expr::DecodeError;
use clap_link::pipeline::PipelineError;
use clap_link::to_clap::BuildError;

#[test]
fn decode_errors_say_what_is_wrong() {
    let all = [
        DecodeError::ExpectedNormal,
        DecodeError::UnexpectedHead,
        DecodeError::WrongArity,
        DecodeError::ExpectedString,
        DecodeError::ExpectedBoolean,
        DecodeError::UnrecognizedAction,
        DecodeError::UnrecognizedFlagKey,
        DecodeError::InvalidFlagValue,
        DecodeError::InvalidShortFlag,
        DecodeError::UnrecognizedSetting,
        DecodeError::NestingTooDeep,
    ];
    for (i, error) in all.iter().enumerate() {
        assert!(!error.message().is_empty());
        for other in &all[..i] {
            assert_ne!(error.message(), other.message());
        }
    }
    assert_eq!(
        DecodeError::WrongArity.message(),
        "the expression has the wrong number of elements"
    );
    assert_eq!(
        DecodeError::UnrecognizedAction.message(),
        "the action is none of Set, Append, SetTrue, SetFalse and Count"
    );
}

#[test]
fn build_errors_say_what_is_wrong() {
    let all = [
        BuildError::EmptyArgumentName,
        BuildError::InvalidShortFlag,
        BuildError::InvalidLongFlag,
        BuildError::PositionalWithoutValue,
        BuildError::DuplicateArgument,
        BuildError::DuplicateShortFlag,
        BuildError::DuplicateLongFlag,
        BuildError::PositionalAfterAppend,
        BuildError::DuplicateSubcommand,
    ];
    for (i, error) in all.iter().enumerate() {
        assert!(!error.message().is_empty());
        for other in &all[..i] {
            assert_ne!(error.message(), other.message());
        }
    }
    assert_eq!(BuildError::InvalidShortFlag.message(), "a short flag is a hyphen");
}

#[test]
fn pipeline_errors_have_a_kind() {
    let decode = PipelineError::Decode(DecodeError::ExpectedString);
    assert_eq!(decode.kind(), "DecodeError");
    assert_eq!(decode.message(), "expected a string");
    let build = PipelineError::Build(BuildError::InvalidLongFlag);
    assert_eq!(build.kind(), "BuildError");
    assert_eq!(build.message(), "a long flag starts with a hyphen");
}

#[test]
fn pipeline_errors_as_expressions() {
    assert_eq!(
        PipelineError::Decode(DecodeError::ExpectedString).to_expr(),
        Expr::headed(
            "System`Failure",
            vec![Expr::string("DecodeError"), Expr::string("expected a string")]
        )
    );
    assert_eq!(
        PipelineError::Build(BuildError::InvalidShortFlag).to_expr(),
        Expr::headed(
            "System`Failure",
            vec![Expr::string("BuildError"), Expr::string("a short flag is a hyphen")]
        )
    );
}
