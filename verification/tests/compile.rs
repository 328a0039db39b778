use clap_link::engine::ActionKind;
use clap_link::schema::{ClapArg, ClapCommand, ClapCommandSettings, FlagSetting};
use clap_link::to_clap::{cross_check, name_taken, BuildError};

fn plain(name: &str) -> ClapArg {
    ClapArg { arg_name: name.to_string(), action: None, flag_spec: None }
}

fn flagged(
    name: &str,
    action: ActionKind,
    short: FlagSetting<char>,
    long: FlagSetting<String>,
) -> ClapArg {
    ClapArg { arg_name: name.to_string(), action: Some(action), flag_spec: Some((short, long)) }
}

fn long_flag(name: &str, action: ActionKind) -> ClapArg {
    flagged(name, action, FlagSetting::Disabled, FlagSetting::Automatic)
}

fn command(name: &str, args: Vec<ClapArg>) -> ClapCommand {
    ClapCommand { command_name: name.to_string(), args, subcommands: None, settings: None }
}

fn with_subcommands(name: &str, subcommands: Vec<ClapCommand>) -> ClapCommand {
    ClapCommand {
        command_name: name.to_string(),
        args: vec![],
        subcommands: Some(subcommands),
        settings: None,
    }
}

fn explicit(word: &str) -> FlagSetting<String> {
    FlagSetting::Explicit(word.to_string())
}

#[test]
fn automatic_short_flag_is_first_character() {
    let arg = flagged("verbose", ActionKind::SetTrue, FlagSetting::Automatic, FlagSetting::Disabled);
    assert_eq!(arg.short_flag(), Some('v'));
    let compiled = arg.to_clap().unwrap();
    assert_eq!(compiled.get_short(), Some('v'));
    assert_eq!(compiled.get_long(), None);
    assert_eq!(compiled.get_id().as_str(), "verbose");
}

#[test]
fn explicit_short_flag_overrides_the_name() {
    let arg =
        flagged("verbose", ActionKind::SetTrue, FlagSetting::Explicit('x'), FlagSetting::Disabled);
    assert_eq!(arg.short_flag(), Some('x'));
    assert_eq!(arg.to_clap().unwrap().get_short(), Some('x'));
}

#[test]
fn automatic_long_flag_is_the_name() {
    let arg = long_flag("dry-run", ActionKind::SetTrue);
    assert_eq!(arg.long_flag(), Some("dry-run"));
    let compiled = arg.to_clap().unwrap();
    assert_eq!(compiled.get_long(), Some("dry-run"));
    assert_eq!(compiled.get_short(), None);
}

#[test]
fn explicit_long_flag_overrides_the_name() {
    let arg = flagged("n", ActionKind::SetValue, FlagSetting::Disabled, explicit("name"));
    assert_eq!(arg.long_flag(), Some("name"));
    assert_eq!(arg.to_clap().unwrap().get_long(), Some("name"));
}

#[test]
fn disabled_flags_leave_a_positional() {
    let arg = flagged("file", ActionKind::SetValue, FlagSetting::Disabled, FlagSetting::Disabled);
    assert_eq!(arg.short_flag(), None);
    assert_eq!(arg.long_flag(), None);
    assert!(arg.is_positional());
    assert!(arg.to_clap().unwrap().is_positional());
    assert!(plain("file").is_positional());
    assert!(!long_flag("file", ActionKind::SetValue).is_positional());
}

#[test]
fn action_is_attached_where_declared() {
    assert_eq!(plain("a").effective_action(), ActionKind::SetValue);
    assert!(matches!(plain("a").to_clap().unwrap().get_action(), clap::ArgAction::Set));
    let kinds = [
        (ActionKind::SetValue, "Set"),
        (ActionKind::Append, "Append"),
        (ActionKind::SetTrue, "SetTrue"),
        (ActionKind::SetFalse, "SetFalse"),
        (ActionKind::Count, "Count"),
    ];
    for (kind, name) in kinds {
        let arg = long_flag("a", kind);
        assert_eq!(arg.effective_action(), kind);
        assert_eq!(format!("{:?}", arg.to_clap().unwrap().get_action()), name);
    }
}

#[test]
fn argument_checks() {
    assert_eq!(plain("file").check(), Ok(()));
    assert_eq!(
        flagged("", ActionKind::SetTrue, FlagSetting::Automatic, FlagSetting::Automatic).check(),
        Err(BuildError::EmptyArgumentName)
    );
    assert_eq!(
        flagged("a", ActionKind::SetTrue, FlagSetting::Explicit('-'), FlagSetting::Disabled)
            .check(),
        Err(BuildError::InvalidShortFlag)
    );
    assert_eq!(
        flagged("-a", ActionKind::SetTrue, FlagSetting::Automatic, FlagSetting::Disabled).check(),
        Err(BuildError::InvalidShortFlag)
    );
    assert_eq!(
        flagged("a", ActionKind::SetTrue, FlagSetting::Disabled, explicit("-a")).check(),
        Err(BuildError::InvalidLongFlag)
    );
    assert_eq!(
        flagged("-a", ActionKind::SetTrue, FlagSetting::Disabled, FlagSetting::Automatic).check(),
        Err(BuildError::InvalidLongFlag)
    );
    for kind in [ActionKind::SetTrue, ActionKind::SetFalse, ActionKind::Count] {
        let bare = ClapArg { arg_name: "a".to_string(), action: Some(kind), flag_spec: None };
        assert_eq!(bare.check(), Err(BuildError::PositionalWithoutValue));
        assert_eq!(
            flagged("a", kind, FlagSetting::Disabled, FlagSetting::Disabled).check(),
            Err(BuildError::PositionalWithoutValue)
        );
        assert!(bare.to_clap().is_err());
    }
    assert_eq!(
        flagged("a", ActionKind::SetTrue, FlagSetting::Disabled, explicit("a-b")).check(),
        Ok(())
    );
}

#[test]
fn cross_checks() {
    let args = vec![
        flagged("alpha", ActionKind::SetTrue, FlagSetting::Automatic, FlagSetting::Automatic),
        flagged("beta", ActionKind::SetTrue, FlagSetting::Automatic, FlagSetting::Automatic),
        flagged("alpha", ActionKind::SetTrue, FlagSetting::Explicit('x'), explicit("x")),
        flagged("apple", ActionKind::SetTrue, FlagSetting::Automatic, FlagSetting::Automatic),
        flagged("gamma", ActionKind::SetTrue, FlagSetting::Explicit('g'), explicit("beta")),
        flagged("help", ActionKind::SetTrue, FlagSetting::Explicit('y'), explicit("y")),
        flagged("host", ActionKind::SetTrue, FlagSetting::Automatic, FlagSetting::Automatic),
        flagged("aid", ActionKind::SetTrue, FlagSetting::Explicit('i'), explicit("help")),
        plain("files"),
        ClapArg { arg_name: "more".to_string(), action: Some(ActionKind::Append), flag_spec: None },
        plain("last"),
        long_flag("tail", ActionKind::Append),
    ];
    assert_eq!(cross_check(&args, 0), None);
    assert_eq!(cross_check(&args, 1), None);
    assert_eq!(cross_check(&args, 2), Some(BuildError::DuplicateArgument));
    assert_eq!(cross_check(&args, 3), Some(BuildError::DuplicateShortFlag));
    assert_eq!(cross_check(&args, 4), Some(BuildError::DuplicateLongFlag));
    assert_eq!(cross_check(&args, 5), Some(BuildError::DuplicateArgument));
    assert_eq!(cross_check(&args, 6), Some(BuildError::DuplicateShortFlag));
    assert_eq!(cross_check(&args, 7), Some(BuildError::DuplicateLongFlag));
    assert_eq!(cross_check(&args, 8), None);
    assert_eq!(cross_check(&args, 9), None);
    assert_eq!(cross_check(&args, 10), Some(BuildError::PositionalAfterAppend));
    assert_eq!(cross_check(&args, 11), None);
}

#[test]
fn subcommand_names_are_checked() {
    let subcommands = vec![
        command("one", vec![]),
        command("two", vec![]),
        command("one", vec![]),
        command("help", vec![]),
    ];
    assert!(!name_taken(&subcommands, 0));
    assert!(!name_taken(&subcommands, 1));
    assert!(name_taken(&subcommands, 2));
    assert!(name_taken(&subcommands, 3));
}

#[test]
fn command_is_compiled_in_order() {
    let description = ClapCommand {
        command_name: "app".to_string(),
        args: vec![
            long_flag("verbose", ActionKind::SetTrue),
            plain("input"),
            flagged("n", ActionKind::Count, FlagSetting::Automatic, FlagSetting::Disabled),
        ],
        subcommands: Some(vec![
            command("build", vec![plain("target")]),
            with_subcommands("remote", vec![command("add", vec![])]),
        ]),
        settings: Some(ClapCommandSettings { arg_required_else_help: Some(true) }),
    };
    let compiled = description.to_clap().unwrap();
    assert_eq!(compiled.get_name(), "app");
    let ids: Vec<&str> = compiled.get_arguments().map(|arg| arg.get_id().as_str()).collect();
    assert_eq!(ids, vec!["verbose", "input", "n"]);
    let names: Vec<&str> = compiled.get_subcommands().map(|sub| sub.get_name()).collect();
    assert_eq!(names, vec!["build", "remote"]);
    let remote = compiled.get_subcommands().nth(1).unwrap();
    let inner: Vec<&str> = remote.get_subcommands().map(|sub| sub.get_name()).collect();
    assert_eq!(inner, vec!["add"]);
    assert!(compiled.is_arg_required_else_help_set());
    assert!(!compiled.is_no_binary_name_set());
}

#[test]
fn settings_are_applied() {
    let mut description = command("app", vec![]);
    assert!(!description.to_clap().unwrap().is_arg_required_else_help_set());
    description.settings = Some(ClapCommandSettings { arg_required_else_help: None });
    assert!(!description.to_clap().unwrap().is_arg_required_else_help_set());
    description.settings = Some(ClapCommandSettings { arg_required_else_help: Some(false) });
    assert!(!description.to_clap().unwrap().is_arg_required_else_help_set());
    description.settings = Some(ClapCommandSettings { arg_required_else_help: Some(true) });
    assert!(description.to_clap().unwrap().is_arg_required_else_help_set());
}

fn refused(description: ClapCommand) -> BuildError {
    description.to_clap().map(|_| ()).unwrap_err()
}

#[test]
fn every_build_error_has_an_input() {
    assert_eq!(
        refused(command(
            "a",
            vec![flagged("", ActionKind::SetTrue, FlagSetting::Automatic, FlagSetting::Disabled)]
        )),
        BuildError::EmptyArgumentName
    );
    assert_eq!(
        refused(command(
            "a",
            vec![flagged("x", ActionKind::SetTrue, FlagSetting::Explicit('-'), FlagSetting::Disabled)]
        )),
        BuildError::InvalidShortFlag
    );
    assert_eq!(
        refused(command(
            "a",
            vec![flagged("x", ActionKind::SetTrue, FlagSetting::Disabled, explicit("--x"))]
        )),
        BuildError::InvalidLongFlag
    );
    assert_eq!(
        refused(command(
            "a",
            vec![ClapArg { arg_name: "x".to_string(), action: Some(ActionKind::Count), flag_spec: None }]
        )),
        BuildError::PositionalWithoutValue
    );
    assert_eq!(refused(command("a", vec![plain("x"), plain("x")])), BuildError::DuplicateArgument);
    assert_eq!(refused(command("a", vec![plain("help")])), BuildError::DuplicateArgument);
    assert_eq!(
        refused(command(
            "a",
            vec![flagged("hint", ActionKind::SetTrue, FlagSetting::Automatic, FlagSetting::Disabled)]
        )),
        BuildError::DuplicateShortFlag
    );
    assert_eq!(
        refused(command(
            "a",
            vec![
                flagged("one", ActionKind::SetTrue, FlagSetting::Explicit('o'), FlagSetting::Disabled),
                flagged("other", ActionKind::SetTrue, FlagSetting::Automatic, FlagSetting::Disabled),
            ]
        )),
        BuildError::DuplicateShortFlag
    );
    assert_eq!(
        refused(command(
            "a",
            vec![flagged("x", ActionKind::SetTrue, FlagSetting::Disabled, explicit("help"))]
        )),
        BuildError::DuplicateLongFlag
    );
    assert_eq!(
        refused(command(
            "a",
            vec![
                long_flag("x", ActionKind::SetTrue),
                flagged("y", ActionKind::SetTrue, FlagSetting::Disabled, explicit("x")),
            ]
        )),
        BuildError::DuplicateLongFlag
    );
    assert_eq!(
        refused(command(
            "a",
            vec![
                ClapArg {
                    arg_name: "many".to_string(),
                    action: Some(ActionKind::Append),
                    flag_spec: None,
                },
                plain("one"),
            ]
        )),
        BuildError::PositionalAfterAppend
    );
    assert_eq!(
        refused(with_subcommands("a", vec![command("b", vec![]), command("b", vec![])])),
        BuildError::DuplicateSubcommand
    );
    assert_eq!(
        refused(with_subcommands("a", vec![command("help", vec![])])),
        BuildError::DuplicateSubcommand
    );
}

#[test]
fn first_error_is_reported() {
    let description = ClapCommand {
        command_name: "a".to_string(),
        args: vec![plain("x"), plain("x"), plain("help")],
        subcommands: Some(vec![command("help", vec![])]),
        settings: None,
    };
    assert_eq!(refused(description), BuildError::DuplicateArgument);
    let nested = with_subcommands(
        "a",
        vec![
            command("ok", vec![]),
            command("bad", vec![plain("y"), plain("y")]),
            command("ok", vec![]),
        ],
    );
    assert_eq!(refused(nested), BuildError::DuplicateArgument);
    let local_first = command(
        "a",
        vec![
            plain("x"),
            ClapArg { arg_name: "x".to_string(), action: Some(ActionKind::SetTrue), flag_spec: None },
        ],
    );
    assert_eq!(refused(local_first), BuildError::PositionalWithoutValue);
}

#[test]
fn same_names_are_fine_in_different_commands() {
    let description = ClapCommand {
        command_name: "app".to_string(),
        args: vec![long_flag("verbose", ActionKind::SetTrue)],
        subcommands: Some(vec![
            command("app", vec![long_flag("verbose", ActionKind::SetTrue)]),
            command("verbose", vec![long_flag("verbose", ActionKind::Count)]),
        ]),
        settings: None,
    };
    assert!(description.to_clap().is_ok());
}
