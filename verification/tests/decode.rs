use clap_link::engine::ActionKind;
use clap_link::expr::Expr;
use clap_link::from_expr::{
    action_from_expr, args_from_expr, flag_rule_from_expr, flag_spec_from_expr,
    flag_value_from_expr, is_string, setting_rule_from_expr, short_setting_from, try_normal,
    try_normal_array_with_head, try_normal_with_head, DecodeError, FlagRule, MAX_NESTING_DEPTH,
};
use clap_link::schema::{ClapArg, ClapCommand, ClapCommandSettings, FlagSetting};

fn command_node(elements: Vec<Expr>) -> Expr {
    Expr::headed("ConnorGray`ClapLink`ClapCommand", elements)
}

fn arg_node(elements: Vec<Expr>) -> Expr {
    Expr::headed("ConnorGray`ClapLink`ClapArg", elements)
}

fn flag(key: &str, value: Expr) -> Expr {
    Expr::rule(Expr::string(key), value)
}

fn automatic() -> Expr {
    Expr::symbol("System`Automatic")
}

fn settings(rules: Vec<Expr>) -> Expr {
    Expr::headed("System`Association", rules)
}

fn nested(depth: usize) -> Expr {
    let mut node = command_node(vec![Expr::string("leaf"), Expr::list(vec![])]);
    for _ in 1..depth {
        node = command_node(vec![
            Expr::string("node"),
            Expr::list(vec![]),
            Expr::list(vec![node]),
        ]);
    }
    node
}

#[test]
fn try_normal_wants_a_head() {
    let list = Expr::list(vec![Expr::integer(1)]);
    assert!(try_normal(&list).is_ok());
    assert_eq!(try_normal(&Expr::string("a")), Err(DecodeError::ExpectedNormal));
    assert_eq!(try_normal(&Expr::Opaque), Err(DecodeError::ExpectedNormal));
}

#[test]
fn try_normal_with_head_checks_the_head() {
    let list = Expr::list(vec![Expr::integer(1)]);
    assert_eq!(try_normal_with_head(&list, "System`List"), Ok(&vec![Expr::integer(1)]));
    assert_eq!(try_normal_with_head(&list, "System`Rule"), Err(DecodeError::UnexpectedHead));
    assert_eq!(
        try_normal_with_head(&Expr::integer(1), "System`List"),
        Err(DecodeError::ExpectedNormal)
    );
    let odd = Expr::normal(Expr::string("System`List"), vec![]);
    assert_eq!(try_normal_with_head(&odd, "System`List"), Err(DecodeError::UnexpectedHead));
}

#[test]
fn try_normal_array_with_head_checks_the_length() {
    let rule = Expr::rule(Expr::string("a"), Expr::string("b"));
    assert_eq!(
        try_normal_array_with_head::<2>(&rule, "System`Rule"),
        Ok(&vec![Expr::string("a"), Expr::string("b")])
    );
    assert_eq!(
        try_normal_array_with_head::<3>(&rule, "System`Rule"),
        Err(DecodeError::WrongArity)
    );
    assert_eq!(
        try_normal_array_with_head::<2>(&rule, "System`List"),
        Err(DecodeError::UnexpectedHead)
    );
    assert_eq!(
        try_normal_array_with_head::<2>(&Expr::string("a"), "System`Rule"),
        Err(DecodeError::ExpectedNormal)
    );
}

#[test]
fn the_five_actions_are_known() {
    assert_eq!(action_from_expr(&Expr::string("Set")), Ok(ActionKind::SetValue));
    assert_eq!(action_from_expr(&Expr::string("Append")), Ok(ActionKind::Append));
    assert_eq!(action_from_expr(&Expr::string("SetTrue")), Ok(ActionKind::SetTrue));
    assert_eq!(action_from_expr(&Expr::string("SetFalse")), Ok(ActionKind::SetFalse));
    assert_eq!(action_from_expr(&Expr::string("Count")), Ok(ActionKind::Count));
}

#[test]
fn other_actions_are_refused() {
    assert_eq!(action_from_expr(&Expr::string("Help")), Err(DecodeError::UnrecognizedAction));
    assert_eq!(action_from_expr(&Expr::string("Version")), Err(DecodeError::UnrecognizedAction));
    assert_eq!(action_from_expr(&Expr::string("set")), Err(DecodeError::UnrecognizedAction));
    assert_eq!(action_from_expr(&Expr::string("")), Err(DecodeError::UnrecognizedAction));
    assert_eq!(action_from_expr(&Expr::symbol("Set")), Err(DecodeError::ExpectedString));
    assert_eq!(action_from_expr(&Expr::integer(1)), Err(DecodeError::ExpectedString));
}

#[test]
fn flag_values_are_strings_or_automatic() {
    assert_eq!(flag_value_from_expr(&automatic()), Ok(FlagSetting::Automatic));
    assert_eq!(
        flag_value_from_expr(&Expr::string("x")),
        Ok(FlagSetting::Explicit("x".to_string()))
    );
    assert_eq!(flag_value_from_expr(&Expr::integer(1)), Err(DecodeError::InvalidFlagValue));
    assert_eq!(
        flag_value_from_expr(&Expr::symbol("System`None")),
        Err(DecodeError::InvalidFlagValue)
    );
}

#[test]
fn short_flags_are_one_character() {
    assert_eq!(
        short_setting_from(&FlagSetting::Explicit("c".to_string())),
        Ok(FlagSetting::Explicit('c'))
    );
    assert_eq!(
        short_setting_from(&FlagSetting::Explicit("ü".to_string())),
        Ok(FlagSetting::Explicit('ü'))
    );
    assert_eq!(
        short_setting_from(&FlagSetting::Explicit("".to_string())),
        Err(DecodeError::InvalidShortFlag)
    );
    assert_eq!(
        short_setting_from(&FlagSetting::Explicit("cc".to_string())),
        Err(DecodeError::InvalidShortFlag)
    );
    assert_eq!(short_setting_from(&FlagSetting::Automatic), Ok(FlagSetting::Automatic));
    assert_eq!(short_setting_from(&FlagSetting::Disabled), Ok(FlagSetting::Disabled));
}

#[test]
fn is_string_compares_the_text() {
    assert!(is_string(&Expr::string("Long"), "Long"));
    assert!(!is_string(&Expr::string("Long"), "Short"));
    assert!(!is_string(&Expr::symbol("Long"), "Long"));
}

#[test]
fn flag_rules_name_a_form() {
    assert!(matches!(
        flag_rule_from_expr(&flag("Short", Expr::string("c"))),
        Ok(FlagRule::Short(FlagSetting::Explicit('c')))
    ));
    assert!(matches!(
        flag_rule_from_expr(&flag("Short", automatic())),
        Ok(FlagRule::Short(FlagSetting::Automatic))
    ));
    assert!(matches!(
        flag_rule_from_expr(&flag("Long", automatic())),
        Ok(FlagRule::Long(FlagSetting::Automatic))
    ));
    assert!(matches!(
        flag_rule_from_expr(&Expr::string("Long")),
        Ok(FlagRule::Long(FlagSetting::Automatic))
    ));
    match flag_rule_from_expr(&flag("Long", Expr::string("name"))) {
        Ok(FlagRule::Long(FlagSetting::Explicit(word))) => assert_eq!(word, "name"),
        _ => panic!("expected an explicit long flag"),
    }
}

#[test]
fn flag_rules_are_checked() {
    assert!(matches!(
        flag_rule_from_expr(&flag("Short", Expr::string("cc"))),
        Err(DecodeError::InvalidShortFlag)
    ));
    assert!(matches!(
        flag_rule_from_expr(&flag("Short", Expr::string(""))),
        Err(DecodeError::InvalidShortFlag)
    ));
    assert!(matches!(
        flag_rule_from_expr(&flag("Medium", automatic())),
        Err(DecodeError::UnrecognizedFlagKey)
    ));
    assert!(matches!(
        flag_rule_from_expr(&Expr::rule(Expr::symbol("Short"), automatic())),
        Err(DecodeError::UnrecognizedFlagKey)
    ));
    assert!(matches!(
        flag_rule_from_expr(&flag("Long", Expr::integer(3))),
        Err(DecodeError::InvalidFlagValue)
    ));
    assert!(matches!(
        flag_rule_from_expr(&flag("Medium", Expr::integer(3))),
        Err(DecodeError::InvalidFlagValue)
    ));
    assert!(matches!(
        flag_rule_from_expr(&Expr::string("Short")),
        Err(DecodeError::ExpectedNormal)
    ));
    assert!(matches!(
        flag_rule_from_expr(&Expr::list(vec![Expr::string("Long"), automatic()])),
        Err(DecodeError::UnexpectedHead)
    ));
    assert!(matches!(
        flag_rule_from_expr(&Expr::headed("System`Rule", vec![Expr::string("Long")])),
        Err(DecodeError::WrongArity)
    ));
}

#[test]
fn flag_lists_default_to_disabled() {
    assert_eq!(
        flag_spec_from_expr(&Expr::list(vec![])),
        Ok((FlagSetting::Disabled, FlagSetting::Disabled))
    );
    assert_eq!(
        flag_spec_from_expr(&Expr::list(vec![Expr::string("Long")])),
        Ok((FlagSetting::Disabled, FlagSetting::Automatic))
    );
    assert_eq!(
        flag_spec_from_expr(&Expr::list(vec![flag("Short", Expr::string("c")), Expr::string("Long")])),
        Ok((FlagSetting::Explicit('c'), FlagSetting::Automatic))
    );
}

#[test]
fn later_flag_rules_replace_earlier_ones() {
    assert_eq!(
        flag_spec_from_expr(&Expr::list(vec![
            flag("Long", Expr::string("first")),
            flag("Short", automatic()),
            flag("Long", Expr::string("second")),
            flag("Short", Expr::string("s")),
        ])),
        Ok((FlagSetting::Explicit('s'), FlagSetting::Explicit("second".to_string())))
    );
}

#[test]
fn flag_lists_stop_at_the_first_bad_rule() {
    assert_eq!(
        flag_spec_from_expr(&Expr::list(vec![
            Expr::string("Long"),
            flag("Short", Expr::string("toolong")),
            flag("Other", automatic()),
        ])),
        Err(DecodeError::InvalidShortFlag)
    );
    assert_eq!(flag_spec_from_expr(&Expr::string("Long")), Err(DecodeError::ExpectedNormal));
    assert_eq!(flag_spec_from_expr(&automatic()), Err(DecodeError::ExpectedNormal));
    assert_eq!(
        flag_spec_from_expr(&flag("Long", automatic())),
        Err(DecodeError::UnexpectedHead)
    );
}

#[test]
fn argument_with_name_only() {
    assert_eq!(
        ClapArg::from_expr(&arg_node(vec![Expr::string("input")])),
        Ok(ClapArg { arg_name: "input".to_string(), action: None, flag_spec: None })
    );
}

#[test]
fn argument_with_action() {
    assert_eq!(
        ClapArg::from_expr(&arg_node(vec![Expr::string("input"), Expr::string("Append")])),
        Ok(ClapArg {
            arg_name: "input".to_string(),
            action: Some(ActionKind::Append),
            flag_spec: None,
        })
    );
}

#[test]
fn argument_with_flags() {
    assert_eq!(
        ClapArg::from_expr(&arg_node(vec![
            Expr::string("count"),
            Expr::string("Count"),
            Expr::list(vec![flag("Short", Expr::string("c"))]),
        ])),
        Ok(ClapArg {
            arg_name: "count".to_string(),
            action: Some(ActionKind::Count),
            flag_spec: Some((FlagSetting::Explicit('c'), FlagSetting::Disabled)),
        })
    );
}

#[test]
fn argument_arity_is_one_to_three() {
    assert_eq!(ClapArg::from_expr(&arg_node(vec![])), Err(DecodeError::WrongArity));
    assert_eq!(
        ClapArg::from_expr(&arg_node(vec![
            Expr::string("a"),
            Expr::string("Set"),
            Expr::list(vec![]),
            Expr::list(vec![]),
        ])),
        Err(DecodeError::WrongArity)
    );
}

#[test]
fn argument_errors_come_in_order() {
    assert_eq!(ClapArg::from_expr(&Expr::string("a")), Err(DecodeError::ExpectedNormal));
    assert_eq!(
        ClapArg::from_expr(&command_node(vec![Expr::string("a"), Expr::list(vec![])])),
        Err(DecodeError::UnexpectedHead)
    );
    assert_eq!(
        ClapArg::from_expr(&arg_node(vec![Expr::integer(1), Expr::string("Nope")])),
        Err(DecodeError::ExpectedString)
    );
    assert_eq!(
        ClapArg::from_expr(&arg_node(vec![
            Expr::string("a"),
            Expr::string("Nope"),
            Expr::integer(1),
        ])),
        Err(DecodeError::UnrecognizedAction)
    );
    assert_eq!(
        ClapArg::from_expr(&arg_node(vec![
            Expr::string("a"),
            Expr::string("Set"),
            Expr::integer(1),
        ])),
        Err(DecodeError::ExpectedNormal)
    );
}

#[test]
fn argument_lists_are_all_or_none() {
    let good = arg_node(vec![Expr::string("a")]);
    let bad = arg_node(vec![]);
    assert_eq!(
        args_from_expr(&Expr::list(vec![good, bad, Expr::integer(1)])),
        Err(DecodeError::WrongArity)
    );
    assert_eq!(args_from_expr(&Expr::list(vec![])), Ok(vec![]));
    assert_eq!(args_from_expr(&Expr::integer(1)), Err(DecodeError::ExpectedNormal));
}

#[test]
fn setting_rules() {
    assert_eq!(
        setting_rule_from_expr(&flag("ArgRequiredElseHelp", Expr::boolean(true))),
        Ok(true)
    );
    assert_eq!(
        setting_rule_from_expr(&flag("ArgRequiredElseHelp", Expr::boolean(false))),
        Ok(false)
    );
    assert_eq!(
        setting_rule_from_expr(&flag("ArgRequiredElseHelp", Expr::string("True"))),
        Err(DecodeError::ExpectedBoolean)
    );
    assert_eq!(
        setting_rule_from_expr(&flag("Colour", Expr::boolean(true))),
        Err(DecodeError::UnrecognizedSetting)
    );
    assert_eq!(
        setting_rule_from_expr(&Expr::rule(Expr::integer(1), Expr::boolean(true))),
        Err(DecodeError::UnrecognizedSetting)
    );
    assert_eq!(
        setting_rule_from_expr(&Expr::string("ArgRequiredElseHelp")),
        Err(DecodeError::ExpectedNormal)
    );
}

#[test]
fn settings_associations() {
    assert_eq!(
        ClapCommandSettings::from_expr(&settings(vec![])),
        Ok(ClapCommandSettings { arg_required_else_help: None })
    );
    assert_eq!(
        ClapCommandSettings::from_expr(&settings(vec![
            flag("ArgRequiredElseHelp", Expr::boolean(true)),
            flag("ArgRequiredElseHelp", Expr::boolean(false)),
        ])),
        Ok(ClapCommandSettings { arg_required_else_help: Some(false) })
    );
    assert_eq!(
        ClapCommandSettings::from_expr(&Expr::list(vec![])),
        Err(DecodeError::UnexpectedHead)
    );
    assert_eq!(
        ClapCommandSettings::from_expr(&settings(vec![
            flag("ArgRequiredElseHelp", Expr::boolean(true)),
            flag("Other", Expr::boolean(false)),
        ])),
        Err(DecodeError::UnrecognizedSetting)
    );
}

#[test]
fn command_with_two_elements() {
    assert_eq!(
        ClapCommand::from_expr(&command_node(vec![
            Expr::string("demo"),
            Expr::list(vec![arg_node(vec![Expr::string("input")])]),
        ])),
        Ok(ClapCommand {
            command_name: "demo".to_string(),
            args: vec![ClapArg { arg_name: "input".to_string(), action: None, flag_spec: None }],
            subcommands: None,
            settings: None,
        })
    );
}

#[test]
fn command_with_subcommands_and_settings() {
    let spec = command_node(vec![
        Expr::string("app"),
        Expr::list(vec![]),
        Expr::list(vec![
            command_node(vec![Expr::string("one"), Expr::list(vec![])]),
            command_node(vec![Expr::string("two"), Expr::list(vec![]), Expr::list(vec![])]),
        ]),
        settings(vec![flag("ArgRequiredElseHelp", Expr::boolean(true))]),
    ]);
    assert_eq!(
        ClapCommand::from_expr(&spec),
        Ok(ClapCommand {
            command_name: "app".to_string(),
            args: vec![],
            subcommands: Some(vec![
                ClapCommand {
                    command_name: "one".to_string(),
                    args: vec![],
                    subcommands: None,
                    settings: None,
                },
                ClapCommand {
                    command_name: "two".to_string(),
                    args: vec![],
                    subcommands: Some(vec![]),
                    settings: None,
                },
            ]),
            settings: Some(ClapCommandSettings { arg_required_else_help: Some(true) }),
        })
    );
}

#[test]
fn command_arity_is_two_to_four() {
    assert_eq!(
        ClapCommand::from_expr(&command_node(vec![Expr::string("a")])),
        Err(DecodeError::WrongArity)
    );
    assert_eq!(ClapCommand::from_expr(&command_node(vec![])), Err(DecodeError::WrongArity));
    assert_eq!(
        ClapCommand::from_expr(&command_node(vec![
            Expr::string("a"),
            Expr::list(vec![]),
            Expr::list(vec![]),
            settings(vec![]),
            Expr::integer(5),
        ])),
        Err(DecodeError::WrongArity)
    );
}

#[test]
fn command_errors_come_in_order() {
    assert_eq!(ClapCommand::from_expr(&Expr::integer(1)), Err(DecodeError::ExpectedNormal));
    assert_eq!(
        ClapCommand::from_expr(&arg_node(vec![Expr::string("a")])),
        Err(DecodeError::UnexpectedHead)
    );
    assert_eq!(
        ClapCommand::from_expr(&command_node(vec![Expr::symbol("a"), Expr::integer(1)])),
        Err(DecodeError::ExpectedString)
    );
    assert_eq!(
        ClapCommand::from_expr(&command_node(vec![Expr::string("a"), Expr::integer(1)])),
        Err(DecodeError::ExpectedNormal)
    );
    assert_eq!(
        ClapCommand::from_expr(&command_node(vec![
            Expr::string("a"),
            Expr::list(vec![arg_node(vec![Expr::string("x"), Expr::string("Bad")])]),
            Expr::integer(1),
        ])),
        Err(DecodeError::UnrecognizedAction)
    );
    assert_eq!(
        ClapCommand::from_expr(&command_node(vec![
            Expr::string("a"),
            Expr::list(vec![]),
            Expr::list(vec![command_node(vec![])]),
            Expr::integer(1),
        ])),
        Err(DecodeError::WrongArity)
    );
    assert_eq!(
        ClapCommand::from_expr(&command_node(vec![
            Expr::string("a"),
            Expr::list(vec![]),
            Expr::list(vec![]),
            settings(vec![flag("ArgRequiredElseHelp", Expr::integer(1))]),
        ])),
        Err(DecodeError::ExpectedBoolean)
    );
}

#[test]
fn nesting_is_limited() {
    assert_eq!(MAX_NESTING_DEPTH, 64);
    assert!(ClapCommand::from_expr(&nested(1)).is_ok());
    assert!(ClapCommand::from_expr(&nested(MAX_NESTING_DEPTH)).is_ok());
    assert_eq!(
        ClapCommand::from_expr(&nested(MAX_NESTING_DEPTH + 1)),
        Err(DecodeError::NestingTooDeep)
    );
    assert_eq!(
        ClapCommand::from_expr_within(&nested(1), 0),
        Err(DecodeError::NestingTooDeep)
    );
    assert!(ClapCommand::from_expr_within(&nested(2), 2).is_ok());
    assert_eq!(
        ClapCommand::from_expr_within(&nested(3), 2),
        Err(DecodeError::NestingTooDeep)
    );
}

#[test]
fn command_lists() {
    let list = Expr::list(vec![nested(1), nested(2)]);
    assert_eq!(ClapCommand::list_from_expr(&list, 2).map(|commands| commands.len()), Ok(2));
    assert_eq!(
        ClapCommand::list_from_expr(&list, 1).map(|commands| commands.len()),
        Err(DecodeError::NestingTooDeep)
    );
    assert_eq!(
        ClapCommand::list_from_expr(&Expr::string("x"), 1).map(|commands| commands.len()),
        Err(DecodeError::ExpectedNormal)
    );
}
