use clap_link::expr::Expr;
use clap_link::kernel::{is_supported_version, reports_installation, reports_link};
use clap_link::config::Config;
use clap_link::paclet::{
    as_text, handle_paclet_command, load_wolfram_cli_paclet, request, Expectation, Input,
    PacletCommand, Step,
};
use clap_link::paclet::{
    create_paclet, directory_expr, exit, find_slash, handle_custom, needs_paclet_tools,
    paclet_build, paclet_doc, paclet_install, paclet_test, print_terminal_form_debug, PacletName,
    PacletNameError,
};
use clap_link::session::{
    expr_says_no_handler, react, text_says_no_handler, Action, Packet, Reading, Style,
};

#[test]
fn plain_names() {
    assert_eq!(PacletName::parse("MyPaclet"), Ok(PacletName::Normal("MyPaclet".to_string())));
    assert_eq!(PacletName::parse(""), Ok(PacletName::Normal("".to_string())));
}

#[test]
fn resource_names() {
    assert_eq!(
        PacletName::parse("Publisher/Base"),
        Ok(PacletName::Resource { publisher: "Publisher".to_string(), base: "Base".to_string() })
    );
    assert_eq!(
        PacletName::parse("/"),
        Ok(PacletName::Resource { publisher: "".to_string(), base: "".to_string() })
    );
    assert_eq!(
        PacletName::parse("Ünï/ß"),
        Ok(PacletName::Resource { publisher: "Ünï".to_string(), base: "ß".to_string() })
    );
}

#[test]
fn names_with_more_slashes_are_refused() {
    assert_eq!(PacletName::parse("a/b/c"), Err(PacletNameError::TooManySlashes));
    assert_eq!(PacletName::parse("//"), Err(PacletNameError::TooManySlashes));
    assert_eq!("a/b/c".parse::<PacletName>(), Err(PacletNameError::TooManySlashes));
    assert_eq!("a".parse::<PacletName>(), Ok(PacletName::Normal("a".to_string())));
}

#[test]
fn first_slash_from_a_position() {
    assert_eq!(find_slash("a/b/c", 0), Some(1));
    assert_eq!(find_slash("a/b/c", 1), Some(1));
    assert_eq!(find_slash("a/b/c", 2), Some(3));
    assert_eq!(find_slash("a/b/c", 4), None);
    assert_eq!(find_slash("a/b/c", 9), None);
    assert_eq!(find_slash("é/", 0), Some(1));
}

#[test]
fn shortened_directory_of_a_resource() {
    let name = PacletName::parse("Pub/Base").unwrap();
    assert_eq!(
        name.shortened_directory(true),
        Some(("Pub__Base".to_string(), "Base".to_string()))
    );
    assert_eq!(name.shortened_directory(false), None);
    assert_eq!(PacletName::parse("Base").unwrap().shortened_directory(true), None);
}

#[test]
fn requests() {
    assert_eq!(
        needs_paclet_tools(),
        Expr::headed("System`Needs", vec![Expr::string("PacletTools`")])
    );
    assert_eq!(
        create_paclet("P", "/tmp"),
        Expr::headed("PacletTools`CreatePaclet", vec![Expr::string("P"), Expr::string("/tmp")])
    );
    assert_eq!(exit(), Expr::headed("System`Exit", vec![]));
    assert_eq!(
        print_terminal_form_debug(),
        Expr::headed("ConnorGray`WolframCLI`CommandPrintTerminalFormDebug", vec![])
    );
    assert_eq!(
        paclet_install("a.paclet"),
        Expr::headed(
            "ConnorGray`WolframCLI`CommandPacletInstall",
            vec![Expr::string("a.paclet")]
        )
    );
    assert_eq!(
        paclet_test("dir"),
        Expr::headed("ConnorGray`WolframCLI`CommandPacletTest", vec![Expr::string("dir")])
    );
}

#[test]
fn build_and_doc_requests() {
    assert_eq!(directory_expr(None), Expr::symbol("System`Automatic"));
    assert_eq!(directory_expr(Some("d")), Expr::string("d"));
    assert_eq!(
        paclet_build("p", None, true),
        Expr::headed(
            "ConnorGray`WolframCLI`CommandPacletBuild",
            vec![Expr::string("p"), Expr::symbol("System`Automatic"), Expr::symbol("System`True")]
        )
    );
    assert_eq!(
        paclet_build("p", Some("b"), false),
        Expr::headed(
            "ConnorGray`WolframCLI`CommandPacletBuild",
            vec![Expr::string("p"), Expr::string("b"), Expr::symbol("System`False")]
        )
    );
    assert_eq!(
        paclet_doc("p", Some("b"), true, false),
        Expr::headed(
            "ConnorGray`WolframCLI`CommandPacletDoc",
            vec![
                Expr::string("p"),
                Expr::string("b"),
                Expr::symbol("System`True"),
                Expr::symbol("System`False"),
            ]
        )
    );
}

#[test]
fn custom_request_lists_the_words() {
    assert_eq!(
        handle_custom(&vec!["wolfram-cli".to_string(), "x".to_string()]),
        Expr::headed(
            "ConnorGray`WolframCLI`CommandHandleCustom",
            vec![Expr::list(vec![Expr::string("wolfram-cli"), Expr::string("x")])]
        )
    );
    assert_eq!(
        handle_custom(&vec![]),
        Expr::headed("ConnorGray`WolframCLI`CommandHandleCustom", vec![Expr::list(vec![])])
    );
}

#[test]
fn supported_versions() {
    assert!(is_supported_version(13, 1));
    assert!(is_supported_version(13, 2));
    assert!(is_supported_version(14, 0));
    assert!(!is_supported_version(13, 0));
    assert!(!is_supported_version(12, 3));
    assert!(!is_supported_version(0, 99));
}

#[test]
fn verbosity_thresholds() {
    assert!(!reports_installation(&Config { verbosity: 0 }));
    assert!(reports_installation(&Config { verbosity: 1 }));
    assert!(!reports_link(&Config { verbosity: 1 }));
    assert!(reports_link(&Config { verbosity: 2 }));
    assert!(reports_link(&Config { verbosity: 255 }));
}

#[test]
fn output_packets() {
    let text = |t: &str| t.to_string();
    assert_eq!(
        react(Reading::Output, Packet::InputName(text("In[1]:= "))),
        (Reading::Output, Action::Ready(text("In[1]:= ")))
    );
    assert_eq!(
        react(Reading::Output, Packet::OutputName(text("Out[1]= "))),
        (Reading::Output, Action::Show(text("Out[1]= "), Style::Plain))
    );
    assert_eq!(
        react(Reading::Output, Packet::ReturnText(text("4"))),
        (Reading::Output, Action::Show(text("4"), Style::Line))
    );
    assert_eq!(
        react(Reading::Output, Packet::Text(text("printed"))),
        (Reading::Output, Action::Show(text("printed"), Style::Dimmed))
    );
    assert_eq!(react(Reading::Output, Packet::Syntax), (Reading::Output, Action::Skip));
    assert_eq!(react(Reading::Output, Packet::Message), (Reading::MessageContent, Action::Skip));
    for packet in [Packet::ReturnExpression, Packet::Expression, Packet::Return] {
        assert_eq!(react(Reading::Output, packet), (Reading::Output, Action::Unsupported));
    }
    for packet in [Packet::Evaluate, Packet::EnterExpression, Packet::EnterText] {
        assert_eq!(react(Reading::Output, packet), (Reading::Output, Action::Unexpected));
    }
}

#[test]
fn message_content_packets() {
    assert_eq!(
        react(Reading::MessageContent, Packet::Text("oops".to_string())),
        (Reading::Output, Action::Show("oops".to_string(), Style::Alert))
    );
    assert_eq!(
        react(Reading::MessageContent, Packet::Expression),
        (Reading::Output, Action::Unsupported)
    );
    for packet in [
        Packet::InputName("In".to_string()),
        Packet::Message,
        Packet::Syntax,
        Packet::ReturnText("x".to_string()),
    ] {
        assert_eq!(react(Reading::MessageContent, packet), (Reading::Output, Action::Unexpected));
    }
}

#[test]
fn no_custom_handler() {
    assert!(text_says_no_handler("\"NoCustomHandler\""));
    assert!(!text_says_no_handler("NoCustomHandler"));
    assert!(expr_says_no_handler(&Expr::string("NoCustomHandler")));
    assert!(!expr_says_no_handler(&Expr::symbol("NoCustomHandler")));
    assert!(!expr_says_no_handler(&Expr::string("\"NoCustomHandler\"")));
}

#[test]
fn new_paclet_is_planned_with_the_paclet_tools() {
    let command = PacletCommand::New { name: "P/B".to_string(), parent_dir: "/work".to_string() };
    assert_eq!(
        handle_paclet_command(&command),
        vec![
            Step { input: Input::Expr(needs_paclet_tools()), expect: Expectation::Null },
            Step {
                input: Input::Expr(create_paclet("P/B", "/work")),
                expect: Expectation::Returned,
            },
            Step { input: Input::Expr(exit()), expect: Expectation::KernelQuit },
        ]
    );
}

#[test]
fn other_commands_load_the_commands_first() {
    let load = vec![
        Step {
            input: Input::Text("Needs[\"ConnorGray`WolframCLI`\"]".to_string()),
            expect: Expectation::Null,
        },
        Step {
            input: Input::Text("SetOptions[$Output, PageWidth -> Infinity]".to_string()),
            expect: Expectation::Anything,
        },
    ];
    assert_eq!(load_wolfram_cli_paclet(), load);
    let cases = [
        (
            PacletCommand::Build {
                paclet_dir: "p".to_string(),
                build_dir: Some("b".to_string()),
                install: true,
            },
            paclet_build("p", Some("b"), true),
        ),
        (
            PacletCommand::Doc {
                paclet_dir: "p".to_string(),
                build_dir: None,
                html: false,
                open: true,
            },
            paclet_doc("p", None, false, true),
        ),
        (PacletCommand::Install { paclet_file: "f".to_string() }, paclet_install("f")),
        (PacletCommand::Test { paclet_dir: "t".to_string() }, paclet_test("t")),
    ];
    for (command, expected) in cases {
        assert_eq!(request(&command), expected);
        let steps = handle_paclet_command(&command);
        assert_eq!(steps.len(), 3);
        assert_eq!(steps[0], load[0]);
        assert_eq!(steps[1], load[1]);
        assert_eq!(steps[2], Step { input: Input::Expr(expected), expect: Expectation::Null });
    }
}

#[test]
fn optional_text_is_borrowed() {
    assert_eq!(as_text(&None), None);
    assert_eq!(as_text(&Some("a".to_string())), Some("a"));
}

#[test]
fn names_are_read_from_strings() {
    assert_eq!(
        "Publisher/Base".parse::<PacletName>(),
        Ok(PacletName::Resource { publisher: "Publisher".to_string(), base: "Base".to_string() })
    );
    assert_eq!("Plain".parse::<PacletName>(), Ok(PacletName::Normal("Plain".to_string())));
    assert_eq!("a//b".parse::<PacletName>(), Err(PacletNameError::TooManySlashes));
}
