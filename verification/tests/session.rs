use gmv::grammar::InputParser;
use gmv::grammar::ParseFailure;
use gmv::layout::init_plan;
use gmv::layout::report_initialization;
use gmv::layout::InitStep;
use gmv::session::directory_names;
use gmv::session::dispatch;
use gmv::session::exiting_message;
use gmv::session::prompt;
use gmv::session::Action;
use gmv::session::ListingEntry;

#[test]
fn layout_paths_are_exact() {
    assert_eq!(gmv::layout::metadata_dir(), ".gmv");
    assert_eq!(gmv::layout::objects_dir(), ".gmv/objects");
    assert_eq!(gmv::layout::refs_dir(), ".gmv/refs");
    assert_eq!(gmv::layout::head_file(), ".gmv/HEAD");
    assert_eq!(gmv::layout::head_contents(), "ref: refs/heads/main");
}

#[test]
fn init_plan_is_the_five_steps_in_order() {
    let steps = init_plan("/tmp/repo1");
    assert_eq!(steps.len(), 5);
    match &steps[0] {
        InitStep::EnterDirectory { path } => assert_eq!(path, "/tmp/repo1"),
        _ => panic!("the first step must enter the target directory"),
    }
    match &steps[1] {
        InitStep::CreateDirectory { path } => assert_eq!(path, ".gmv"),
        _ => panic!("the second step must create the metadata root"),
    }
    match &steps[2] {
        InitStep::CreateDirectory { path } => assert_eq!(path, ".gmv/objects"),
        _ => panic!("the third step must create the object store"),
    }
    match &steps[3] {
        InitStep::CreateDirectory { path } => assert_eq!(path, ".gmv/refs"),
        _ => panic!("the fourth step must create the reference store"),
    }
    match &steps[4] {
        InitStep::WriteFile { path, contents } => {
            assert_eq!(path, ".gmv/HEAD");
            assert_eq!(contents, "ref: refs/heads/main");
        }
        _ => panic!("the last step must write HEAD"),
    }
}

#[test]
fn scenario_init_dispatches_and_reports() {
    let parser = InputParser::new();
    let action = dispatch(&parser, "gmv init /tmp/repo1");
    match action {
        Action::InitRepository { path } => {
            assert_eq!(path, "/tmp/repo1");
            assert_eq!(
                report_initialization(&path, &None),
                "Initialized GMV at /tmp/repo1"
            );
        }
        _ => panic!("init must dispatch to the initializer"),
    }
}

#[test]
fn initialization_failure_is_reported_with_prefix() {
    let report = report_initialization("/tmp/repo1", &Some(String::from("File exists")));
    assert_eq!(report, "gmv: error: File exists");
    assert_eq!(gmv::layout::error_message("boom"), "gmv: error: boom");
    assert_eq!(
        gmv::layout::init_success_message("/tmp/repo1"),
        "Initialized GMV at /tmp/repo1"
    );
}

#[test]
fn scenario_ls_lists_directories_only() {
    let entries = vec![
        ListingEntry {
            name: String::from("sub"),
            is_dir: true,
        },
        ListingEntry {
            name: String::from("f.txt"),
            is_dir: false,
        },
    ];
    assert_eq!(directory_names(&entries), vec!["sub"]);
}

#[test]
fn listing_keeps_directory_order() {
    let entries = vec![
        ListingEntry {
            name: String::from("b"),
            is_dir: true,
        },
        ListingEntry {
            name: String::from("x"),
            is_dir: false,
        },
        ListingEntry {
            name: String::from("a"),
            is_dir: true,
        },
    ];
    assert_eq!(directory_names(&entries), vec!["b", "a"]);
    assert_eq!(directory_names(&Vec::new()), Vec::<String>::new());
}

#[test]
fn scenario_bogus_prints_diagnostic_and_continues() {
    let parser = InputParser::new();
    let action = dispatch(&parser, "bogus");
    assert!(!action.is_terminal());
    match action {
        Action::PrintDiagnostic { failure } => {
            assert!(!failure.is_help());
            assert_eq!(failure.diagnostic(), "error: unrecognized subcommand 'bogus'");
        }
        _ => panic!("an unrecognized word must print a diagnostic"),
    }
}

#[test]
fn scenario_quit_terminates() {
    let parser = InputParser::new();
    let action = dispatch(&parser, "quit");
    assert!(action.is_terminal());
    assert!(matches!(action, Action::Terminate));
    assert_eq!(exiting_message(), "Exiting...");
}

#[test]
fn empty_line_reprompts_without_translating() {
    let parser = InputParser::new();
    assert!(matches!(dispatch(&parser, ""), Action::Reprompt));
    assert!(matches!(dispatch(&parser, "  \t "), Action::Reprompt));
    assert!(!dispatch(&parser, "").is_terminal());
}

#[test]
fn ls_dispatches_to_the_listing() {
    let parser = InputParser::new();
    assert!(matches!(dispatch(&parser, "ls"), Action::ListDirectories));
    assert!(matches!(
        dispatch(&parser, "gmv ls"),
        Action::ListDirectories
    ));
}

#[test]
fn missing_path_dispatches_to_a_diagnostic() {
    let parser = InputParser::new();
    match dispatch(&parser, "init") {
        Action::PrintDiagnostic { failure } => {
            assert!(matches!(failure, ParseFailure::MissingPath));
        }
        _ => panic!("init without a path must print a diagnostic"),
    }
}

#[test]
fn prompt_is_fixed() {
    assert_eq!(prompt(), "gmv> ");
}
