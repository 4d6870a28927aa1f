use mate_bench::config::EngineOptions;
use mate_bench::session::{MATE_TIMEOUT_SECS, SessionCommand, initialize_commands, search_commands};

fn expect_set_option(cmd: &SessionCommand, name: &str, value: &str) {
    match cmd {
        SessionCommand::SetOption(n, v) => {
            assert_eq!(n, name);
            assert_eq!(v, value);
        }
        other => panic!("expected a SetOption command, got {:?}", other),
    }
}

#[test]
fn initialization_sends_options_then_prepares_a_new_game() {
    let options = EngineOptions { threads: 2, hash: 256 };
    let cmds = initialize_commands(&options);
    assert_eq!(cmds.len(), 8);
    expect_set_option(&cmds[0], "Threads", "2");
    expect_set_option(&cmds[1], "USI_Hash", "256");
    expect_set_option(&cmds[2], "GenerateAllLegalMoves", "true");
    expect_set_option(&cmds[3], "PvInterval", "0");
    expect_set_option(&cmds[4], "RootIsAndNodeIfChecked", "false");
    expect_set_option(&cmds[5], "PostSearchLevel", "None");
    assert!(matches!(cmds[6], SessionCommand::Prepare));
    assert!(matches!(cmds[7], SessionCommand::NewGame));
}

#[test]
fn each_position_is_submitted_as_set_position_then_go_mate() {
    let cmds = search_commands("lnsgkgsnl/9/ppppppppp b - 1");
    assert_eq!(cmds.len(), 2);
    match &cmds[0] {
        SessionCommand::SetPosition(p) => assert_eq!(p, "lnsgkgsnl/9/ppppppppp b - 1"),
        other => panic!("expected a SetPosition command, got {:?}", other),
    }
    match &cmds[1] {
        SessionCommand::GoMate(t) => assert_eq!(*t, MATE_TIMEOUT_SECS),
        other => panic!("expected a GoMate command, got {:?}", other),
    }
    assert_eq!(MATE_TIMEOUT_SECS, 30);
}
