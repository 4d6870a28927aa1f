//! The command sequences one engine session is driven with.
//!
//! A session wraps one spawned engine process. The library decides *what*
//! to send — the configuration sequence applied right after the spawn and
//! the two-command submission for each position — as plain values; the
//! process transport sends each [`SessionCommand`] over the engine's wire
//! protocol.

use vstd::prelude::*;

use crate::config::EngineOptions;
use crate::report::{dec_str, usize_to_string};

verus! {

/// Engine-side search budget for one position, in seconds.
pub const MATE_TIMEOUT_SECS: u64 = 30;

/// One command a solve job sends to its engine session.
#[derive(Clone, Debug)]
pub enum SessionCommand {
    /// Set one engine option to a value.
    SetOption(String, String),
    /// Ask the engine to make itself ready.
    Prepare,
    /// Signal a new game, resetting the engine's internal state.
    NewGame,
    /// Hand the engine the position to search next.
    SetPosition(String),
    /// Search the current position for a forced mate, bounded by a timeout
    /// in seconds.
    GoMate(u64),
}

/// The configuration sequence a fresh engine session is driven with: the
/// thread count and hash size from the run's options, the four fixed flags
/// deterministic mate-solving needs (full legal-move generation on,
/// periodic progress info off, root-node special-casing off, post-search
/// extensions off), then the readiness handshake and the new-game signal.
/// Any command of it failing aborts session creation.
pub fn initialize_commands(options: &EngineOptions) -> (cmds: Vec<SessionCommand>)
    ensures
        cmds@.len() == 8,
        cmds@[0] matches SessionCommand::SetOption(n, v) && n@ == "Threads"@ && v@ == dec_str(
            options.threads as nat,
        ),
        cmds@[1] matches SessionCommand::SetOption(n, v) && n@ == "USI_Hash"@ && v@ == dec_str(
            options.hash as nat,
        ),
        cmds@[2] matches SessionCommand::SetOption(n, v) && n@ == "GenerateAllLegalMoves"@ && v@
            == "true"@,
        cmds@[3] matches SessionCommand::SetOption(n, v) && n@ == "PvInterval"@ && v@ == "0"@,
        cmds@[4] matches SessionCommand::SetOption(n, v) && n@ == "RootIsAndNodeIfChecked"@ && v@
            == "false"@,
        cmds@[5] matches SessionCommand::SetOption(n, v) && n@ == "PostSearchLevel"@ && v@
            == "None"@,
        cmds@[6] is Prepare,
        cmds@[7] is NewGame,
{
    let mut cmds: Vec<SessionCommand> = Vec::new();
    cmds.push(
        SessionCommand::SetOption(
            String::from_str("Threads"),
            usize_to_string(options.threads),
        ),
    );
    cmds.push(
        SessionCommand::SetOption(String::from_str("USI_Hash"), usize_to_string(options.hash)),
    );
    cmds.push(
        SessionCommand::SetOption(
            String::from_str("GenerateAllLegalMoves"),
            String::from_str("true"),
        ),
    );
    cmds.push(
        SessionCommand::SetOption(String::from_str("PvInterval"), String::from_str("0")),
    );
    cmds.push(
        SessionCommand::SetOption(
            String::from_str("RootIsAndNodeIfChecked"),
            String::from_str("false"),
        ),
    );
    cmds.push(
        SessionCommand::SetOption(String::from_str("PostSearchLevel"), String::from_str("None")),
    );
    cmds.push(SessionCommand::Prepare);
    cmds.push(SessionCommand::NewGame);
    cmds
}

/// The two-command submission for one position: set the position, then
/// search it for a mate under the fixed timeout. Submission is
/// fire-and-forget: the verdict arrives later through the session's
/// response listener.
pub fn search_commands(sfen: &str) -> (cmds: Vec<SessionCommand>)
    ensures
        cmds@.len() == 2,
        cmds@[0] matches SessionCommand::SetPosition(p) && p@ == sfen@,
        cmds@[1] matches SessionCommand::GoMate(t) && t == MATE_TIMEOUT_SECS,
{
    let mut cmds: Vec<SessionCommand> = Vec::new();
    cmds.push(SessionCommand::SetPosition(String::from_str(sfen)));
    cmds.push(SessionCommand::GoMate(MATE_TIMEOUT_SECS));
    cmds
}

} // verus!
