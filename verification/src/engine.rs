//! What is said to a UCI chess engine.
//!
//! An [`Engine`] does no input or output. Each of its methods gives the
//! command line that tells a search process to do what the method is named
//! after; running the process and writing the line to it is left to the
//! caller. A position reaches a command only through the codec: it is read
//! from its record, and what is sent is the record written anew.

use vstd::prelude::*;
use vstd::string::StringExecFns;
use crate::error::FenError;
use crate::game::Game;
use crate::position::Position;

verus! {

/// The command that sets the option `name` to `value`.
pub open spec fn set_option_command(name: Seq<char>, value: Seq<char>) -> Seq<char> {
    "setoption name "@ + name + " value "@ + value
}

/// The command that starts a new game.
pub open spec fn new_game_command() -> Seq<char> {
    "ucinewgame"@
}

/// The command that sets up the position that `record` writes.
pub open spec fn position_command(record: Seq<char>) -> Seq<char> {
    "position fen "@ + record
}

/// The command that starts the search.
pub open spec fn go_command() -> Seq<char> {
    "go"@
}

/// The command that stops the search.
pub open spec fn stop_command() -> Seq<char> {
    "stop"@
}

/// The command that says that the expected move was played.
pub open spec fn ponder_hit_command() -> Seq<char> {
    "ponderhit"@
}

/// The command that ends the search process.
pub open spec fn quit_command() -> Seq<char> {
    "quit"@
}

/// A UCI chess engine, known by the path of its executable.
#[derive(Clone, Debug, PartialEq, Eq)]
pub struct Engine {
    path: String,
}

impl View for Engine {
    type V = Seq<char>;

    closed spec fn view(&self) -> Seq<char> {
        self.path@
    }
}

impl Engine {
    /// The engine whose executable is at `path`.
    pub fn new(path: &str) -> (engine: Engine)
        ensures
            engine@ == path@,
    {
        Engine { path: path.to_owned() }
    }

    /// The path of the executable.
    pub fn path(&self) -> (path: &str)
        ensures
            path@ == self@,
    {
        self.path.as_str()
    }

    /// The command that sets the option `name` to `value`.
    pub fn set_option(&self, name: &str, value: &str) -> (command: String)
        ensures
            command@ == set_option_command(name@, value@),
    {
        let mut command = "setoption name ".to_owned();
        command.append(name);
        command.append(" value ");
        command.append(value);
        command
    }

    /// The command that tells the engine to start a new game.
    pub fn new_game(&self) -> (command: String)
        ensures
            command@ == new_game_command(),
    {
        "ucinewgame".to_owned()
    }

    /// The command that sets the position from which to search. The record
    /// `fen` is read first: a record that describes no position gives its
    /// error and no command, and a record that describes one is sent as the
    /// codec writes it.
    pub fn set_position(&self, fen: &str) -> (r: Result<String, FenError>)
        ensures
            match Position::parse(fen@) {
                Ok(p) => r is Ok && r.unwrap()@ == position_command(p.record()),
                Err(e) => r == Err::<String, FenError>(e),
            },
    {
        match Game::from_fen(fen) {
            Ok(game) => {
                let mut command = "position fen ".to_owned();
                command.append(game.to_fen().as_str());
                Ok(command)
            },
            Err(e) => Err(e),
        }
    }

    /// The command that starts the search from the current position.
    pub fn go(&self) -> (command: String)
        ensures
            command@ == go_command(),
    {
        "go".to_owned()
    }

    /// The command that tells the engine to stop searching.
    pub fn stop(&self) -> (command: String)
        ensures
            command@ == stop_command(),
    {
        "stop".to_owned()
    }

    /// The command that tells the engine that the expected move was played.
    pub fn ponder_hit(&self) -> (command: String)
        ensures
            command@ == ponder_hit_command(),
    {
        "ponderhit".to_owned()
    }

    /// The command that terminates the engine.
    pub fn quit(&self) -> (command: String)
        ensures
            command@ == quit_command(),
    {
        "quit".to_owned()
    }
}

} // verus!
