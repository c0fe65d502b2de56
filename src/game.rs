use vstd::prelude::*;
use vstd::string::*;

use crate::coordinator::{CoordState, Coordinator, Phase};
use crate::history::Entry;
use crate::plan::{BuildPlan, artifact_path_of, fallback_plan, source_root_of, texts};

verus! {

/// A game crate whose logic can be rebuilt and swapped in while it runs.
pub struct ReloadableGame {
    /// Directory of the game crate.
    pub game_dir: String,
    /// Name of the library target the crate builds.
    pub target_name: String,
    /// Size of the game state the running process was started with.
    pub abi_size_tag: usize,
}

impl ReloadableGame {
    pub fn new(abi_size_tag: usize, game_dir: &str, target_name: &str) -> (r: Self)
        ensures
            r.game_dir@ == game_dir@,
            r.target_name@ == target_name@,
            r.abi_size_tag == abi_size_tag,
    {
        ReloadableGame {
            game_dir: String::from_str(game_dir),
            target_name: String::from_str(target_name),
            abi_size_tag,
        }
    }

    /// The portable build plan for this game.
    pub fn fallback_plan(&self, pass_args: &Vec<String>, dll_prefix: &str, dll_suffix: &str, sep: &str) -> (r: BuildPlan)
        ensures
            r.program@ == "cargo"@,
            texts(r.args@) == seq!["build"@] + texts(pass_args@),
            r.working_dir@ == self.game_dir@,
            r.source_root@ == source_root_of(self.game_dir@, sep@),
            r.artifact_path@ == artifact_path_of(self.game_dir@, self.target_name@, dll_prefix@, dll_suffix@, sep@),
            r.link_path@ == r.artifact_path@,
    {
        fallback_plan(self.game_dir.as_str(), self.target_name.as_str(), pass_args, dll_prefix, dll_suffix, sep)
    }

    /// The coordinator that reloads this game, starting from the table the
    /// process was built with.
    pub fn coordinator<T>(&self, initial: T) -> (r: Coordinator<T>)
        ensures
            r@ == (CoordState {
                phase: Phase::Idle,
                pending: false,
                next_attempt: 1,
                tables: seq![Entry { abi_size_tag: self.abi_size_tag, table: initial }],
                last_outcome: None,
            }),
            r.wf(),
    {
        Coordinator::new(initial, self.abi_size_tag)
    }
}

/// The space tennis game, kept in the `game` directory and built as the
/// library target `game`, with a game state of `abi_size_tag` bytes.
pub fn create_game(abi_size_tag: usize) -> (r: ReloadableGame)
    ensures
        r.game_dir@ == "game"@,
        r.target_name@ == "game"@,
        r.abi_size_tag == abi_size_tag,
{
    ReloadableGame::new(abi_size_tag, "game", "game")
}

} // verus!
