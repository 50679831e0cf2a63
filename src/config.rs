//! The resolved settings of one watch session, built once at startup.

use vstd::prelude::*;

use crate::command::{resolve_template, whitespace_tokens, CommandSpec};
use crate::template::{substitute, substituted};

verus! {

/// Why the settings could not be built.
#[derive(Clone, Copy, Debug, PartialEq, Eq, Structural)]
pub enum ConfigError {
    /// The primary command names no program once substituted.
    EmptyCommand,
    /// The companion command names no program once substituted.
    EmptyCompanion,
}

/// Whether `template`, once `filename` stands in it, holds a token: the program.
pub open spec fn names_program(template: Seq<char>, filename: Seq<char>) -> bool {
    whitespace_tokens(substituted(template, filename)).len() > 0
}

/// Everything the watch session needs but the debounce delay, which the
/// front end holds.
#[derive(Clone, Debug)]
pub struct WatchConfig {
    pub watch_path: String,
    /// The primary command as text, after substitution; failures quote it.
    pub command_text: String,
    pub primary_command: CommandSpec,
    pub companion_command: Option<CommandSpec>,
    pub show_output: bool,
    pub debug: bool,
}

impl WatchConfig {
    /// Substitutes `filename` into the primary command and into the companion
    /// command, if one is given, and resolves both.
    pub fn build(
        filename: &str,
        command: &str,
        also_run: Option<&str>,
        show_output: bool,
        debug: bool,
    ) -> (r: Result<WatchConfig, ConfigError>)
        ensures
            (r == Err::<WatchConfig, ConfigError>(ConfigError::EmptyCommand)) <==> !names_program(
                command@,
                filename@,
            ),
            (r == Err::<WatchConfig, ConfigError>(ConfigError::EmptyCompanion)) <==> (names_program(
                command@,
                filename@,
            ) && (also_run matches Some(a) && !names_program(a@, filename@))),
            r is Ok <==> names_program(command@, filename@) && match also_run {
                Some(a) => names_program(a@, filename@),
                None => true,
            },
            r matches Ok(c) ==> {
                &&& c.watch_path@ == filename@
                &&& c.command_text@ == substituted(command@, filename@)
                &&& c.primary_command.wf()
                &&& c.primary_command.resolves(substituted(command@, filename@))
                &&& c.companion_command is Some <==> also_run is Some
                &&& also_run matches Some(a) ==> c.companion_command->0.wf()
                    && c.companion_command->0.resolves(substituted(a@, filename@))
                &&& c.show_output == show_output
                &&& c.debug == debug
            },
    {
        let primary = match resolve_template(command, filename) {
            Some(p) => p,
            None => return Err(ConfigError::EmptyCommand),
        };
        let companion = match also_run {
            Some(a) => match resolve_template(a, filename) {
                Some(c) => Some(c),
                None => return Err(ConfigError::EmptyCompanion),
            },
            None => None,
        };
        let command_text = substitute(command, filename);
        let watch_path = filename.to_owned();
        Ok(
            WatchConfig {
                watch_path,
                command_text,
                primary_command: primary,
                companion_command: companion,
                show_output,
                debug,
            },
        )
    }
}

} // verus!
