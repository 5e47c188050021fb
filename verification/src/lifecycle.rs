//! The lifecycle engine: derives, from an effective Configuration, the shell
//! command each lifecycle operation must run. `dot_start` yields a command to
//! launch detached; `dot_kill` and `dot_reload` yield commands to run
//! synchronously. The surrounding binary hands the command to the shell.

use vstd::prelude::*;
use vstd::string::StringExecFns;

use crate::config::ConfigView;
use crate::config::DotConfig;

verus! {

/// Lifecycle failures: the operation's command is configured nowhere.
#[derive(Debug, Clone, Copy, PartialEq, Eq, Structural)]
pub enum LifecycleError {
    NoStartCommand,
    NoKillCommand,
    NoReloadCommand,
}

/// The joiner placed between the kill and the start command when a reload
/// has to be derived from them: the start command runs only after the kill
/// command has completed (and succeeded).
pub open spec fn spec_command_joiner() -> Seq<char> {
    " && "@
}

/// The synchronous command that `reload` runs: the configured `reload`
/// command when there is one; else, when both `kill` and `start` are
/// configured, their sequential composition, kill first; else nothing.
pub open spec fn reload_command(c: ConfigView) -> Option<Seq<char>> {
    if c.reload is Some {
        c.reload
    } else if c.kill is Some && c.start is Some {
        Some(c.kill.unwrap() + spec_command_joiner() + c.start.unwrap())
    } else {
        None
    }
}

/// The command `start` launches as a detached background process.
///
/// Fails with `NoStartCommand` when no start command is configured.
pub fn dot_start(config: &DotConfig) -> (r: Result<String, LifecycleError>)
    ensures
        match r {
            Ok(cmd) => config@.start == Some(cmd@),
            Err(e) => config@.start is None && e == LifecycleError::NoStartCommand,
        },
{
    match &config.start {
        Some(cmd) => Ok(cmd.clone()),
        None => Err(LifecycleError::NoStartCommand),
    }
}

/// The command `kill` runs synchronously.
///
/// Fails with `NoKillCommand` when no kill command is configured.
pub fn dot_kill(config: &DotConfig) -> (r: Result<String, LifecycleError>)
    ensures
        match r {
            Ok(cmd) => config@.kill == Some(cmd@),
            Err(e) => config@.kill is None && e == LifecycleError::NoKillCommand,
        },
{
    match &config.kill {
        Some(cmd) => Ok(cmd.clone()),
        None => Err(LifecycleError::NoKillCommand),
    }
}

/// The command `reload` runs synchronously: the configured `reload` command,
/// or the kill-then-start composition derived from `kill` and `start`.
///
/// Fails with `NoReloadCommand` when neither is available.
pub fn dot_reload(config: &DotConfig) -> (r: Result<String, LifecycleError>)
    ensures
        match r {
            Ok(cmd) => reload_command(config@) == Some(cmd@),
            Err(e) => reload_command(config@) is None && e == LifecycleError::NoReloadCommand,
        },
{
    if let Some(cmd) = &config.reload {
        return Ok(cmd.clone());
    }
    if let (Some(kill_cmd), Some(start_cmd)) = (&config.kill, &config.start) {
        let composed = kill_cmd.clone().concat(" && ").concat(start_cmd.as_str());
        return Ok(composed);
    }
    Err(LifecycleError::NoReloadCommand)
}

/// Law: with no explicit `reload` command and both `start` and `kill`
/// configured, the derived reload command is the kill command, then the
/// joiner, then the start command — the kill command's characters come
/// first, so the kill runs before the start.
pub proof fn lemma_reload_derived_kill_before_start(c: ConfigView)
    requires
        c.reload is None,
        c.kill is Some,
        c.start is Some,
    ensures
        reload_command(c) is Some,
        reload_command(c).unwrap() == c.kill.unwrap() + spec_command_joiner() + c.start.unwrap(),
        reload_command(c).unwrap().take(c.kill.unwrap().len() as int) == c.kill.unwrap(),
        reload_command(c).unwrap().skip(
            c.kill.unwrap().len() + spec_command_joiner().len() as int,
        ) == c.start.unwrap(),
{
    let composed = reload_command(c).unwrap();
    let k = c.kill.unwrap();
    let s = c.start.unwrap();
    assert(composed.take(k.len() as int) =~= k);
    assert(composed.skip(k.len() + spec_command_joiner().len() as int) =~= s);
}

} // verus!
