//! The watch loop's decisions. The surrounding binary polls the watched
//! Dot's hub directory and hands each observed event in; the library decides
//! whether it triggers a reload, with the same effective Configuration for
//! the whole watch. A change whose affected path is a regular file reloads;
//! any other change is ignored; a failed event is reported and the loop goes
//! on. There is no debouncing: a burst of N file writes yields N reloads.

use vstd::prelude::*;

use crate::config::ConfigView;
use crate::config::DotConfig;
use crate::lifecycle::LifecycleError;
use crate::lifecycle::dot_reload;
use crate::lifecycle::reload_command;

verus! {

/// One event out of the polling watcher: a change whose first affected path
/// is or is not a regular file, or a watch failure (transient; the loop
/// continues).
#[derive(Debug, Clone, Copy, PartialEq, Eq, Structural)]
pub enum WatchEvent {
    Changed { path_is_file: bool },
    Failed,
}

/// Whether an event is a change to a regular file — the only kind that
/// triggers a reload.
pub open spec fn is_file_change(ev: WatchEvent) -> bool {
    ev matches WatchEvent::Changed { path_is_file } && path_is_file
}

/// The file-change events of a burst, in order.
pub open spec fn file_changes(events: Seq<WatchEvent>) -> Seq<WatchEvent> {
    events.filter(|ev: WatchEvent| is_file_change(ev))
}

/// The reload commands a burst of events triggers: one per file change, each
/// the watched Configuration's reload command.
pub open spec fn reload_invocations(c: ConfigView, events: Seq<WatchEvent>) -> Seq<Seq<char>> {
    file_changes(events).map_values(|ev: WatchEvent| reload_command(c).unwrap())
}

/// Decide one watch event: a file change yields the reload command to run
/// synchronously before the next poll tick; any other event yields nothing.
///
/// Fails with `NoReloadCommand` when a file change arrives but the
/// Configuration has no reload command and none can be derived; the watch
/// stops on that.
pub fn watch_step(config: &DotConfig, event: WatchEvent) -> (r: Result<
    Option<String>,
    LifecycleError,
>)
    ensures
        match r {
            Ok(Some(cmd)) => is_file_change(event) && reload_command(config@) == Some(cmd@),
            Ok(None) => !is_file_change(event),
            Err(e) => is_file_change(event) && reload_command(config@) is None && e
                == LifecycleError::NoReloadCommand,
        },
{
    match event {
        WatchEvent::Changed { path_is_file } => {
            if path_is_file {
                match dot_reload(config) {
                    Ok(cmd) => Ok(Some(cmd)),
                    Err(e) => Err(e),
                }
            } else {
                Ok(None)
            }
        },
        WatchEvent::Failed => Ok(None),
    }
}

/// Decide a whole burst of events: the reload commands to run, in event
/// order, one per file change — no debouncing. Fails with `NoReloadCommand`
/// only when a file change arrives with no reload command available.
pub fn watch_plan(config: &DotConfig, events: &Vec<WatchEvent>) -> (r: Result<
    Vec<String>,
    LifecycleError,
>)
    ensures
        match r {
            Ok(cmds) => cmds.deep_view() == reload_invocations(config@, events@),
            Err(e) => reload_command(config@) is None && file_changes(events@).len() > 0 && e
                == LifecycleError::NoReloadCommand,
        },
{
    broadcast use vstd::seq_lib::group_seq_lib_default;

    let mut cmds: Vec<String> = Vec::new();
    let mut i: usize = 0;
    while i < events.len()
        invariant
            i <= events@.len(),
            cmds.deep_view() == reload_invocations(config@, events@.take(i as int)),
        decreases events@.len() - i,
    {
        let ghost c = config@;
        let ghost evs = events@;
        let ghost before = cmds.deep_view();
        let step = watch_step(config, events[i]);
        proof {
            assert(evs.take(i + 1).drop_last() =~= evs.take(i as int));
            assert(evs.take(i + 1).last() == evs[i as int]);
        }
        match step {
            Ok(Some(cmd)) => {
                let ghost cmd_view = cmd@;
                cmds.push(cmd);
                proof {
                    reveal(Seq::filter);
                    assert(file_changes(evs.take(i + 1)) =~= file_changes(evs.take(i as int)).push(
                        evs[i as int],
                    ));
                    assert(cmds.deep_view() =~= before.push(cmd_view));
                    assert(cmds.deep_view() =~= reload_invocations(c, evs.take(i + 1)));
                }
            },
            Ok(None) => {
                proof {
                    reveal(Seq::filter);
                    assert(file_changes(evs.take(i + 1)) =~= file_changes(evs.take(i as int)));
                    assert(cmds.deep_view() =~= reload_invocations(c, evs.take(i + 1)));
                }
            },
            Err(e) => {
                proof {
                    assert(is_file_change(evs[i as int]));
                    evs.lemma_filter_contains(|ev: WatchEvent| is_file_change(ev), i as int);
                }
                return Err(e);
            },
        }
        i = i + 1;
    }
    proof {
        assert(events@.take(events@.len() as int) =~= events@);
    }
    Ok(cmds)
}

/// Law: the watch does not debounce. A burst of events triggers exactly one
/// reload per file-change event — at least once each — and every triggered
/// reload runs the Configuration's reload command.
pub proof fn lemma_watch_reloads_every_file_change(c: ConfigView, events: Seq<WatchEvent>)
    ensures
        reload_invocations(c, events).len() == file_changes(events).len(),
        forall|i: int|
            0 <= i < reload_invocations(c, events).len() ==> reload_invocations(c, events)[i]
                == reload_command(c).unwrap(),
{
}

} // verus!
