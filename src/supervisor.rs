//! Starting and stopping the background agent through its process-id record.
use vstd::prelude::*;
use crate::platform::Os;
use crate::locator::{cli_binary, get_cli_binary, strs_view};
use crate::text::{trim, parse_u32, decimal, trim_str, parse_u32_str, decimal_string, lemma_decimal_round_trip};

verus! {

/// The command line that runs the agent with subcommand `sub` (`start`,
/// `setup`): the agent's command, its leading arguments, then `sub`.
pub fn agent_command(os: Os, config_dir: &str, portable: bool, wrapper_exists: bool, sub: &str) -> (r: (String, Vec<String>))
    ensures
        r.0@ == cli_binary(os, config_dir@, portable, wrapper_exists).0,
        strs_view(r.1) == cli_binary(os, config_dir@, portable, wrapper_exists).1.push(sub@),
{
    let (cli, mut args) = get_cli_binary(os, config_dir, portable, wrapper_exists);
    let ghost before = args;
    args.push(String::from_str(sub));
    assert(strs_view(args) =~= strs_view(before).push(sub@));
    (cli, args)
}

/// The process id held by a record with text `content`: the text, trimmed,
/// read as a decimal `u32`.
pub open spec fn pid_of(content: Seq<char>) -> Option<u32> {
    parse_u32(trim(content))
}

/// Reads the process id from the record's text.
pub fn parse_pid(content: &str) -> (r: Option<u32>)
    ensures
        r == pid_of(content@),
{
    parse_u32_str(trim_str(content))
}

/// The text of the record for process `pid`.
pub fn pid_record_text(pid: u32) -> (r: String)
    ensures
        r@ == decimal(pid as nat),
{
    decimal_string(pid)
}

/// What stopping the agent does: signal the process named by the record,
/// if there is one, then remove the record whatever happened.
pub struct StopPlan {
    pub signal_pid: Option<u32>,
    pub remove_record: bool,
}

/// The stop plan, given the record's text (`None` when there is no record or
/// it could not be read). A record that does not hold a number is removed
/// without signalling anything.
pub fn stop_plan(record: Option<&str>) -> (r: StopPlan)
    ensures
        (r.signal_pid, r.remove_record) == stop_plan_spec(
            match record {
                Some(c) => Some(c@),
                None => None,
            },
        ),
{
    match record {
        Some(c) => StopPlan { signal_pid: parse_pid(c), remove_record: true },
        None => StopPlan { signal_pid: None, remove_record: true },
    }
}

/// The process id handed to the Unix `kill` call for `pid`: the same 32
/// bits read as a signed id, so every parsed id gets its signal.
pub fn unix_kill_target(pid: u32) -> (r: i32)
    ensures
        r as int == if pid <= i32::MAX as u32 { pid as int } else { pid as int - 0x1_0000_0000 },
{
    if pid <= i32::MAX as u32 {
        pid as i32
    } else {
        (pid - 0x8000_0000) as i32 + i32::MIN
    }
}

/// The arguments of the Windows `taskkill` call that forcibly ends `pid`.
pub fn taskkill_args(pid: u32) -> (r: Vec<String>)
    ensures
        strs_view(r) == seq!["/PID"@, decimal(pid as nat), "/F"@],
{
    let r = vec![String::from_str("/PID"), decimal_string(pid), String::from_str("/F")];
    assert(strs_view(r) =~= seq!["/PID"@, decimal(pid as nat), "/F"@]);
    r
}

/// Stopping without a record signals nothing and still removes the record.
pub proof fn lemma_stop_without_record()
    ensures
        stop_plan_spec(None).0 is None,
        stop_plan_spec(None).1,
{
}

/// Stopping with a record that holds no number signals nothing and removes
/// the record.
pub proof fn lemma_stop_with_garbage(content: Seq<char>)
    requires
        pid_of(content) is None,
    ensures
        stop_plan_spec(Some(content)).0 is None,
        stop_plan_spec(Some(content)).1,
{
}

/// Stopping with a record that holds a number signals exactly that process
/// and removes the record.
pub proof fn lemma_stop_with_pid(content: Seq<char>, pid: u32)
    requires
        pid_of(content) == Some(pid),
    ensures
        stop_plan_spec(Some(content)) == (Some(pid), true),
{
}

/// A record written for a process names that process when read back.
pub proof fn lemma_pid_record_round_trip(pid: u32)
    ensures
        pid_of(decimal(pid as nat)) == Some(pid),
{
    lemma_decimal_round_trip(pid);
}

/// The stop plan over record texts: the process to signal, and whether the
/// record is removed.
pub open spec fn stop_plan_spec(record: Option<Seq<char>>) -> (Option<u32>, bool) {
    match record {
        Some(c) => (pid_of(c), true),
        None => (None, true),
    }
}

} // verus!
