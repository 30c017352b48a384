use std::collections::HashSet;
use std::sync::atomic::{AtomicU64, Ordering};

use aseprite_mcp::invocation::{Action, Event, Invocation, Stage};
use aseprite_mcp::runner::{AsepriteRunner, RunError, PROCESS_TIMEOUT_SECS};

fn runner() -> AsepriteRunner {
    AsepriteRunner::new("/usr/bin/aseprite".to_string(), "/tmp/aseprite_mcp".to_string())
}

fn strings(v: &[&str]) -> Vec<String> {
    v.iter().map(|s| s.to_string()).collect()
}

/// Feeds events in order and records each action asked for before it.
fn drive(mut inv: Invocation, events: Vec<Event>) -> (Vec<String>, Invocation) {
    let mut actions = Vec::new();
    for ev in events {
        actions.push(action_name(&inv.next_action()));
        inv = inv.step(ev);
    }
    actions.push(action_name(&inv.next_action()));
    (actions, inv)
}

fn action_name(a: &Action) -> String {
    match a {
        Action::WriteScript { .. } => "write",
        Action::Spawn { .. } => "spawn",
        Action::AwaitExit { .. } => "await",
        Action::Kill => "kill",
        Action::ReadOutput => "read",
        Action::RemoveScript { .. } => "remove",
        Action::Finish => "finish",
    }
    .to_string()
}

#[test]
fn temp_script_path_shape() {
    let r = runner();
    assert_eq!(r.temp_script_path(1700000000123456789, 0), "/tmp/aseprite_mcp/mcp_1700000000123456789_0.lua");
    assert_eq!(r.temp_script_path(5, 42), "/tmp/aseprite_mcp/mcp_5_42.lua");
}

#[test]
fn temp_script_paths_are_distinct_with_one_timestamp() {
    let r = runner();
    let n = 1000u64;
    let paths: HashSet<String> = (0..n).map(|c| r.temp_script_path(123, c)).collect();
    assert_eq!(paths.len() as u64, n);
}

#[test]
fn temp_script_paths_from_a_shared_counter_are_distinct() {
    let r = runner();
    let counter = AtomicU64::new(0);
    let mut all = HashSet::new();
    for _ in 0..500 {
        all.insert(r.temp_script_path(7, counter.fetch_add(1, Ordering::Relaxed)));
    }
    assert_eq!(all.len(), 500);
}

#[test]
fn script_invocation_command_lines() {
    let r = runner();
    let inv = Invocation::script(&r, None, "print(1)", 9, 3);
    match inv.next_action() {
        Action::WriteScript { path, contents } => {
            assert_eq!(path, "/tmp/aseprite_mcp/mcp_9_3.lua");
            assert_eq!(contents, "print(1)");
        }
        _ => panic!("expected the script to be written first"),
    }
    let inv = inv.step(Event::Written);
    match inv.next_action() {
        Action::Spawn { program, args } => {
            assert_eq!(program, "/usr/bin/aseprite");
            assert_eq!(args, strings(&["--batch", "--script", "/tmp/aseprite_mcp/mcp_9_3.lua"]));
        }
        _ => panic!("expected a spawn"),
    }
    let on_file = Invocation::script(&r, Some("art.aseprite"), "x", 9, 4).step(Event::Written);
    match on_file.next_action() {
        Action::Spawn { args, .. } => assert_eq!(
            args,
            strings(&["--batch", "art.aseprite", "--script", "/tmp/aseprite_mcp/mcp_9_4.lua"])
        ),
        _ => panic!("expected a spawn"),
    }
}

#[test]
fn cli_invocation_passes_arguments_through() {
    let r = runner();
    let inv = Invocation::cli(&r, &strings(&["a.ase", "--save-as", "b.png"]));
    match inv.next_action() {
        Action::Spawn { program, args } => {
            assert_eq!(program, "/usr/bin/aseprite");
            assert_eq!(args, strings(&["--batch", "a.ase", "--save-as", "b.png"]));
        }
        _ => panic!("expected a spawn"),
    }
}

#[test]
fn successful_run_collects_output_then_removes_script() {
    let inv = Invocation::script(&runner(), None, "print('hello')", 1, 1);
    let (actions, inv) = drive(
        inv,
        vec![
            Event::Written,
            Event::Spawned,
            Event::Exited { success: true },
            Event::OutputRead { stdout: "hello\n".to_string(), stderr: String::new() },
            Event::Removed,
        ],
    );
    assert_eq!(actions, strings(&["write", "spawn", "await", "read", "remove", "finish"]));
    let out = inv.into_result().unwrap().unwrap();
    assert!(out.success);
    assert_eq!(out.result_text(), "hello");
}

#[test]
fn failed_exit_is_not_success() {
    let inv = Invocation::script(&runner(), None, "error()", 1, 2);
    let (_, inv) = drive(
        inv,
        vec![
            Event::Written,
            Event::Spawned,
            Event::Exited { success: false },
            Event::OutputRead { stdout: String::new(), stderr: "bad arg".to_string() },
            Event::Removed,
        ],
    );
    let out = inv.into_result().unwrap().unwrap();
    assert!(!out.success);
    assert_eq!(out.result_text(), "Error: bad arg");
}

#[test]
fn await_uses_the_fixed_timeout() {
    let inv = Invocation::cli(&runner(), &Vec::new()).step(Event::Spawned);
    match inv.next_action() {
        Action::AwaitExit { timeout_secs } => assert_eq!(timeout_secs, 60),
        _ => panic!("expected a wait"),
    }
    assert_eq!(PROCESS_TIMEOUT_SECS, 60);
}

#[test]
fn timeout_kills_reports_and_still_removes_script() {
    let inv = Invocation::script(&runner(), None, "while true do end", 1, 3);
    let (actions, inv) = drive(
        inv,
        vec![
            Event::Written,
            Event::Spawned,
            Event::Elapsed,
            // Output arriving now is not collected: the kill comes first.
            Event::OutputRead { stdout: "late".to_string(), stderr: String::new() },
            Event::Killed,
            Event::Removed,
        ],
    );
    assert_eq!(actions, strings(&["write", "spawn", "await", "kill", "kill", "remove", "finish"]));
    match inv.into_result() {
        Some(Err(e)) => {
            assert!(matches!(e, RunError::TimedOut));
            assert_eq!(
                e.message(),
                "Aseprite process timed out after 60 seconds. The operation may be too complex or Aseprite may be unresponsive."
            );
        }
        _ => panic!("expected a timeout"),
    }
}

#[test]
fn spawn_failure_still_removes_script() {
    let inv = Invocation::script(&runner(), None, "x", 1, 4);
    let (actions, inv) = drive(
        inv,
        vec![Event::Written, Event::SpawnFailed("not found".to_string()), Event::Removed],
    );
    assert_eq!(actions, strings(&["write", "spawn", "remove", "finish"]));
    assert!(matches!(inv.into_result(), Some(Err(RunError::SpawnFailed(_)))));
}

#[test]
fn write_failure_attempts_removal() {
    let inv = Invocation::script(&runner(), None, "x", 1, 5);
    let (actions, inv) =
        drive(inv, vec![Event::WriteFailed("read-only".to_string()), Event::Removed]);
    assert_eq!(actions, strings(&["write", "remove", "finish"]));
    assert!(matches!(inv.into_result(), Some(Err(RunError::WriteFailed(_)))));
}

#[test]
fn cli_run_has_no_cleanup() {
    let inv = Invocation::cli(&runner(), &strings(&["--version"]));
    let (actions, inv) = drive(
        inv,
        vec![
            Event::Spawned,
            Event::Exited { success: true },
            Event::OutputRead { stdout: "Aseprite 1.3".to_string(), stderr: String::new() },
        ],
    );
    assert_eq!(actions, strings(&["spawn", "await", "read", "finish"]));
    assert_eq!(inv.into_result().unwrap().unwrap().result_text(), "Aseprite 1.3");
}

#[test]
fn unrelated_events_do_not_move_the_stage() {
    let inv = Invocation::script(&runner(), None, "x", 1, 6);
    let inv = inv.step(Event::Spawned);
    assert!(matches!(inv.stage(), Stage::Writing));
    assert!(!inv.is_done());
    assert!(inv.into_result().is_none());
}
