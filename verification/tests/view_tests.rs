use lyvoxa::process::ProcessRecord;
use lyvoxa::view::{fetch_pool_limit, selected_pid, sort_from_name, view, SortKey};

fn rec(pid: u32, user: &str, command: &str, cpu_milli: u32, mem: u64) -> ProcessRecord {
    ProcessRecord {
        pid,
        ppid: None,
        user: user.to_string(),
        command: command.to_string(),
        cpu_milli_percent: cpu_milli,
        mem_bytes: mem,
        mem_milli_percent: 0,
        virt: 0,
        res: mem,
        shr: 0,
        state: 'S',
        nice: 0,
        priority: 0,
        time_total_secs: 0,
    }
}

fn chars(s: &str) -> Vec<char> {
    s.chars().collect()
}

#[test]
fn sorts_by_cpu_descending() {
    let src = vec![
        rec(1, "a", "x", 10_000, 0),
        rec(2, "b", "y", 90_000, 0),
        rec(3, "c", "z", 50_000, 0),
    ];
    let out = view(src, SortKey::Cpu, &chars(""), 10);
    let pids: Vec<u32> = out.iter().map(|r| r.pid).collect();
    assert_eq!(pids, vec![2, 3, 1]);
}

#[test]
fn sorts_by_memory_descending() {
    let src = vec![rec(1, "a", "x", 0, 5), rec(2, "b", "y", 0, 50), rec(3, "c", "z", 0, 20)];
    let out = view(src, SortKey::Mem, &chars(""), 10);
    let pids: Vec<u32> = out.iter().map(|r| r.pid).collect();
    assert_eq!(pids, vec![2, 3, 1]);
}

#[test]
fn sorts_by_pid_user_and_command_ascending() {
    let src = vec![
        rec(30, "carol", "vim", 0, 0),
        rec(10, "alice", "zsh", 0, 0),
        rec(20, "bob", "cargo", 0, 0),
    ];
    let by_pid: Vec<u32> =
        view(src.clone(), SortKey::Pid, &chars(""), 10).iter().map(|r| r.pid).collect();
    assert_eq!(by_pid, vec![10, 20, 30]);
    let by_user: Vec<u32> =
        view(src.clone(), SortKey::User, &chars(""), 10).iter().map(|r| r.pid).collect();
    assert_eq!(by_user, vec![10, 20, 30]);
    let by_cmd: Vec<u32> =
        view(src, SortKey::Command, &chars(""), 10).iter().map(|r| r.pid).collect();
    assert_eq!(by_cmd, vec![20, 30, 10]);
}

#[test]
fn ties_keep_original_order() {
    let src = vec![
        rec(5, "a", "x", 40_000, 0),
        rec(6, "b", "y", 40_000, 0),
        rec(7, "c", "z", 40_000, 0),
    ];
    let out = view(src, SortKey::Cpu, &chars(""), 10);
    let pids: Vec<u32> = out.iter().map(|r| r.pid).collect();
    assert_eq!(pids, vec![5, 6, 7]);
}

#[test]
fn output_never_exceeds_limit() {
    let src: Vec<ProcessRecord> = (0..20).map(|i| rec(i, "u", "c", i, 0)).collect();
    for limit in [0usize, 1, 5, 20, 100] {
        let out = view(src.clone(), SortKey::Cpu, &chars(""), limit);
        assert!(out.len() <= limit);
    }
}

#[test]
fn filter_matches_command_and_user_case_insensitively() {
    let src = vec![
        rec(1, "root", "Firefox --profile", 0, 0),
        rec(2, "alice", "cargo build", 0, 0),
        rec(3, "FIREFOX", "sleep", 0, 0),
    ];
    let out = view(src, SortKey::Pid, &chars("firefox"), 10);
    let pids: Vec<u32> = out.iter().map(|r| r.pid).collect();
    assert_eq!(pids, vec![1, 3]);
}

#[test]
fn empty_filter_keeps_everything() {
    let src = vec![rec(1, "a", "x", 0, 0), rec(2, "b", "y", 0, 0)];
    let out = view(src, SortKey::Pid, &chars(""), 10);
    assert_eq!(out.len(), 2);
}

#[test]
fn no_duplicate_pids_in_output() {
    let src = vec![
        rec(4, "a", "same", 10, 0),
        rec(1, "b", "same", 10, 0),
        rec(3, "c", "same", 10, 0),
        rec(2, "d", "same", 10, 0),
    ];
    let out = view(src, SortKey::Cpu, &chars("same"), 10);
    let mut pids: Vec<u32> = out.iter().map(|r| r.pid).collect();
    pids.sort();
    pids.dedup();
    assert_eq!(pids.len(), out.len());
}

#[test]
fn selected_pid_clamps_and_handles_empty() {
    let list = vec![rec(10, "a", "x", 0, 0), rec(20, "b", "y", 0, 0)];
    assert_eq!(selected_pid(&list, 0), Some(10));
    assert_eq!(selected_pid(&list, 1), Some(20));
    assert_eq!(selected_pid(&list, 99), Some(20));
    let empty: Vec<ProcessRecord> = Vec::new();
    assert_eq!(selected_pid(&empty, 0), None);
}

#[test]
fn sort_key_names_round_trip() {
    for k in [SortKey::Cpu, SortKey::Mem, SortKey::Pid, SortKey::User, SortKey::Command] {
        let name = k.persist_name();
        assert_eq!(sort_from_name(Some(&name)), k);
    }
    assert_eq!(sort_from_name(None), SortKey::Cpu);
    assert_eq!(sort_from_name(Some(&"bogus".to_string())), SortKey::Cpu);
}

#[test]
fn sort_key_cycle_is_fixed() {
    assert_eq!(SortKey::Cpu.next_in_cycle(), SortKey::Mem);
    assert_eq!(SortKey::Mem.next_in_cycle(), SortKey::Pid);
    assert_eq!(SortKey::Pid.next_in_cycle(), SortKey::User);
    assert_eq!(SortKey::User.next_in_cycle(), SortKey::Command);
    assert_eq!(SortKey::Command.next_in_cycle(), SortKey::Cpu);
}

#[test]
fn fetch_pool_doubles_under_filter_and_is_capped() {
    assert_eq!(fetch_pool_limit(15, false), 15);
    assert_eq!(fetch_pool_limit(15, true), 30);
    assert_eq!(fetch_pool_limit(40, true), 50);
    assert_eq!(fetch_pool_limit(80, false), 50);
    assert_eq!(fetch_pool_limit(usize::MAX, true), 50);
}
