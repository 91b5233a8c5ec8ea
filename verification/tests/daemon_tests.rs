use waydim::daemon::{
    pid_file_path, pid_file_step, proc_path, process_step, socket_cleanup_step, socket_path,
    PidFileRead, PidFileStep, ProcessCheck, ProcessStep, SocketRemoval,
};

#[test]
fn daemon_paths() {
    assert_eq!(pid_file_path(), "/tmp/waydim.pid");
    assert_eq!(socket_path(), "/tmp/waydim.sock");
    assert_eq!(proc_path("1234"), "/proc/1234");
}

#[test]
fn recorded_pid_is_trimmed_and_looked_for() {
    match pid_file_step(PidFileRead::Contents("  4242\n".to_string())) {
        PidFileStep::CheckProcess { pid, proc_path } => {
            assert_eq!(pid, "4242");
            assert_eq!(proc_path, "/proc/4242");
        }
        other => panic!("unexpected step {:?}", other),
    }
    match pid_file_step(PidFileRead::Contents("\u{3000}17\u{a0}\t".to_string())) {
        PidFileStep::CheckProcess { pid, proc_path } => {
            assert_eq!(pid, "17");
            assert_eq!(proc_path, "/proc/17");
        }
        other => panic!("unexpected step {:?}", other),
    }
    match pid_file_step(PidFileRead::Contents(" \n".to_string())) {
        PidFileStep::CheckProcess { pid, proc_path } => {
            assert_eq!(pid, "");
            assert_eq!(proc_path, "/proc/");
        }
        other => panic!("unexpected step {:?}", other),
    }
}

#[test]
fn missing_pid_file_is_claimed() {
    assert!(matches!(pid_file_step(PidFileRead::NotFound), PidFileStep::Claim));
}

#[test]
fn unreadable_pid_file_stops_the_daemon() {
    match pid_file_step(PidFileRead::Failed("permission denied".to_string())) {
        PidFileStep::Fail { context, cause } => {
            assert_eq!(
                context,
                "Trying to know if another waydim is running by looking at PID file `/tmp/waydim.pid`"
            );
            assert_eq!(cause, "permission denied");
        }
        other => panic!("unexpected step {:?}", other),
    }
}

#[test]
fn live_instance_is_reported() {
    match process_step("4242", ProcessCheck::Running) {
        ProcessStep::AlreadyRunning { message } => {
            assert_eq!(message, "Another waydim with PID 4242 is already running")
        }
        other => panic!("unexpected step {:?}", other),
    }
}

#[test]
fn stale_pid_file_is_claimed() {
    assert!(matches!(process_step("4242", ProcessCheck::NotRunning), ProcessStep::Claim));
    match process_step("4242", ProcessCheck::Failed("io".to_string())) {
        ProcessStep::Fail { cause } => assert_eq!(cause, "io"),
        other => panic!("unexpected step {:?}", other),
    }
}

#[test]
fn socket_cleanup_decisions() {
    assert!(socket_cleanup_step(SocketRemoval::Removed).is_ok());
    assert!(socket_cleanup_step(SocketRemoval::NotFound).is_ok());
    match socket_cleanup_step(SocketRemoval::Failed("busy".to_string())) {
        Err((context, cause)) => {
            assert_eq!(context, "Cannot remove file /tmp/waydim.sock");
            assert_eq!(cause, "busy");
        }
        Ok(()) => panic!("a failed removal must stop the daemon"),
    }
}
