//! The life of the daemon, against outcomes that are made up.
use nflow_daemon::daemon::{begin, Course, Deed, Mode, Outcome, ShutdownReport};

/// What the daemon met and did.
struct Life {
    fails: Option<Deed>,
    ticks: u32,
    deeds: Vec<String>,
    said: Vec<String>,
}

fn path(deed: &Deed) -> String {
    match deed {
        Deed::DbPath => "/h/nflow.db",
        Deed::SocketPath => "/h/nflow.sock",
        _ => "/h/daemon.pid",
    }
    .to_string()
}

impl Life {
    fn perform(&mut self, deed: Deed) -> Outcome {
        let failed = self.fails.as_ref() == Some(&deed);
        let bad = || "broken".to_string();
        match deed {
            Deed::Say { line } => {
                self.said.push(line);
                return Outcome::Done(Ok(()));
            }
            _ => self.deeds.push(format!("{:?}", deed)),
        }
        match deed {
            Deed::Daemonize | Deed::StayInForeground => {
                Outcome::Number(if failed { Err(bad()) } else { Ok(42) })
            }
            Deed::Migrate => Outcome::Number(if failed { Err(bad()) } else { Ok(7) }),
            Deed::DbPath | Deed::SocketPath | Deed::PidFilePath => {
                Outcome::Path(if failed { Err(bad()) } else { Ok(path(&deed)) })
            }
            Deed::Wait { millis } => {
                assert_eq!(millis, 2000);
                if self.ticks == 0 {
                    return Outcome::Stop(true);
                }
                self.ticks -= 1;
                Outcome::Stop(false)
            }
            Deed::Schedule => {
                Outcome::Work { stories: (self.ticks % 2) as u64, actions: (self.ticks / 2) as u64 }
            }
            Deed::EndAgents { .. } => Outcome::Ended(ShutdownReport {
                agents_finished_naturally: 1,
                agents_sigtermed: 2,
                agents_sigkilled: 3,
                socket_removed: true,
                pid_file_removed: false,
            }),
            _ => Outcome::Done(if failed { Err(bad()) } else { Ok(()) }),
        }
    }
}

fn live(mode: &str, ticks: u32, fails: Option<Deed>) -> (Life, bool) {
    let mut life = Life { fails, ticks, deeds: Vec::new(), said: Vec::new() };
    let mut course = begin(Mode::named(mode));
    loop {
        match course {
            Course::Act(stage, deed) => course = stage.step(life.perform(deed)),
            Course::End { failed } => return (life, failed),
        }
    }
}

#[test]
fn modes_are_named_in_whatever_case() {
    assert_eq!(Mode::named("background"), Mode::Background);
    assert_eq!(Mode::named("BackGround"), Mode::Background);
    assert_eq!(Mode::named("bac\u{212A}ground"), Mode::Background);
    assert_eq!(Mode::named("FOREGROUND"), Mode::Foreground);
    assert_eq!(Mode::named(""), Mode::Default);
    assert_eq!(Mode::named("back ground"), Mode::Default);
}

#[test]
fn in_the_background_the_program_only_starts() {
    let (life, failed) = live("background", 0, None);
    assert!(!failed);
    assert_eq!(life.deeds, vec!["Daemonize"]);
    assert_eq!(life.said, vec!["nflow-daemon started in background mode (pid: 42)"]);
}

#[test]
fn the_daemon_starts_serves_and_ends() {
    let (life, failed) = live("foreground", 4, None);
    assert!(!failed);
    assert_eq!(
        life.said,
        vec![
            "nflow-daemon started in foreground mode (pid: 42)",
            "database schema at version 7",
            "socket server listening on /h/nflow.sock",
            "nflow-daemon shutting down gracefully...",
            "shutdown complete: 1 agents finished naturally, 2 sigtermed, 3 sigkilled, \
             socket_removed=true, pid_file_removed=false",
        ]
    );
    let count = |name: &str| life.deeds.iter().filter(|d| d.starts_with(name)).count();
    assert_eq!(count("Schedule"), 4);
    // of the ticks 3, 2, 1 and 0 two let stories go on, and two want actions
    assert_eq!(count("Progress"), 2);
    assert_eq!(count("Execute"), 2);
    assert_eq!(count("Recover"), 1);
    assert_eq!(count("EndAgents"), 1);
}

#[test]
fn a_failure_to_start_ends_the_program() {
    let db = || "/h/nflow.db".to_string();
    let cases = [
        (Deed::StayInForeground, "Failed to start default mode: broken"),
        (Deed::DbPath, "Failed to resolve db path: broken"),
        (Deed::OpenDb { path: db() }, "Failed to open database: broken"),
        (Deed::Migrate, "Failed to run migrations: broken"),
        (Deed::SocketPath, "Failed to resolve socket path: broken"),
        (Deed::PidFilePath, "Failed to resolve pid file path: broken"),
        (
            Deed::Serve { socket: "/h/nflow.sock".to_string(), db: db() },
            "Failed to start socket server: broken",
        ),
    ];
    for (deed, told) in cases {
        let (life, failed) = live("", 0, Some(deed));
        assert!(failed);
        assert_eq!(life.said.last().unwrap(), told);
    }
    let (life, failed) = live("background", 0, Some(Deed::Daemonize));
    assert!(failed);
    assert_eq!(life.said, vec!["Failed to daemonize: broken"]);
}

#[test]
fn a_failed_recovery_is_only_a_warning() {
    let recover = Deed::Recover {
        socket: "/h/nflow.sock".to_string(),
        pid_file: "/h/daemon.pid".to_string(),
    };
    let (life, failed) = live("foreground", 0, Some(recover));
    assert!(!failed);
    assert!(life.said.contains(&"Warning: crash recovery failed: broken".to_string()));
    assert!(life.said.contains(&"socket server listening on /h/nflow.sock".to_string()));
}
