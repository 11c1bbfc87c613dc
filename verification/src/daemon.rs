//! The life of the daemon: how it starts, what it does at each tick, and how it ends.
use vstd::prelude::*;
use crate::text::{cat, cat3, cat4, matches_word, u64_text};

verus! {

/// How the daemon is run.
#[derive(Debug, Clone, Copy, PartialEq, Eq, Structural)]
pub enum Mode {
    Background,
    Foreground,
    Default,
}

/// How long the daemon waits between two ticks of the scheduler, in milliseconds.
pub const TICK_MILLIS: u64 = 2000;

impl Mode {
    /// The mode that a text names, in whatever case.
    pub open spec fn denoted(text: Seq<char>) -> Mode {
        if crate::text::is_word(text, "background"@) {
            Mode::Background
        } else if crate::text::is_word(text, "foreground"@) {
            Mode::Foreground
        } else {
            Mode::Default
        }
    }

    pub fn named(text: &str) -> (r: Mode)
        ensures
            r == Mode::denoted(text@),
    {
        if matches_word(text, "background") {
            Mode::Background
        } else if matches_word(text, "foreground") {
            Mode::Foreground
        } else {
            Mode::Default
        }
    }

    pub open spec fn name(self) -> Seq<char> {
        match self {
            Mode::Background => "background mode"@,
            Mode::Foreground => "foreground mode"@,
            Mode::Default => "default mode"@,
        }
    }

    pub fn as_str(&self) -> (r: &'static str)
        ensures
            r@ == self.name(),
    {
        match self {
            Mode::Background => "background mode",
            Mode::Foreground => "foreground mode",
            Mode::Default => "default mode",
        }
    }
}

/// What is done to start, run and end the daemon.
#[derive(Debug, PartialEq)]
pub enum Deed {
    /// Leave the terminal, redirect the output and write the file with the process id: the
    /// process id.
    Daemonize,
    /// Write the file with the process id and handle interrupts: the process id.
    StayInForeground,
    /// Where the database is.
    DbPath,
    /// Open the database.
    OpenDb { path: String },
    /// Bring the schema of the open database up to date: its version.
    Migrate,
    /// Where the socket is.
    SocketPath,
    /// Where the file with the process id is.
    PidFilePath,
    /// Put right what an earlier daemon left in the open database and at the two paths.
    Recover { socket: String, pid_file: String },
    /// Answer requests at the socket.
    Serve { socket: String, db: String },
    /// Wait for the next tick: whether the daemon is to shut down.
    Wait { millis: u64 },
    /// Let the scheduler look at the open database: how many stories go on, and how many
    /// actions it wants.
    Schedule,
    /// Let the stories go on.
    Progress,
    /// Carry the actions of the scheduler out.
    Execute,
    /// End the agents of the open database and remove the two files.
    EndAgents { socket: String, pid_file: String },
    /// Remove the two files.
    RemoveFiles { socket: String, pid_file: String },
    /// Print a line.
    Say { line: String },
}

/// What became of the agents at the end, and of the two files.
#[derive(Debug, Clone, Copy, PartialEq, Eq, Structural)]
pub struct ShutdownReport {
    pub agents_finished_naturally: u32,
    pub agents_sigtermed: u32,
    pub agents_sigkilled: u32,
    pub socket_removed: bool,
    pub pid_file_removed: bool,
}

/// The outcome of a deed.
#[derive(Debug, PartialEq)]
pub enum Outcome {
    Done(Result<(), String>),
    Number(Result<u32, String>),
    Path(Result<String, String>),
    Stop(bool),
    Work { stories: u64, actions: u64 },
    Ended(ShutdownReport),
}

impl Deed {
    /// Whether `outcome` is an outcome of this deed.
    pub open spec fn answered_by(self, outcome: Outcome) -> bool {
        match self {
            Deed::Daemonize | Deed::StayInForeground | Deed::Migrate => outcome is Number,
            Deed::DbPath | Deed::SocketPath | Deed::PidFilePath => outcome is Path,
            Deed::Wait { .. } => outcome is Stop,
            Deed::Schedule => outcome is Work,
            Deed::EndAgents { .. } => outcome is Ended,
            _ => outcome is Done,
        }
    }
}

/// What the daemon awaits.
pub enum Stage {
    Background,
    Foreground { mode: Mode },
    Started,
    DbPath,
    OpenFirst { db: String },
    Migrate { db: String },
    Migrated { db: String },
    SocketPath { db: String },
    PidFilePath { db: String, socket: String },
    OpenForRecovery { db: String, socket: String, pid_file: String },
    Recover { db: String, socket: String },
    Warned { db: String, socket: String },
    Serve { socket: String },
    Listening,
    Wait,
    TickPath,
    TickOpen,
    Schedule,
    Progress { actions: u64 },
    Execute,
    Ending,
    EndSocket,
    EndPidFile { socket: String },
    EndDb { socket: String, pid_file: String },
    EndOpen { socket: String, pid_file: String },
    EndAgents,
    EndWarned { socket: String, pid_file: String },
    RemoveFiles,
    /// The last line is being printed; after it the program ends, and has failed if so.
    Last { failed: bool },
}

/// What the daemon does next: a deed, or its end.
pub enum Course {
    Act(Stage, Deed),
    End { failed: bool },
}

pub open spec fn started_line(mode: Mode, pid: u32) -> Seq<char> {
    "nflow-daemon started in "@ + mode.name() + " (pid: "@ + (crate::text::decimal(pid as nat)
        + ")"@)
}

fn started(mode: Mode, pid: u32) -> (r: String)
    ensures
        r@ == started_line(mode, pid),
{
    cat4(
        "nflow-daemon started in ",
        mode.as_str(),
        " (pid: ",
        cat(u64_text(pid as u64).as_str(), ")").as_str(),
    )
}

pub open spec fn truth_text(b: bool) -> Seq<char> {
    if b {
        "true"@
    } else {
        "false"@
    }
}

fn truth(b: bool) -> (r: &'static str)
    ensures
        r@ == truth_text(b),
{
    if b {
        "true"
    } else {
        "false"
    }
}

impl ShutdownReport {
    pub open spec fn line(self) -> Seq<char> {
        "shutdown complete: "@ + crate::text::decimal(self.agents_finished_naturally as nat)
            + " agents finished naturally, "@ + (crate::text::decimal(self.agents_sigtermed as nat)
            + " sigtermed, "@ + (crate::text::decimal(self.agents_sigkilled as nat)
            + " sigkilled, socket_removed="@ + (truth_text(self.socket_removed)
            + ", pid_file_removed="@ + truth_text(self.pid_file_removed))))
    }

    pub fn to_line(&self) -> (r: String)
        ensures
            r@ == self.line(),
    {
        let files = cat3(
            truth(self.socket_removed),
            ", pid_file_removed=",
            truth(self.pid_file_removed),
        );
        let killed = cat3(
            u64_text(self.agents_sigkilled as u64).as_str(),
            " sigkilled, socket_removed=",
            files.as_str(),
        );
        let termed = cat3(
            u64_text(self.agents_sigtermed as u64).as_str(),
            " sigtermed, ",
            killed.as_str(),
        );
        cat4(
            "shutdown complete: ",
            u64_text(self.agents_finished_naturally as u64).as_str(),
            " agents finished naturally, ",
            termed.as_str(),
        )
    }
}

impl Course {
    pub open spec fn says(self, stage: Stage, line: Seq<char>) -> bool {
        self matches Course::Act(s, Deed::Say { line: l }) && s == stage && l@ == line
    }

    /// Prints why the daemon cannot start, and ends.
    pub open spec fn gives_up(self, what: Seq<char>, why: Seq<char>) -> bool {
        self.says(Stage::Last { failed: true }, what + why)
    }

    fn say(stage: Stage, line: String) -> (r: Course)
        ensures
            r.says(stage, line@),
    {
        Course::Act(stage, Deed::Say { line })
    }

    fn give_up(what: &str, why: &str) -> (r: Course)
        ensures
            r.gives_up(what@, why@),
    {
        Course::Act(Stage::Last { failed: true }, Deed::Say { line: cat(what, why) })
    }

    /// Waits for the next tick.
    pub open spec fn waits(self) -> bool {
        self == Course::Act(Stage::Wait, Deed::Wait { millis: TICK_MILLIS })
    }

    fn wait() -> (r: Course)
        ensures
            r.waits(),
    {
        Course::Act(Stage::Wait, Deed::Wait { millis: TICK_MILLIS })
    }
}

/// How the daemon begins in a mode.
pub fn begin(mode: Mode) -> (c: Course)
    ensures
        c == (match mode {
            Mode::Background => Course::Act(Stage::Background, Deed::Daemonize),
            _ => Course::Act(Stage::Foreground { mode }, Deed::StayInForeground),
        }),
        c matches Course::Act(s, d) ==> forall|o: Outcome| d.answered_by(o) ==> s.accepts(o),
{
    match mode {
        Mode::Background => Course::Act(Stage::Background, Deed::Daemonize),
        _ => Course::Act(Stage::Foreground { mode }, Deed::StayInForeground),
    }
}

/// The path, or an empty one where it is not known.
pub open spec fn or_empty(r: Result<String, String>) -> Seq<char> {
    match r {
        Ok(p) => p@,
        Err(_) => ""@,
    }
}

fn path_or_empty(r: Result<String, String>) -> (p: String)
    ensures
        p@ == or_empty(r),
{
    match r {
        Ok(p) => p,
        Err(_) => "".to_owned(),
    }
}

impl Stage {
    pub open spec fn accepts(self, o: Outcome) -> bool {
        match self {
            Stage::Background | Stage::Foreground { .. } | Stage::Migrate { .. } => o is Number,
            Stage::DbPath | Stage::SocketPath { .. } | Stage::PidFilePath { .. } | Stage::TickPath
            | Stage::EndSocket | Stage::EndPidFile { .. } | Stage::EndDb { .. } => o is Path,
            Stage::Wait => o is Stop,
            Stage::Schedule => o is Work,
            Stage::EndAgents => o is Ended,
            _ => o is Done,
        }
    }

    /// A failure to start ends the daemon, but for one of the recovery. At a tick, a failure
    /// only lets the tick go by. In the end the two files are removed in any case.
    pub open spec fn follows(self, o: Outcome, c: Course) -> bool {
        match (self, o) {
            (Stage::Background, Outcome::Number(r)) => match r {
                Err(e) => c.gives_up("Failed to daemonize: "@, e@),
                Ok(pid) => c.says(
                    Stage::Last { failed: false },
                    started_line(Mode::Background, pid),
                ),
            },
            (Stage::Foreground { mode }, Outcome::Number(r)) => match r {
                Err(e) => c.gives_up("Failed to start "@ + mode.name() + ": "@, e@),
                Ok(pid) => c.says(Stage::Started, started_line(mode, pid)),
            },
            (Stage::Started, _) => c == Course::Act(Stage::DbPath, Deed::DbPath),
            (Stage::DbPath, Outcome::Path(r)) => match r {
                Err(e) => c.gives_up("Failed to resolve db path: "@, e@),
                Ok(db) => c == Course::Act(Stage::OpenFirst { db }, Deed::OpenDb { path: db }),
            },
            (Stage::OpenFirst { db }, Outcome::Done(r)) => match r {
                Err(e) => c.gives_up("Failed to open database: "@, e@),
                Ok(_) => c == Course::Act(Stage::Migrate { db }, Deed::Migrate),
            },
            (Stage::Migrate { db }, Outcome::Number(r)) => match r {
                Err(e) => c.gives_up("Failed to run migrations: "@, e@),
                Ok(version) => c.says(
                    Stage::Migrated { db },
                    "database schema at version "@ + crate::text::decimal(version as nat),
                ),
            },
            (Stage::Migrated { db }, _) => {
                c == Course::Act(Stage::SocketPath { db }, Deed::SocketPath)
            },
            (Stage::SocketPath { db }, Outcome::Path(r)) => match r {
                Err(e) => c.gives_up("Failed to resolve socket path: "@, e@),
                Ok(socket) => {
                    c == Course::Act(Stage::PidFilePath { db, socket }, Deed::PidFilePath)
                },
            },
            (Stage::PidFilePath { db, socket }, Outcome::Path(r)) => match r {
                Err(e) => c.gives_up("Failed to resolve pid file path: "@, e@),
                Ok(pid_file) => c == Course::Act(
                    Stage::OpenForRecovery { db, socket, pid_file },
                    Deed::OpenDb { path: db },
                ),
            },
            (Stage::OpenForRecovery { db, socket, pid_file }, Outcome::Done(r)) => match r {
                Err(e) => c.gives_up("Failed to open database for recovery: "@, e@),
                Ok(_) => c == Course::Act(
                    Stage::Recover { db, socket },
                    Deed::Recover { socket, pid_file },
                ),
            },
            (Stage::Recover { db, socket }, Outcome::Done(r)) => match r {
                Err(e) => c.says(
                    Stage::Warned { db, socket },
                    "Warning: crash recovery failed: "@ + e@,
                ),
                Ok(_) => c == Course::Act(Stage::Serve { socket }, Deed::Serve { socket, db }),
            },
            (Stage::Warned { db, socket }, _) => {
                c == Course::Act(Stage::Serve { socket }, Deed::Serve { socket, db })
            },
            (Stage::Serve { socket }, Outcome::Done(r)) => match r {
                Err(e) => c.gives_up("Failed to start socket server: "@, e@),
                Ok(_) => c.says(Stage::Listening, "socket server listening on "@ + socket@),
            },
            (Stage::Listening, _) => c.waits(),
            (Stage::Wait, Outcome::Stop(stop)) => if stop {
                c.says(Stage::Ending, "nflow-daemon shutting down gracefully..."@)
            } else {
                c == Course::Act(Stage::TickPath, Deed::DbPath)
            },
            (Stage::TickPath, Outcome::Path(r)) => match r {
                Err(_) => c.waits(),
                Ok(path) => c == Course::Act(Stage::TickOpen, Deed::OpenDb { path }),
            },
            (Stage::TickOpen, Outcome::Done(r)) => match r {
                Err(_) => c.waits(),
                Ok(_) => c == Course::Act(Stage::Schedule, Deed::Schedule),
            },
            (Stage::Schedule, Outcome::Work { stories, actions }) => if stories > 0 {
                c == Course::Act(Stage::Progress { actions }, Deed::Progress)
            } else if actions > 0 {
                c == Course::Act(Stage::Execute, Deed::Execute)
            } else {
                c.waits()
            },
            (Stage::Progress { actions }, _) => if actions > 0 {
                c == Course::Act(Stage::Execute, Deed::Execute)
            } else {
                c.waits()
            },
            (Stage::Execute, _) => c.waits(),
            (Stage::Ending, _) => c == Course::Act(Stage::EndSocket, Deed::SocketPath),
            (Stage::EndSocket, Outcome::Path(r)) => {
                &&& c matches Course::Act(Stage::EndPidFile { socket }, Deed::PidFilePath)
                &&& socket@ == or_empty(r)
            },
            (Stage::EndPidFile { socket }, Outcome::Path(r)) => {
                &&& c matches Course::Act(Stage::EndDb { socket: s, pid_file }, Deed::DbPath)
                &&& s == socket
                &&& pid_file@ == or_empty(r)
            },
            (Stage::EndDb { socket, pid_file }, Outcome::Path(r)) => {
                &&& c matches Course::Act(s, Deed::OpenDb { path })
                &&& s == Stage::EndOpen { socket, pid_file }
                &&& path@ == or_empty(r)
            },
            (Stage::EndOpen { socket, pid_file }, Outcome::Done(r)) => match r {
                Err(e) => c.says(
                    Stage::EndWarned { socket, pid_file },
                    "Warning: could not open database for shutdown: "@ + e@,
                ),
                Ok(_) => c == Course::Act(Stage::EndAgents, Deed::EndAgents { socket, pid_file }),
            },
            (Stage::EndAgents, Outcome::Ended(report)) => {
                c.says(Stage::Last { failed: false }, report.line())
            },
            (Stage::EndWarned { socket, pid_file }, _) => {
                c == Course::Act(Stage::RemoveFiles, Deed::RemoveFiles { socket, pid_file })
            },
            (Stage::RemoveFiles, _) => c == (Course::End { failed: false }),
            (Stage::Last { failed }, _) => c == (Course::End { failed }),
            _ => false,
        }
    }

    pub fn step(self, o: Outcome) -> (c: Course)
        requires
            self.accepts(o),
        ensures
            self.follows(o, c),
            c matches Course::Act(s, d) ==> forall|o: Outcome| d.answered_by(o) ==> s.accepts(o),
    {
        match (self, o) {
            (Stage::Background, Outcome::Number(r)) => match r {
                Err(e) => Course::give_up("Failed to daemonize: ", e.as_str()),
                Ok(pid) => Course::say(
                    Stage::Last { failed: false },
                    started(Mode::Background, pid),
                ),
            },
            (Stage::Foreground { mode }, Outcome::Number(r)) => match r {
                Err(e) => Course::give_up(
                    cat3("Failed to start ", mode.as_str(), ": ").as_str(),
                    e.as_str(),
                ),
                Ok(pid) => Course::say(Stage::Started, started(mode, pid)),
            },
            (Stage::Started, _) => Course::Act(Stage::DbPath, Deed::DbPath),
            (Stage::DbPath, Outcome::Path(r)) => match r {
                Err(e) => Course::give_up("Failed to resolve db path: ", e.as_str()),
                Ok(db) => {
                    let path = db.clone();
                    Course::Act(Stage::OpenFirst { db }, Deed::OpenDb { path })
                },
            },
            (Stage::OpenFirst { db }, Outcome::Done(r)) => match r {
                Err(e) => Course::give_up("Failed to open database: ", e.as_str()),
                Ok(_) => Course::Act(Stage::Migrate { db }, Deed::Migrate),
            },
            (Stage::Migrate { db }, Outcome::Number(r)) => match r {
                Err(e) => Course::give_up("Failed to run migrations: ", e.as_str()),
                Ok(version) => Course::say(
                    Stage::Migrated { db },
                    cat("database schema at version ", u64_text(version as u64).as_str()),
                ),
            },
            (Stage::Migrated { db }, _) => {
                Course::Act(Stage::SocketPath { db }, Deed::SocketPath)
            },
            (Stage::SocketPath { db }, Outcome::Path(r)) => match r {
                Err(e) => Course::give_up("Failed to resolve socket path: ", e.as_str()),
                Ok(socket) => Course::Act(Stage::PidFilePath { db, socket }, Deed::PidFilePath),
            },
            (Stage::PidFilePath { db, socket }, Outcome::Path(r)) => match r {
                Err(e) => Course::give_up("Failed to resolve pid file path: ", e.as_str()),
                Ok(pid_file) => {
                    let path = db.clone();
                    Course::Act(
                        Stage::OpenForRecovery { db, socket, pid_file },
                        Deed::OpenDb { path },
                    )
                },
            },
            (Stage::OpenForRecovery { db, socket, pid_file }, Outcome::Done(r)) => match r {
                Err(e) => Course::give_up("Failed to open database for recovery: ", e.as_str()),
                Ok(_) => {
                    let at = socket.clone();
                    Course::Act(
                        Stage::Recover { db, socket },
                        Deed::Recover { socket: at, pid_file },
                    )
                },
            },
            (Stage::Recover { db, socket }, Outcome::Done(r)) => match r {
                Err(e) => Course::say(
                    Stage::Warned { db, socket },
                    cat("Warning: crash recovery failed: ", e.as_str()),
                ),
                Ok(_) => serve(socket, db),
            },
            (Stage::Warned { db, socket }, _) => serve(socket, db),
            (Stage::Serve { socket }, Outcome::Done(r)) => match r {
                Err(e) => Course::give_up("Failed to start socket server: ", e.as_str()),
                Ok(_) => Course::say(
                    Stage::Listening,
                    cat("socket server listening on ", socket.as_str()),
                ),
            },
            (Stage::Listening, _) => Course::wait(),
            (Stage::Wait, Outcome::Stop(stop)) => if stop {
                Course::say(Stage::Ending, "nflow-daemon shutting down gracefully...".to_owned())
            } else {
                Course::Act(Stage::TickPath, Deed::DbPath)
            },
            (Stage::TickPath, Outcome::Path(r)) => match r {
                Err(_) => Course::wait(),
                Ok(path) => Course::Act(Stage::TickOpen, Deed::OpenDb { path }),
            },
            (Stage::TickOpen, Outcome::Done(r)) => match r {
                Err(_) => Course::wait(),
                Ok(_) => Course::Act(Stage::Schedule, Deed::Schedule),
            },
            (Stage::Schedule, Outcome::Work { stories, actions }) => if stories > 0 {
                Course::Act(Stage::Progress { actions }, Deed::Progress)
            } else if actions > 0 {
                Course::Act(Stage::Execute, Deed::Execute)
            } else {
                Course::wait()
            },
            (Stage::Progress { actions }, _) => if actions > 0 {
                Course::Act(Stage::Execute, Deed::Execute)
            } else {
                Course::wait()
            },
            (Stage::Execute, _) => Course::wait(),
            (Stage::Ending, _) => Course::Act(Stage::EndSocket, Deed::SocketPath),
            (Stage::EndSocket, Outcome::Path(r)) => Course::Act(
                Stage::EndPidFile { socket: path_or_empty(r) },
                Deed::PidFilePath,
            ),
            (Stage::EndPidFile { socket }, Outcome::Path(r)) => Course::Act(
                Stage::EndDb { socket, pid_file: path_or_empty(r) },
                Deed::DbPath,
            ),
            (Stage::EndDb { socket, pid_file }, Outcome::Path(r)) => Course::Act(
                Stage::EndOpen { socket, pid_file },
                Deed::OpenDb { path: path_or_empty(r) },
            ),
            (Stage::EndOpen { socket, pid_file }, Outcome::Done(r)) => match r {
                Err(e) => Course::say(
                    Stage::EndWarned { socket, pid_file },
                    cat("Warning: could not open database for shutdown: ", e.as_str()),
                ),
                Ok(_) => Course::Act(Stage::EndAgents, Deed::EndAgents { socket, pid_file }),
            },
            (Stage::EndAgents, Outcome::Ended(report)) => {
                Course::say(Stage::Last { failed: false }, report.to_line())
            },
            (Stage::EndWarned { socket, pid_file }, _) => {
                Course::Act(Stage::RemoveFiles, Deed::RemoveFiles { socket, pid_file })
            },
            (Stage::RemoveFiles, _) => Course::End { failed: false },
            (Stage::Last { failed }, _) => Course::End { failed },
            _ => Course::End { failed: true },
        }
    }
}

fn serve(socket: String, db: String) -> (c: Course)
    ensures
        c == Course::Act(Stage::Serve { socket }, Deed::Serve { socket, db }),
{
    let at = socket.clone();
    Course::Act(Stage::Serve { socket }, Deed::Serve { socket: at, db })
}

/// What goes wrong in the recovery does not keep the daemon from answering requests: it serves
/// at the same socket as if nothing had gone wrong.
pub proof fn law_recovery_is_not_fatal(
    db: String,
    socket: String,
    why: String,
    printed: Outcome,
    first: Course,
    second: Course,
)
    requires
        (Stage::Recover { db, socket }).follows(Outcome::Done(Err(why)), first),
        first matches Course::Act(s, _) && s.follows(printed, second),
    ensures
        first is Act,
        (Stage::Recover { db, socket }).follows(Outcome::Done(Ok(())), second),
{
}

/// No failure at a tick ends the daemon: it ends only when it is asked to.
pub proof fn law_a_tick_ends_the_daemon_only_if_asked(stage: Stage, o: Outcome, c: Course)
    requires
        stage is Wait || stage is TickPath || stage is TickOpen || stage is Schedule
            || stage is Progress || stage is Execute,
        stage.accepts(o),
        stage.follows(o, c),
    ensures
        c matches Course::Act(s, _) && (s is Ending <==> o == Outcome::Stop(true)) && !(s is Last),
{
}

/// A program that has failed has said why.
pub proof fn law_a_failure_is_told(stage: Stage, o: Outcome, c: Course)
    requires
        stage.accepts(o),
        stage.follows(o, c),
    ensures
        c == (Course::End { failed: true }) ==> stage == (Stage::Last { failed: true }),
        c matches Course::Act(s, d) ==> s is Last ==> d is Say,
{
}

} // verus!
