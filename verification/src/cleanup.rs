//! `cleanup.logs`: removing old agent logs, and how an age is written.
use vstd::prelude::*;
use crate::effects::{missing_parameter, Action, Event, Next, Run};
use crate::json::{Json, JsonV};
use crate::model::FileEntry;
use crate::projects::project_dir;
use crate::protocol::Request;
use crate::text::{cat, cat3, chars_of, join, parse_u64, trim};

verus! {

// ---- durations ----

/// How many seconds a unit of time has.
pub open spec fn unit_secs(unit: char) -> Option<u64> {
    if unit == 'd' {
        Some(86400)
    } else if unit == 'h' {
        Some(3600)
    } else if unit == 'm' {
        Some(60)
    } else if unit == 's' {
        Some(1)
    } else {
        None
    }
}

fn secs_of_unit(unit: char) -> (r: Option<u64>)
    ensures
        r == unit_secs(unit),
{
    if unit == 'd' {
        Some(86400)
    } else if unit == 'h' {
        Some(3600)
    } else if unit == 'm' {
        Some(60)
    } else if unit == 's' {
        Some(1)
    } else {
        None
    }
}

/// A duration is a number and a unit; its value in seconds.
pub open spec fn duration(s: Seq<char>) -> Option<int> {
    let t = crate::text::trimmed(s);
    if t.len() == 0 {
        None
    } else {
        match (crate::text::unsigned_value(t.drop_last()), unit_secs(t.last())) {
            (Some(n), Some(unit)) => Some(n * unit),
            _ => None,
        }
    }
}

/// Whether a text can be read as a duration or be refused: its last character is a single
/// byte, and the seconds are no more than can be counted.
pub open spec fn duration_fits(s: Seq<char>) -> bool {
    let t = crate::text::trimmed(s);
    &&& t.len() > 0 ==> (t.last() as u32) < 128
    &&& duration(s) matches Some(secs) ==> secs <= u64::MAX
}

/// The last character and the text before it.
fn split_last<'a>(t: &'a str) -> (r: (&'a str, char))
    requires
        t@.len() > 0,
    ensures
        r.0@ == t@.drop_last(),
        r.1 == t@.last(),
{
    let n = t.unicode_len();
    let last = t.get_char(n - 1);
    let init = t.substring_char(0, n - 1);
    assert(init@ =~= t@.drop_last());
    (init, last)
}

/// The seconds of a duration, `None` where there are too many to count.
fn checked_secs(s: &str) -> (r: Option<Option<u64>>)
    ensures
        match r {
            Some(None) => duration(s@) is None,
            Some(Some(secs)) => duration(s@) == Some(secs as int),
            None => duration(s@) matches Some(secs) && secs > u64::MAX,
        },
{
    let t = trim(s);
    if t.is_empty() {
        return Some(None);
    }
    let (number, unit) = split_last(t);
    let n = match parse_u64(number) {
        Some(n) => n,
        None => return Some(None),
    };
    let unit = match secs_of_unit(unit) {
        Some(u) => u,
        None => return Some(None),
    };
    match n.checked_mul(unit) {
        Some(secs) => Some(Some(secs)),
        None => None,
    }
}

/// Parse a duration like "7d", "24h", "30m" into seconds.
pub fn parse_duration_secs(s: &str) -> (r: Option<u64>)
    requires
        duration_fits(s@),
    ensures
        match r {
            Some(secs) => duration(s@) == Some(secs as int),
            None => duration(s@) is None,
        },
{
    match checked_secs(s) {
        Some(r) => r,
        None => None,
    }
}

/// Whether a text can be read as a duration or be refused.
pub fn can_parse_duration(s: &str) -> (r: bool)
    ensures
        r == duration_fits(s@),
{
    let t = trim(s);
    if !t.is_empty() {
        let (_, last) = split_last(t);
        if last as u32 >= 128 {
            return false;
        }
    }
    checked_secs(s).is_some()
}

/// A duration is read back as the number of its units.
pub proof fn law_durations_read_back(n: u64, unit: char)
    requires
        unit_secs(unit) is Some,
    ensures
        duration(crate::text::decimal(n as nat).push(unit)) == Some(n * unit_secs(unit)->0),
{
    let s = crate::text::decimal(n as nat);
    crate::text::law_numerals_read_back(n as nat);
    let t = s.push(unit);
    assert(crate::text::is_digit(s[0]));
    assert(t[0] == s[0]);
    assert(!crate::text::is_space(t[0]));
    assert(!crate::text::is_space(t.last()));
    assert(crate::text::trimmed(t) == t);
    assert(t.drop_last() =~= s);
}

// ---- cleanup.logs ----

/// A `cleanup.logs` request.
pub struct CleanupJob {
    pub id: String,
    pub project_name: String,
    /// How old a log has to be, in seconds.
    pub max_age: Option<u64>,
    pub all: bool,
    pub dry_run: bool,
}

pub enum CleanupStep {
    Home,
    Exists { dir: String },
    List { dir: String },
    Remove { dir: String, files: Vec<FileEntry>, done: usize },
}

pub type LogCleanup = Run<CleanupJob, CleanupStep>;

/// Whether a file has the extension of a log.
pub open spec fn is_log_name(name: Seq<char>) -> bool {
    name.len() > 4 && name.skip(name.len() - 4) == seq!['.', 'l', 'o', 'g']
}

fn has_log_extension(name: &str) -> (r: bool)
    ensures
        r == is_log_name(name@),
{
    let v = chars_of(name);
    let n = v.len();
    if n <= 4 {
        return false;
    }
    let r = v[n - 4] == '.' && v[n - 3] == 'l' && v[n - 2] == 'o' && v[n - 1] == 'g';
    proof {
        let tail = name@.skip(name@.len() - 4);
        assert(tail[0] == name@[n - 4] && tail[1] == name@[n - 3] && tail[2] == name@[n - 2]
            && tail[3] == name@[n - 1]);
        if r {
            assert(tail =~= seq!['.', 'l', 'o', 'g']);
        }
    }
    r
}

/// Whether a log is removed: it is old enough, or all are.
pub open spec fn is_due(file: FileEntry, max_age: Option<u64>, all: bool) -> bool {
    &&& file.is_file
    &&& is_log_name(file.name@)
    &&& file.size is Some
    &&& all || match (max_age, file.age) {
        (Some(max), Some(age)) => age >= max,
        _ => false,
    }
}

fn file_due(file: &FileEntry, max_age: Option<u64>, all: bool) -> (r: bool)
    ensures
        r == is_due(*file, max_age, all),
{
    let old = match (max_age, file.age) {
        (Some(max), Some(age)) => age >= max,
        _ => false,
    };
    file.is_file && has_log_extension(file.name.as_str()) && file.size.is_some() && (all || old)
}

/// The logs that are removed.
pub open spec fn due(files: Seq<FileEntry>, max_age: Option<u64>, all: bool) -> Seq<FileEntry> {
    files.filter(|f: FileEntry| is_due(f, max_age, all))
}

fn collect_due(files: &Vec<FileEntry>, max_age: Option<u64>, all: bool) -> (r: Vec<FileEntry>)
    requires
        crate::model::total_size(files@) <= u64::MAX,
    ensures
        r@ == due(files@, max_age, all),
        crate::model::total_size(r@) <= u64::MAX,
{
    let ghost keep = |f: FileEntry| is_due(f, max_age, all);
    let mut out: Vec<FileEntry> = Vec::new();
    let mut i: usize = 0;
    proof {
        crate::seqs::filter_none(files@, keep);
    }
    while i < files.len()
        invariant
            i <= files@.len(),
            keep == (|f: FileEntry| is_due(f, max_age, all)),
            out@ == files@.take(i as int).filter(keep),
        decreases files.len() - i,
    {
        proof {
            crate::seqs::filter_step(files@, i as int, keep);
        }
        let f = &files[i];
        if file_due(f, max_age, all) {
            out.push(f.copy());
        }
        i += 1;
    }
    assert(files@.take(i as int) =~= files@);
    proof {
        law_no_more_is_freed_than_there_is(files@, max_age, all);
    }
    out
}

/// What is removed occupies no more than what there is.
pub proof fn law_no_more_is_freed_than_there_is(
    files: Seq<FileEntry>,
    max_age: Option<u64>,
    all: bool,
)
    ensures
        crate::model::total_size(due(files, max_age, all)) <= crate::model::total_size(files),
    decreases files.len(),
{
    let keep = |f: FileEntry| is_due(f, max_age, all);
    if files.len() == 0 {
        crate::seqs::filter_none(files, keep);
        assert(files.take(0) =~= files);
    } else {
        let last = files.len() - 1;
        law_no_more_is_freed_than_there_is(files.drop_last(), max_age, all);
        crate::seqs::filter_step(files, last, keep);
        assert(files.take(last + 1) =~= files);
        assert(files.take(last) =~= files.drop_last());
        let before = due(files.drop_last(), max_age, all);
        assert(before.push(files.last()).drop_last() =~= before);
    }
}

/// How a removed log is told.
pub open spec fn file_entry(f: FileEntry) -> JsonV {
    JsonV::object().with("path"@, JsonV::Str(f.name@)).with("size"@, JsonV::Int(f.bytes() as int))
}

/// The data that answers a `cleanup.logs`.
pub open spec fn cleaned(project: Seq<char>, files: Seq<FileEntry>, dry_run: bool) -> JsonV {
    JsonV::object().with("project"@, JsonV::Str(project)).with(
        "files"@,
        JsonV::Arr(files.map_values(|f: FileEntry| file_entry(f))),
    ).with("count"@, JsonV::Int(files.len() as int)).with(
        "total_size"@,
        JsonV::Int(crate::model::total_size(files) as int),
    ).with("dry_run"@, JsonV::Bool(dry_run))
}

proof fn total_grows(files: Seq<FileEntry>, i: int)
    requires
        0 <= i <= files.len(),
    ensures
        crate::model::total_size(files.take(i)) <= crate::model::total_size(files),
    decreases files.len() - i,
{
    if i < files.len() {
        total_grows(files, i + 1);
        assert(files.take(i + 1).drop_last() =~= files.take(i));
    } else {
        assert(files.take(i) =~= files);
    }
}

fn cleanup_reply(job: CleanupJob, files: Vec<FileEntry>) -> (n: Next<LogCleanup>)
    requires
        crate::model::total_size(files@) <= u64::MAX,
    ensures
        n.replies(job.id, cleaned(job.project_name@, files@, job.dry_run)),
{
    let ghost node = |f: FileEntry| file_entry(f);
    let mut out: Vec<Json> = Vec::new();
    let mut total: u64 = 0;
    let mut i: usize = 0;
    while i < files.len()
        invariant
            i <= files@.len(),
            node == (|f: FileEntry| file_entry(f)),
            crate::json::json_views(out@) == files@.take(i as int).map_values(node),
            total == crate::model::total_size(files@.take(i as int)),
            crate::model::total_size(files@) <= u64::MAX,
        decreases files.len() - i,
    {
        let f = &files[i];
        let size: u64 = match f.size {
            Some(n) => n,
            None => 0,
        };
        let ghost before = crate::json::json_views(out@);
        let entry = Json::object().with("path", Json::Str(f.name.clone())).with(
            "size",
            Json::U64(size),
        );
        let ghost shown = entry@;
        out.push(entry);
        proof {
            assert(crate::json::json_views(out@) =~= before.push(shown));
            assert(files@.take(i + 1) =~= files@.take(i as int).push(*f));
            crate::seqs::map_push(files@.take(i as int), *f, node);
            assert(files@.take(i + 1).drop_last() =~= files@.take(i as int));
            total_grows(files@, i + 1);
        }
        total = total + size;
        i += 1;
    }
    assert(files@.take(i as int) =~= files@);
    Next::reply(
        job.id,
        Json::object().with("project", Json::Str(job.project_name)).with(
            "files",
            Json::array(out),
        ).with("count", Json::U64(files.len() as u64)).with("total_size", Json::U64(total)).with(
            "dry_run",
            Json::Bool(job.dry_run),
        ),
    )
}

/// Whether a `cleanup.logs` request is taken: the age that it names, if it comes to that, can
/// be read or refused.
pub open spec fn is_taken(p: JsonV) -> bool {
    p.text_field("project"@) is Some ==> match p.text_field("older_than"@) {
        Some(t) => duration_fits(t),
        None => true,
    }
}

/// Whether a `cleanup.logs` request is taken.
pub fn can_take(p: &Json) -> (r: bool)
    ensures
        r == is_taken(p@),
{
    if p.str_field("project").is_none() {
        return true;
    }
    match p.str_field("older_than") {
        Some(t) => can_parse_duration(t.as_str()),
        None => true,
    }
}

impl Run<CleanupJob, CleanupStep> {
    pub open spec fn accepts(self, ev: Event) -> bool {
        match self.at {
            CleanupStep::Home => ev is Text,
            CleanupStep::Exists { .. } => ev is Flag,
            CleanupStep::List { .. } => ev matches Event::Files(r) && (r matches Ok(files)
                ==> crate::model::total_size(files@) <= u64::MAX),
            CleanupStep::Remove { files, done, .. } => ev is Done && done < files.len()
                && crate::model::total_size(files@) <= u64::MAX,
        }
    }

    pub open spec fn begins(req: Request, n: Next<LogCleanup>) -> bool {
        let p = req.params@;
        let all = p.truth_field("all"@) == Some(true);
        match p.text_field("project"@) {
            None => n.fails(req.id, crate::effects::missing_message("project"@)),
            Some(name) => match p.text_field("older_than"@) {
                None => if all {
                    LogCleanup::sets_out(req, name, None, n)
                } else {
                    n.fails(
                        req.id,
                        "INVALID_PARAMS: must specify either 'older_than' or 'all'"@,
                    )
                },
                Some(t) => match duration(t) {
                    None => n.fails(
                        req.id,
                        "INVALID_PARAMS: invalid duration '"@ + t
                            + "'. Use format like '7d', '24h', '30m'"@,
                    ),
                    Some(secs) => LogCleanup::sets_out(req, name, Some(secs), n),
                },
            },
        }
    }

    /// Asks where the logs are.
    pub open spec fn sets_out(
        req: Request,
        name: Seq<char>,
        max_age: Option<int>,
        n: Next<LogCleanup>,
    ) -> bool {
        &&& n matches Next::Act(s, a)
        &&& n.goes(s.job, CleanupStep::Home, Action::NflowHome)
        &&& s.job.id == req.id
        &&& s.job.project_name@ == name
        &&& match (s.job.max_age, max_age) {
            (Some(a), Some(b)) => a == b,
            (None, None) => true,
            _ => false,
        }
        &&& s.job.all == (req.params@.truth_field("all"@) == Some(true))
        &&& s.job.dry_run == (req.params@.truth_field("dry_run"@) == Some(true))
    }

    pub fn start(req: Request) -> (n: Next<LogCleanup>)
        requires
            is_taken(req.params@),
        ensures
            LogCleanup::begins(req, n),
            n matches Next::Act(s, a) ==> forall|e: Event| a.answered_by(e) ==> s.accepts(e),
    {
        let project_name = match req.params.str_field("project") {
            Some(v) => v,
            None => return missing_parameter(req.id, "project"),
        };
        let older_than = req.params.str_field("older_than");
        let all = match req.params.bool_field("all") {
            Some(b) => b,
            None => false,
        };
        let dry_run = match req.params.bool_field("dry_run") {
            Some(b) => b,
            None => false,
        };
        if !all && older_than.is_none() {
            return Next::fail(
                req.id,
                "INVALID_PARAMS: must specify either 'older_than' or 'all'",
            );
        }
        let max_age = match &older_than {
            Some(t) => match parse_duration_secs(t.as_str()) {
                Some(secs) => Some(secs),
                None => return Next::fail(
                    req.id,
                    cat3(
                        "INVALID_PARAMS: invalid duration '",
                        t.as_str(),
                        "'. Use format like '7d', '24h', '30m'",
                    ).as_str(),
                ),
            },
            None => None,
        };
        Next::go(
            CleanupJob { id: req.id, project_name, max_age, all, dry_run },
            CleanupStep::Home,
            Action::NflowHome,
        )
    }

    /// Removes the log at `done`, or answers after the last one.
    pub open spec fn removes(
        job: CleanupJob,
        dir: String,
        files: Seq<FileEntry>,
        done: int,
        n: Next<LogCleanup>,
    ) -> bool {
        if done < files.len() {
            &&& n matches Next::Act(s, Action::RemoveFile { path })
            &&& path@ == crate::text::joined(dir@, files[done].name@)
            &&& s.job == job
            &&& s.at matches CleanupStep::Remove { dir: d, files: f, done: i }
            &&& d == dir && f@ == files && i == done
        } else {
            n.replies(job.id, cleaned(job.project_name@, files, job.dry_run))
        }
    }

    pub open spec fn follows(self, ev: Event, n: Next<LogCleanup>) -> bool {
        let job = self.job;
        match (self.at, ev) {
            (CleanupStep::Home, Event::Text(r)) => match r {
                Err(e) => n.fails(job.id, "failed to resolve nflow home: "@ + e@),
                Ok(home) => {
                    &&& n matches Next::Act(s, Action::PathExists { path })
                    &&& path@ == crate::text::joined(
                        crate::projects::project_dir_path(home@, job.project_name@),
                        "agent-logs"@,
                    )
                    &&& s == Run { job, at: CleanupStep::Exists { dir: path } }
                },
            },
            (CleanupStep::Exists { dir }, Event::Flag(r)) => if r == Ok::<bool, String>(true) {
                n.goes(job, CleanupStep::List { dir }, Action::ListFiles { dir })
            } else {
                n.replies(job.id, cleaned(job.project_name@, Seq::empty(), job.dry_run))
            },
            (CleanupStep::List { dir }, Event::Files(r)) => match r {
                Err(e) => n.fails(job.id, "failed to read logs directory: "@ + e@),
                Ok(files) => {
                    let chosen = due(files@, job.max_age, job.all);
                    if job.dry_run {
                        n.replies(job.id, cleaned(job.project_name@, chosen, true))
                    } else {
                        LogCleanup::removes(job, dir, chosen, 0, n)
                    }
                },
            },
            (CleanupStep::Remove { dir, files, done }, Event::Done(_)) => LogCleanup::removes(
                job,
                dir,
                files@,
                done + 1,
                n,
            ),
            _ => false,
        }
    }

    pub fn step(self, ev: Event) -> (n: Next<LogCleanup>)
        requires
            self.accepts(ev),
        ensures
            self.follows(ev, n),
            n matches Next::Act(s, a) ==> forall|e: Event| a.answered_by(e) ==> s.accepts(e),
    {
        let Run { job, at } = self;
        match (at, ev) {
            (CleanupStep::Home, Event::Text(r)) => match r {
                Err(e) => Next::fail(
                    job.id,
                    cat("failed to resolve nflow home: ", e.as_str()).as_str(),
                ),
                Ok(home) => {
                    let dir = join(
                        project_dir(home.as_str(), job.project_name.as_str()).as_str(),
                        "agent-logs",
                    );
                    let path = dir.clone();
                    Next::go(job, CleanupStep::Exists { dir }, Action::PathExists { path })
                },
            },
            (CleanupStep::Exists { dir }, Event::Flag(r)) => match r {
                Ok(true) => {
                    let asked = dir.clone();
                    Next::go(job, CleanupStep::List { dir }, Action::ListFiles { dir: asked })
                },
                _ => {
                    let files: Vec<FileEntry> = Vec::new();
                    assert(files@ =~= Seq::<FileEntry>::empty());
                    cleanup_reply(job, files)
                },
            },
            (CleanupStep::List { dir }, Event::Files(r)) => match r {
                Err(e) => Next::fail(
                    job.id,
                    cat("failed to read logs directory: ", e.as_str()).as_str(),
                ),
                Ok(files) => {
                    let chosen = collect_due(&files, job.max_age, job.all);
                    if job.dry_run {
                        cleanup_reply(job, chosen)
                    } else {
                        remove_next(job, dir, chosen, 0)
                    }
                },
            },
            (CleanupStep::Remove { dir, files, done }, Event::Done(_)) => {
                remove_next(job, dir, files, done + 1)
            },
            _ => Next::End,
        }
    }
}

fn remove_next(
    job: CleanupJob,
    dir: String,
    files: Vec<FileEntry>,
    done: usize,
) -> (n: Next<LogCleanup>)
    requires
        crate::model::total_size(files@) <= u64::MAX,
    ensures
        LogCleanup::removes(job, dir, files@, done as int, n),
        n matches Next::Act(s, a) ==> forall|e: Event| a.answered_by(e) ==> s.accepts(e),
{
    if done < files.len() {
        let path = join(dir.as_str(), files[done].name.as_str());
        Next::go(job, CleanupStep::Remove { dir, files, done }, Action::RemoveFile { path })
    } else {
        cleanup_reply(job, files)
    }
}

/// A dry run removes nothing and tells what a real one would remove.
pub proof fn law_a_dry_run_removes_nothing(
    job: CleanupJob,
    dir: String,
    files: Vec<FileEntry>,
    n: Next<LogCleanup>,
)
    requires
        job.dry_run,
        (Run { job, at: CleanupStep::List { dir } }).follows(Event::Files(Ok(files)), n),
    ensures
        n.replies(
            job.id,
            cleaned(job.project_name@, due(files@, job.max_age, job.all), true),
        ),
{
}

} // verus!
