//! The watch-and-build engine's state: the poll configuration, the previous
//! snapshot, the log display and the build lifecycle, with the per-tick
//! decisions verified.
//!
//! The file-system walk, the poll sleep and the process control are outside
//! work: the caller walks the tree into [`crate::snapshot::FileEntry`]
//! values, builds a [`Snapshot`], and hands it to [`Watcher::tick`], which
//! finds the first changed path, classifies it, and replaces the previous
//! snapshot unconditionally.

use vstd::prelude::*;
use vstd::string::*;
use crate::buildflow::BuildManager;
use crate::display::Display;
use crate::error::Error;
use crate::snapshot::{spec_first_change, Snapshot};

verus! {

/// Whether a path falls under the secondary-build subtree.
pub open spec fn spec_is_secondary_path(path: Seq<char>) -> bool {
    exists|i: int| 0 <= i && i + 9 <= path.len() && #[trigger] path.subrange(i, i + 9)
        == "/src/web/"@
}

/// Check whether a path falls under the secondary-build subtree.
pub fn is_secondary_path(path: &String) -> (r: bool)
    ensures
        r == spec_is_secondary_path(path@),
{
    let marker = "/src/web/";
    proof {
        reveal_strlit("/src/web/");
    }
    let n = path.as_str().unicode_len();
    if n < 9 {
        return false;
    }
    let mut i: usize = 0;
    while i <= n - 9
        invariant
            n == path@.len(),
            9 <= n,
            i <= n - 9 + 1,
            marker@ == "/src/web/"@,
            marker@.len() == 9,
            forall|k: int| 0 <= k < i ==> #[trigger] path@.subrange(k, k + 9) != "/src/web/"@,
        decreases n - i,
    {
        let mut j: usize = 0;
        let mut matches_here = true;
        while j < 9
            invariant
                n == path@.len(),
                i + 9 <= n,
                j <= 9,
                marker@ == "/src/web/"@,
                marker@.len() == 9,
                matches_here == (forall|t: int| 0 <= t < j ==> #[trigger] path@[i + t] == marker@[t]),
            decreases 9 - j,
        {
            if path.as_str().get_char(i + j) != marker.get_char(j) {
                matches_here = false;
            }
            j = j + 1;
        }
        if matches_here {
            proof {
                assert forall|t: int| 0 <= t < 9 implies path@.subrange(i as int, i + 9)[t]
                    == "/src/web/"@[t] by {
                    assert(path@[i + t] == marker@[t]);
                }
                assert(path@.subrange(i as int, i + 9) =~= "/src/web/"@);
            }
            return true;
        }
        i = i + 1;
    }
    proof {
        assert forall|w: int| 0 <= w && w + 9 <= path@.len() implies #[trigger] path@.subrange(
            w,
            w + 9,
        ) != "/src/web/"@ by {
            assert(path@.subrange(w, w + 9) != "/src/web/"@);
        }
    }
    false
}

/// The first change a poll tick detected: the path that changed and
/// whether it calls for the secondary build step.
pub struct DetectedChange {
    /// The changed path.
    pub path: String,
    /// Whether the path falls under the secondary-build subtree.
    pub need_secondary_build: bool,
}

/// What `format_log_msg` produces: the timestamp and an engine banner in
/// front of the message, the banner wrapped in the escape codes that
/// render it green.
pub open spec fn spec_format_log_msg(datetime: Seq<char>, msg: Seq<char>) -> Seq<char> {
    "["@ + datetime + " \u{1b}[32mUnlimited Ammo\u{1b}[0m]: "@ + msg
}

/// Responsible for watching the project for updates.
pub struct Watcher {
    /// How fast (in seconds) to check files for updates.
    pub watch_interval: u8,
    /// The file and directory names whose subtrees are never watched.
    pub ignore_list: Vec<String>,
    /// The previous snapshot: each watched path with its last-modified
    /// timestamp.
    pub targets: Snapshot,
    /// The log display the engine and the build output write into.
    pub display: Display,
    /// The single-build-at-a-time process lifecycle.
    pub current_build_process: BuildManager,
}

impl Watcher {
    /// Check that a file or directory name is not in the ignore list.
    pub fn is_valid_target(&self, filename: &String) -> (r: bool)
        ensures
            r == !self.ignore_list@.map_values(|c: String| c@).contains(filename@),
    {
        !crate::snapshot::name_in_list(filename, &self.ignore_list)
    }

    /// Find the first entry of the current snapshot that changed against
    /// the previous one, and classify it by the secondary-build subtree.
    pub fn detect_change(&self, current: &Snapshot) -> (r: Option<DetectedChange>)
        ensures
            ({
                let fc = spec_first_change(self.targets.model(), current.model());
                match r {
                    Some(c) => fc is Some && c.path@ == (fc->0).0 && c.need_secondary_build
                        == spec_is_secondary_path(c.path@),
                    None => fc is None,
                }
            }),
    {
        let ghost prev = self.targets.model();
        let ghost cm = current.model();
        let n = current.entries.len();
        let mut i: usize = 0;
        proof {
            assert(cm.skip(0) =~= cm);
        }
        while i < n
            invariant
                prev == self.targets.model(),
                cm == current.model(),
                n == current.entries.len(),
                i <= n,
                spec_first_change(prev, cm.skip(i as int)) == spec_first_change(prev, cm),
            decreases n - i,
        {
            proof {
                assert(cm.skip(i as int).first() == cm[i as int]);
                assert(cm.skip(i as int).drop_first() =~= cm.skip(i + 1));
            }
            let entry_ts = current.entries[i].1;
            let prev_ts = self.targets.get(&current.entries[i].0);
            let changed = match prev_ts {
                Some(t) => t != entry_ts,
                None => true,
            };
            if changed {
                let path = current.entries[i].0.clone();
                let need_secondary_build = is_secondary_path(&path);
                return Some(DetectedChange { path, need_secondary_build });
            }
            i = i + 1;
        }
        proof {
            assert(cm.skip(n as int) =~= Seq::<(Seq<char>, u64)>::empty());
        }
        None
    }

    /// One poll tick's decisions: find the first changed entry of the
    /// current snapshot and classify it, then replace the previous
    /// snapshot unconditionally — one change triggers at most one rebuild
    /// per tick, and the remaining diffs vanish with the replacement.
    pub fn tick(&mut self, current: Snapshot) -> (r: Option<DetectedChange>)
        ensures
            ({
                let fc = spec_first_change(old(self).targets.model(), current.model());
                match r {
                    Some(c) => fc is Some && c.path@ == (fc->0).0 && c.need_secondary_build
                        == spec_is_secondary_path(c.path@),
                    None => fc is None,
                }
            }),
            final(self).targets == current,
            final(self).watch_interval == old(self).watch_interval,
            final(self).ignore_list == old(self).ignore_list,
            final(self).display == old(self).display,
            final(self).current_build_process == old(self).current_build_process,
    {
        let r = self.detect_change(&current);
        self.targets = current;
        r
    }

    /// Format a log message with the datetime and the engine banner.
    ///
    /// This is only for log lines the engine itself authors; the watched
    /// project's own output is forwarded unprefixed.
    pub fn format_log_msg(datetime: &str, msg: &str) -> (r: String)
        ensures
            r@ == spec_format_log_msg(datetime@, msg@),
    {
        let mut r = String::from_str("[");
        r.append(datetime);
        r.append(" \x1b[32mUnlimited Ammo\x1b[0m]: ");
        r.append(msg);
        proof {
            assert(r@ =~= spec_format_log_msg(datetime@, msg@));
        }
        r
    }

    /// Append an engine status message to the display, prefixed with the
    /// current wall-clock timestamp and the engine banner. The timestamp
    /// depends on the clock, so it is only said to exist.
    pub fn log(&mut self, msg: &str)
        ensures
            exists|datetime: Seq<char>|
                final(self).display.log_views() == old(self).display.log_views().push(
                    spec_format_log_msg(datetime, msg@),
                ),
            final(self).display.jump_to_latest,
            final(self).display.selected_visual_idx == old(self).display.selected_visual_idx,
            final(self).display.n_visual_rows == old(self).display.n_visual_rows,
            final(self).display.needs_redraw == old(self).display.needs_redraw,
            final(self).watch_interval == old(self).watch_interval,
            final(self).ignore_list == old(self).ignore_list,
            final(self).targets == old(self).targets,
            final(self).current_build_process == old(self).current_build_process,
    {
        let datetime = utc_now_rfc3339();
        let ghost dt = datetime@;
        let line = Watcher::format_log_msg(datetime.as_str(), msg);
        let ghost formatted = line@;
        self.display.add_log(line);
        proof {
            assert(self.display.log_views() =~= old(self).display.log_views().push(formatted));
        }
    }
}

/// Relies on chrono::Utc::now and chrono::DateTime::to_rfc3339_opts for
/// the current wall-clock time rendered to RFC 3339 with seconds precision
/// and a trailing Z. The value depends on the clock, so nothing is
/// promised of it. Note that chrono::Utc::now aborts if the system clock
/// reports a time before the Unix epoch — an environment condition, not
/// an input.
#[verifier::external_body]
fn utc_now_rfc3339() -> (r: String) {
    chrono::Utc::now().to_rfc3339_opts(chrono::SecondsFormat::Secs, true)
}

/// The names the watcher ignores when none are configured: well-known
/// non-source files and directories.
pub open spec fn spec_default_ignore_list() -> Seq<Seq<char>> {
    seq![
        ".git"@,
        ".gitignore"@,
        "target"@,
        "README.md"@,
        "dist"@,
        "node_modules"@,
        "tsconfig.tsbuildinfo"@,
        "tsconfig.node.tsbuildinfo"@,
    ]
}

/// Builder for `Watcher`: the watch interval, the display sink and the
/// build lifecycle handle are required — `build` fails with the
/// configuration error naming the first missing one — and the ignore list
/// has a default.
pub struct WatcherBuilder {
    /// How fast (in seconds) the file watcher should check for changes.
    pub watch_interval: Option<u8>,
    /// The files the file watcher should ignore.
    pub ignore_list: Option<Vec<String>>,
    /// The log display where messages are shown within the interface.
    pub display: Option<Display>,
    /// The build lifecycle, initially with no process recorded.
    pub current_build_process: Option<BuildManager>,
}

impl WatcherBuilder {
    /// Start building a `Watcher` with nothing configured.
    pub fn new() -> (r: WatcherBuilder)
        ensures
            r.watch_interval is None,
            r.ignore_list is None,
            r.display is None,
            r.current_build_process is None,
    {
        WatcherBuilder {
            current_build_process: None,
            watch_interval: None,
            ignore_list: None,
            display: None,
        }
    }

    /// Set the watch interval (in seconds) of how fast to poll for
    /// changes. This is required to build the `Watcher`.
    pub fn set_watch_interval(self, seconds: u8) -> (r: WatcherBuilder)
        ensures
            r.watch_interval == Some(seconds),
            r.ignore_list == self.ignore_list,
            r.display == self.display,
            r.current_build_process == self.current_build_process,
    {
        WatcherBuilder { watch_interval: Some(seconds), ..self }
    }

    /// Set the list of file and directory names for the `Watcher` to
    /// ignore. A default list applies when this is never called.
    pub fn _set_ignore_list(self, files_to_ignore: Vec<String>) -> (r: WatcherBuilder)
        ensures
            r.ignore_list == Some(files_to_ignore),
            r.watch_interval == self.watch_interval,
            r.display == self.display,
            r.current_build_process == self.current_build_process,
    {
        WatcherBuilder { ignore_list: Some(files_to_ignore), ..self }
    }

    /// Set the log display, where the log messages are displayed within
    /// the user interface. This is required to build the `Watcher`.
    pub fn set_display(self, display: Display) -> (r: WatcherBuilder)
        ensures
            r.display == Some(display),
            r.watch_interval == self.watch_interval,
            r.ignore_list == self.ignore_list,
            r.current_build_process == self.current_build_process,
    {
        WatcherBuilder { display: Some(display), ..self }
    }

    /// Set the build lifecycle for the watcher.
    ///
    /// The lifecycle is passed in rather than created here so the caller
    /// can share its lock with the interface's shutdown path.
    pub fn set_build_process(self, build_process: BuildManager) -> (r: WatcherBuilder)
        ensures
            r.current_build_process == Some(build_process),
            r.watch_interval == self.watch_interval,
            r.ignore_list == self.ignore_list,
            r.display == self.display,
    {
        WatcherBuilder { current_build_process: Some(build_process), ..self }
    }

    /// Set the default list of file and directory names for the `Watcher`
    /// to ignore.
    fn set_default_ignore_list(self) -> (r: WatcherBuilder)
        ensures
            r.ignore_list is Some,
            r.ignore_list->0@.map_values(|c: String| c@) == spec_default_ignore_list(),
            r.watch_interval == self.watch_interval,
            r.display == self.display,
            r.current_build_process == self.current_build_process,
    {
        let mut names: Vec<String> = Vec::new();
        names.push(String::from_str(".git"));
        names.push(String::from_str(".gitignore"));
        names.push(String::from_str("target"));
        names.push(String::from_str("README.md"));
        names.push(String::from_str("dist"));
        names.push(String::from_str("node_modules"));
        names.push(String::from_str("tsconfig.tsbuildinfo"));
        names.push(String::from_str("tsconfig.node.tsbuildinfo"));
        proof {
            assert(names@.map_values(|c: String| c@) =~= spec_default_ignore_list());
        }
        WatcherBuilder { ignore_list: Some(names), ..self }
    }

    /// Finish building the `Watcher`, validating the required fields in
    /// order: a missing watch interval, then a missing display, then a
    /// missing build-process handle, each fail with the configuration
    /// error naming them. The previous snapshot starts empty.
    pub fn build(self) -> (r: Result<Watcher, Error>)
        ensures
            ({
                match r {
                    Ok(w) => {
                        &&& self.watch_interval is Some
                        &&& self.display is Some
                        &&& self.current_build_process is Some
                        &&& w.watch_interval == self.watch_interval->0
                        &&& (self.ignore_list is Some ==> w.ignore_list == self.ignore_list->0)
                        &&& (self.ignore_list is None ==> w.ignore_list@.map_values(
                            |c: String| c@,
                        ) == spec_default_ignore_list())
                        &&& w.targets.model() == Seq::<(Seq<char>, u64)>::empty()
                        &&& w.targets.wf()
                        &&& w.display == self.display->0
                        &&& w.current_build_process == self.current_build_process->0
                    },
                    Err(e) => {
                        &&& e is WatchIntervalNotSet <==> self.watch_interval is None
                        &&& e is DisplayNotSet <==> (self.watch_interval is Some
                            && self.display is None)
                        &&& e is BuildProcessNotSet <==> (self.watch_interval is Some
                            && self.display is Some && self.current_build_process is None)
                        &&& (self.watch_interval is None || self.display is None
                            || self.current_build_process is None)
                    },
                }
            }),
    {
        let mut b = self;
        if b.watch_interval.is_none() {
            return Err(Error::WatchIntervalNotSet);
        }
        if b.ignore_list.is_none() {
            b = b.set_default_ignore_list();
        }
        if b.display.is_none() {
            return Err(Error::DisplayNotSet);
        }
        if b.current_build_process.is_none() {
            return Err(Error::BuildProcessNotSet);
        }
        let watch_interval = match b.watch_interval {
            Some(seconds) => seconds,
            None => 0,
        };
        let ignore_list = match b.ignore_list {
            Some(names) => names,
            None => Vec::new(),
        };
        let display = match b.display {
            Some(display) => display,
            None => Display::new(),
        };
        let current_build_process = match b.current_build_process {
            Some(manager) => manager,
            None => BuildManager::new(),
        };
        Ok(
            Watcher {
                watch_interval,
                ignore_list,
                targets: Snapshot::new(),
                display,
                current_build_process,
            },
        )
    }
}

} // verus!
