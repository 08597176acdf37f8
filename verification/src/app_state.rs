//! Process-wide GUI state: the runtime snapshot shown by the tray, the
//! config-path override, and two latches (shutdown, pending settings).

use vstd::prelude::*;

verus! {

/// The runtime facts the tray shows: active profile, on-screen file name,
/// and whether the slideshow is paused.
#[derive(Debug)]
pub struct RuntimeSnapshot {
    pub active_profile: Option<String>,
    pub current_filename: Option<String>,
    pub paused: bool,
}

impl RuntimeSnapshot {
    /// The empty snapshot: no profile, no file, not paused.
    pub fn empty() -> (s: RuntimeSnapshot)
        ensures
            s.active_profile is None,
            s.current_filename is None,
            !s.paused,
    {
        RuntimeSnapshot { active_profile: None, current_filename: None, paused: false }
    }

    /// A copy of this snapshot.
    pub fn duplicate(&self) -> (s: RuntimeSnapshot)
        ensures
            s == *self,
    {
        RuntimeSnapshot {
            active_profile: match &self.active_profile {
                Some(p) => Some(p.clone()),
                None => None,
            },
            current_filename: match &self.current_filename {
                Some(f) => Some(f.clone()),
                None => None,
            },
            paused: self.paused,
        }
    }
}

/// GUI application state.
#[derive(Debug)]
pub struct AppState {
    last_runtime: Option<RuntimeSnapshot>,
    config_path: Option<String>,
    shutdown: bool,
    pending_open_settings: bool,
}

impl AppState {
    /// The most recent snapshot stored, if any.
    pub closed spec fn stored_snapshot(&self) -> Option<RuntimeSnapshot> {
        self.last_runtime
    }

    /// The config-path override, if any.
    pub closed spec fn spec_config_path(&self) -> Option<String> {
        self.config_path
    }

    /// Whether shutdown was requested.
    pub closed spec fn spec_shutting_down(&self) -> bool {
        self.shutdown
    }

    /// Whether a settings-open request is waiting to be drained.
    pub closed spec fn spec_pending(&self) -> bool {
        self.pending_open_settings
    }

    /// Fresh state: no snapshot, no override, no latches set.
    pub fn new() -> (s: AppState)
        ensures
            s.stored_snapshot() is None,
            s.spec_config_path() is None,
            !s.spec_shutting_down(),
            !s.spec_pending(),
    {
        AppState {
            last_runtime: None,
            config_path: None,
            shutdown: false,
            pending_open_settings: false,
        }
    }

    /// State with an explicit config-path override.
    pub fn with_config_path(path: Option<String>) -> (s: AppState)
        ensures
            s.stored_snapshot() is None,
            s.spec_config_path() == path,
            !s.spec_shutting_down(),
            !s.spec_pending(),
    {
        AppState {
            last_runtime: None,
            config_path: path,
            shutdown: false,
            pending_open_settings: false,
        }
    }

    /// The config-path override, if any.
    pub fn config_path(&self) -> (p: Option<String>)
        ensures
            p == self.spec_config_path(),
    {
        match &self.config_path {
            Some(p) => Some(p.clone()),
            None => None,
        }
    }

    /// The last stored snapshot, or the empty one until a snapshot is set.
    pub fn snapshot(&self) -> (s: RuntimeSnapshot)
        ensures
            match self.stored_snapshot() {
                Some(t) => s == t,
                None => s.active_profile is None && s.current_filename is None && !s.paused,
            },
    {
        match &self.last_runtime {
            Some(s) => s.duplicate(),
            None => RuntimeSnapshot::empty(),
        }
    }

    /// Store a new snapshot.
    pub fn set_snapshot(&mut self, snap: RuntimeSnapshot)
        ensures
            final(self).stored_snapshot() == Some(snap),
            final(self).spec_config_path() == old(self).spec_config_path(),
            final(self).spec_shutting_down() == old(self).spec_shutting_down(),
            final(self).spec_pending() == old(self).spec_pending(),
    {
        self.last_runtime = Some(snap);
    }

    /// Ask background workers to stop. Idempotent.
    pub fn request_shutdown(&mut self)
        ensures
            final(self).spec_shutting_down(),
            final(self).stored_snapshot() == old(self).stored_snapshot(),
            final(self).spec_config_path() == old(self).spec_config_path(),
            final(self).spec_pending() == old(self).spec_pending(),
    {
        self.shutdown = true;
    }

    /// Whether shutdown was requested.
    pub fn shutting_down(&self) -> (r: bool)
        ensures
            r == self.spec_shutting_down(),
    {
        self.shutdown
    }

    /// Stage a request to open the settings panel on the next page load.
    pub fn set_pending_open_settings(&mut self)
        ensures
            final(self).spec_pending(),
            final(self).stored_snapshot() == old(self).stored_snapshot(),
            final(self).spec_config_path() == old(self).spec_config_path(),
            final(self).spec_shutting_down() == old(self).spec_shutting_down(),
    {
        self.pending_open_settings = true;
    }

    /// Read and clear the pending-settings flag.
    pub fn take_pending_open_settings(&mut self) -> (r: bool)
        ensures
            r == old(self).spec_pending(),
            !final(self).spec_pending(),
            final(self).stored_snapshot() == old(self).stored_snapshot(),
            final(self).spec_config_path() == old(self).spec_config_path(),
            final(self).spec_shutting_down() == old(self).spec_shutting_down(),
    {
        let r = self.pending_open_settings;
        self.pending_open_settings = false;
        r
    }
}

} // verus!
