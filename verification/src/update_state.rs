//! The state of a system update as the panel shows it: versions, change log, size and
//! what is being done.
use vstd::prelude::*;

verus! {

/// How far an operation has come: `done` of `total`, which is at least one.
#[derive(Debug, Clone, Copy, PartialEq, Eq, Structural)]
pub struct Progress {
    pub done: u64,
    pub total: u64,
}

impl Progress {
    /// The fraction lies between nothing and all.
    pub open spec fn wf(self) -> bool {
        self.total > 0 && self.done <= self.total
    }

    /// Nothing done yet.
    pub fn zero() -> (r: Self)
        ensures
            r.wf(),
            r == (Progress { done: 0, total: 1 }),
    {
        Progress { done: 0, total: 1 }
    }

    /// All done.
    pub fn full() -> (r: Self)
        ensures
            r.wf(),
            r == (Progress { done: 1, total: 1 }),
    {
        Progress { done: 1, total: 1 }
    }

    /// `done` of `total`, held to at most all; an unknown or empty total counts as nothing
    /// done.
    pub fn of(done: u64, total: Option<u64>) -> (r: Self)
        ensures
            r.wf(),
            r == progress_of(done, total),
    {
        match total {
            None => Progress::zero(),
            Some(t) => if t == 0 {
                Progress::zero()
            } else if done >= t {
                Progress { done: t, total: t }
            } else {
                Progress { done, total: t }
            },
        }
    }
}

/// `done` of `total`, held to at most all; an unknown or empty total counts as nothing done.
pub open spec fn progress_of(done: u64, total: Option<u64>) -> Progress {
    match total {
        None => Progress { done: 0, total: 1 },
        Some(t) => if t == 0 {
            Progress { done: 0, total: 1 }
        } else if done >= t {
            Progress { done: t, total: t }
        } else {
            Progress { done, total: t }
        },
    }
}

/// What the update machinery is doing.
#[derive(Debug, Clone, Copy, PartialEq, Eq, Structural)]
pub enum UpdateActivity {
    Idle,
    Checking,
    Checked,
    Downloading { progress: Progress },
    Downloaded,
    Installing { progress: Progress },
    Installed,
}

impl Default for UpdateActivity {
    fn default() -> (r: Self)
        ensures
            r == UpdateActivity::Idle,
    {
        UpdateActivity::Idle
    }
}

/// Every progress an activity carries lies between nothing and all.
pub open spec fn activity_wf(a: UpdateActivity) -> bool {
    match a {
        UpdateActivity::Downloading { progress } => progress.wf(),
        UpdateActivity::Installing { progress } => progress.wf(),
        _ => true,
    }
}

/// The data of an update.
pub struct UpdateStateData {
    pub current_version: String,
    pub available_version: String,
    pub changelog: String,
    pub download_size_bytes: u64,
    pub activity: UpdateActivity,
}

/// The panel's object for the state of an update.
pub type UpdateState = UpdateStateData;

/// An update state as a mathematical value.
pub struct UpdateStateV {
    pub current_version: Seq<char>,
    pub available_version: Seq<char>,
    pub changelog: Seq<char>,
    pub download_size_bytes: u64,
    pub activity: UpdateActivity,
}

impl View for UpdateStateData {
    type V = UpdateStateV;

    open spec fn view(&self) -> UpdateStateV {
        UpdateStateV {
            current_version: self.current_version@,
            available_version: self.available_version@,
            changelog: self.changelog@,
            download_size_bytes: self.download_size_bytes,
            activity: self.activity,
        }
    }
}

/// A check has ended: the machinery is neither idle nor checking.
pub open spec fn is_checked_spec(s: UpdateStateV) -> bool {
    !(s.activity == UpdateActivity::Idle || s.activity == UpdateActivity::Checking)
}

impl UpdateStateData {
    /// A state with nothing known yet.
    pub fn new() -> (r: Self)
        ensures
            r@ == (UpdateStateV {
                current_version: Seq::empty(),
                available_version: Seq::empty(),
                changelog: Seq::empty(),
                download_size_bytes: 0,
                activity: UpdateActivity::Idle,
            }),
    {
        let r = UpdateStateData {
            current_version: String::new(),
            available_version: String::new(),
            changelog: String::new(),
            download_size_bytes: 0,
            activity: UpdateActivity::Idle,
        };
        assert(r@.current_version =~= Seq::<char>::empty());
        assert(r@.available_version =~= Seq::<char>::empty());
        assert(r@.changelog =~= Seq::<char>::empty());
        r
    }

    /// A check has ended.
    pub fn is_checked(&self) -> (r: bool)
        ensures
            r == is_checked_spec(self@),
    {
        match self.activity {
            UpdateActivity::Idle | UpdateActivity::Checking => false,
            _ => true,
        }
    }

    /// A newer version than the one installed was found.
    pub fn update_available(&self) -> (r: bool)
        ensures
            r == (self@.available_version.len() > 0),
    {
        !self.available_version.as_str().is_empty()
    }
}

} // verus!
