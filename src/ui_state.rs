//! The state behind the test kit's front end: which subsystems run emulated, the
//! history of windows visited, and the list of recent packet labels.

use std::collections::VecDeque;
use vstd::prelude::*;

verus! {

/// Whether a subsystem is emulated (`Auto`) or a real unit (`Manual`).
#[derive(Clone, Copy, Debug, PartialEq, Eq, Structural)]
pub enum SubsystemMode {
    Auto,
    Manual,
}

impl SubsystemMode {
    /// The other mode.
    pub fn toggled(self) -> (r: SubsystemMode)
        ensures
            r != self,
    {
        match self {
            SubsystemMode::Auto => SubsystemMode::Manual,
            SubsystemMode::Manual => SubsystemMode::Auto,
        }
    }

    /// The mode's name: "automatic" or "manual".
    pub fn name(&self) -> (r: &'static str)
        ensures
            *self == SubsystemMode::Auto ==> r@ == "automatic"@,
            *self == SubsystemMode::Manual ==> r@ == "manual"@,
    {
        match self {
            SubsystemMode::Auto => "automatic",
            SubsystemMode::Manual => "manual",
        }
    }
}

/// The modes chosen for the three subsystems on the entry window.
#[derive(Clone, Copy, Debug, PartialEq, Eq, Structural)]
pub struct EntryWindow {
    pub snc_mode: SubsystemMode,
    pub ss_mode: SubsystemMode,
    pub mdps_mode: SubsystemMode,
}

impl EntryWindow {
    /// Every subsystem emulated.
    pub fn new() -> (r: Self)
        ensures
            r.snc_mode == SubsystemMode::Auto,
            r.ss_mode == SubsystemMode::Auto,
            r.mdps_mode == SubsystemMode::Auto,
    {
        EntryWindow { snc_mode: SubsystemMode::Auto, ss_mode: SubsystemMode::Auto, mdps_mode: SubsystemMode::Auto }
    }

    pub fn toggle_snc_mode(&mut self)
        ensures
            *final(self) == (EntryWindow { snc_mode: final(self).snc_mode, ..*old(self) }),
            final(self).snc_mode != old(self).snc_mode,
    {
        self.snc_mode = self.snc_mode.toggled();
    }

    pub fn toggle_ss_mode(&mut self)
        ensures
            *final(self) == (EntryWindow { ss_mode: final(self).ss_mode, ..*old(self) }),
            final(self).ss_mode != old(self).ss_mode,
    {
        self.ss_mode = self.ss_mode.toggled();
    }

    pub fn toggle_mdps_mode(&mut self)
        ensures
            *final(self) == (EntryWindow { mdps_mode: final(self).mdps_mode, ..*old(self) }),
            final(self).mdps_mode != old(self).mdps_mode,
    {
        self.mdps_mode = self.mdps_mode.toggled();
    }

    pub fn snc_mode(&self) -> (r: SubsystemMode)
        ensures
            r == self.snc_mode,
    {
        self.snc_mode
    }

    pub fn ss_mode(&self) -> (r: SubsystemMode)
        ensures
            r == self.ss_mode,
    {
        self.ss_mode
    }

    pub fn mdps_mode(&self) -> (r: SubsystemMode)
        ensures
            r == self.mdps_mode,
    {
        self.mdps_mode
    }
}

/// A qualification test procedure's number.
#[derive(Clone, Copy, Debug, PartialEq, Eq, Structural)]
pub enum QtpNo {
    Qtp1,
    Qtp2,
    Qtp3,
    Qtp4,
    Qtp5,
}

/// A window of the front end.
#[derive(Clone, Copy, Debug, PartialEq, Eq, Structural)]
pub enum Window {
    Main,
    Navcon(QtpNo),
}

/// The windows visited, the current one first.
#[derive(Debug)]
pub struct WindowHistory {
    windows: VecDeque<Window>,
}

impl View for WindowHistory {
    type V = Seq<Window>;

    closed spec fn view(&self) -> Seq<Window> {
        self.windows@
    }
}

impl WindowHistory {
    /// No window visited yet.
    pub fn new() -> (r: Self)
        ensures
            r@ == Seq::<Window>::empty(),
    {
        WindowHistory { windows: VecDeque::new() }
    }

    /// The current window, if any.
    pub fn curr_window(&self) -> (r: Option<Window>)
        ensures
            self@.len() == 0 ==> r.is_none(),
            self@.len() > 0 ==> r == Some(self@[0]),
    {
        if self.windows.len() == 0 {
            None
        } else {
            Some(self.windows[0])
        }
    }

    /// Goes to `window`.
    pub fn push(&mut self, window: Window)
        ensures
            final(self)@ == seq![window] + old(self)@,
    {
        self.windows.push_front(window);
        assert(self@ =~= seq![window] + old(self)@);
    }

    /// Goes back one window and returns the new current window, if any.
    pub fn pop(&mut self) -> (r: Option<Window>)
        ensures
            old(self)@.len() == 0 ==> final(self)@ == old(self)@,
            old(self)@.len() > 0 ==> final(self)@ == old(self)@.drop_first(),
            final(self)@.len() == 0 ==> r.is_none(),
            final(self)@.len() > 0 ==> r == Some(final(self)@[0]),
    {
        self.windows.pop_front();
        self.curr_window()
    }
}

/// How many labels a `LabelList` keeps.
pub const LABEL_CAPACITY: usize = 20;

/// The most recent packet labels, newest first, at most `LABEL_CAPACITY` of them.
#[derive(Debug)]
pub struct LabelList {
    labels: VecDeque<String>,
}

impl View for LabelList {
    type V = Seq<Seq<char>>;

    closed spec fn view(&self) -> Seq<Seq<char>> {
        self.labels@.map_values(|s: String| s@)
    }
}

impl LabelList {
    pub open spec fn wf(&self) -> bool {
        self@.len() <= LABEL_CAPACITY
    }

    /// No labels.
    pub fn new() -> (r: Self)
        ensures
            r.wf(),
            r@ == Seq::<Seq<char>>::empty(),
    {
        let r = LabelList { labels: VecDeque::new() };
        assert(r@ =~= Seq::<Seq<char>>::empty());
        r
    }

    /// Adds `label` in front; the oldest label leaves once there are more than
    /// `LABEL_CAPACITY`.
    pub fn push(&mut self, label: &str)
        requires
            old(self).wf(),
        ensures
            final(self).wf(),
            old(self)@.len() < LABEL_CAPACITY ==> final(self)@ == seq![label@] + old(self)@,
            old(self)@.len() == LABEL_CAPACITY ==> final(self)@ == (seq![label@] + old(self)@).drop_last(),
    {
        self.labels.push_front(label.to_owned());
        if self.labels.len() > LABEL_CAPACITY {
            self.labels.pop_back();
        }
        proof {
            if old(self)@.len() < LABEL_CAPACITY {
                assert(self@ =~= seq![label@] + old(self)@);
            } else {
                assert(self@ =~= (seq![label@] + old(self)@).drop_last());
            }
        }
    }

    /// The labels, newest first.
    pub fn to_vec(&self) -> (r: Vec<String>)
        ensures
            r@.map_values(|s: String| s@) == self@,
    {
        let mut r: Vec<String> = Vec::new();
        let mut i: usize = 0;
        while i < self.labels.len()
            invariant
                i <= self.labels@.len(),
                r@.map_values(|s: String| s@) == self@.subrange(0, i as int),
            decreases self.labels@.len() - i,
        {
            let s = self.labels[i].clone();
            let ghost before = r@;
            r.push(s);
            assert(r@.map_values(|s: String| s@) =~= before.map_values(|s: String| s@).push(s@));
            i = i + 1;
            assert(r@.map_values(|s: String| s@) =~= self@.subrange(0, i as int));
        }
        assert(self@.subrange(0, i as int) =~= self@);
        r
    }
}

} // verus!
