//! The windows of the process, by label.
//!
//! A window is created once and lives until the process exits. Closing it
//! only hides it, and opening it again shows the same window, so a label
//! never names two windows.

use vstd::prelude::*;
use vstd::string::StringExecFns;
use crate::command::{vital, OnFailure, Step, WindowCommand};
use crate::platform::Platform;
use crate::request::{
    config_for, name_script, window_config, window_name_script, WindowConfig, WindowOpenRequest,
};
use crate::style::{apply_initial_style, style_outcome, style_steps, StyleOutcome, StylePlan};

verus! {

/// What the shell does for a request to open a window.
#[derive(Debug, PartialEq, Eq)]
pub enum OpenPlan {
    /// The window exists: bring it back. Nothing is created.
    Focus { steps: Vec<Step> },
    /// The window does not exist: create it from `config`, run `script` in
    /// it, then style it. A failure of any of the three abandons the
    /// operation.
    Create { config: WindowConfig, script: String, style: StylePlan },
}

/// What the shell does when the user asks to close a window.
#[derive(Debug, PartialEq, Eq)]
pub struct ClosePlan {
    pub steps: Vec<Step>,
    /// Whether the default closing, which would destroy the window, is
    /// called off.
    pub prevent_close: bool,
}

/// The steps that bring an existing window back: out of the task bar, onto
/// the screen, into focus. A window that cannot be shown is unusable, so
/// each failure aborts.
pub open spec fn focus_steps() -> Seq<Step> {
    seq![
        vital(WindowCommand::Unminimize),
        vital(WindowCommand::Show),
        vital(WindowCommand::SetFocus),
    ]
}

/// The steps that answer a request to close: the window is hidden.
pub open spec fn close_steps() -> Seq<Step> {
    seq![vital(WindowCommand::Hide)]
}

/// Whether opening `label` creates a window: it does where none with that
/// label exists, and only there.
pub open spec fn creates_window(windows: Map<Seq<char>, bool>, label: Seq<char>) -> bool {
    !windows.contains_key(label)
}

/// The windows after `label` was opened: it exists and is shown.
pub open spec fn after_open(windows: Map<Seq<char>, bool>, label: Seq<char>) -> Map<
    Seq<char>,
    bool,
> {
    windows.insert(label, true)
}

/// The windows after the user asked to close `label`: it exists and is
/// hidden.
pub open spec fn after_close(windows: Map<Seq<char>, bool>, label: Seq<char>) -> Map<
    Seq<char>,
    bool,
> {
    windows.insert(label, false)
}

/// The windows after a window that the host created by itself was taken
/// over: a label that is new is entered as shown, a known one is left as
/// it is.
pub open spec fn after_adopt(windows: Map<Seq<char>, bool>, label: Seq<char>) -> Map<
    Seq<char>,
    bool,
> {
    if windows.contains_key(label) {
        windows
    } else {
        windows.insert(label, true)
    }
}

/// One window of the registry.
#[derive(Debug)]
struct WindowRecord {
    label: String,
    visible: bool,
}

/// The windows that the shell has created or taken over, each with its
/// visibility flag. Its view maps each label to that flag.
#[derive(Debug)]
pub struct WindowRegistry {
    records: Vec<WindowRecord>,
}

/// No label occurs twice among `records`.
spec fn labels_distinct(records: Seq<WindowRecord>) -> bool {
    forall|i: int, j: int|
        0 <= i < records.len() && 0 <= j < records.len() && i != j
            ==> (#[trigger] records[i]).label@ != (#[trigger] records[j]).label@
}

/// The map from label to visibility flag that `records` stand for.
spec fn records_map(records: Seq<WindowRecord>) -> Map<Seq<char>, bool>
    decreases records.len(),
{
    if records.len() == 0 {
        Map::empty()
    } else {
        records_map(records.drop_last()).insert(records.last().label@, records.last().visible)
    }
}

/// Dropping the last record keeps the labels distinct.
proof fn lemma_front_distinct(records: Seq<WindowRecord>)
    requires
        labels_distinct(records),
        records.len() > 0,
    ensures
        labels_distinct(records.drop_last()),
{
    let front = records.drop_last();
    assert forall|a: int, b: int| 0 <= a < front.len() && 0 <= b < front.len() && a != b implies (
    #[trigger] front[a]).label@ != (#[trigger] front[b]).label@ by {
        assert(records[a].label@ != records[b].label@);
    }
}

/// A label is in the map exactly when some record carries it.
proof fn lemma_records_map_dom(records: Seq<WindowRecord>, label: Seq<char>)
    ensures
        records_map(records).contains_key(label) <==> exists|i: int|
            0 <= i < records.len() && (#[trigger] records[i]).label@ == label,
    decreases records.len(),
{
    if records.len() > 0 {
        let front = records.drop_last();
        lemma_records_map_dom(front, label);
        if records_map(records).contains_key(label) {
            if records.last().label@ == label {
                assert(records[records.len() - 1].label@ == label);
            } else {
                let i = choose|i: int| 0 <= i < front.len() && (#[trigger] front[i]).label@ == label;
                assert(records[i].label@ == label);
            }
        }
        if exists|i: int| 0 <= i < records.len() && (#[trigger] records[i]).label@ == label {
            let i = choose|i: int| 0 <= i < records.len() && (#[trigger] records[i]).label@ == label;
            if i < front.len() {
                assert(front[i].label@ == label);
            }
        }
    }
}

/// With distinct labels, the map holds each record's own flag.
proof fn lemma_records_map_value(records: Seq<WindowRecord>, i: int)
    requires
        labels_distinct(records),
        0 <= i < records.len(),
    ensures
        records_map(records).contains_key(records[i].label@),
        records_map(records)[records[i].label@] == records[i].visible,
    decreases records.len(),
{
    let front = records.drop_last();
    if i < records.len() - 1 {
        lemma_front_distinct(records);
        lemma_records_map_value(front, i);
        assert(front[i] == records[i]);
        assert(records[i].label@ != records[records.len() - 1].label@);
    }
}

/// The map of a registry is finite, and with distinct labels it has one
/// entry for each record.
proof fn lemma_records_map_len(records: Seq<WindowRecord>)
    ensures
        records_map(records).dom().finite(),
        labels_distinct(records) ==> records_map(records).dom().len() == records.len(),
    decreases records.len(),
{
    if records.len() > 0 {
        let front = records.drop_last();
        lemma_records_map_len(front);
        let last = records.last();
        assert(records_map(records).dom() =~= records_map(front).dom().insert(last.label@));
        if labels_distinct(records) {
            lemma_front_distinct(records);
            lemma_records_map_dom(front, last.label@);
            if records_map(front).contains_key(last.label@) {
                let i = choose|i: int| 0 <= i < front.len() && (#[trigger] front[i]).label@ == last.label@;
                assert(records[i].label@ == records[records.len() - 1].label@);
            }
        }
    } else {
        assert(records_map(records).dom() =~= Set::<Seq<char>>::empty());
    }
}

/// Replacing the flag of one record changes that label's entry and no
/// other.
proof fn lemma_records_map_update(records: Seq<WindowRecord>, i: int, record: WindowRecord)
    requires
        labels_distinct(records),
        0 <= i < records.len(),
        record.label@ == records[i].label@,
    ensures
        labels_distinct(records.update(i, record)),
        records_map(records.update(i, record)) == records_map(records).insert(
            record.label@,
            record.visible,
        ),
    decreases records.len(),
{
    let updated = records.update(i, record);
    assert forall|a: int, b: int|
        0 <= a < updated.len() && 0 <= b < updated.len() && a != b implies (
    #[trigger] updated[a]).label@ != (#[trigger] updated[b]).label@ by {
        assert(records[a].label@ != records[b].label@);
    }
    let front = records.drop_last();
    let last = records.last();
    if i == records.len() - 1 {
        assert(updated.drop_last() =~= front);
        assert(records_map(updated) =~= records_map(records).insert(
            record.label@,
            record.visible,
        ));
    } else {
        lemma_front_distinct(records);
        lemma_records_map_update(front, i, record);
        assert(updated.drop_last() =~= front.update(i, record));
        assert(updated.last() == last);
        assert(records[i].label@ != records[records.len() - 1].label@);
        assert(records_map(updated) =~= records_map(records).insert(
            record.label@,
            record.visible,
        ));
    }
}

impl View for WindowRegistry {
    type V = Map<Seq<char>, bool>;

    closed spec fn view(&self) -> Map<Seq<char>, bool> {
        records_map(self.records@)
    }
}

impl WindowRegistry {
    #[verifier::type_invariant]
    spec fn well_formed(self) -> bool {
        labels_distinct(self.records@)
    }

    /// A registry without windows.
    pub fn new() -> (registry: Self)
        ensures
            registry@ == Map::<Seq<char>, bool>::empty(),
    {
        WindowRegistry { records: Vec::new() }
    }

    /// Where the record of `label` stands, if there is one.
    fn position(&self, label: &str) -> (found: Option<usize>)
        ensures
            match found {
                Some(i) => i < self.records@.len() && self.records@[i as int].label@ == label@,
                None => !self@.contains_key(label@),
            },
    {
        let wanted = String::from_str(label);
        let mut i: usize = 0;
        while i < self.records.len()
            invariant
                i <= self.records@.len(),
                wanted@ == label@,
                forall|j: int| 0 <= j < i ==> (#[trigger] self.records@[j]).label@ != label@,
            decreases self.records@.len() - i,
        {
            if self.records[i].label == wanted {
                return Some(i);
            }
            i = i + 1;
        }
        proof {
            lemma_records_map_dom(self.records@, label@);
        }
        None
    }

    /// Whether a window with this label exists.
    pub fn contains(&self, label: &str) -> (known: bool)
        ensures
            known == self@.contains_key(label@),
    {
        proof {
            use_type_invariant(self);
        }
        match self.position(label) {
            Some(i) => {
                proof {
                    lemma_records_map_value(self.records@, i as int);
                }
                true
            },
            None => false,
        }
    }

    /// Whether a window with this label exists and is shown.
    pub fn is_visible(&self, label: &str) -> (shown: bool)
        ensures
            shown == (self@.contains_key(label@) && self@[label@]),
    {
        proof {
            use_type_invariant(self);
        }
        match self.position(label) {
            Some(i) => {
                proof {
                    lemma_records_map_value(self.records@, i as int);
                }
                self.records[i].visible
            },
            None => false,
        }
    }

    /// Enters `label` with the given flag, or sets the flag of the record
    /// that carries it.
    fn put(&mut self, label: String, visible: bool)
        ensures
            final(self)@ == old(self)@.insert(label@, visible),
    {
        proof {
            use_type_invariant(&*self);
        }
        let found = self.position(label.as_str());
        let mut records: Vec<WindowRecord> = Vec::new();
        std::mem::swap(&mut records, &mut self.records);
        let ghost before = records@;
        match found {
            Some(i) => {
                let record = WindowRecord { label, visible };
                proof {
                    lemma_records_map_update(before, i as int, record);
                }
                records.set(i, record);
            },
            None => {
                let record = WindowRecord { label, visible };
                proof {
                    lemma_records_map_dom(before, label@);
                    assert(before.push(record).drop_last() =~= before);
                }
                records.push(record);
            },
        }
        self.records = records;
    }

    /// Takes over a window that the host created by itself, such as the
    /// one it opens at start.
    pub fn adopt(&mut self, label: String)
        ensures
            final(self)@ == after_adopt(old(self)@, label@),
    {
        if !self.contains(label.as_str()) {
            self.put(label, true);
        }
    }

    /// Decides what a request to open a window leads to, and records the
    /// window as existing and shown.
    ///
    /// A label that is known is never created again: its window is brought
    /// back. The version values are those of `apply_initial_style`.
    pub fn open_window(
        &mut self,
        request: WindowOpenRequest,
        platform: Platform,
        build_number: Option<&str>,
        current_version: Option<&str>,
    ) -> (plan: OpenPlan)
        ensures
            final(self)@ == after_open(old(self)@, request.label@),
            match plan {
                OpenPlan::Focus { steps } => {
                    &&& !creates_window(old(self)@, request.label@)
                    &&& steps@ == focus_steps()
                },
                OpenPlan::Create { config, script, style } => {
                    &&& creates_window(old(self)@, request.label@)
                    &&& config == config_for(request)
                    &&& script@ == name_script(request.label@)
                    &&& style.steps@ == style_steps(
                        platform,
                        build_number.deep_view(),
                        current_version.deep_view(),
                    )
                    &&& style.outcome == style_outcome(
                        platform,
                        build_number.deep_view(),
                        current_version.deep_view(),
                    )
                },
            },
    {
        let known = self.contains(request.label.as_str());
        self.put(request.label.clone(), true);
        if known {
            let mut steps: Vec<Step> = Vec::new();
            steps.push(Step { command: WindowCommand::Unminimize, on_failure: OnFailure::Abort });
            steps.push(Step { command: WindowCommand::Show, on_failure: OnFailure::Abort });
            steps.push(Step { command: WindowCommand::SetFocus, on_failure: OnFailure::Abort });
            assert(steps@ =~= focus_steps());
            OpenPlan::Focus { steps }
        } else {
            let script = window_name_script(request.label.as_str());
            let style = apply_initial_style(platform, build_number, current_version);
            let config = window_config(request);
            OpenPlan::Create { config, script, style }
        }
    }

    /// Decides what a request to close a window leads to: the window is
    /// hidden and kept, and the registry records it as hidden.
    pub fn close_requested(&mut self, label: String) -> (plan: ClosePlan)
        ensures
            final(self)@ == after_close(old(self)@, label@),
            plan.steps@ == close_steps(),
            plan.prevent_close,
    {
        self.put(label, false);
        let mut steps: Vec<Step> = Vec::new();
        steps.push(Step { command: WindowCommand::Hide, on_failure: OnFailure::Abort });
        assert(steps@ =~= close_steps());
        ClosePlan { steps, prevent_close: true }
    }

    /// Plans the initial style of the window `label`. Where no such window
    /// exists there is nothing to do.
    pub fn style_window(
        &self,
        label: &str,
        platform: Platform,
        build_number: Option<&str>,
        current_version: Option<&str>,
    ) -> (plan: StylePlan)
        ensures
            self@.contains_key(label@) ==> plan.steps@ == style_steps(
                platform,
                build_number.deep_view(),
                current_version.deep_view(),
            ) && plan.outcome == style_outcome(
                platform,
                build_number.deep_view(),
                current_version.deep_view(),
            ),
            !self@.contains_key(label@) ==> plan.steps@ == Seq::<Step>::empty() && plan.outcome
                == StyleOutcome::Completed,
    {
        if self.contains(label) {
            apply_initial_style(platform, build_number, current_version)
        } else {
            StylePlan { steps: Vec::new(), outcome: StyleOutcome::Completed }
        }
    }

    /// The number of windows in existence.
    pub fn len(&self) -> (count: usize)
        ensures
            self@.dom().finite(),
            count == self@.dom().len(),
    {
        proof {
            use_type_invariant(self);
            lemma_records_map_len(self.records@);
        }
        self.records.len()
    }
}

/// Opening a label twice leaves one window under it: the first opening
/// makes the label known, so the second finds the window and creates
/// nothing, and the windows are the same after it as before it.
pub proof fn lemma_open_twice_creates_once(windows: Map<Seq<char>, bool>, label: Seq<char>)
    requires
        windows.dom().finite(),
    ensures
        !creates_window(after_open(windows, label), label),
        after_open(after_open(windows, label), label) == after_open(windows, label),
        after_open(windows, label).dom().finite(),
        after_open(windows, label).dom().len() == windows.dom().len() + (if windows.contains_key(
            label,
        ) {
            0int
        } else {
            1int
        }),
{
    assert(after_open(after_open(windows, label), label) =~= after_open(windows, label));
}

/// No operation takes a window out of existence: what was known before
/// opening, closing or taking over a window is known after it.
pub proof fn lemma_windows_are_kept(
    windows: Map<Seq<char>, bool>,
    label: Seq<char>,
    other: Seq<char>,
)
    requires
        windows.contains_key(other),
    ensures
        after_open(windows, label).contains_key(other),
        after_close(windows, label).contains_key(other),
        after_adopt(windows, label).contains_key(other),
{
}

/// A window that was closed and is opened again is the same window, shown
/// once more: no second one is created for its label.
pub proof fn lemma_reopen_after_close(windows: Map<Seq<char>, bool>, label: Seq<char>)
    ensures
        !creates_window(after_close(windows, label), label),
        !after_close(windows, label)[label],
        after_open(after_close(windows, label), label) == after_open(windows, label),
{
    assert(after_open(after_close(windows, label), label) =~= after_open(windows, label));
}

} // verus!
