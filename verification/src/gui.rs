//! The state behind the interactive view.
//!
//! The view itself — layout, painting, the wall-clock refresh schedule — is
//! presentation and lives with the caller.  What it decides is here: which
//! monitors are on display, which rate is picked for each, what mutation an
//! apply action submits, and what status line to show.  The caller feeds
//! enumeration results and mutation outcomes in and reads the state back.

use vstd::prelude::*;
use vstd::pervasive::VecAdditionalExecFns;
use vstd::string::{StrSliceExecFns, StringExecFns};

use crate::monitor::{ModeChangeRequest, Monitor, MonitorError};

verus! {

/// What the interactive view last had to report.
#[derive(Debug, Clone, PartialEq)]
pub enum AppStatus {
    /// Nothing has been reported yet.
    Idle,
    /// The last enumeration pass succeeded and found this many monitors.
    MonitorsFound { count: usize },
    /// A refresh rate was applied to the named monitor.
    RateApplied { description: String, rate: u32 },
    /// The last operation failed.
    Failed { error: MonitorError },
}

/// The interactive view's state: the monitors of the last enumeration pass,
/// the rate picked for each of them, and the last status to report.
pub struct HertzRateApp {
    pub monitors: Vec<Monitor>,
    pub selected_rates: Vec<u32>,
    pub status: AppStatus,
}

impl Default for HertzRateApp {
    fn default() -> (app: HertzRateApp)
        ensures
            app.wf(),
            app.monitors@.len() == 0,
            app.selected_rates@.len() == 0,
            app.status is Idle,
    {
        HertzRateApp::new()
    }
}

impl HertzRateApp {
    /// The state's internal invariant: one picked rate per monitor.
    pub open spec fn wf(self) -> bool {
        self.selected_rates@.len() == self.monitors@.len()
    }

    /// A fresh state with no monitors; the caller is expected to feed an
    /// enumeration result in before showing anything.
    pub fn new() -> (app: HertzRateApp)
        ensures
            app.wf(),
            app.monitors@.len() == 0,
            app.selected_rates@.len() == 0,
            app.status is Idle,
    {
        HertzRateApp { monitors: Vec::new(), selected_rates: Vec::new(), status: AppStatus::Idle }
    }

    /// Takes the outcome of a fresh enumeration pass.  On success the
    /// monitors are replaced, every picked rate is reset to its monitor's
    /// current rate, and the status reports the count; on failure the
    /// monitor list is cleared and the status carries the error.
    pub fn refresh_monitors(&mut self, outcome: Result<Vec<Monitor>, MonitorError>)
        ensures
            final(self).wf(),
            outcome matches Ok(ms) ==> {
                &&& final(self).monitors == ms
                &&& forall|i: int|
                    0 <= i < ms@.len() ==> final(self).selected_rates@[i] == (
                    #[trigger] ms@[i]).current_refresh_rate
                &&& final(self).status matches AppStatus::MonitorsFound { count } && count == ms@.len()
            },
            outcome matches Err(e) ==> {
                &&& final(self).monitors@.len() == 0
                &&& final(self).status == (AppStatus::Failed { error: e })
            },
    {
        match outcome {
            Ok(ms) => {
                let mut selected: Vec<u32> = Vec::new();
                let mut i: usize = 0;
                while i < ms.len()
                    invariant
                        0 <= i <= ms@.len(),
                        selected@.len() == i,
                        forall|k: int|
                            0 <= k < i ==> selected@[k] == (#[trigger] ms@[k]).current_refresh_rate,
                    decreases ms@.len() - i,
                {
                    selected.push(ms[i].current_refresh_rate);
                    i += 1;
                }
                let count: usize = ms.len();
                self.monitors = ms;
                self.selected_rates = selected;
                self.status = AppStatus::MonitorsFound { count };
            },
            Err(error) => {
                self.monitors = Vec::new();
                self.selected_rates = Vec::new();
                self.status = AppStatus::Failed { error };
            },
        }
    }

    /// Records the rate picked for the monitor at `index`; a stale position
    /// changes nothing.
    pub fn select_rate(&mut self, index: usize, rate: u32)
        ensures
            final(self).monitors == old(self).monitors,
            final(self).status == old(self).status,
            index < old(self).selected_rates@.len() ==> final(self).selected_rates@ == old(
                self,
            ).selected_rates@.update(index as int, rate),
            index >= old(self).selected_rates@.len() ==> final(self).selected_rates@ == old(
                self,
            ).selected_rates@,
    {
        if index < self.selected_rates.len() {
            self.selected_rates.set(index, rate);
        }
    }

    /// The mutation an apply action on the monitor at `index` submits: `None`
    /// when the position is stale, otherwise the planned request for the
    /// picked rate, or the validation error when that rate is unavailable.
    pub fn plan_rate_change(&self, index: usize) -> (r: Option<
        Result<ModeChangeRequest, MonitorError>,
    >)
        ensures
            r is Some <==> index < self.monitors@.len() && index < self.selected_rates@.len(),
            r matches Some(p) ==> {
                let m = self.monitors@[index as int];
                let rate = self.selected_rates@[index as int];
                &&& (p is Ok <==> m.available_refresh_rates@.contains(rate))
                &&& (p matches Ok(req) ==> {
                    &&& req.device_name@ == m.device_name@
                    &&& req.width == m.current_width
                    &&& req.height == m.current_height
                    &&& req.refresh_rate == rate
                    &&& req.persist == true
                })
                &&& (p matches Err(e) ==> e matches MonitorError::UnsupportedRate {
                    requested,
                    available,
                    description,
                } && requested == rate && available@ == m.available_refresh_rates@ && description@
                    == m.description@)
            },
    {
        if index < self.monitors.len() && index < self.selected_rates.len() {
            let rate = self.selected_rates[index];
            Some(self.monitors[index].plan_refresh_rate_change(rate))
        } else {
            None
        }
    }

    /// Records what applying a planned change came to.  A failure is shown
    /// whatever the position; a success names the monitor it went to.  The
    /// caller is expected to re-enumerate after a success, which then
    /// replaces both the monitors and the status.
    pub fn record_apply_outcome(&mut self, index: usize, outcome: Result<(), MonitorError>)
        ensures
            final(self).monitors == old(self).monitors,
            final(self).selected_rates == old(self).selected_rates,
            outcome matches Err(e) ==> final(self).status == (AppStatus::Failed { error: e }),
            outcome is Ok && index < old(self).monitors@.len() && index < old(
                self,
            ).selected_rates@.len() ==> (final(self).status matches AppStatus::RateApplied {
                description,
                rate,
            } && description@ == old(self).monitors@[index as int].description@ && rate == old(
                self,
            ).selected_rates@[index as int]),
            outcome is Ok && !(index < old(self).monitors@.len() && index < old(
                self,
            ).selected_rates@.len()) ==> final(self).status == old(self).status,
    {
        match outcome {
            Err(error) => {
                self.status = AppStatus::Failed { error };
            },
            Ok(()) => {
                if index < self.monitors.len() && index < self.selected_rates.len() {
                    self.status = AppStatus::RateApplied {
                        description: self.monitors[index].description.clone(),
                        rate: self.selected_rates[index],
                    };
                }
            },
        }
    }

    /// Whether the monitors on display do not all run at one and the same
    /// refresh rate; the view points a mixed set out.
    pub fn has_mixed_rates(&self) -> (mixed: bool)
        ensures
            mixed == exists|i: int, j: int|
                #![trigger self.monitors@[i], self.monitors@[j]]
                0 <= i < self.monitors@.len() && 0 <= j < self.monitors@.len()
                    && self.monitors@[i].current_refresh_rate
                    != self.monitors@[j].current_refresh_rate,
    {
        if self.monitors.len() == 0 {
            return false;
        }
        let first = self.monitors[0].current_refresh_rate;
        let mut i: usize = 1;
        while i < self.monitors.len()
            invariant
                1 <= i <= self.monitors@.len(),
                first == self.monitors@[0].current_refresh_rate,
                forall|k: int|
                    0 <= k < i ==> (#[trigger] self.monitors@[k]).current_refresh_rate == first,
            decreases self.monitors@.len() - i,
        {
            if self.monitors[i].current_refresh_rate != first {
                return true;
            }
            i += 1;
        }
        false
    }

    /// Shortens a label to at most `max_len` characters, marking a cut with
    /// an ellipsis.
    pub fn truncate_text(&self, text: &str, max_len: usize) -> (r: String)
        ensures
            text@.len() <= max_len ==> r@ == text@,
            text@.len() > max_len ==> r@ == text@.subrange(
                0,
                if max_len >= 3 {
                    (max_len - 3) as int
                } else {
                    0
                },
            ) + "..."@,
    {
        let n: usize = text.unicode_len();
        if n <= max_len {
            String::from_str(text)
        } else {
            let cut: usize = if max_len >= 3 {
                max_len - 3
            } else {
                0
            };
            let head = text.substring_char(0, cut);
            let mut r = String::from_str(head);
            r.append("...");
            r
        }
    }
}

} // verus!
