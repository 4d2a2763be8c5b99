use vstd::prelude::*;
use crate::config::{PanelDisplay, PowerMonitorConfig};
use crate::duration::{format_time, time_text};
use crate::status::{is_full_status, is_full_text, text_eq};

verus! {

/// Poll period while watts are on show (the panel shows power, or the popup is open).
pub const FAST_POLL_MS: u64 = 250;

/// Poll period while only the charge level is on show.
pub const SLOW_POLL_MS: u64 = 5000;

/// What the panel shows when the selected mode has nothing to report, so that the
/// panel entry stays wide enough to click.
pub open spec fn empty_label_text() -> Seq<char> {
    "—"@
}

/// The applet's state, apart from the raw floating-point readings and the
/// desktop toolkit's handles, which the application shell keeps beside it.
pub struct MonitorState {
    /// The open popup, by the token the shell gave its window; `None` when closed.
    pub popup: Option<u64>,
    /// The combined battery status text, e.g. `Discharging`.
    pub status: String,
    /// Estimated seconds until empty; zero or less when there is no estimate.
    pub time_to_empty: i64,
    /// Estimated seconds until full; zero or less when there is no estimate.
    pub time_to_full: i64,
    /// Whether the last poll found no battery.
    pub no_battery: bool,
    /// The persisted settings.
    pub config: PowerMonitorConfig,
}

/// The state as a mathematical value.
pub struct MonitorView {
    pub popup: Option<u64>,
    pub status: Seq<char>,
    pub time_to_empty: i64,
    pub time_to_full: i64,
    pub no_battery: bool,
    pub config: PowerMonitorConfig,
}

impl View for MonitorState {
    type V = MonitorView;

    open spec fn view(&self) -> MonitorView {
        MonitorView {
            popup: self.popup,
            status: self.status@,
            time_to_empty: self.time_to_empty,
            time_to_full: self.time_to_full,
            no_battery: self.no_battery,
            config: self.config,
        }
    }
}

/// The part of a battery poll that the applet's decisions depend on.
pub struct Reading {
    pub status: String,
    pub time_to_empty: i64,
    pub time_to_full: i64,
}

/// What happened, as the application shell reports it.
pub enum Event {
    /// The panel button was pressed; carries the token of the window the shell
    /// would open for a new popup.
    TogglePopup(u64),
    /// A window was closed, by its token.
    PopupClosed(u64),
    /// A battery poll succeeded.
    Update(Reading),
    /// A battery poll found no battery.
    NoBattery,
    /// A segment of the mode selector was pressed; `None` when it carries no mode.
    DisplayModeSelected(Option<PanelDisplay>),
    /// The persisted settings changed on disk.
    ConfigUpdated(PowerMonitorConfig),
}

/// An event as a mathematical value.
pub enum EventView {
    TogglePopup(u64),
    PopupClosed(u64),
    Update { status: Seq<char>, time_to_empty: i64, time_to_full: i64 },
    NoBattery,
    DisplayModeSelected(Option<PanelDisplay>),
    ConfigUpdated(PowerMonitorConfig),
}

impl View for Event {
    type V = EventView;

    open spec fn view(&self) -> EventView {
        match self {
            Event::TogglePopup(t) => EventView::TogglePopup(*t),
            Event::PopupClosed(t) => EventView::PopupClosed(*t),
            Event::Update(r) => EventView::Update {
                status: r.status@,
                time_to_empty: r.time_to_empty,
                time_to_full: r.time_to_full,
            },
            Event::NoBattery => EventView::NoBattery,
            Event::DisplayModeSelected(m) => EventView::DisplayModeSelected(*m),
            Event::ConfigUpdated(c) => EventView::ConfigUpdated(*c),
        }
    }
}

/// What the shell is to do with the popup window.
#[derive(Clone, Copy, Debug, PartialEq, Eq, Structural)]
pub enum PopupCommand {
    Keep,
    /// Open a popup in the window with this token.
    Open(u64),
    /// Close the popup window with this token.
    Close(u64),
}

/// What the shell is to do after an event.
#[derive(Clone, Copy, Debug, PartialEq, Eq, Structural)]
pub struct Effects {
    pub popup: PopupCommand,
    /// The poll period to use from now on, when it is to be set again.
    pub poll_interval_ms: Option<u64>,
    /// The display mode to write to the persisted settings.
    pub persist: Option<PanelDisplay>,
    /// Whether the mode selector is to be pointed at the configured mode again.
    pub sync_selector: bool,
}

/// Nothing to do.
pub open spec fn no_effects() -> Effects {
    Effects { popup: PopupCommand::Keep, poll_interval_ms: None, persist: None, sync_selector: false }
}

/// One labelled value of the popup's detail list.
pub struct DetailRow {
    pub label: String,
    pub value: String,
}

/// The sign that goes before a power reading: `+` while charging, `-` otherwise.
pub open spec fn sign_text(status: Seq<char>) -> Seq<char> {
    if status == "Charging"@ {
        "+"@
    } else {
        "-"@
    }
}

/// The line of one battery in the popup's list of batteries: its name, its charge
/// level, its status, and its signed power draw when that is above zero.
pub open spec fn battery_line_text(
    name: Seq<char>,
    percent: Seq<char>,
    status: Seq<char>,
    rate_positive: bool,
    watts: Seq<char>,
) -> Seq<char> {
    name + "  "@ + percent + "%  "@ + status + if rate_positive {
        "  "@ + sign_text(status) + watts
    } else {
        Seq::empty()
    }
}

impl MonitorView {
    /// The poll period: fast while watts are on show, slow otherwise.
    pub open spec fn poll_interval(self) -> u64 {
        if self.popup is Some || self.config.panel_display != PanelDisplay::Percentage {
            FAST_POLL_MS
        } else {
            SLOW_POLL_MS
        }
    }

    /// The remaining time shown after the power draw, after a space and in
    /// brackets, if asked for and known for the current direction of flow, as in
    /// `-12.7W (2h 10m)`.
    pub open spec fn time_suffix(self, with_time: bool) -> Seq<char> {
        if self.status == "Charging"@ && with_time && self.time_to_full > 0 {
            " ("@ + time_text(self.time_to_full as int) + ")"@
        } else if self.status == "Discharging"@ && with_time && self.time_to_empty > 0 {
            " ("@ + time_text(self.time_to_empty as int) + ")"@
        } else {
            Seq::empty()
        }
    }

    /// The power text: hidden (empty) without a battery, for a full battery, and
    /// when no rate is available (a draw not above zero); else the signed power
    /// reading, then the remaining time if asked for.
    pub open spec fn power_text(self, watts_positive: bool, watts: Seq<char>, with_time: bool) -> Seq<char> {
        if self.no_battery || is_full_text(self.status) || !watts_positive {
            Seq::empty()
        } else {
            sign_text(self.status) + watts + self.time_suffix(with_time)
        }
    }

    /// The charge level text: nothing without a battery, else the rounded level
    /// followed by `%`.
    pub open spec fn percentage_text(self, percent: Seq<char>) -> Seq<char> {
        if self.no_battery {
            Seq::empty()
        } else {
            percent + "%"@
        }
    }

    /// The panel text of the configured mode, before an empty one is replaced.
    pub open spec fn mode_text(self, watts_positive: bool, watts: Seq<char>, percent: Seq<char>) -> Seq<char> {
        match self.config.panel_display {
            PanelDisplay::Percentage => self.percentage_text(percent),
            PanelDisplay::Power => self.power_text(watts_positive, watts, true),
            PanelDisplay::Both => {
                let p = self.percentage_text(percent);
                let w = self.power_text(watts_positive, watts, false);
                if w.len() == 0 {
                    p
                } else if p.len() == 0 {
                    w
                } else {
                    p + "  "@ + w
                }
            },
        }
    }

    /// The panel text: that of the configured mode, or `—` where it is empty.
    pub open spec fn panel_text(self, watts_positive: bool, watts: Seq<char>, percent: Seq<char>) -> Seq<char> {
        let label = self.mode_text(watts_positive, watts, percent);
        if label.len() == 0 {
            empty_label_text()
        } else {
            label
        }
    }

    /// The popup's detail list: the rate of flow when above zero, the energy left
    /// and the full capacity, and the remaining time in the current direction of
    /// flow when known. Empty without a battery.
    pub open spec fn detail_rows(
        self,
        rate_positive: bool,
        watts: Seq<char>,
        energy: Seq<char>,
        energy_full: Seq<char>,
    ) -> Seq<(Seq<char>, Seq<char>)> {
        if self.no_battery {
            Seq::empty()
        } else {
            let rate = if rate_positive {
                seq![(if self.status == "Charging"@ { "Charge rate"@ } else { "Discharge rate"@ }, watts)]
            } else {
                Seq::empty()
            };
            let energy_rows = seq![
                ("Energy remaining"@, energy + " Wh"@),
                ("Full capacity"@, energy_full + " Wh"@),
            ];
            let to_empty = if self.status == "Discharging"@ && self.time_to_empty > 0 {
                seq![("Time to empty"@, time_text(self.time_to_empty as int))]
            } else {
                Seq::empty()
            };
            let to_full = if self.status == "Charging"@ && self.time_to_full > 0 {
                seq![("Time to full"@, time_text(self.time_to_full as int))]
            } else {
                Seq::empty()
            };
            rate + energy_rows + to_empty + to_full
        }
    }

    /// The state after an event, and what the shell is to do.
    pub open spec fn step(self, event: EventView) -> (MonitorView, Effects) {
        match event {
            EventView::TogglePopup(fresh) => match self.popup {
                Some(open) => {
                    let next = MonitorView { popup: None, ..self };
                    (next, Effects {
                        popup: PopupCommand::Close(open),
                        poll_interval_ms: Some(next.poll_interval()),
                        persist: None,
                        sync_selector: false,
                    })
                },
                None => {
                    let next = MonitorView { popup: Some(fresh), ..self };
                    (next, Effects {
                        popup: PopupCommand::Open(fresh),
                        poll_interval_ms: Some(next.poll_interval()),
                        persist: None,
                        sync_selector: false,
                    })
                },
            },
            EventView::PopupClosed(closed) => {
                if self.popup == Some(closed) {
                    let next = MonitorView { popup: None, ..self };
                    (next, Effects {
                        popup: PopupCommand::Keep,
                        poll_interval_ms: Some(next.poll_interval()),
                        persist: None,
                        sync_selector: false,
                    })
                } else {
                    (self, no_effects())
                }
            },
            EventView::Update { status, time_to_empty, time_to_full } => {
                (MonitorView { status, time_to_empty, time_to_full, no_battery: false, ..self }, no_effects())
            },
            EventView::NoBattery => {
                (MonitorView { no_battery: true, status: Seq::empty(), ..self }, no_effects())
            },
            EventView::DisplayModeSelected(mode) => match mode {
                None => (self, no_effects()),
                Some(m) => {
                    let next = MonitorView { config: PowerMonitorConfig { panel_display: m }, ..self };
                    (next, Effects {
                        popup: PopupCommand::Keep,
                        poll_interval_ms: Some(next.poll_interval()),
                        persist: Some(m),
                        sync_selector: false,
                    })
                },
            },
            EventView::ConfigUpdated(config) => {
                let next = MonitorView { config, ..self };
                (next, Effects {
                    popup: PopupCommand::Keep,
                    poll_interval_ms: Some(next.poll_interval()),
                    persist: None,
                    sync_selector: true,
                })
            },
        }
    }
}

/// The line of one battery in the popup's list of batteries. `percent` is the
/// rounded charge level and `watts` the written power draw.
pub fn battery_line(name: &str, percent: &str, status: &str, rate_positive: bool, watts: &str) -> (r: String)
    ensures
        r@ == battery_line_text(name@, percent@, status@, rate_positive, watts@),
{
    let mut s = String::from_str(name);
    s.append("  ");
    s.append(percent);
    s.append("%  ");
    s.append(status);
    if rate_positive {
        s.append("  ");
        if text_eq(status, "Charging") {
            s.append("+");
        } else {
            s.append("-");
        }
        s.append(watts);
    }
    s
}

impl MonitorState {
    /// The state at start-up, with the settings read from disk.
    pub fn new(config: PowerMonitorConfig) -> (r: MonitorState)
        ensures
            r@ == (MonitorView {
                popup: None,
                status: Seq::empty(),
                time_to_empty: 0,
                time_to_full: 0,
                no_battery: false,
                config,
            }),
    {
        MonitorState {
            popup: None,
            status: String::new(),
            time_to_empty: 0,
            time_to_full: 0,
            no_battery: false,
            config,
        }
    }

    /// Charge level only needs a lazy poll, but the popup shows live watts, so
    /// stay fast whenever it is open.
    pub fn poll_interval_ms(&self) -> (r: u64)
        ensures
            r == self@.poll_interval(),
    {
        if self.popup.is_some() || self.config.panel_display != PanelDisplay::Percentage {
            FAST_POLL_MS
        } else {
            SLOW_POLL_MS
        }
    }

    /// Whether the battery is charging, for the charging mark on the popup's icon.
    pub fn is_charging(&self) -> (r: bool)
        ensures
            r == (self@.status == "Charging"@),
    {
        text_eq(self.status.as_str(), "Charging")
    }

    /// The power text. `watts_positive` tells whether the power reading is above
    /// zero, `watts` is that reading written out.
    pub fn format_power_string(&self, watts_positive: bool, watts: &str, with_time: bool) -> (r: String)
        ensures
            r@ == self@.power_text(watts_positive, watts@, with_time),
    {
        if self.no_battery {
            return String::new();
        }
        let status = self.status.as_str();
        if is_full_status(status) || !watts_positive {
            return String::new();
        }
        let charging = text_eq(status, "Charging");
        let mut s = if charging {
            String::from_str("+")
        } else {
            String::from_str("-")
        };
        s.append(watts);
        if charging && with_time && self.time_to_full > 0 {
            let t = format_time(self.time_to_full);
            s.append(" (");
            s.append(t.as_str());
            s.append(")");
        } else if text_eq(status, "Discharging") && with_time && self.time_to_empty > 0 {
            let t = format_time(self.time_to_empty);
            s.append(" (");
            s.append(t.as_str());
            s.append(")");
        }
        s
    }

    /// The charge level text; `percent` is the rounded level written out.
    pub fn format_percentage(&self, percent: &str) -> (r: String)
        ensures
            r@ == self@.percentage_text(percent@),
    {
        if self.no_battery {
            return String::new();
        }
        let mut s = String::from_str(percent);
        s.append("%");
        s
    }

    /// The panel label, per the configured display mode.
    pub fn format_panel_string(&self, watts_positive: bool, watts: &str, percent: &str) -> (r: String)
        ensures
            r@ == self@.panel_text(watts_positive, watts@, percent@),
    {
        let label = match self.config.panel_display {
            PanelDisplay::Percentage => self.format_percentage(percent),
            PanelDisplay::Power => self.format_power_string(watts_positive, watts, true),
            PanelDisplay::Both => {
                let p = self.format_percentage(percent);
                // No time estimate here, or the panel entry gets very wide.
                let w = self.format_power_string(watts_positive, watts, false);
                if w.as_str().is_empty() {
                    p
                } else if p.as_str().is_empty() {
                    w
                } else {
                    let mut s = p;
                    s.append("  ");
                    s.append(w.as_str());
                    s
                }
            },
        };
        // A mode with nothing to report would otherwise render an empty button.
        if label.as_str().is_empty() {
            String::from_str("—")
        } else {
            label
        }
    }

    /// The popup's detail list. `rate_positive` tells whether the power draw is
    /// above zero, and `watts`, `energy` and `energy_full` are the draw, the energy
    /// left and the full capacity written out.
    pub fn detail_rows(&self, rate_positive: bool, watts: &str, energy: &str, energy_full: &str) -> (r: Vec<DetailRow>)
        ensures
            r@.map_values(|d: DetailRow| (d.label@, d.value@)) == self@.detail_rows(
                rate_positive,
                watts@,
                energy@,
                energy_full@,
            ),
    {
        let mut rows: Vec<DetailRow> = Vec::new();
        if self.no_battery {
            assert(rows@.map_values(|d: DetailRow| (d.label@, d.value@)) =~= Seq::<(Seq<char>, Seq<char>)>::empty());
            return rows;
        }
        let status = self.status.as_str();
        let charging = text_eq(status, "Charging");
        if rate_positive {
            let label = if charging {
                String::from_str("Charge rate")
            } else {
                String::from_str("Discharge rate")
            };
            rows.push(DetailRow { label, value: String::from_str(watts) });
        }
        let mut e = String::from_str(energy);
        e.append(" Wh");
        rows.push(DetailRow { label: String::from_str("Energy remaining"), value: e });
        let mut f = String::from_str(energy_full);
        f.append(" Wh");
        rows.push(DetailRow { label: String::from_str("Full capacity"), value: f });
        if text_eq(status, "Discharging") && self.time_to_empty > 0 {
            rows.push(DetailRow { label: String::from_str("Time to empty"), value: format_time(self.time_to_empty) });
        }
        if charging && self.time_to_full > 0 {
            rows.push(DetailRow { label: String::from_str("Time to full"), value: format_time(self.time_to_full) });
        }
        assert(rows@.map_values(|d: DetailRow| (d.label@, d.value@)) =~= self@.detail_rows(
            rate_positive,
            watts@,
            energy@,
            energy_full@,
        ));
        rows
    }

    /// Moves the state in answer to an event, and says what the shell is to do.
    pub fn update(&mut self, event: Event) -> (r: Effects)
        ensures
            (final(self)@, r) == old(self)@.step(event@),
    {
        match event {
            Event::TogglePopup(fresh) => {
                match self.popup {
                    Some(open) => {
                        self.popup = None;
                        Effects {
                            popup: PopupCommand::Close(open),
                            poll_interval_ms: Some(self.poll_interval_ms()),
                            persist: None,
                            sync_selector: false,
                        }
                    },
                    None => {
                        self.popup = Some(fresh);
                        Effects {
                            popup: PopupCommand::Open(fresh),
                            poll_interval_ms: Some(self.poll_interval_ms()),
                            persist: None,
                            sync_selector: false,
                        }
                    },
                }
            },
            Event::PopupClosed(closed) => {
                if self.popup == Some(closed) {
                    self.popup = None;
                    Effects {
                        popup: PopupCommand::Keep,
                        poll_interval_ms: Some(self.poll_interval_ms()),
                        persist: None,
                        sync_selector: false,
                    }
                } else {
                    Effects { popup: PopupCommand::Keep, poll_interval_ms: None, persist: None, sync_selector: false }
                }
            },
            Event::Update(reading) => {
                self.status = reading.status;
                self.time_to_empty = reading.time_to_empty;
                self.time_to_full = reading.time_to_full;
                self.no_battery = false;
                Effects { popup: PopupCommand::Keep, poll_interval_ms: None, persist: None, sync_selector: false }
            },
            Event::NoBattery => {
                self.no_battery = true;
                self.status = String::new();
                Effects { popup: PopupCommand::Keep, poll_interval_ms: None, persist: None, sync_selector: false }
            },
            Event::DisplayModeSelected(mode) => {
                match mode {
                    None => {
                        Effects { popup: PopupCommand::Keep, poll_interval_ms: None, persist: None, sync_selector: false }
                    },
                    Some(m) => {
                        self.config = PowerMonitorConfig { panel_display: m };
                        Effects {
                            popup: PopupCommand::Keep,
                            poll_interval_ms: Some(self.poll_interval_ms()),
                            persist: Some(m),
                            sync_selector: false,
                        }
                    },
                }
            },
            Event::ConfigUpdated(config) => {
                self.config = config;
                Effects {
                    popup: PopupCommand::Keep,
                    poll_interval_ms: Some(self.poll_interval_ms()),
                    persist: None,
                    sync_selector: true,
                }
            },
        }
    }
}

} // verus!
verus! {

/// The panel is never left blank: whatever the state and readings, its text has
/// at least one character.
pub proof fn law_panel_never_blank(s: MonitorView, watts_positive: bool, watts: Seq<char>, percent: Seq<char>)
    ensures
        s.panel_text(watts_positive, watts, percent).len() > 0,
{
    reveal_strlit("—");
}

/// Once a poll finds no battery, the panel shows `—` in every mode, whatever
/// readings the shell still holds.
pub proof fn law_no_battery_shows_placeholder(
    s: MonitorView,
    watts_positive: bool,
    watts: Seq<char>,
    percent: Seq<char>,
)
    ensures
        s.step(EventView::NoBattery).0.panel_text(watts_positive, watts, percent) == "—"@,
{
}

/// Pressing the panel button twice opens a popup and closes the same one again,
/// leaving the state as it was and the poll period back where it was.
pub proof fn law_toggle_twice_restores(s: MonitorView, first: u64, second: u64)
    requires
        s.popup is None,
    ensures
        s.step(EventView::TogglePopup(first)).1.popup == PopupCommand::Open(first),
        s.step(EventView::TogglePopup(first)).0.step(EventView::TogglePopup(second)).1.popup
            == PopupCommand::Close(first),
        s.step(EventView::TogglePopup(first)).0.step(EventView::TogglePopup(second)).0 == s,
        s.step(EventView::TogglePopup(first)).0.step(EventView::TogglePopup(second)).1.poll_interval_ms
            == Some(s.poll_interval()),
{
}

/// The shell's poll period never goes stale: every period an event reports is that
/// of the new state, and every event that changes the period reports it.
pub proof fn law_poll_interval_reported(s: MonitorView, event: EventView)
    ensures
        s.step(event).1.poll_interval_ms is Some ==> s.step(event).1.poll_interval_ms == Some(
            s.step(event).0.poll_interval(),
        ),
        s.step(event).0.poll_interval() != s.poll_interval() ==> s.step(event).1.poll_interval_ms
            == Some(s.step(event).0.poll_interval()),
{
}

/// While the popup is open the readings are polled fast, whatever the mode.
pub proof fn law_fast_while_popup_open(s: MonitorView)
    requires
        s.popup is Some,
    ensures
        s.poll_interval() == FAST_POLL_MS,
{
}

/// Closing a window that is not the open popup changes nothing and asks for nothing.
pub proof fn law_foreign_close_ignored(s: MonitorView, closed: u64)
    requires
        s.popup != Some(closed),
    ensures
        s.step(EventView::PopupClosed(closed)) == (s, (Effects { popup: PopupCommand::Keep, poll_interval_ms: None, persist: None, sync_selector: false })),
{
}

/// A mode picked in the selector becomes the configured mode and is written to
/// the persisted settings; the popup stays as it is.
pub proof fn law_selected_mode_kept(s: MonitorView, mode: PanelDisplay)
    ensures
        s.step(EventView::DisplayModeSelected(Some(mode))).0.config.panel_display == mode,
        s.step(EventView::DisplayModeSelected(Some(mode))).0.popup == s.popup,
        s.step(EventView::DisplayModeSelected(Some(mode))).1.persist == Some(mode),
{
}

/// A poll's result is what the state then holds, and it touches neither the popup,
/// the settings nor the poll period; a poll that finds no battery also clears the
/// status.
pub proof fn law_poll_result_recorded(s: MonitorView, status: Seq<char>, time_to_empty: i64, time_to_full: i64)
    ensures
        s.step(EventView::Update { status, time_to_empty, time_to_full }).0 == (MonitorView {
            status,
            time_to_empty,
            time_to_full,
            no_battery: false,
            ..s
        }),
        s.step(EventView::Update { status, time_to_empty, time_to_full }).1 == (Effects { popup: PopupCommand::Keep, poll_interval_ms: None, persist: None, sync_selector: false }),
        s.step(EventView::NoBattery).0 == (MonitorView { no_battery: true, status: Seq::empty(), ..s }),
        s.step(EventView::NoBattery).1 == (Effects { popup: PopupCommand::Keep, poll_interval_ms: None, persist: None, sync_selector: false }),
{
}

/// The power label is hidden without a battery and when no rate is available, as
/// for a fully charged battery or a draw of 0 W: the power text is empty, and in
/// the power mode the panel falls back to `—`.
pub proof fn law_power_hidden_without_rate(
    s: MonitorView,
    watts_positive: bool,
    watts: Seq<char>,
    percent: Seq<char>,
    with_time: bool,
)
    requires
        s.no_battery || s.status == "Full"@ || s.status == "Fully Charged"@ || !watts_positive,
    ensures
        s.power_text(watts_positive, watts, with_time) == Seq::<char>::empty(),
        s.config.panel_display == PanelDisplay::Power ==> s.panel_text(watts_positive, watts, percent)
            == "—"@,
        s.config.panel_display == PanelDisplay::Both ==> s.panel_text(watts_positive, watts, percent)
            == (if s.no_battery { "—"@ } else { percent + "%"@ }),
{
    reveal_strlit("%");
    reveal_strlit("—");
}

/// In the combined mode the panel never shows a time estimate: its text does not
/// depend on the estimated times.
pub proof fn law_both_mode_hides_time(
    s: MonitorView,
    time_to_empty: i64,
    time_to_full: i64,
    watts_positive: bool,
    watts: Seq<char>,
    percent: Seq<char>,
)
    requires
        s.config.panel_display == PanelDisplay::Both,
    ensures
        (MonitorView { time_to_empty, time_to_full, ..s }).panel_text(watts_positive, watts, percent)
            == s.panel_text(watts_positive, watts, percent),
{
    let t = MonitorView { time_to_empty, time_to_full, ..s };
    assert(t.time_suffix(false) == s.time_suffix(false));
}

/// The popup shows the same detail whatever the panel's display mode.
pub proof fn law_popup_detail_independent_of_mode(
    s: MonitorView,
    mode: PanelDisplay,
    rate_positive: bool,
    watts: Seq<char>,
    energy: Seq<char>,
    energy_full: Seq<char>,
)
    ensures
        (MonitorView { config: PowerMonitorConfig { panel_display: mode }, ..s }).detail_rows(
            rate_positive,
            watts,
            energy,
            energy_full,
        ) == s.detail_rows(rate_positive, watts, energy, energy_full),
{
}

/// A positive power draw is shown with `+` while the battery charges and with `-`
/// otherwise, ahead of the reading.
pub proof fn law_sign_follows_direction(s: MonitorView, watts: Seq<char>, with_time: bool)
    requires
        !s.no_battery,
        s.status != "Full"@,
        s.status != "Fully Charged"@,
    ensures
        s.power_text(true, watts, with_time).len() > 0,
        s.power_text(true, watts, with_time)[0] == (if s.status == "Charging"@ { '+' } else { '-' }),
        s.power_text(true, watts, with_time).subrange(1, watts.len() + 1int) == watts,
{
    reveal_strlit("+");
    reveal_strlit("-");
    let t = s.power_text(true, watts, with_time);
    assert(t == sign_text(s.status) + watts + s.time_suffix(with_time));
    assert(t.subrange(1, watts.len() + 1int) =~= watts);
}

/// When the compositor closes the open popup, the popup is closed in the state,
/// whatever the display mode, and the poll period is set again for it.
pub proof fn law_popup_closed_clears(s: MonitorView, token: u64)
    requires
        s.popup == Some(token),
    ensures
        s.step(EventView::PopupClosed(token)).0 == (MonitorView { popup: None, ..s }),
        s.step(EventView::PopupClosed(token)).1 == (Effects {
            popup: PopupCommand::Keep,
            poll_interval_ms: Some(if s.config.panel_display == PanelDisplay::Percentage { 5000u64 } else { 250u64 }),
            persist: None,
            sync_selector: false,
        }),
{
}

/// The panel button opens a popup in the fresh window when none is open, and
/// closes the open one otherwise, in every display mode; nothing else changes.
pub proof fn law_toggle_popup(s: MonitorView, fresh: u64)
    ensures
        s.popup is None ==> s.step(EventView::TogglePopup(fresh)) == (MonitorView { popup: Some(fresh), ..s }, Effects {
            popup: PopupCommand::Open(fresh),
            poll_interval_ms: Some(250u64),
            persist: None,
            sync_selector: false,
        }),
        s.popup is Some ==> s.step(EventView::TogglePopup(fresh)) == (MonitorView { popup: None, ..s }, Effects {
            popup: PopupCommand::Close(s.popup->0),
            poll_interval_ms: Some(if s.config.panel_display == PanelDisplay::Percentage { 5000u64 } else { 250u64 }),
            persist: None,
            sync_selector: false,
        }),
{
}

/// The readings are polled every 250 ms while watts are on show (the popup is open
/// or the panel shows power) and every 5 s otherwise.
pub proof fn law_poll_interval_values(s: MonitorView)
    ensures
        (s.popup is Some || s.config.panel_display != PanelDisplay::Percentage) ==> s.poll_interval() == 250,
        (s.popup is None && s.config.panel_display == PanelDisplay::Percentage) ==> s.poll_interval() == 5000,
{
}

/// A selector press without a mode changes nothing; new settings from disk replace
/// the configuration, point the selector at it and set the poll period again.
pub proof fn law_selector_and_settings(s: MonitorView, config: PowerMonitorConfig)
    ensures
        s.step(EventView::DisplayModeSelected(None)) == (s, Effects {
            popup: PopupCommand::Keep,
            poll_interval_ms: None,
            persist: None,
            sync_selector: false,
        }),
        s.step(EventView::ConfigUpdated(config)).0 == (MonitorView { config, ..s }),
        s.step(EventView::ConfigUpdated(config)).1 == (Effects {
            popup: PopupCommand::Keep,
            poll_interval_ms: Some(
                if s.popup is None && config.panel_display == PanelDisplay::Percentage { 5000u64 } else { 250u64 },
            ),
            persist: None,
            sync_selector: true,
        }),
        s.step(EventView::DisplayModeSelected(Some(config.panel_display))) == (MonitorView { config, ..s }, Effects {
            popup: PopupCommand::Keep,
            poll_interval_ms: Some(
                if s.popup is None && config.panel_display == PanelDisplay::Percentage { 5000u64 } else { 250u64 },
            ),
            persist: Some(config.panel_display),
            sync_selector: false,
        }),
{
}

/// The power text with a battery that is not full and a positive draw: the sign
/// (`+` while charging, `-` otherwise), the reading, then, when asked for, the
/// remaining time in the direction of flow after a space and in brackets.
pub proof fn law_power_text_shown(s: MonitorView, watts: Seq<char>, with_time: bool)
    requires
        !s.no_battery,
        s.status != "Full"@,
        s.status != "Fully Charged"@,
    ensures
        (s.status == "Discharging"@ && with_time && s.time_to_empty > 0) ==> s.power_text(true, watts, with_time)
            == "-"@ + watts + " ("@ + time_text(s.time_to_empty as int) + ")"@,
        (s.status == "Charging"@ && with_time && s.time_to_full > 0) ==> s.power_text(true, watts, with_time)
            == "+"@ + watts + " ("@ + time_text(s.time_to_full as int) + ")"@,
        !(s.status == "Discharging"@ && with_time && s.time_to_empty > 0) && !(s.status == "Charging"@
            && with_time && s.time_to_full > 0) ==> s.power_text(true, watts, with_time) == (if s.status
            == "Charging"@ { "+"@ } else { "-"@ }) + watts,
{
    reveal_strlit("Charging");
    reveal_strlit("Discharging");
    assert("Charging"@.len() != "Discharging"@.len());
    let t = s.power_text(true, watts, with_time);
    if s.status == "Discharging"@ && with_time && s.time_to_empty > 0 {
        assert(t =~= "-"@ + watts + " ("@ + time_text(s.time_to_empty as int) + ")"@);
    } else if s.status == "Charging"@ && with_time && s.time_to_full > 0 {
        assert(t =~= "+"@ + watts + " ("@ + time_text(s.time_to_full as int) + ")"@);
    } else {
        assert(t =~= (if s.status == "Charging"@ { "+"@ } else { "-"@ }) + watts);
    }
}

/// The panel text in each mode: the rounded level with `%` in the percentage mode
/// whenever a battery is present, whatever its status; the power text with the
/// remaining time in the power mode; the level and the power text without time,
/// two spaces apart, in the combined mode; `—` wherever that would be empty.
pub proof fn law_panel_text_by_mode(s: MonitorView, watts_positive: bool, watts: Seq<char>, percent: Seq<char>)
    ensures
        s.config.panel_display == PanelDisplay::Percentage ==> s.panel_text(watts_positive, watts, percent) == (
        if s.no_battery {
            "—"@
        } else {
            percent + "%"@
        }),
        s.config.panel_display == PanelDisplay::Power ==> s.panel_text(watts_positive, watts, percent) == (
        if s.power_text(watts_positive, watts, true).len() == 0 {
            "—"@
        } else {
            s.power_text(watts_positive, watts, true)
        }),
        s.config.panel_display == PanelDisplay::Both ==> s.panel_text(watts_positive, watts, percent) == (
        if s.no_battery {
            "—"@
        } else if s.power_text(watts_positive, watts, false).len() == 0 {
            percent + "%"@
        } else {
            percent + "%"@ + "  "@ + s.power_text(watts_positive, watts, false)
        }),
{
    reveal_strlit("%");
    reveal_strlit("—");
}

/// The popup's detail list: nothing without a battery; else the rate row first when
/// the draw is above zero, then the energy left and the full capacity in watt-hours,
/// then the time to empty while discharging or to full while charging when known.
pub proof fn law_detail_rows_layout(
    s: MonitorView,
    rate_positive: bool,
    watts: Seq<char>,
    energy: Seq<char>,
    energy_full: Seq<char>,
)
    ensures
        s.no_battery ==> s.detail_rows(rate_positive, watts, energy, energy_full).len() == 0,
        !s.no_battery ==> {
            let rows = s.detail_rows(rate_positive, watts, energy, energy_full);
            let k: int = if rate_positive { 1 } else { 0 };
            let to_empty = s.status == "Discharging"@ && s.time_to_empty > 0;
            let to_full = s.status == "Charging"@ && s.time_to_full > 0;
            &&& rows.len() == k + 2 + (if to_empty { 1int } else { 0 }) + (if to_full { 1int } else { 0 })
            &&& rate_positive ==> rows[0] == (if s.status == "Charging"@ {
                "Charge rate"@
            } else {
                "Discharge rate"@
            }, watts)
            &&& rows[k] == ("Energy remaining"@, energy + " Wh"@)
            &&& rows[k + 1] == ("Full capacity"@, energy_full + " Wh"@)
            &&& to_empty ==> rows[k + 2] == ("Time to empty"@, time_text(s.time_to_empty as int))
            &&& to_full ==> rows[k + 2] == ("Time to full"@, time_text(s.time_to_full as int))
        },
{
    reveal_strlit("Charging");
    reveal_strlit("Discharging");
    assert("Charging"@.len() != "Discharging"@.len());
    if !s.no_battery {
        let rows = s.detail_rows(rate_positive, watts, energy, energy_full);
        let rate: Seq<(Seq<char>, Seq<char>)> = if rate_positive {
            seq![(if s.status == "Charging"@ { "Charge rate"@ } else { "Discharge rate"@ }, watts)]
        } else {
            Seq::empty()
        };
        let energy_rows = seq![("Energy remaining"@, energy + " Wh"@), ("Full capacity"@, energy_full + " Wh"@)];
        let to_empty: Seq<(Seq<char>, Seq<char>)> = if s.status == "Discharging"@ && s.time_to_empty > 0 {
            seq![("Time to empty"@, time_text(s.time_to_empty as int))]
        } else {
            Seq::empty()
        };
        let to_full: Seq<(Seq<char>, Seq<char>)> = if s.status == "Charging"@ && s.time_to_full > 0 {
            seq![("Time to full"@, time_text(s.time_to_full as int))]
        } else {
            Seq::empty()
        };
        assert(rows == rate + energy_rows + to_empty + to_full);
        let k: int = if rate_positive { 1 } else { 0 };
        assert(rate.len() == k);
        assert(rows[k] == energy_rows[0]);
        assert(rows[k + 1] == energy_rows[1]);
        if rate_positive {
            assert(rows[0] == rate[0]);
        }
        if s.status == "Discharging"@ && s.time_to_empty > 0 {
            assert(rows[k + 2] == to_empty[0]);
        }
        if s.status == "Charging"@ && s.time_to_full > 0 {
            assert(to_empty.len() == 0);
            assert(rows[k + 2] == to_full[0]);
        }
    }
}

/// A battery's line: its name, two spaces, its level with `%`, two spaces and its
/// status; then, only when its draw is above zero, two spaces and the signed draw.
pub proof fn law_battery_line_layout(
    name: Seq<char>,
    percent: Seq<char>,
    status: Seq<char>,
    rate_positive: bool,
    watts: Seq<char>,
)
    ensures
        !rate_positive ==> battery_line_text(name, percent, status, rate_positive, watts) == name + "  "@ + percent
            + "%"@ + "  "@ + status,
        rate_positive ==> battery_line_text(name, percent, status, rate_positive, watts) == name + "  "@ + percent
            + "%"@ + "  "@ + status + "  "@ + (if status == "Charging"@ { "+"@ } else { "-"@ }) + watts,
{
    reveal_strlit("%  ");
    reveal_strlit("%");
    reveal_strlit("  ");
    assert("%  "@ =~= "%"@ + "  "@);
    if !rate_positive {
        assert(battery_line_text(name, percent, status, rate_positive, watts) =~= name + "  "@ + percent + "%"@ + "  "@
            + status);
    } else {
        assert(battery_line_text(name, percent, status, rate_positive, watts) =~= name + "  "@ + percent + "%"@ + "  "@
            + status + "  "@ + (if status == "Charging"@ { "+"@ } else { "-"@ }) + watts);
    }
}

} // verus!
