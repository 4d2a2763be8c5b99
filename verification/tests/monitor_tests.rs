use cosmic_power_monitor::config::{PanelDisplay, PowerMonitorConfig};
use cosmic_power_monitor::monitor::{
    battery_line, Effects, Event, MonitorState, PopupCommand, Reading, FAST_POLL_MS, SLOW_POLL_MS,
};

fn state(mode: PanelDisplay, status: &str, tte: i64, ttf: i64) -> MonitorState {
    let mut s = MonitorState::new(PowerMonitorConfig { panel_display: mode });
    s.update(Event::Update(Reading {
        status: status.to_string(),
        time_to_empty: tte,
        time_to_full: ttf,
    }));
    s
}

fn nothing() -> Effects {
    Effects { popup: PopupCommand::Keep, poll_interval_ms: None, persist: None, sync_selector: false }
}

#[test]
fn new_state_is_closed_and_empty() {
    let s = MonitorState::new(PowerMonitorConfig::default());
    assert_eq!(s.popup, None);
    assert_eq!(s.status, "");
    assert_eq!(s.time_to_empty, 0);
    assert_eq!(s.time_to_full, 0);
    assert!(!s.no_battery);
    assert_eq!(s.config.panel_display, PanelDisplay::Power);
}

#[test]
fn power_string_discharging_with_time() {
    let s = state(PanelDisplay::Power, "Discharging", 7800, 0);
    assert_eq!(s.format_power_string(true, "12.7W", true), "-12.7W (2h 10m)");
    assert_eq!(s.format_power_string(true, "12.7W", false), "-12.7W");
}

#[test]
fn power_string_charging_with_time() {
    let s = state(PanelDisplay::Power, "Charging", 0, 1800);
    assert_eq!(s.format_power_string(true, "26.5W", true), "+26.5W (30m)");
    let s = state(PanelDisplay::Power, "Charging", 0, 0);
    assert_eq!(s.format_power_string(true, "26.5W", true), "+26.5W");
}

#[test]
fn power_string_time_only_for_direction_of_flow() {
    // A discharging battery shows no time until full, and the other way round.
    let s = state(PanelDisplay::Power, "Discharging", 0, 600);
    assert_eq!(s.format_power_string(true, "5.00W", true), "-5.00W");
    let s = state(PanelDisplay::Power, "Charging", 600, 0);
    assert_eq!(s.format_power_string(true, "5.00W", true), "+5.00W");
    let s = state(PanelDisplay::Power, "Unknown", 600, 600);
    assert_eq!(s.format_power_string(true, "0.123W", true), "-0.123W");
}

#[test]
fn power_hidden_when_full_or_no_rate() {
    let s = state(PanelDisplay::Power, "Full", 100, 100);
    assert_eq!(s.format_power_string(true, "1.0W", true), "");
    assert_eq!(s.format_power_string(false, "0.000W", true), "");
    assert_eq!(s.format_panel_string(true, "1.0W", "100"), "—");
    let s = state(PanelDisplay::Power, "Fully Charged", 0, 0);
    assert_eq!(s.format_power_string(false, "0.000W", false), "");
    let s = state(PanelDisplay::Power, "Charging", 0, 0);
    assert_eq!(s.format_power_string(false, "0.000W", true), "");
    assert_eq!(s.format_panel_string(false, "0.000W", "80"), "—");
    let s = state(PanelDisplay::Power, "Not charging", 0, 0);
    assert_eq!(s.format_power_string(false, "0.000W", true), "");
    let s = state(PanelDisplay::Power, "Discharging", 0, 0);
    assert_eq!(s.format_power_string(false, "0.000W", true), "");
    let s = state(PanelDisplay::Both, "Full", 0, 0);
    assert_eq!(s.format_panel_string(true, "1.0W", "100"), "100%");
    let s = state(PanelDisplay::Both, "Not charging", 0, 0);
    assert_eq!(s.format_panel_string(false, "0.000W", "80"), "80%");
}

#[test]
fn no_battery_texts_are_empty() {
    let mut s = state(PanelDisplay::Power, "Discharging", 100, 0);
    s.update(Event::NoBattery);
    assert!(s.no_battery);
    assert_eq!(s.status, "");
    assert_eq!(s.format_power_string(true, "3.0W", true), "");
    assert_eq!(s.format_percentage("53"), "");
}

#[test]
fn percentage_text() {
    let s = state(PanelDisplay::Percentage, "Discharging", 0, 0);
    assert_eq!(s.format_percentage("53"), "53%");
}

#[test]
fn panel_string_each_mode() {
    let s = state(PanelDisplay::Percentage, "Discharging", 7800, 0);
    assert_eq!(s.format_panel_string(true, "12.7W", "53"), "53%");
    let s = state(PanelDisplay::Power, "Discharging", 7800, 0);
    assert_eq!(s.format_panel_string(true, "12.7W", "53"), "-12.7W (2h 10m)");
    let s = state(PanelDisplay::Both, "Discharging", 7800, 0);
    assert_eq!(s.format_panel_string(true, "12.7W", "53"), "53%  -12.7W");
}

#[test]
fn panel_string_both_without_power() {
    let s = state(PanelDisplay::Both, "Discharging", 0, 0);
    assert_eq!(s.format_panel_string(false, "0.000W", "80"), "80%");
}

#[test]
fn panel_string_placeholder_when_empty() {
    let s = state(PanelDisplay::Power, "Discharging", 0, 0);
    assert_eq!(s.format_panel_string(false, "0.000W", "80"), "—");
    for mode in PanelDisplay::ALL {
        let mut s = state(mode, "Discharging", 10, 10);
        s.update(Event::NoBattery);
        assert_eq!(s.format_panel_string(true, "4.0W", "80"), "—");
    }
}

#[test]
fn poll_interval_by_mode_and_popup() {
    let mut s = state(PanelDisplay::Percentage, "Discharging", 0, 0);
    assert_eq!(s.poll_interval_ms(), SLOW_POLL_MS);
    assert_eq!(SLOW_POLL_MS, 5000);
    let e = s.update(Event::TogglePopup(7));
    assert_eq!(e.popup, PopupCommand::Open(7));
    assert_eq!(e.poll_interval_ms, Some(FAST_POLL_MS));
    assert_eq!(FAST_POLL_MS, 250);
    let s2 = state(PanelDisplay::Power, "Discharging", 0, 0);
    assert_eq!(s2.poll_interval_ms(), FAST_POLL_MS);
    let s3 = state(PanelDisplay::Both, "Discharging", 0, 0);
    assert_eq!(s3.poll_interval_ms(), FAST_POLL_MS);
}

#[test]
fn toggle_twice_restores_state() {
    let mut s = state(PanelDisplay::Percentage, "Charging", 0, 40);
    let e1 = s.update(Event::TogglePopup(3));
    assert_eq!(s.popup, Some(3));
    assert_eq!(e1.popup, PopupCommand::Open(3));
    let e2 = s.update(Event::TogglePopup(4));
    assert_eq!(s.popup, None);
    assert_eq!(e2.popup, PopupCommand::Close(3));
    assert_eq!(e2.poll_interval_ms, Some(SLOW_POLL_MS));
    assert_eq!(s.status, "Charging");
    assert_eq!(s.time_to_full, 40);
}

#[test]
fn popup_closed_only_for_the_open_one() {
    let mut s = state(PanelDisplay::Percentage, "Charging", 0, 0);
    s.update(Event::TogglePopup(9));
    assert_eq!(s.update(Event::PopupClosed(8)), nothing());
    assert_eq!(s.popup, Some(9));
    let e = s.update(Event::PopupClosed(9));
    assert_eq!(s.popup, None);
    assert_eq!(
        e,
        Effects { popup: PopupCommand::Keep, poll_interval_ms: Some(SLOW_POLL_MS), persist: None, sync_selector: false }
    );
}

#[test]
fn mode_selection_is_applied_and_persisted() {
    let mut s = state(PanelDisplay::Power, "Charging", 0, 0);
    let e = s.update(Event::DisplayModeSelected(Some(PanelDisplay::Percentage)));
    assert_eq!(s.config.panel_display, PanelDisplay::Percentage);
    assert_eq!(
        e,
        Effects {
            popup: PopupCommand::Keep,
            poll_interval_ms: Some(SLOW_POLL_MS),
            persist: Some(PanelDisplay::Percentage),
            sync_selector: false
        }
    );
    assert_eq!(s.update(Event::DisplayModeSelected(None)), nothing());
    assert_eq!(s.config.panel_display, PanelDisplay::Percentage);
}

#[test]
fn config_update_applies_and_syncs() {
    let mut s = state(PanelDisplay::Percentage, "Charging", 0, 0);
    let e = s.update(Event::ConfigUpdated(PowerMonitorConfig { panel_display: PanelDisplay::Both }));
    assert_eq!(s.config.panel_display, PanelDisplay::Both);
    assert_eq!(
        e,
        Effects { popup: PopupCommand::Keep, poll_interval_ms: Some(FAST_POLL_MS), persist: None, sync_selector: true }
    );
}

#[test]
fn update_clears_no_battery() {
    let mut s = MonitorState::new(PowerMonitorConfig::default());
    assert_eq!(s.update(Event::NoBattery), nothing());
    assert!(s.no_battery);
    let e = s.update(Event::Update(Reading { status: "Discharging".to_string(), time_to_empty: 5, time_to_full: 0 }));
    assert_eq!(e, nothing());
    assert!(!s.no_battery);
    assert_eq!(s.status, "Discharging");
    assert_eq!(s.time_to_empty, 5);
}

#[test]
fn both_mode_hides_time() {
    let a = state(PanelDisplay::Both, "Discharging", 7800, 0);
    let b = state(PanelDisplay::Both, "Discharging", 60, 0);
    assert_eq!(a.format_panel_string(true, "9.5W", "40"), b.format_panel_string(true, "9.5W", "40"));
}

#[test]
fn charging_flag() {
    assert!(state(PanelDisplay::Power, "Charging", 0, 0).is_charging());
    assert!(!state(PanelDisplay::Power, "Not charging", 0, 0).is_charging());
}

fn rows(s: &MonitorState, positive: bool) -> Vec<(String, String)> {
    s.detail_rows(positive, "12.7W", "30.1", "57.0")
        .into_iter()
        .map(|r| (r.label, r.value))
        .collect()
}

fn pair(a: &str, b: &str) -> (String, String) {
    (a.to_string(), b.to_string())
}

#[test]
fn detail_rows_discharging() {
    let s = state(PanelDisplay::Power, "Discharging", 7800, 100);
    assert_eq!(
        rows(&s, true),
        vec![
            pair("Discharge rate", "12.7W"),
            pair("Energy remaining", "30.1 Wh"),
            pair("Full capacity", "57.0 Wh"),
            pair("Time to empty", "2h 10m"),
        ]
    );
}

#[test]
fn detail_rows_charging() {
    let s = state(PanelDisplay::Power, "Charging", 100, 45);
    assert_eq!(
        rows(&s, true),
        vec![
            pair("Charge rate", "12.7W"),
            pair("Energy remaining", "30.1 Wh"),
            pair("Full capacity", "57.0 Wh"),
            pair("Time to full", "45s"),
        ]
    );
}

#[test]
fn detail_rows_without_rate_or_battery() {
    let s = state(PanelDisplay::Power, "Full", 100, 45);
    assert_eq!(
        rows(&s, false),
        vec![pair("Energy remaining", "30.1 Wh"), pair("Full capacity", "57.0 Wh")]
    );
    let mut s = s;
    s.update(Event::NoBattery);
    assert!(rows(&s, true).is_empty());
}

#[test]
fn battery_lines() {
    assert_eq!(battery_line("BAT0", "53", "Discharging", true, "6.2W"), "BAT0  53%  Discharging  -6.2W");
    assert_eq!(battery_line("BAT1", "99", "Charging", true, "0.50W"), "BAT1  99%  Charging  +0.50W");
    assert_eq!(battery_line("BAT1", "100", "Full", false, "0.000W"), "BAT1  100%  Full");
}

#[test]
fn popup_detail_same_in_every_mode() {
    let expected = rows(&state(PanelDisplay::Power, "Discharging", 4000, 0), true);
    for mode in PanelDisplay::ALL {
        assert_eq!(rows(&state(mode, "Discharging", 4000, 0), true), expected);
    }
}

#[test]
fn poll_interval_reported_on_every_change() {
    let mut s = state(PanelDisplay::Power, "Discharging", 0, 0);
    let before = s.poll_interval_ms();
    let e = s.update(Event::DisplayModeSelected(Some(PanelDisplay::Percentage)));
    assert_ne!(before, s.poll_interval_ms());
    assert_eq!(e.poll_interval_ms, Some(s.poll_interval_ms()));
}
