use vstd::prelude::*;

verus! {

/// What the applet renders in the panel. The popup always shows the full detail
/// regardless of this setting.
#[derive(Clone, Copy, Debug, PartialEq, Eq, Structural)]
pub enum PanelDisplay {
    /// Charge level only, e.g. `53%`.
    Percentage,
    /// Power draw with a time estimate, e.g. `-12.7W (2h 10m)`.
    Power,
    /// Charge level and power draw, e.g. `53%  -12.7W`. The time estimate is
    /// dropped here to keep the panel entry narrow.
    Both,
}

impl PanelDisplay {
    /// Every mode, in the order the popup's selector lists them.
    pub const ALL: [PanelDisplay; 3] = [PanelDisplay::Percentage, PanelDisplay::Power, PanelDisplay::Both];

    /// The text of the selector segment for this mode.
    pub open spec fn label_text(self) -> Seq<char> {
        match self {
            PanelDisplay::Percentage => seq!['%'],
            PanelDisplay::Power => seq!['W'],
            PanelDisplay::Both => seq!['B', 'o', 't', 'h'],
        }
    }

    /// The short name shown for this mode in the popup's selector.
    pub fn label(&self) -> (r: &'static str)
        ensures
            r@ == self.label_text(),
    {
        match self {
            PanelDisplay::Percentage => {
                proof { reveal_strlit("%"); }
                "%"
            },
            PanelDisplay::Power => {
                proof { reveal_strlit("W"); }
                "W"
            },
            PanelDisplay::Both => {
                proof { reveal_strlit("Both"); }
                "Both"
            },
        }
    }
}

/// The selector shows a different label for each mode.
pub proof fn law_labels_distinct(a: PanelDisplay, b: PanelDisplay)
    requires
        a != b,
    ensures
        a.label_text() != b.label_text(),
{
    if a.label_text() == b.label_text() {
        assert(a.label_text()[0] == b.label_text()[0]);
    }
}

/// The selector's labels: `%` for the charge level, `W` for the power draw, and
/// `Both` for the two together.
pub proof fn law_label_texts()
    ensures
        PanelDisplay::Percentage.label_text() == "%"@,
        PanelDisplay::Power.label_text() == "W"@,
        PanelDisplay::Both.label_text() == "Both"@,
{
    reveal_strlit("%");
    reveal_strlit("W");
    reveal_strlit("Both");
}

/// The selector lists every mode, each once.
pub proof fn law_all_modes_listed(mode: PanelDisplay)
    ensures
        PanelDisplay::ALL@.len() == 3,
        PanelDisplay::ALL@.contains(mode),
        forall|i: int, j: int|
            0 <= i < j < 3 ==> PanelDisplay::ALL@[i] != PanelDisplay::ALL@[j],
{
    match mode {
        PanelDisplay::Percentage => assert(PanelDisplay::ALL@[0] == mode),
        PanelDisplay::Power => assert(PanelDisplay::ALL@[1] == mode),
        PanelDisplay::Both => assert(PanelDisplay::ALL@[2] == mode),
    }
}

impl Default for PanelDisplay {
    /// Power draw is shown unless the user picks otherwise.
    fn default() -> (r: PanelDisplay)
        ensures
            r == PanelDisplay::Power,
    {
        PanelDisplay::Power
    }
}

/// The applet's persisted settings.
#[derive(Clone, Copy, Debug, PartialEq, Eq, Structural)]
pub struct PowerMonitorConfig {
    pub panel_display: PanelDisplay,
}

impl Default for PowerMonitorConfig {
    fn default() -> (r: PowerMonitorConfig)
        ensures
            r.panel_display == PanelDisplay::Power,
    {
        PowerMonitorConfig { panel_display: PanelDisplay::Power }
    }
}

} // verus!
