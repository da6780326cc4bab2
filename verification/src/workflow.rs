//! The choices of the interactive geo command: which configuration it
//! updates and how a run ends. The menus, the city search and the file
//! updates are the program's.

use vstd::prelude::*;
use crate::clock::same_text;

verus! {

/// The configuration a geo selection writes to.
#[derive(Debug, Clone, PartialEq, Eq)]
pub enum ConfigTarget {
    Default,
    Preset(String),
}

pub open spec fn target_view(t: ConfigTarget) -> Option<Seq<char>> {
    match t {
        ConfigTarget::Default => None,
        ConfigTarget::Preset(p) => Some(p@),
    }
}

/// How a geo selection run ended.
#[derive(Debug, Clone, Copy, PartialEq, Eq, Structural)]
pub enum GeoSelectionResult {
    Updated,
    Cancelled,
}

/// The geo command's settings.
#[derive(Debug, Clone)]
pub struct GeoWorkflow {
    pub debug_enabled: bool,
    /// The configuration named on the command line, if any.
    pub target: Option<String>,
}

/// How the target configuration is settled.
#[derive(Debug, Clone, PartialEq, Eq)]
pub enum TargetDecision {
    /// Resolve the name given on the command line.
    Explicit(String),
    /// No preset is active: the default configuration.
    Settled(ConfigTarget),
    /// A preset is active: ask which configuration to update, offering
    /// `menu_options` for the preset.
    Ask(String),
}

impl GeoWorkflow {
    pub fn new(debug_enabled: bool, target: Option<String>) -> (w: Self)
        ensures
            w.debug_enabled == debug_enabled,
            w.target == target,
    {
        GeoWorkflow { debug_enabled, target }
    }

    /// The first step of settling the target: the name on the command line
    /// wins; else, with an active preset, the user is asked; else the
    /// default configuration.
    pub fn determine_target(&self, active_preset: Option<&str>) -> (d: TargetDecision)
        ensures
            match (self.target, active_preset) {
                (Some(n), _) => d matches TargetDecision::Explicit(x) && x@ == n@,
                (None, Some(p)) => d matches TargetDecision::Ask(x) && x@ == p@,
                (None, None) => d == TargetDecision::Settled(ConfigTarget::Default),
            },
    {
        match &self.target {
            Some(n) => TargetDecision::Explicit(n.clone()),
            None => match active_preset {
                Some(p) => TargetDecision::Ask(String::from_str(p)),
                None => TargetDecision::Settled(ConfigTarget::Default),
            },
        }
    }

    /// How a run ends, from the target it settled on (None when the user
    /// cancelled) and whether a city was chosen: updated exactly when both
    /// were, and the program then writes the coordinates to that target.
    pub fn run(&self, target: &Option<ConfigTarget>, city_chosen: bool) -> (r: GeoSelectionResult)
        ensures
            r == (if target is Some && city_chosen {
                GeoSelectionResult::Updated
            } else {
                GeoSelectionResult::Cancelled
            }),
    {
        match target {
            Some(_) => if city_chosen {
                GeoSelectionResult::Updated
            } else {
                GeoSelectionResult::Cancelled
            },
            None => GeoSelectionResult::Cancelled,
        }
    }
}

/// Resolve a name given on the command line: `default` is the default
/// configuration; another name is a preset when one of that name exists,
/// else None (the preset is reported as not found).
pub fn resolve_explicit_target(name: &str, preset_exists: bool) -> (r: Option<ConfigTarget>)
    ensures
        name@ == "default"@ ==> r == Some(ConfigTarget::Default),
        name@ != "default"@ ==> match r {
            Some(t) => preset_exists && target_view(t) == Some(name@),
            None => !preset_exists,
        },
{
    if same_text(name, "default") {
        Some(ConfigTarget::Default)
    } else if preset_exists {
        Some(ConfigTarget::Preset(String::from_str(name)))
    } else {
        None
    }
}

/// The entries of the menu offered with an active preset, in order.
pub open spec fn spec_menu_options(preset: Seq<char>) -> Seq<Seq<char>> {
    seq!["Cancel operation"@, "Update default configuration"@, "Update preset '"@ + preset + "'"@]
}

pub fn menu_options(preset: &str) -> (v: Vec<String>)
    ensures
        v@.map_values(|s: String| s@) == spec_menu_options(preset@),
{
    let mut v: Vec<String> = Vec::new();
    v.push(String::from_str("Cancel operation"));
    v.push(String::from_str("Update default configuration"));
    let mut last = String::from_str("Update preset '");
    last.append(preset);
    last.append("'");
    v.push(last);
    proof {
        reveal_strlit("Cancel operation");
        reveal_strlit("Update default configuration");
        reveal_strlit("Update preset '");
        reveal_strlit("'");
        assert(v@.map_values(|s: String| s@) =~= spec_menu_options(preset@));
    }
    v
}

/// The target the menu answer selects: the entry chosen (None when the
/// menu was dismissed) names cancelling, the default configuration, or the
/// active preset.
pub fn target_from_menu(choice: Option<usize>, preset: &str) -> (r: Option<ConfigTarget>)
    ensures
        match choice {
            Some(1) => r == Some(ConfigTarget::Default),
            Some(2) => r matches Some(t) && target_view(t) == Some(preset@),
            _ => r is None,
        },
{
    match choice {
        Some(1) => Some(ConfigTarget::Default),
        Some(2) => Some(ConfigTarget::Preset(String::from_str(preset))),
        _ => None,
    }
}

/// Run the geo command's first step for `target` and `active_preset`.
pub fn run_geo_workflow(debug_enabled: bool, target: Option<String>, active_preset: Option<&str>) -> (r: (GeoWorkflow, TargetDecision))
    ensures
        r.0.debug_enabled == debug_enabled,
        r.0.target == target,
        match (target, active_preset) {
            (Some(n), _) => r.1 matches TargetDecision::Explicit(x) && x@ == n@,
            (None, Some(p)) => r.1 matches TargetDecision::Ask(x) && x@ == p@,
            (None, None) => r.1 == TargetDecision::Settled(ConfigTarget::Default),
        },
{
    let w = GeoWorkflow::new(debug_enabled, target);
    let d = w.determine_target(active_preset);
    (w, d)
}

} // verus!
