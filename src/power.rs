//! Validation of processor power-policy requests, and the settings changes
//! and report lines that a valid request leads to.
use vstd::prelude::*;
use vstd::string::StringExecFns;
use std::collections::HashMap;
use crate::text::{decimal_i32, parse_i32, same_text};

verus! {

broadcast use vstd::std_specs::hash::group_hash_axioms;

/// The processor power settings subgroup of a power scheme.
pub const PROCESSOR_SUBGROUP: &'static str = "54533251-82be-4824-96c1-47b60b740d00";

/// The processor performance boost mode setting.
pub const BOOST_GUID: &'static str = "be337238-0d82-4146-a960-4f3749d470c7";

/// The maximum processor state setting.
pub const MAX_PROC_GUID: &'static str = "bc5038f7-23e0-4960-96da-33abaf5935ec";

/// Why a power settings request was refused or failed.
#[derive(Debug, Clone, PartialEq, Eq)]
pub enum PowerError {
    NotAdmin,
    InvalidProcessorState,
    InvalidPowerType,
    InvalidBoostMode,
    CommandFailed(String),
    Other(String),
}

impl PowerError {
    /// The text shown for this error.
    pub fn message(&self) -> (r: String)
        ensures
            self is NotAdmin ==> r@ == "This function requires administrator privileges!"@,
            self is InvalidProcessorState ==> r@ == "Processor state cannot be set below 20%"@,
            self is InvalidPowerType ==> r@ == "Power type must be 'ac', 'dc', or 'both'"@,
            self is InvalidBoostMode ==> r@ == "Invalid boost mode"@,
            self is CommandFailed ==> r@ == "Command failed: "@ + self->CommandFailed_0@,
            self is Other ==> r@ == "Error: "@ + self->Other_0@,
    {
        match self {
            PowerError::NotAdmin => String::from_str(
                "This function requires administrator privileges!",
            ),
            PowerError::InvalidProcessorState => String::from_str(
                "Processor state cannot be set below 20%",
            ),
            PowerError::InvalidPowerType => String::from_str(
                "Power type must be 'ac', 'dc', or 'both'",
            ),
            PowerError::InvalidBoostMode => String::from_str("Invalid boost mode"),
            PowerError::CommandFailed(e) => String::from_str("Command failed: ").concat(e.as_str()),
            PowerError::Other(e) => String::from_str("Error: ").concat(e.as_str()),
        }
    }
}

/// Which power source a request applies to.
#[derive(Debug, Clone, Copy, PartialEq, Eq, Structural)]
pub enum PowerTarget {
    Ac,
    Dc,
    Both,
}

/// A validated request: a known boost mode, a maximum processor state in
/// 20..=100 percent, and the power sources it applies to.
#[derive(Debug, Clone, Copy, PartialEq, Eq, Structural)]
pub struct PowerRequest {
    pub boost_mode: i32,
    pub max_processor_state: i32,
    pub target: PowerTarget,
}

/// A setting of the processor subgroup that a request changes.
#[derive(Debug, Clone, Copy, PartialEq, Eq, Structural)]
pub enum PowerSetting {
    BoostMode,
    MaxProcessorState,
}

impl PowerSetting {
    /// The identifier of this setting in a power scheme.
    pub fn guid(&self) -> (r: &'static str)
        ensures
            *self is BoostMode ==> r == BOOST_GUID,
            *self is MaxProcessorState ==> r == MAX_PROC_GUID,
    {
        match self {
            PowerSetting::BoostMode => BOOST_GUID,
            PowerSetting::MaxProcessorState => MAX_PROC_GUID,
        }
    }
}

/// One change to the active power scheme: a setting's value for mains
/// (`on_ac`) or battery power, or making the changed scheme active.
#[derive(Debug, Clone, Copy, PartialEq, Eq, Structural)]
pub enum PowerStep {
    SetIndex { on_ac: bool, setting: PowerSetting, value: i32 },
    Activate,
}

impl PowerStep {
    /// The power configuration tool's command for this step.
    pub fn command(&self) -> (r: &'static str)
        ensures
            *self is Activate ==> r == "/setactive",
            *self is SetIndex && self->on_ac ==> r == "/setacvalueindex",
            *self is SetIndex && !self->on_ac ==> r == "/setdcvalueindex",
    {
        match self {
            PowerStep::SetIndex { on_ac: true, .. } => "/setacvalueindex",
            PowerStep::SetIndex { on_ac: false, .. } => "/setdcvalueindex",
            PowerStep::Activate => "/setactive",
        }
    }
}

/// The changes a request makes, in order: both settings for mains power,
/// then both for battery power (each where the target asks for it), then
/// activation.
pub open spec fn steps_for(r: PowerRequest) -> Seq<PowerStep> {
    let on = |ac: bool|
        seq![
            PowerStep::SetIndex { on_ac: ac, setting: PowerSetting::BoostMode, value: r.boost_mode },
            PowerStep::SetIndex {
                on_ac: ac,
                setting: PowerSetting::MaxProcessorState,
                value: r.max_processor_state,
            },
        ];
    match r.target {
        PowerTarget::Ac => on(true).push(PowerStep::Activate),
        PowerTarget::Dc => on(false).push(PowerStep::Activate),
        PowerTarget::Both => (on(true) + on(false)).push(PowerStep::Activate),
    }
}

/// The lines reported once a request with boost mode named `name` has been
/// applied to `target`.
pub open spec fn report_for(name: Seq<char>, target: PowerTarget) -> Seq<Seq<char>> {
    let head = seq!["Setting processor boost mode to: "@ + name];
    let ac = seq![
        "AC power boost mode updated successfully"@,
        "AC power maximum processor state updated successfully"@,
    ];
    let dc = seq![
        "DC power boost mode updated successfully"@,
        "DC power maximum processor state updated successfully"@,
    ];
    let tail = seq!["All power settings applied successfully!"@];
    match target {
        PowerTarget::Ac => head + ac + tail,
        PowerTarget::Dc => head + dc + tail,
        PowerTarget::Both => head + ac + dc + tail,
    }
}

/// The views of a list of strings.
pub open spec fn texts(v: Seq<String>) -> Seq<Seq<char>> {
    v.map_values(|s: String| s@)
}

fn push_setting_steps(steps: &mut Vec<PowerStep>, on_ac: bool, r: &PowerRequest)
    ensures
        final(steps)@ == old(steps)@ + seq![
            PowerStep::SetIndex { on_ac, setting: PowerSetting::BoostMode, value: r.boost_mode },
            PowerStep::SetIndex {
                on_ac,
                setting: PowerSetting::MaxProcessorState,
                value: r.max_processor_state,
            },
        ],
{
    steps.push(PowerStep::SetIndex { on_ac, setting: PowerSetting::BoostMode, value: r.boost_mode });
    steps.push(
        PowerStep::SetIndex {
            on_ac,
            setting: PowerSetting::MaxProcessorState,
            value: r.max_processor_state,
        },
    );
}

impl PowerRequest {
    /// The changes this request makes, as `steps_for` orders them.
    pub fn steps(&self) -> (r: Vec<PowerStep>)
        ensures
            r@ == steps_for(*self),
    {
        let mut steps: Vec<PowerStep> = Vec::new();
        match self.target {
            PowerTarget::Ac => push_setting_steps(&mut steps, true, self),
            PowerTarget::Dc => push_setting_steps(&mut steps, false, self),
            PowerTarget::Both => {
                push_setting_steps(&mut steps, true, self);
                push_setting_steps(&mut steps, false, self);
            },
        }
        steps.push(PowerStep::Activate);
        assert(steps@ =~= steps_for(*self));
        steps
    }
}

/// The power source named by an already lower-cased text.
pub open spec fn target_named(t: Seq<char>) -> Option<PowerTarget> {
    if t == "ac"@ {
        Some(PowerTarget::Ac)
    } else if t == "dc"@ {
        Some(PowerTarget::Dc)
    } else if t == "both"@ {
        Some(PowerTarget::Both)
    } else {
        None
    }
}

/// The answer to a request, checked in this order: privileges, the boost
/// mode as a number, the processor state as a number and its range, the power
/// type (already lower-cased), the boost mode among `modes`.
pub open spec fn request_outcome(
    admin: bool,
    modes: Map<i32, &'static str>,
    boost_mode: Seq<char>,
    max_processor_state: Seq<char>,
    power_type: Seq<char>,
) -> Result<PowerRequest, PowerError> {
    let b = decimal_i32(boost_mode);
    let m = decimal_i32(max_processor_state);
    if !admin {
        Err(PowerError::NotAdmin)
    } else if b is None {
        Err(PowerError::InvalidBoostMode)
    } else if m is None {
        Err(PowerError::InvalidProcessorState)
    } else if m->Some_0 < 20 || m->Some_0 > 100 {
        Err(PowerError::InvalidProcessorState)
    } else if target_named(power_type) is None {
        Err(PowerError::InvalidPowerType)
    } else if !modes.contains_key(b->Some_0) {
        Err(PowerError::InvalidBoostMode)
    } else {
        Ok(
            PowerRequest {
                boost_mode: b->Some_0,
                max_processor_state: m->Some_0,
                target: target_named(power_type)->Some_0,
            },
        )
    }
}

/// The boost modes a processor offers, by number.
pub open spec fn boost_mode_table() -> Map<i32, &'static str> {
    map![
        0i32 => "Disabled",
        1i32 => "Enabled",
        2i32 => "Aggressive",
        3i32 => "Efficient Enabled",
        4i32 => "Efficient Aggressive",
        5i32 => "Aggressive At Guaranteed",
        6i32 => "Efficient Aggressive At Guaranteed",
    ]
}

/// The power source named by `lowered`, which is already lower-cased.
pub fn power_target(lowered: &str) -> (r: Option<PowerTarget>)
    ensures
        r == target_named(lowered@),
{
    if same_text(lowered, "ac") {
        Some(PowerTarget::Ac)
    } else if same_text(lowered, "dc") {
        Some(PowerTarget::Dc)
    } else if same_text(lowered, "both") {
        Some(PowerTarget::Both)
    } else {
        None
    }
}

/// Names a text's lower-case form as `str::to_lowercase` gives it.
pub uninterp spec fn lower_of(s: Seq<char>) -> Seq<char>;

/// Relies on `str::to_lowercase`: the lower-case form depends on the
/// characters alone.
#[verifier::external_body]
fn lowercase(s: &str) -> (r: String)
    ensures
        r@ == lower_of(s@),
{
    s.to_lowercase()
}

/// Validates power settings requests against the processor's boost modes.
pub struct PowerService {
    pub boost_modes: HashMap<i32, &'static str>,
}

impl PowerService {
    /// A service that knows the seven standard boost modes.
    pub fn new() -> (s: PowerService)
        ensures
            s.boost_modes@ == boost_mode_table(),
    {
        let mut modes: HashMap<i32, &'static str> = HashMap::new();
        modes.insert(0, "Disabled");
        modes.insert(1, "Enabled");
        modes.insert(2, "Aggressive");
        modes.insert(3, "Efficient Enabled");
        modes.insert(4, "Efficient Aggressive");
        modes.insert(5, "Aggressive At Guaranteed");
        modes.insert(6, "Efficient Aggressive At Guaranteed");
        assert(modes@ =~= boost_mode_table());
        PowerService { boost_modes: modes }
    }

    /// The boost modes this service accepts, by number.
    pub fn get_available_boost_modes(&self) -> (r: HashMap<i32, &'static str>)
        ensures
            r@ == self.boost_modes@,
    {
        self.boost_modes.clone()
    }

    /// The lines reported once `request` has been applied.
    pub fn report_lines(&self, request: &PowerRequest) -> (r: Vec<String>)
        requires
            self.boost_modes@.contains_key(request.boost_mode),
        ensures
            texts(r@) == report_for(self.boost_modes@[request.boost_mode]@, request.target),
    {
        let name: &'static str = match self.boost_modes.get(&request.boost_mode) {
            Some(n) => *n,
            None => "",
        };
        let mut lines: Vec<String> = Vec::new();
        lines.push(String::from_str("Setting processor boost mode to: ").concat(name));
        if request.target != PowerTarget::Dc {
            lines.push(String::from_str("AC power boost mode updated successfully"));
            lines.push(String::from_str("AC power maximum processor state updated successfully"));
        }
        if request.target != PowerTarget::Ac {
            lines.push(String::from_str("DC power boost mode updated successfully"));
            lines.push(String::from_str("DC power maximum processor state updated successfully"));
        }
        lines.push(String::from_str("All power settings applied successfully!"));
        assert(texts(lines@) =~= report_for(name@, request.target));
        lines
    }

    /// Validates a request whose power type is already lower-cased.
    pub fn check_request(
        &self,
        is_admin: bool,
        boost_mode: &str,
        max_processor_state: &str,
        lowered_power_type: &str,
    ) -> (r: Result<PowerRequest, PowerError>)
        ensures
            r == request_outcome(
                is_admin,
                self.boost_modes@,
                boost_mode@,
                max_processor_state@,
                lowered_power_type@,
            ),
    {
        if !is_admin {
            return Err(PowerError::NotAdmin);
        }
        let b = match parse_i32(boost_mode) {
            Some(b) => b,
            None => return Err(PowerError::InvalidBoostMode),
        };
        let m = match parse_i32(max_processor_state) {
            Some(m) => m,
            None => return Err(PowerError::InvalidProcessorState),
        };
        if m < 20 || m > 100 {
            return Err(PowerError::InvalidProcessorState);
        }
        let target = match power_target(lowered_power_type) {
            Some(t) => t,
            None => return Err(PowerError::InvalidPowerType),
        };
        if !self.boost_modes.contains_key(&b) {
            return Err(PowerError::InvalidBoostMode);
        }
        Ok(PowerRequest { boost_mode: b, max_processor_state: m, target })
    }

    /// Validates a request: the caller's privileges, the boost mode and the
    /// maximum processor state as decimal numbers, the power type in any
    /// letter case.
    pub fn set_power_settings(
        &self,
        is_admin: bool,
        boost_mode: &str,
        max_processor_state: &str,
        power_type: &str,
    ) -> (r: Result<PowerRequest, PowerError>)
        ensures
            r == request_outcome(
                is_admin,
                self.boost_modes@,
                boost_mode@,
                max_processor_state@,
                lower_of(power_type@),
            ),
    {
        let lowered = lowercase(power_type);
        self.check_request(is_admin, boost_mode, max_processor_state, lowered.as_str())
    }
}

} // verus!
