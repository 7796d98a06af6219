//! Embodiment descriptor model: the capability manifest (for the capability
//! gate), `aux.tactile_sensing` (for tactile or proxy routing), the `limits`
//! that retargeting clamps envelope bounds to, the frame model, and the
//! non-contact sensors.

use vstd::prelude::*;
use crate::json::{untag, untag_ref, YamlNumber, YamlValue};
use crate::quantity::Quantity;
use crate::text::{distinct_keys, str_eq};

verus! {

/// A descriptor file: everything is wrapped under `embodiment:`.
#[derive(Debug)]
pub struct EmbodimentFile {
    /// The embodiment descriptor.
    pub embodiment: Embodiment,
}

/// An embodiment descriptor.
#[derive(Debug)]
pub struct Embodiment {
    /// Stable embodiment id.
    pub id: String,
    /// Embodiment class (free-form).
    pub class: Option<String>,
    /// The capability manifest.
    pub capabilities: Capabilities,
    /// The flat `limits.*` namespace, by key (distinct keys, ascending).
    pub limits: Vec<(String, LimitValue)>,
    /// Contact-sensor descriptor; absent on a no-tactile embodiment.
    pub tactile: Option<YamlValue>,
    /// Frame model.
    pub frames: Frames,
    /// Non-contact sensor descriptors keyed by sensor frame (distinct keys, ascending).
    pub sensors: Vec<(String, Sensor)>,
}

impl Embodiment {
    /// Well-formedness: the limit keys are distinct, and so are the sensor frames.
    pub open spec fn wf(&self) -> bool {
        distinct_keys(self.limits@) && distinct_keys(self.sensors@)
    }
}

/// The capability manifest.
#[derive(Debug)]
pub struct Capabilities {
    /// Declared primitive / mode / category capability keys.
    pub skills: Vec<String>,
    /// Auxiliary capabilities.
    pub aux: Aux,
}

/// Auxiliary capabilities.
#[derive(Debug)]
pub struct Aux {
    /// Whether the embodiment has contact sensing.
    pub tactile_sensing: Option<bool>,
    /// Declared compliance capability (carried as authored).
    pub compliance: Option<YamlValue>,
    /// Whether the embodiment declares hazardous-tool safety.
    pub tool_safety: Option<bool>,
    /// Whether the embodiment declares human-collaboration safety.
    pub human_collaboration_safety: Option<bool>,
}

/// The frame model: which control frame plays each role.
#[derive(Debug)]
pub struct Frames {
    /// The declared control frames.
    pub control_frames: Vec<String>,
    /// Which control frame plays each role.
    pub role_defaults: RoleDefaults,
}

/// Role-to-frame default assignments.
#[derive(Debug)]
pub struct RoleDefaults {
    /// Default grasp frame.
    pub grasp: Option<String>,
    /// Default sensor frame.
    pub sensor: Option<String>,
    /// Default tactile frame.
    pub tactile: Option<String>,
    /// Default support frame.
    pub support: Option<String>,
}

/// A non-contact sensor descriptor.
#[derive(Debug)]
pub struct Sensor {
    /// The sensor bore axis (e.g. `+z`).
    pub bore_axis: Option<String>,
    /// The angular field of view about the bore axis.
    pub fov: Option<Fov>,
}

/// The angular field of view `{h_angle, v_angle}` about the bore axis.
#[derive(Debug)]
pub struct Fov {
    /// Horizontal angle (the u direction).
    pub h_angle: Quantity,
    /// Vertical angle (the v direction).
    pub v_angle: Quantity,
}

/// A value in the `limits.*` namespace: a scalar quantity (`20 N`), a
/// `[lo, hi]` range, or any other shape carried as authored.
#[derive(Debug)]
pub enum LimitValue {
    /// A scalar quantity.
    Scalar(Quantity),
    /// A `[lo, hi]` range.
    Range(Vec<Quantity>),
    /// Any other shape (a bare ratio, a nested object).
    Other(YamlValue),
}

/// The value at `key` among keyed entries (the first entry with that key).
pub open spec fn keyed_get<T>(entries: Seq<(String, T)>, key: Seq<char>) -> Option<T>
    decreases entries.len(),
{
    if entries.len() == 0 {
        None
    } else if entries[0].0@ == key {
        Some(entries[0].1)
    } else {
        keyed_get(entries.drop_first(), key)
    }
}

/// With distinct keys, the value at an entry's key is that entry's value: the
/// first-match lookup is the map lookup.
pub proof fn lemma_keyed_get_distinct<T>(entries: Seq<(String, T)>, i: int)
    requires
        distinct_keys(entries),
        0 <= i < entries.len(),
    ensures
        keyed_get(entries, entries[i].0@) == Some(entries[i].1),
    decreases i,
{
    if i > 0 {
        let rest = entries.drop_first();
        assert(entries[0].0@ != entries[i].0@);
        assert forall|a: int, b: int| 0 <= a < b < rest.len() implies #[trigger] rest[a].0@
            != #[trigger] rest[b].0@ by {
            assert(rest[a] == entries[a + 1] && rest[b] == entries[b + 1]);
        }
        assert(rest[i - 1] == entries[i]);
        lemma_keyed_get_distinct(rest, i - 1);
    }
}

/// The index of the first entry with `key`.
pub fn keyed_index<T>(entries: &Vec<(String, T)>, key: &str) -> (r: Option<usize>)
    ensures
        match keyed_get(entries@, key@) {
            Some(x) => r matches Some(i) && i < entries@.len() && entries@[i as int].1 == x,
            None => r is None,
        },
{
    let mut i: usize = 0;
    assert(entries@.skip(0) =~= entries@);
    while i < entries.len()
        invariant
            0 <= i <= entries@.len(),
            keyed_get(entries@, key@) == keyed_get(entries@.skip(i as int), key@),
        decreases entries@.len() - i,
    {
        assert(entries@.skip(i as int)[0] == entries@[i as int]);
        if str_eq(entries[i].0.as_str(), key) {
            return Some(i);
        }
        assert(entries@.skip(i as int).drop_first() =~= entries@.skip(i + 1));
        i = i + 1;
    }
    None
}

/// Whether a name is among `names`, by text.
pub open spec fn names_contain(names: Seq<String>, key: Seq<char>) -> bool {
    exists|i: int| 0 <= i < names.len() && #[trigger] names[i]@ == key
}

/// Whether some name in `names` starts with `prefix`.
pub open spec fn names_with_prefix(names: Seq<String>, prefix: Seq<char>) -> bool {
    exists|i: int|
        0 <= i < names.len() && #[trigger] names[i]@.len() >= prefix.len() && names[i]@.take(
            prefix.len() as int,
        ) == prefix
}

/// Whether `s` starts with `prefix`.
fn starts_with(s: &str, prefix: &str) -> (r: bool)
    ensures
        r == (s@.len() >= prefix@.len() && s@.take(prefix@.len() as int) == prefix@),
{
    let n = prefix.unicode_len();
    if s.unicode_len() < n {
        return false;
    }
    let mut i: usize = 0;
    while i < n
        invariant
            0 <= i <= n,
            n == prefix@.len(),
            s@.len() >= n,
            forall|j: int| 0 <= j < i ==> s@[j] == prefix@[j],
        decreases n - i,
    {
        if s.get_char(i) != prefix.get_char(i) {
            assert(s@.take(n as int)[i as int] != prefix@[i as int]);
            return false;
        }
        i = i + 1;
    }
    assert(s@.take(n as int) =~= prefix@);
    true
}

/// The boolean flag value, `false` when undeclared.
pub open spec fn flag(b: Option<bool>) -> bool {
    match b {
        Some(x) => x,
        None => false,
    }
}

/// The text of an optional name, or `default` when absent.
pub open spec fn name_or(o: Option<String>, default: Seq<char>) -> Seq<char> {
    match o {
        Some(s) => s@,
        None => default,
    }
}

impl Embodiment {
    /// Whether a capability key is declared.
    pub open spec fn spec_has_skill(&self, key: Seq<char>) -> bool {
        names_contain(self.capabilities.skills@, key)
    }

    /// Whether `aux.tactile_sensing` is declared true.
    pub open spec fn spec_tactile_sensing(&self) -> bool {
        flag(self.capabilities.aux.tactile_sensing)
    }

    /// The scalar quantity at a limit key, when that limit is a scalar.
    pub open spec fn spec_scalar_limit(&self, key: Seq<char>) -> Option<Quantity> {
        match keyed_get(self.limits@, key) {
            Some(LimitValue::Scalar(q)) => Some(q),
            _ => None,
        }
    }

    /// The number at a limit key, when that limit is a bare number.
    pub open spec fn spec_ratio_limit(&self, key: Seq<char>) -> Option<YamlNumber> {
        match keyed_get(self.limits@, key) {
            Some(LimitValue::Other(v)) => match untag(v) {
                YamlValue::Number(n) => Some(n),
                _ => None,
            },
            _ => None,
        }
    }

    /// The default grasp frame (`grasp` when undeclared).
    pub open spec fn spec_grasp_frame(&self) -> Seq<char> {
        name_or(self.frames.role_defaults.grasp, "grasp"@)
    }

    /// The default sensor frame (`sensor` when undeclared).
    pub open spec fn spec_sensor_frame(&self) -> Seq<char> {
        name_or(self.frames.role_defaults.sensor, "sensor"@)
    }

    /// The default control frame: the first declared control frame (`control`
    /// when none is declared).
    pub open spec fn spec_control_frame(&self) -> Seq<char> {
        if self.frames.control_frames@.len() > 0 {
            self.frames.control_frames@[0]@
        } else {
            "control"@
        }
    }

    /// Whether a capability key (a primitive id, a grasp mode, or a category gate
    /// such as `transport`) is declared.
    pub fn has_skill(&self, key: &str) -> (r: bool)
        ensures
            r == self.spec_has_skill(key@),
    {
        let skills = &self.capabilities.skills;
        let mut i: usize = 0;
        while i < skills.len()
            invariant
                0 <= i <= skills@.len(),
                skills == &self.capabilities.skills,
                forall|j: int| 0 <= j < i ==> skills@[j]@ != key@,
            decreases skills@.len() - i,
        {
            if str_eq(skills[i].as_str(), key) {
                return true;
            }
            i = i + 1;
        }
        false
    }

    /// Whether some declared capability key starts with `prefix`.
    pub fn has_skill_prefix(&self, prefix: &str) -> (r: bool)
        ensures
            r == names_with_prefix(self.capabilities.skills@, prefix@),
    {
        let skills = &self.capabilities.skills;
        let mut i: usize = 0;
        while i < skills.len()
            invariant
                0 <= i <= skills@.len(),
                skills == &self.capabilities.skills,
                forall|j: int|
                    0 <= j < i ==> !(#[trigger] skills@[j]@.len() >= prefix@.len() && skills@[j]@.take(
                        prefix@.len() as int,
                    ) == prefix@),
            decreases skills@.len() - i,
        {
            if starts_with(skills[i].as_str(), prefix) {
                return true;
            }
            i = i + 1;
        }
        false
    }

    /// Whether the embodiment declares `aux.tactile_sensing: true`.
    pub fn tactile_sensing(&self) -> (r: bool)
        ensures
            r == self.spec_tactile_sensing(),
    {
        match self.capabilities.aux.tactile_sensing {
            Some(b) => b,
            None => false,
        }
    }

    /// Whether the embodiment declares hazardous-tool safety.
    pub fn has_tool_safety(&self) -> (r: bool)
        ensures
            r == flag(self.capabilities.aux.tool_safety),
    {
        match self.capabilities.aux.tool_safety {
            Some(b) => b,
            None => false,
        }
    }

    /// Whether the embodiment declares human-collaboration safety.
    pub fn has_human_collaboration_safety(&self) -> (r: bool)
        ensures
            r == flag(self.capabilities.aux.human_collaboration_safety),
    {
        match self.capabilities.aux.human_collaboration_safety {
            Some(b) => b,
            None => false,
        }
    }

    /// The scalar quantity at a limit key, if that limit is a scalar (not a range
    /// or another shape).
    pub fn scalar_limit(&self, key: &str) -> (r: Option<&Quantity>)
        ensures
            match self.spec_scalar_limit(key@) {
                Some(q) => r matches Some(x) && *x == q,
                None => r is None,
            },
    {
        match keyed_index(&self.limits, key) {
            Some(i) => match &self.limits[i].1 {
                LimitValue::Scalar(q) => Some(q),
                _ => None,
            },
            None => None,
        }
    }

    /// The number at a limit key, if that limit is a bare number (e.g. the
    /// default `stability_margin` ratio).
    pub fn ratio_limit(&self, key: &str) -> (r: Option<YamlNumber>)
        ensures
            r == self.spec_ratio_limit(key@),
    {
        match keyed_index(&self.limits, key) {
            Some(i) => match &self.limits[i].1 {
                LimitValue::Other(v) => match untag_ref(v) {
                    YamlValue::Number(n) => Some(*n),
                    _ => None,
                },
                _ => None,
            },
            None => None,
        }
    }

    /// The default grasp control frame (`frames.role_defaults.grasp`, e.g.
    /// `tcp_thumb`; `grasp` when undeclared).
    pub fn grasp_frame(&self) -> (r: &str)
        ensures
            r@ == self.spec_grasp_frame(),
    {
        match &self.frames.role_defaults.grasp {
            Some(s) => s.as_str(),
            None => "grasp",
        }
    }

    /// The default sensor frame (`frames.role_defaults.sensor`; `sensor` when undeclared).
    pub fn sensor_frame(&self) -> (r: &str)
        ensures
            r@ == self.spec_sensor_frame(),
    {
        match &self.frames.role_defaults.sensor {
            Some(s) => s.as_str(),
            None => "sensor",
        }
    }

    /// The default control frame: the first declared control frame (`control`
    /// when none is declared).
    pub fn control_frame(&self) -> (r: &str)
        ensures
            r@ == self.spec_control_frame(),
    {
        if self.frames.control_frames.len() > 0 {
            self.frames.control_frames[0].as_str()
        } else {
            "control"
        }
    }

    /// The field of view of a named sensor frame, if declared.
    pub fn sensor_fov(&self, frame: &str) -> (r: Option<&Fov>)
        ensures
            match keyed_get(self.sensors@, frame@) {
                Some(s) => match s.fov {
                    Some(f) => r matches Some(x) && *x == f,
                    None => r is None,
                },
                None => r is None,
            },
    {
        match keyed_index(&self.sensors, frame) {
            Some(i) => match &self.sensors[i].1.fov {
                Some(f) => Some(f),
                None => None,
            },
            None => None,
        }
    }
}

} // verus!
