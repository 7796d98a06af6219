//! Grasp stability class: the static stability a grasp establishes — its
//! closure type, how each object DOF is secured, the directions along which it
//! is stable, and the flags that gate downstream admissibility.
//!
//! [`StabilityMetadata::for_mode`] is the single authority for the mode to
//! metadata mapping; lowering, the composition checks, and the conformance
//! obligations all read it.

use vstd::prelude::*;
use crate::grasp_force::GraspMode;
use crate::quantity::QuantityExpr;
use crate::text::{distinct_keys, str_eq};

verus! {

/// The closure type that retains a held object.
#[derive(Debug, Clone, Copy, PartialEq, Eq)]
pub enum Closure {
    /// Squeezing / friction retains the object (pinch, power, pin).
    Force,
    /// Enclosing geometry retains it along stable directions (hook, envelope).
    Form,
    /// Gravity-and-friction balance over a support polygon (platform).
    Support,
}

/// How a single object DOF is secured by a grasp.
#[derive(Debug, Clone, Copy, PartialEq, Eq)]
pub enum DofSecuring {
    /// Geometrically fixed by enclosing form; not movable in-hand.
    FormHeld,
    /// Held by friction; movable in-hand under controlled slip.
    FrictionHeld,
    /// Held by gravity balance over a support polygon (support closure).
    BalanceHeld,
}

/// The single-variant literal backing the `"omnidirectional"` serialization.
#[derive(Debug, Clone, Copy, PartialEq, Eq)]
pub enum OmniLiteral {
    /// Serializes to the string `"omnidirectional"`.
    Omnidirectional,
}

/// The directions along which a grasp is stable.
#[derive(Debug, Clone, PartialEq)]
pub enum StableDirections {
    /// Stable in all directions.
    Omnidirectional(OmniLiteral),
    /// A named set of stable directions.
    Named(Vec<String>),
}

impl StableDirections {
    /// The view of a direction set: `None` for omnidirectional, else the names.
    pub open spec fn names(&self) -> Option<Seq<Seq<char>>> {
        match self {
            StableDirections::Omnidirectional(_) => None,
            StableDirections::Named(v) => Some(v@.map_values(|s: String| s@)),
        }
    }

    /// The omnidirectional case (every force-closure grasp).
    pub fn omnidirectional() -> (r: Self)
        ensures
            r == StableDirections::Omnidirectional(OmniLiteral::Omnidirectional),
    {
        StableDirections::Omnidirectional(OmniLiteral::Omnidirectional)
    }

    /// A set holding exactly one named direction.
    fn single(name: &str) -> (r: Self)
        ensures
            r.names() == Some(seq![name@]),
    {
        let mut v: Vec<String> = Vec::new();
        v.push(String::from_str(name));
        let r = StableDirections::Named(v);
        assert(r.names().unwrap() =~= seq![name@]);
        r
    }
}

/// Static stability flags a grasp declares; each defaults to false.
#[derive(Debug, Clone, Copy, PartialEq, Eq, Default)]
pub struct StabilityFlags {
    /// Opposed by an environment surface (pin) rather than self-contained.
    pub extrinsic: bool,
    /// Invalid if the support surface is lost; not freely transportable (pin).
    pub surface_bound: bool,
    /// Soft / conforming contact (envelope conform).
    pub compliant: bool,
    /// Resists torque about the grasp axis; rotation about it is form-held (tripod).
    pub rotation_constrained: bool,
}

impl StabilityFlags {
    /// No flag set.
    pub open spec fn none() -> StabilityFlags {
        StabilityFlags { extrinsic: false, surface_bound: false, compliant: false, rotation_constrained: false }
    }

    /// True when no flag is set (the common force-closure case).
    pub fn is_empty(&self) -> (r: bool)
        ensures
            r == (!self.extrinsic && !self.surface_bound && !self.compliant
                && !self.rotation_constrained),
    {
        !self.extrinsic && !self.surface_bound && !self.compliant && !self.rotation_constrained
    }
}

/// True iff the flag is clear (the predicate that omits an unset flag on the wire).
pub fn is_false(b: &bool) -> (r: bool)
    ensures
        r == !*b,
{
    !*b
}

/// Per-DOF securing, keyed by DOF label, in ascending key order.
#[derive(Debug, Clone, PartialEq)]
pub struct DofMap {
    /// The `(dof label, securing)` entries.
    pub entries: Vec<(String, DofSecuring)>,
}

impl DofMap {
    /// Well-formedness: each DOF label appears once.
    pub open spec fn wf(&self) -> bool {
        distinct_keys(self.entries@)
    }

    /// The entries as `(label, securing)` pairs.
    pub open spec fn view_entries(&self) -> Seq<(Seq<char>, DofSecuring)> {
        self.entries@.map_values(|e: (String, DofSecuring)| (e.0@, e.1))
    }

    /// The securing recorded for a DOF label, if any (first entry with that label).
    pub open spec fn lookup(entries: Seq<(Seq<char>, DofSecuring)>, key: Seq<char>) -> Option<DofSecuring>
        decreases entries.len(),
    {
        if entries.len() == 0 {
            None
        } else if entries[0].0 == key {
            Some(entries[0].1)
        } else {
            Self::lookup(entries.drop_first(), key)
        }
    }

    /// Whether some DOF is held with the given securing kind.
    pub open spec fn holds_any(&self, kind: DofSecuring) -> bool {
        exists|i: int| 0 <= i < self.entries@.len() && #[trigger] self.entries@[i].1 == kind
    }

    /// The securing recorded for `key`.
    pub fn get(&self, key: &str) -> (r: Option<&DofSecuring>)
        ensures
            r == match Self::lookup(self.view_entries(), key@) {
                Some(d) => Some(&d),
                None => None::<&DofSecuring>,
            },
    {
        let mut i: usize = 0;
        assert(self.view_entries().skip(0) =~= self.view_entries());
        while i < self.entries.len()
            invariant
                0 <= i <= self.entries@.len(),
                Self::lookup(self.view_entries(), key@) == Self::lookup(
                    self.view_entries().skip(i as int),
                    key@,
                ),
            decreases self.entries@.len() - i,
        {
            let ghost rest = self.view_entries().skip(i as int);
            assert(rest[0] == (self.entries@[i as int].0@, self.entries@[i as int].1));
            if str_eq(self.entries[i].0.as_str(), key) {
                return Some(&self.entries[i].1);
            }
            assert(rest.drop_first() =~= self.view_entries().skip(i + 1));
            i = i + 1;
        }
        None
    }

    /// Whether some DOF is form-held (not movable in-hand).
    pub fn has_form_held(&self) -> (r: bool)
        ensures
            r == self.holds_any(DofSecuring::FormHeld),
    {
        let mut i: usize = 0;
        while i < self.entries.len()
            invariant
                0 <= i <= self.entries@.len(),
                forall|j: int| 0 <= j < i ==> self.entries@[j].1 != DofSecuring::FormHeld,
            decreases self.entries@.len() - i,
        {
            if matches!(self.entries[i].1, DofSecuring::FormHeld) {
                return true;
            }
            i = i + 1;
        }
        false
    }

    fn one(key: &str, d: DofSecuring) -> (r: Self)
        ensures
            r.view_entries() == seq![(key@, d)],
            r.wf(),
    {
        let mut v: Vec<(String, DofSecuring)> = Vec::new();
        v.push((String::from_str(key), d));
        let r = DofMap { entries: v };
        assert(r.view_entries() =~= seq![(key@, d)]);
        r
    }

    fn two(k1: &str, d1: DofSecuring, k2: &str, d2: DofSecuring) -> (r: Self)
        requires
            k1@ != k2@,
        ensures
            r.view_entries() == seq![(k1@, d1), (k2@, d2)],
            r.wf(),
    {
        let mut v: Vec<(String, DofSecuring)> = Vec::new();
        v.push((String::from_str(k1), d1));
        v.push((String::from_str(k2), d2));
        let r = DofMap { entries: v };
        assert(r.view_entries() =~= seq![(k1@, d1), (k2@, d2)]);
        r
    }
}

/// The stability class a grasp establishes.
#[derive(Debug, Clone, PartialEq)]
pub struct StabilityMetadata {
    /// The closure type.
    pub closure: Closure,
    /// Per-DOF securing, in deterministic key order.
    pub secured_dof: DofMap,
    /// The directions along which the grasp is stable.
    pub stable_directions: StableDirections,
    /// Static admissibility flags.
    pub flags: StabilityFlags,
    /// A caged object's in-enclosure freedom (envelope cage); absent otherwise.
    pub residual_mobility: Option<crate::quantity::Quantity>,
    /// The grip floor below which the object drops; absent when the held
    /// object's weight is unknown at lowering time.
    pub min_holding_force: Option<QuantityExpr>,
}

/// The closure type of a mode.
pub open spec fn spec_closure(mode: GraspMode) -> Closure {
    match mode {
        GraspMode::Hook | GraspMode::EnvelopeConform | GraspMode::EnvelopeCage => Closure::Form,
        GraspMode::Platform => Closure::Support,
        _ => Closure::Force,
    }
}

/// The per-DOF securing of a mode, in ascending key order.
pub open spec fn spec_secured_dof(mode: GraspMode) -> Seq<(Seq<char>, DofSecuring)> {
    match mode {
        GraspMode::Pinch | GraspMode::Power | GraspMode::PrecisionTripod => seq![
            ("all_axes"@, DofSecuring::FrictionHeld),
        ],
        GraspMode::Lateral => seq![
            ("clamp_normal"@, DofSecuring::FrictionHeld),
            ("in_plane"@, DofSecuring::FrictionHeld),
        ],
        GraspMode::Hook => seq![("load_direction"@, DofSecuring::FormHeld)],
        GraspMode::EnvelopeConform | GraspMode::EnvelopeCage => seq![
            ("enclosure"@, DofSecuring::FrictionHeld),
        ],
        GraspMode::Pin => seq![("clamp_normal"@, DofSecuring::FrictionHeld)],
        GraspMode::Platform => seq![("support_normal"@, DofSecuring::BalanceHeld)],
    }
}

/// The stable directions of a mode: `None` for omnidirectional.
pub open spec fn spec_stable_directions(mode: GraspMode) -> Option<Seq<Seq<char>>> {
    match mode {
        GraspMode::Hook => Some(seq!["load_direction"@]),
        GraspMode::Pin => Some(seq!["against_surface.normal"@]),
        GraspMode::Platform => Some(seq!["support_normal"@]),
        _ => None,
    }
}

/// The static flags of a mode.
pub open spec fn spec_flags(mode: GraspMode) -> StabilityFlags {
    StabilityFlags {
        extrinsic: mode == GraspMode::Pin,
        surface_bound: mode == GraspMode::Pin,
        compliant: mode == GraspMode::EnvelopeConform,
        rotation_constrained: mode == GraspMode::PrecisionTripod,
    }
}

impl StabilityMetadata {
    /// The metadata equals the grasp-mode table entry for `mode` (with no
    /// weight-dependent floor and no residual mobility).
    pub open spec fn is_table_entry(&self, mode: GraspMode) -> bool {
        &&& self.closure == spec_closure(mode)
        &&& self.secured_dof.view_entries() == spec_secured_dof(mode)
        &&& self.stable_directions.names() == spec_stable_directions(mode)
        &&& self.flags == spec_flags(mode)
        &&& self.residual_mobility.is_none()
        &&& self.min_holding_force.is_none()
    }

    /// The static stability class a grasp mode establishes (the grasp-mode
    /// table). `min_holding_force` is left unset (weight-dependent).
    pub fn for_mode(mode: GraspMode) -> (m: Self)
        ensures
            m.is_table_entry(mode),
            m.secured_dof.wf(),
    {
        match mode {
            GraspMode::Pinch | GraspMode::Power => StabilityMetadata {
                closure: Closure::Force,
                secured_dof: DofMap::one("all_axes", DofSecuring::FrictionHeld),
                stable_directions: StableDirections::omnidirectional(),
                flags: StabilityFlags { extrinsic: false, surface_bound: false, compliant: false, rotation_constrained: false },
                residual_mobility: None,
                min_holding_force: None,
            },
            GraspMode::Lateral => StabilityMetadata {
                closure: Closure::Force,
                secured_dof: {
                    proof {
                        reveal_strlit("clamp_normal");
                        reveal_strlit("in_plane");
                        assert("clamp_normal"@[0] != "in_plane"@[0]);
                    }
                    DofMap::two(
                        "clamp_normal",
                        DofSecuring::FrictionHeld,
                        "in_plane",
                        DofSecuring::FrictionHeld,
                    )
                },
                stable_directions: StableDirections::omnidirectional(),
                flags: StabilityFlags { extrinsic: false, surface_bound: false, compliant: false, rotation_constrained: false },
                residual_mobility: None,
                min_holding_force: None,
            },
            GraspMode::PrecisionTripod => StabilityMetadata {
                closure: Closure::Force,
                secured_dof: DofMap::one("all_axes", DofSecuring::FrictionHeld),
                stable_directions: StableDirections::omnidirectional(),
                flags: StabilityFlags { extrinsic: false, surface_bound: false, compliant: false, rotation_constrained: true },
                residual_mobility: None,
                min_holding_force: None,
            },
            GraspMode::Hook => StabilityMetadata {
                closure: Closure::Form,
                secured_dof: DofMap::one("load_direction", DofSecuring::FormHeld),
                stable_directions: StableDirections::single("load_direction"),
                flags: StabilityFlags { extrinsic: false, surface_bound: false, compliant: false, rotation_constrained: false },
                residual_mobility: None,
                min_holding_force: None,
            },
            GraspMode::EnvelopeConform => StabilityMetadata {
                closure: Closure::Form,
                secured_dof: DofMap::one("enclosure", DofSecuring::FrictionHeld),
                stable_directions: StableDirections::omnidirectional(),
                flags: StabilityFlags { extrinsic: false, surface_bound: false, compliant: true, rotation_constrained: false },
                residual_mobility: None,
                min_holding_force: None,
            },
            GraspMode::EnvelopeCage => StabilityMetadata {
                closure: Closure::Form,
                secured_dof: DofMap::one("enclosure", DofSecuring::FrictionHeld),
                stable_directions: StableDirections::omnidirectional(),
                flags: StabilityFlags { extrinsic: false, surface_bound: false, compliant: false, rotation_constrained: false },
                residual_mobility: None,
                min_holding_force: None,
            },
            GraspMode::Pin => StabilityMetadata {
                closure: Closure::Force,
                secured_dof: DofMap::one("clamp_normal", DofSecuring::FrictionHeld),
                stable_directions: StableDirections::single("against_surface.normal"),
                flags: StabilityFlags { extrinsic: true, surface_bound: true, compliant: false, rotation_constrained: false },
                residual_mobility: None,
                min_holding_force: None,
            },
            GraspMode::Platform => StabilityMetadata {
                closure: Closure::Support,
                secured_dof: DofMap::one("support_normal", DofSecuring::BalanceHeld),
                stable_directions: StableDirections::single("support_normal"),
                flags: StabilityFlags { extrinsic: false, surface_bound: false, compliant: false, rotation_constrained: false },
                residual_mobility: None,
                min_holding_force: None,
            },
        }
    }
}

/// Only the hook holds a DOF by form. Every other mode secures its DOFs by
/// friction or balance; in particular the envelope cage traps its object by
/// friction over the same enclosure DOF as the conforming envelope.
pub proof fn lemma_only_hook_is_form_held(mode: GraspMode)
    ensures
        (exists|i: int|
            0 <= i < spec_secured_dof(mode).len() && #[trigger] spec_secured_dof(mode)[i].1
                == DofSecuring::FormHeld) <==> mode == GraspMode::Hook,
        spec_secured_dof(GraspMode::EnvelopeCage) == spec_secured_dof(GraspMode::EnvelopeConform),
{
    if mode == GraspMode::Hook {
        assert(spec_secured_dof(mode)[0].1 == DofSecuring::FormHeld);
    } else {
        assert forall|i: int| 0 <= i < spec_secured_dof(mode).len() implies #[trigger] spec_secured_dof(
            mode,
        )[i].1 != DofSecuring::FormHeld by {
            if mode == GraspMode::Lateral {
                assert(i == 0 || i == 1);
            } else {
                assert(i == 0);
            }
        }
    }
}

} // verus!
