//! Shared pieces of lowering a primitive to a canonical action: the grasp
//! context threaded through a skill, the baseline envelope, descriptor clamps,
//! tactile-tier resolution and the symbolic pose forms.

use vstd::prelude::*;
use crate::canonical::{
    EnvelopeView, MotionBounds, PoseExpr, PoseView, ProxySpec, StabilityView, TactileTargetOut,
    TactileView, TimingHints, TimingMode, Envelope,
};
use crate::embodiment::Embodiment;
use crate::grasp_force::GraspMode;
use crate::json::{
    converts, converts_to_object, entries_get, entries_lookup, jv, jv_entries, obj_push, yaml_converts,
    yaml_json, yv, Derived, JView, JsonValue, YamlValue,
};
use crate::quantity::{spec_parses, spec_split, MarginExpr, Quantity, QuantityExpr};
use crate::skill_isa::{Compliance, TactileTargetArg};
use crate::stability::{spec_closure, spec_flags, spec_secured_dof, spec_stable_directions};
use crate::text::str_eq;

verus! {

/// The object held by the active grasp, as far as lowering needs it.
#[derive(Debug)]
pub struct HeldObject {
    /// The declared weight of the held object (a quantity known to parse).
    pub weight: Quantity,
    /// The closure mode of the active grasp.
    pub mode: GraspMode,
}

/// The grasp state threaded through the lowering of a skill.
#[derive(Debug)]
pub struct GraspContext {
    /// The object currently held, if its weight is known.
    pub held: Option<HeldObject>,
}

impl Default for GraspContext {
    /// No object held.
    fn default() -> (r: Self)
        ensures
            r.held is None,
    {
        GraspContext { held: None }
    }
}

impl QuantityExpr {
    /// A copy of the expression.
    pub fn copy(&self) -> (r: QuantityExpr)
        ensures
            r == *self,
    {
        match self {
            QuantityExpr::Given(q) => QuantityExpr::Given(q.copy()),
            QuantityExpr::ClampedToLimit { value, limit } => QuantityExpr::ClampedToLimit {
                value: value.copy(),
                limit: limit.copy(),
            },
            QuantityExpr::HoldingFloor { weight, mode } => QuantityExpr::HoldingFloor {
                weight: weight.copy(),
                mode: *mode,
            },
            QuantityExpr::RaisedToHoldingFloor { budget, limit, weight, mode } => {
                QuantityExpr::RaisedToHoldingFloor {
                    budget: budget.copy(),
                    limit: copy_opt(limit),
                    weight: weight.copy(),
                    mode: *mode,
                }
            },
            QuantityExpr::TransportAccel { weight, mode, payload, ceiling } => {
                QuantityExpr::TransportAccel {
                    weight: weight.copy(),
                    mode: *mode,
                    payload: payload.copy(),
                    ceiling: ceiling.copy(),
                }
            },
            QuantityExpr::CarryAccel { weight, mode, payload, ceiling, disturbance, margin } => {
                QuantityExpr::CarryAccel {
                    weight: weight.copy(),
                    mode: *mode,
                    payload: payload.copy(),
                    ceiling: ceiling.copy(),
                    disturbance: copy_opt(disturbance),
                    margin: copy_margin(margin),
                }
            },
            QuantityExpr::DisturbanceNewtons { disturbance } => QuantityExpr::DisturbanceNewtons {
                disturbance: copy_opt(disturbance),
            },
            QuantityExpr::ReactionLimit { budget, grip_max, mode } => QuantityExpr::ReactionLimit {
                budget: budget.copy(),
                grip_max: grip_max.copy(),
                mode: *mode,
            },
            QuantityExpr::ReactionTorqueLimit { budget, grip_max, mode } => {
                QuantityExpr::ReactionTorqueLimit {
                    budget: budget.copy(),
                    grip_max: grip_max.copy(),
                    mode: *mode,
                }
            },
        }
    }
}

/// A copy of an optional quantity.
pub fn copy_opt(q: &Option<Quantity>) -> (r: Option<Quantity>)
    ensures
        r == *q,
{
    match q {
        Some(x) => Some(x.copy()),
        None => None,
    }
}

/// A copy of an optional quantity reference.
pub fn copy_ref_opt(q: Option<&Quantity>) -> (r: Option<Quantity>)
    ensures
        match q {
            Some(x) => r == Some(*x),
            None => r is None,
        },
{
    match q {
        Some(x) => Some(x.copy()),
        None => None,
    }
}

fn copy_margin(m: &MarginExpr) -> (r: MarginExpr)
    ensures
        r == *m,
{
    match m {
        MarginExpr::Explicit(b) => MarginExpr::Explicit(*b),
        MarginExpr::Limit(n) => MarginExpr::Limit(*n),
        MarginExpr::Zero => MarginExpr::Zero,
    }
}

/// A copy of an optional grasp context entry.
pub fn copy_context(ctx: &GraspContext) -> (r: GraspContext)
    ensures
        r == *ctx,
{
    match &ctx.held {
        Some(h) => GraspContext { held: Some(HeldObject { weight: h.weight.copy(), mode: h.mode }) },
        None => GraspContext { held: None },
    }
}

/// Timing hints with the given mode and rest at the goal.
pub open spec fn spec_timing(mode: TimingMode) -> TimingHints {
    TimingHints { nominal_duration: None, timing_mode: mode, stop_at_goal: true }
}

/// Timing hints with the given mode and rest at the goal.
pub fn timing(mode: TimingMode) -> (r: TimingHints)
    ensures
        r == spec_timing(mode),
{
    TimingHints { nominal_duration: None, timing_mode: mode, stop_at_goal: true }
}

/// An optional quantity carried verbatim.
pub open spec fn given_opt(q: Option<Quantity>) -> Option<QuantityExpr> {
    match q {
        Some(x) => Some(QuantityExpr::Given(x)),
        None => None,
    }
}

/// The baseline envelope: motion bounds and stop time from the descriptor's
/// scalar limits, nothing else.
pub open spec fn spec_base_envelope(e: Embodiment) -> EnvelopeView {
    EnvelopeView {
        motion_bounds: MotionBounds {
            v_max: e.spec_scalar_limit("v_cartesian_max"@),
            a_max: given_opt(e.spec_scalar_limit("a_cartesian_max"@)),
            w_max: e.spec_scalar_limit("w_cartesian_max"@),
        },
        force_profile: None,
        station_keeping: None,
        clearance: None,
        compliance: None,
        stop_time: e.spec_scalar_limit("stop_time"@),
    }
}

/// `env` with the force profile `fp`.
pub open spec fn with_profile(env: EnvelopeView, fp: Option<JView>) -> EnvelopeView {
    EnvelopeView { force_profile: fp, ..env }
}

/// `env` with the compliance mode `c`.
pub open spec fn with_compliance(env: EnvelopeView, c: Option<Compliance>) -> EnvelopeView {
    EnvelopeView { compliance: spec_compliance_str(c), ..env }
}

/// The baseline envelope: motion bounds clamped to the descriptor's reach
/// limits, stop time from the descriptor.
pub fn base_envelope(e: &Embodiment) -> (r: Envelope)
    ensures
        r@ == spec_base_envelope(*e),
{
    let a_max = match e.scalar_limit("a_cartesian_max") {
        Some(q) => Some(QuantityExpr::Given(q.copy())),
        None => None,
    };
    Envelope {
        motion_bounds: MotionBounds {
            v_max: copy_ref_opt(e.scalar_limit("v_cartesian_max")),
            a_max,
            w_max: copy_ref_opt(e.scalar_limit("w_cartesian_max")),
        },
        force_profile: None,
        station_keeping: None,
        clearance: None,
        compliance: None,
        stop_time: copy_ref_opt(e.scalar_limit("stop_time")),
    }
}

/// The wire name of a compliance mode.
pub open spec fn spec_compliance_str(c: Option<Compliance>) -> Option<Seq<char>> {
    match c {
        Some(Compliance::Passive) => Some("passive"@),
        Some(Compliance::Active) => Some("active"@),
        Some(Compliance::Auto) => Some("auto"@),
        None => None,
    }
}

/// Map a compliance mode to its wire string for `Envelope.compliance`.
pub fn compliance_str(c: Option<Compliance>) -> (r: Option<String>)
    ensures
        crate::canonical::str_opt(r) == spec_compliance_str(c),
{
    match c {
        Some(Compliance::Passive) => Some("passive".to_owned()),
        Some(Compliance::Active) => Some("active".to_owned()),
        Some(Compliance::Auto) => Some("auto".to_owned()),
        None => None,
    }
}

/// The realized contact-confirmation criterion: `auto` is kept on a tactile
/// embodiment and degrades to the proxy `criterion` otherwise; an inline target
/// is carried through.
pub open spec fn spec_tactile(t: TactileTargetArg, e: Embodiment, criterion: Seq<char>) -> TactileView {
    match t {
        TactileTargetArg::Auto(_) => if e.spec_tactile_sensing() {
            TactileView::Auto
        } else {
            TactileView::Proxy("proxy"@, criterion)
        },
        TactileTargetArg::Other(v) => TactileView::Explicit(JView::Yaml(yv(v))),
    }
}

/// The realized contact-confirmation criterion.
pub fn tactile_out(t: &TactileTargetArg, e: &Embodiment, criterion: &str) -> (r: TactileTargetOut)
    ensures
        r@ == spec_tactile(*t, *e, criterion@),
{
    match t {
        TactileTargetArg::Auto(_) => if e.tactile_sensing() {
            TactileTargetOut::Auto
        } else {
            TactileTargetOut::Proxy {
                proxy: ProxySpec { tier: "proxy".to_owned(), criterion: criterion.to_owned() },
            }
        },
        TactileTargetArg::Other(v) => TactileTargetOut::Explicit(yaml_json(v)),
    }
}

/// Whether both texts are quantities with the same unit.
pub open spec fn same_unit(a: Seq<char>, b: Seq<char>) -> bool {
    match (spec_split(a), spec_split(b)) {
        (Some((_, ua)), Some((_, ub))) => ua == ub,
        _ => false,
    }
}

/// The descriptor limit a value is clamped against: the scalar limit at `key`
/// when it and the value are quantities in the same unit.
pub open spec fn spec_clamp_limit(value: Quantity, key: Seq<char>, e: Embodiment) -> Option<Quantity> {
    match e.spec_scalar_limit(key) {
        Some(l) => if same_unit(value@, l@) {
            Some(l)
        } else {
            None
        },
        None => None,
    }
}

/// A value clamped by magnitude to the scalar limit at `key`.
pub open spec fn spec_clamp(value: Quantity, key: Seq<char>, e: Embodiment) -> QuantityExpr {
    match spec_clamp_limit(value, key, e) {
        Some(l) => QuantityExpr::ClampedToLimit { value, limit: l },
        None => QuantityExpr::Given(value),
    }
}

fn units_match(a: &Quantity, b: &Quantity) -> (r: bool)
    ensures
        r == same_unit(a@, b@),
{
    match (a.split(), b.split()) {
        (Some((_, ua)), Some((_, ub))) => str_eq(ua.as_str(), ub.as_str()),
        _ => false,
    }
}

/// The limit a value is clamped against, if any.
pub fn clamp_limit(value: &Quantity, key: &str, e: &Embodiment) -> (r: Option<Quantity>)
    ensures
        r == spec_clamp_limit(*value, key@, *e),
{
    match e.scalar_limit(key) {
        Some(l) => if units_match(value, l) {
            Some(l.copy())
        } else {
            None
        },
        None => None,
    }
}

/// Clamp a force quantity to a descriptor scalar limit by magnitude (the smaller
/// is emitted); an absent or non-scalar limit, or one in another unit, leaves
/// the value as it is.
pub fn clamp_force(value: &Quantity, key: &str, e: &Embodiment) -> (r: QuantityExpr)
    ensures
        r == spec_clamp(*value, key@, *e),
{
    match clamp_limit(value, key, e) {
        Some(l) => QuantityExpr::ClampedToLimit { value: value.copy(), limit: l },
        None => QuantityExpr::Given(value.copy()),
    }
}

/// The stability class of a mode as the grasp-mode table gives it.
pub open spec fn spec_table_view(mode: GraspMode) -> StabilityView {
    StabilityView {
        closure: spec_closure(mode),
        secured_dof: spec_secured_dof(mode),
        stable_directions: spec_stable_directions(mode),
        flags: spec_flags(mode),
        residual_mobility: None,
        min_holding_force: None,
    }
}

/// The static grip floor of a held object.
pub open spec fn spec_floor(h: HeldObject) -> QuantityExpr {
    QuantityExpr::HoldingFloor { weight: h.weight, mode: h.mode }
}

/// The static grip floor of a held object.
pub fn holding_floor(h: &HeldObject) -> (r: QuantityExpr)
    ensures
        r == spec_floor(*h),
{
    QuantityExpr::HoldingFloor { weight: h.weight.copy(), mode: h.mode }
}

/// The continuity-floor entry of a force profile: `min_holding_force` of the
/// held object, when one is held.
pub open spec fn spec_floor_entries(ctx: GraspContext) -> Seq<(Seq<char>, JView)> {
    match ctx.held {
        Some(h) => seq![("min_holding_force"@, JView::Derived(Derived::Quantity(spec_floor(h))))],
        None => seq![],
    }
}

/// Force-profile entries holding the continuity floor of the held object.
pub fn floor_entries(ctx: &GraspContext) -> (r: Vec<(String, JsonValue)>)
    ensures
        jv_entries(r@) == spec_floor_entries(*ctx),
{
    let mut o: Vec<(String, JsonValue)> = Vec::new();
    assert(jv_entries(o@) =~= Seq::<(Seq<char>, JView)>::empty());
    if let Some(h) = &ctx.held {
        obj_push(&mut o, "min_holding_force", JsonValue::Derived(Derived::Quantity(holding_floor(h))));
    }
    o
}

/// The text of a YAML string (tags kept: a tagged value is not a string in JSON).
pub open spec fn json_text(v: YamlValue) -> Option<Seq<char>> {
    match v {
        YamlValue::String(s) => Some(s@),
        _ => None,
    }
}

/// A target carried as a frame-relative pose: a value that converts to a JSON
/// object gives its `frame` (default `task`) and `offset` (default `null`);
/// any other value is the offset in frame `task`.
pub open spec fn spec_frame_relative(v: YamlValue) -> PoseView {
    if converts_to_object(v) {
        let frame = match crate::json::object_field(v, "frame"@) {
            Some(f) => match json_text(f) {
                Some(t) => t,
                None => "task"@,
            },
            None => "task"@,
        };
        let offset = match crate::json::object_field(v, "offset"@) {
            Some(o) => JView::Yaml(yv(o)),
            None => JView::Null,
        };
        PoseView::FrameRelative(frame, offset)
    } else {
        PoseView::FrameRelative("task"@, JView::Yaml(yv(v)))
    }
}

/// A target carried as a frame-relative pose.
pub fn frame_relative(v: &YamlValue) -> (r: PoseExpr)
    ensures
        r@ == spec_frame_relative(*v),
{
    let obj = match v {
        YamlValue::Mapping(_) | YamlValue::Tagged(_, _) => yaml_converts(v),
        _ => false,
    };
    if obj {
        let (frame_v, offset_v) = match v {
            YamlValue::Mapping(es) => (entries_lookup(es, "frame"), entries_lookup(es, "offset")),
            _ => (None, None),
        };
        let frame = match frame_v {
            Some(YamlValue::String(s)) => s.clone(),
            _ => "task".to_owned(),
        };
        let offset = match offset_v {
            Some(o) => yaml_json(o),
            None => JsonValue::Null,
        };
        PoseExpr::FrameRelative { frame, offset }
    } else {
        PoseExpr::FrameRelative { frame: "task".to_owned(), offset: yaml_json(v) }
    }
}

/// An axis-relative motion of zero distance along a direction.
pub open spec fn spec_axis_zero(direction: JView) -> PoseView {
    PoseView::AxisRelative(direction, "0 mm"@)
}

/// An axis-relative motion of zero distance along a direction.
pub fn axis_zero(direction: JsonValue) -> (r: PoseExpr)
    ensures
        r@ == spec_axis_zero(jv(direction)),
{
    PoseExpr::AxisRelative { direction, distance: Quantity("0 mm".to_owned()) }
}

/// The JSON form of an optional direction, or the named default.
pub open spec fn spec_direction_or(d: Option<YamlValue>, default: Seq<char>) -> JView {
    match d {
        Some(v) => JView::Yaml(yv(v)),
        None => JView::Str(default),
    }
}

/// The JSON form of an optional direction, or the named default.
pub fn direction_or(d: &Option<YamlValue>, default: &str) -> (r: JsonValue)
    ensures
        jv(r) == spec_direction_or(*d, default@),
{
    match d {
        Some(v) => yaml_json(v),
        None => crate::json::jstr(default),
    }
}

/// A JSON object from entries built with [`obj_push`].
pub open spec fn spec_obj(entries: Seq<(Seq<char>, JView)>) -> JView {
    JView::Obj(entries)
}

/// The view of a weight table: let-names as text.
pub open spec fn weights_view(w: Seq<(String, Quantity)>) -> Seq<(Seq<char>, Quantity)> {
    w.map_values(|e: (String, Quantity)| (e.0@, e.1))
}

/// The weight recorded for a let-name (the last binding of that name wins).
pub open spec fn last_get(w: Seq<(Seq<char>, Quantity)>, key: Seq<char>) -> Option<Quantity>
    decreases w.len(),
{
    if w.len() == 0 {
        None
    } else if w.last().0 == key {
        Some(w.last().1)
    } else {
        last_get(w.drop_last(), key)
    }
}

/// The declared weight of a grasp target, when it is known and a quantity.
pub open spec fn spec_held_weight(w: Seq<(Seq<char>, Quantity)>, target: Seq<char>) -> Option<Quantity> {
    match last_get(w, target) {
        Some(q) => if spec_parses(q@) {
            Some(q)
        } else {
            None
        },
        None => None,
    }
}

/// The declared weight of a grasp target, when it is known and a quantity.
pub fn held_weight(w: &Vec<(String, Quantity)>, target: &str) -> (r: Option<Quantity>)
    ensures
        r == spec_held_weight(weights_view(w@), target@),
{
    let ghost wv = weights_view(w@);
    let mut i = w.len();
    assert(wv.take(i as int) =~= wv);
    while i > 0
        invariant
            0 <= i <= w@.len(),
            wv == weights_view(w@),
            last_get(wv, target@) == last_get(wv.take(i as int), target@),
        decreases i,
    {
        let ghost t = wv.take(i as int);
        assert(t.last() == wv[i - 1]);
        assert(t.drop_last() =~= wv.take(i - 1));
        if str_eq(w[i - 1].0.as_str(), target) {
            let q = &w[i - 1].1;
            if q.parses() {
                return Some(q.copy());
            } else {
                return None;
            }
        }
        i = i - 1;
    }
    None
}

} // verus!
