//! Skill Instruction Set Architecture: the fifty manipulation primitives in
//! seven categories, a skill composition (a sequence of primitive calls and
//! let-binds), and the composition-validity rules checked before retargeting.

use vstd::prelude::*;
use crate::grasp_force::GraspMode;
use crate::json::YamlValue;
use crate::quantity::{F64Bits, Quantity};
use crate::region::ScanRegion;

verus! {

/// One of the seven primitive categories.
#[derive(Debug, Clone, Copy, PartialEq, Eq, Hash)]
pub enum Category {
    /// Reaching and approach primitives.
    Reach,
    /// Grasping primitives (pinch, power, hook, ...).
    Grasp,
    /// In-hand manipulation primitives.
    InHand,
    /// Transport primitives (carry, hand-off, ...).
    Transport,
    /// Placement primitives.
    Place,
    /// Force-controlled interaction primitives (insertion, screwing, ...).
    Force,
    /// Sensing-only primitives (probe, inspect, ...).
    Sense,
}

/// A canonical primitive identifier, e.g. `grasp.pinch`.
#[derive(Debug, Clone, PartialEq, Eq, Hash)]
pub struct PrimitiveId(pub String);

/// A reference to a let-bound value.
pub type Ref = String;

/// A calibrated frame name.
pub type FrameRef = String;

/// A direction: a signed named axis (`-tool_axis`), an inline unit vector, or a
/// let-reference, carried as authored.
pub type Direction = YamlValue;

/// A skill composition.
#[derive(Debug)]
pub struct Skill {
    /// Skill name.
    pub skill: String,
    /// Human-readable summary.
    pub description: Option<String>,
    /// Task object references keyed by local name (distinct names, ascending).
    pub objects: Vec<(String, ObjectDecl)>,
    /// The skill body.
    pub body: Sequence,
}

impl Skill {
    /// Well-formedness: the object names are distinct.
    pub open spec fn wf(&self) -> bool {
        crate::text::distinct_keys(self.objects@)
    }
}

/// A task object reference.
#[derive(Debug)]
pub struct ObjectDecl {
    /// The object identity this local name binds to.
    pub object_ref: String,
    /// The declared weight of the object, a known prior read by the grasp-force
    /// derivations.
    pub estimated_mass: Option<Quantity>,
}

/// An ordered composition.
#[derive(Debug)]
pub struct Sequence {
    /// The ordered statements.
    pub sequence: Vec<Statement>,
}

/// One statement of a sequence: a let-bind or a primitive call.
#[derive(Debug)]
pub enum Statement {
    /// A let-bind statement.
    LetBind(LetBind),
    /// A bare primitive call.
    Primitive(Primitive),
}

/// Bind `name` to the result of `from`, scoped over the rest of the sequence.
#[derive(Debug)]
pub struct LetBind {
    /// The bound identifier.
    pub name: String,
    /// The call whose result is bound.
    pub from: Box<Primitive>,
}

/// A primitive call.
#[derive(Debug)]
pub enum Primitive {
    /// `sense.locate`.
    SenseLocate(SenseLocate),
    /// `grasp.pinch`.
    GraspPinch(GraspPinch),
    /// `grasp.power`.
    GraspPower(GraspPower),
    /// `grasp.lateral`.
    GraspLateral(GraspLateral),
    /// `grasp.precision_tripod`.
    GraspPrecisionTripod(GraspPrecisionTripod),
    /// `grasp.hook`.
    GraspHook(GraspHook),
    /// `grasp.envelope`.
    GraspEnvelope(GraspEnvelope),
    /// `grasp.adjust`.
    GraspAdjust(GraspAdjust),
    /// `transport.move_to_pose`.
    TransportMoveToPose(TransportMoveToPose),
    /// `transport.lift`.
    TransportLift(TransportLift),
    /// `transport.lower`.
    TransportLower(TransportLower),
    /// `transport.follow_trajectory`.
    TransportFollowTrajectory(TransportFollowTrajectory),
    /// `place.put_down`.
    PlacePutDown(PlacePutDown),
    /// `place.stack`.
    PlaceStack(PlaceStack),
    /// `place.insert_loose`.
    PlaceInsertLoose(PlaceInsertLoose),
    /// `place.orient`.
    PlaceOrient(PlaceOrient),
    /// `place.hand_to`.
    PlaceHandTo(PlaceHandTo),
    /// `place.discard`.
    PlaceDiscard(PlaceDiscard),
    /// `reach.align`.
    ReachAlign(ReachAlign),
    /// `reach.to_pose`.
    ReachToPose(ReachToPose),
    /// `reach.approach`.
    ReachApproach(ReachApproach),
    /// `force.insert_fit`.
    ForceInsertFit(ForceInsertFit),
    /// `force.push`.
    ForcePush(ForcePush),
    /// `force.pull`.
    ForcePull(ForcePull),
    /// `force.scrub`.
    ForceScrub(ForceScrub),
    /// `grasp.release`.
    GraspRelease(GraspRelease),
    /// `reach.retract`.
    ReachRetract(ReachRetract),
    /// `reach.scan`.
    ReachScan(ReachScan),
    /// `reach.hover`.
    ReachHover(ReachHover),
    /// `sense.inspect`.
    SenseInspect(SenseInspect),
    /// `sense.probe`.
    SenseProbe(SenseProbe),
    /// `sense.verify`.
    SenseVerify(SenseVerify),
    /// `sense.weigh`.
    SenseWeigh(SenseWeigh),
    /// `force.screw`.
    ForceScrew(ForceScrew),
    /// `force.unscrew`.
    ForceUnscrew(ForceUnscrew),
    /// `transport.carry`.
    TransportCarry(TransportCarry),
    /// `force.press_button`.
    ForcePressButton(ForcePressButton),
    /// `force.wipe`.
    ForceWipe(ForceWipe),
    /// `force.snap_engage`.
    ForceSnapEngage(ForceSnapEngage),
    /// `force.cut`.
    ForceCut(ForceCut),
    /// `in_hand.flip`.
    InHandFlip(InHandFlip),
    /// `grasp.pin`.
    GraspPin(GraspPin),
    /// `grasp.platform`.
    GraspPlatform(GraspPlatform),
    /// `in_hand.regrasp`.
    InHandRegrasp(InHandRegrasp),
    /// `in_hand.pivot`.
    InHandPivot(InHandPivot),
    /// `in_hand.rotate`.
    InHandRotate(InHandRotate),
    /// `in_hand.translate`.
    InHandTranslate(InHandTranslate),
    /// `in_hand.roll`.
    InHandRoll(InHandRoll),
    /// `in_hand.slide`.
    InHandSlide(InHandSlide),
    /// `transport.handoff`.
    TransportHandoff(TransportHandoff),
}

/// `sense.locate` modality.
#[derive(Debug, Clone, Copy, PartialEq, Eq)]
pub enum Modality {
    /// Visual sensing.
    Visual,
    /// Tactile sensing.
    Tactile,
    /// Fused multi-modal sensing.
    Fused,
    /// Planner-selected best available.
    Auto,
}

/// `sense.locate` parameters.
#[derive(Debug)]
pub struct SenseLocate {
    /// The object identity whose pose is estimated.
    pub target_ref: Ref,
    /// Sensing modality (default auto).
    pub modality: Option<Modality>,
}

/// Reaction to detected slip.
#[derive(Debug, Clone, Copy, PartialEq, Eq)]
pub enum SlipResponse {
    /// Abort on slip.
    Abort,
    /// Retighten on slip.
    Retighten,
    /// Hold through slip.
    Hold,
}

/// A contact-confirmation criterion: the literal `auto`, or an inline target or
/// let-reference carried as authored.
#[derive(Debug)]
pub enum TactileTargetArg {
    /// The literal `auto`.
    Auto(AutoLiteral),
    /// An inline target or a let-reference.
    Other(YamlValue),
}

/// The literal string `auto`.
#[derive(Debug, Clone, Copy, PartialEq, Eq)]
pub enum AutoLiteral {
    /// `auto`.
    Auto,
}

impl TactileTargetArg {
    /// Whether this is the `auto` form.
    pub fn is_auto(&self) -> (r: bool)
        ensures
            r == (*self is Auto),
    {
        matches!(self, TactileTargetArg::Auto(_))
    }
}

/// The default contact-confirmation criterion, `auto`.
pub fn tactile_auto() -> (r: TactileTargetArg)
    ensures
        r is Auto,
{
    TactileTargetArg::Auto(AutoLiteral::Auto)
}

/// `grasp.pinch` parameters.
#[derive(Debug)]
pub struct GraspPinch {
    /// The object target to pinch.
    pub target: Ref,
    /// Max grip force.
    pub force_budget: Quantity,
    /// Contact-confirmation criterion (default auto).
    pub tactile_target: TactileTargetArg,
    /// Reaction to detected slip.
    pub slip_response: Option<SlipResponse>,
}

/// `grasp.power` parameters: a whole-volume force-closure enclosure.
#[derive(Debug)]
pub struct GraspPower {
    /// The object target to enclose.
    pub target: Ref,
    /// Max grip force.
    pub force_budget: Quantity,
    /// Contact-confirmation criterion (default auto).
    pub tactile_target: TactileTargetArg,
    /// Reaction to detected slip.
    pub slip_response: Option<SlipResponse>,
}

/// `grasp.lateral` parameters: a key-grip force closure across a thin dimension.
#[derive(Debug)]
pub struct GraspLateral {
    /// The object target to clamp.
    pub target: Ref,
    /// Max clamp force.
    pub force_budget: Quantity,
    /// Contact-confirmation criterion (default auto).
    pub tactile_target: TactileTargetArg,
    /// Reaction to detected slip.
    pub slip_response: Option<SlipResponse>,
}

/// `grasp.precision_tripod` parameters: a three-point force closure resisting
/// rotation about the grasp axis.
#[derive(Debug)]
pub struct GraspPrecisionTripod {
    /// The small object target to grasp.
    pub target: Ref,
    /// Max grip force.
    pub force_budget: Quantity,
    /// Contact-confirmation criterion (default auto).
    pub tactile_target: TactileTargetArg,
    /// Reaction to detected slip.
    pub slip_response: Option<SlipResponse>,
}

/// `grasp.hook` parameters: form closure on a hookable feature.
#[derive(Debug)]
pub struct GraspHook {
    /// The object target exposing a hookable feature.
    pub target: Ref,
    /// The load the engagement must support (clamped to `hook_load_capacity`).
    pub load_budget: Quantity,
    /// Primary supported load direction (default auto).
    pub load_direction: Option<Direction>,
    /// Contact-confirmation criterion (default auto).
    pub tactile_target: TactileTargetArg,
}

/// `grasp.envelope` sub-mode.
#[derive(Debug, Clone, Copy, PartialEq, Eq)]
pub enum EnvelopeMode {
    /// Compliant contact following the object shape.
    Conform,
    /// A geometric trap with clearance (residual mobility).
    Cage,
}

/// The default envelope sub-mode, `conform`.
pub fn envelope_mode_conform() -> (r: EnvelopeMode)
    ensures
        r == EnvelopeMode::Conform,
{
    EnvelopeMode::Conform
}

/// `grasp.envelope` parameters: a compliant or caging form-closure enclosure.
#[derive(Debug)]
pub struct GraspEnvelope {
    /// The object target to enclose.
    pub target: Ref,
    /// Gentle distributed enclosure force (clamped to `grip_force_max`).
    pub force_budget: Quantity,
    /// Enclosure sub-mode (default conform).
    pub mode: EnvelopeMode,
    /// (`cage` mode) allowed residual object mobility inside the enclosure.
    pub cage_clearance: Option<Quantity>,
    /// Contact-confirmation criterion (default auto).
    pub tactile_target: TactileTargetArg,
}

/// The grasp mode an envelope sub-mode establishes.
pub open spec fn spec_envelope_grasp_mode(m: EnvelopeMode) -> GraspMode {
    match m {
        EnvelopeMode::Conform => GraspMode::EnvelopeConform,
        EnvelopeMode::Cage => GraspMode::EnvelopeCage,
    }
}

impl GraspEnvelope {
    /// The grasp mode this envelope establishes (`conform` -> `EnvelopeConform`,
    /// `cage` -> `EnvelopeCage`).
    pub fn grasp_mode(&self) -> (r: GraspMode)
        ensures
            r == spec_envelope_grasp_mode(self.mode),
    {
        match self.mode {
            EnvelopeMode::Conform => GraspMode::EnvelopeConform,
            EnvelopeMode::Cage => GraspMode::EnvelopeCage,
        }
    }

    /// True for the `cage` sub-mode.
    pub fn is_cage(&self) -> (r: bool)
        ensures
            r == (self.mode == EnvelopeMode::Cage),
    {
        matches!(self.mode, EnvelopeMode::Cage)
    }
}

/// `grasp.adjust` parameters: modify the active grasp in place.
#[derive(Debug)]
pub struct GraspAdjust {
    /// The new grip force, if the adjustment changes it.
    pub new_force_budget: Option<Quantity>,
    /// Why the grasp is adjusted (e.g. `slip_recovery`); default `manual`.
    pub reason: Option<String>,
}

/// `grasp.pin` parameters: an extrinsic force closure against an external surface.
#[derive(Debug)]
pub struct GraspPin {
    /// The object target to pin.
    pub target: Ref,
    /// The external surface to pin the object against (a frame name).
    pub against_surface: FrameRef,
    /// Normal force pressing the object onto the surface.
    pub force_budget: Quantity,
    /// Contact-confirmation criterion (default auto).
    pub tactile_target: TactileTargetArg,
}

/// `grasp.platform` parameters: support closure over a support polygon.
#[derive(Debug)]
pub struct GraspPlatform {
    /// The object target to support.
    pub target: Ref,
    /// Max supported weight (clamped to `payload_support`).
    pub load_budget: Quantity,
    /// Contact-confirmation criterion (default auto).
    pub tactile_target: TactileTargetArg,
}

/// `in_hand.regrasp` parameters: transition a held object to another grasp
/// without releasing it (make-before-break).
#[derive(Debug)]
pub struct InHandRegrasp {
    /// The grasp mode to transition to, by name.
    pub target_mode: String,
    /// The current grasp to transition from (default active).
    pub grasp_handle: Option<GraspHandle>,
}

/// The grasp mode a mode name selects for a regrasp or a handoff receiver:
/// `pin`, `platform`, else `pinch`.
pub open spec fn spec_named_mode(name: Seq<char>) -> GraspMode {
    if name == "pin"@ {
        GraspMode::Pin
    } else if name == "platform"@ {
        GraspMode::Platform
    } else {
        GraspMode::Pinch
    }
}

/// The grasp mode named by `name`: `pin`, `platform`, else `pinch`.
fn named_mode(name: &str) -> (r: GraspMode)
    ensures
        r == spec_named_mode(name@),
{
    proof {
        reveal_strlit("pin");
        reveal_strlit("platform");
    }
    if crate::text::str_eq(name, "pin") {
        GraspMode::Pin
    } else if crate::text::str_eq(name, "platform") {
        GraspMode::Platform
    } else {
        GraspMode::Pinch
    }
}

impl InHandRegrasp {
    /// The target grasp mode (`pin` / `platform` / else `pinch`); an unknown name
    /// falls back to a force-closure contact swap.
    pub fn target_grasp_mode(&self) -> (r: GraspMode)
        ensures
            r == spec_named_mode(self.target_mode@),
    {
        named_mode(self.target_mode.as_str())
    }
}

/// `in_hand.pivot` parameters: pivot a held object about a single contact.
#[derive(Debug)]
pub struct InHandPivot {
    /// The axis of the pivot rotation, the single DOF deliberately released.
    pub pivot_axis: Direction,
    /// Target swing angle about `pivot_axis`.
    pub angle: Quantity,
    /// The established grasp providing the pivot contact (default active).
    pub grasp_handle: Option<GraspHandle>,
}

/// `in_hand.rotate` parameters: reorient a held object about `axis`.
#[derive(Debug)]
pub struct InHandRotate {
    /// Rotation axis, in the grasp frame.
    pub axis: Direction,
    /// Signed rotation magnitude.
    pub angle: Quantity,
    /// The established grasp to manipulate within (default active).
    pub grasp_handle: Option<GraspHandle>,
}

/// `in_hand.translate` parameters: shift a held object within the grasp.
#[derive(Debug)]
pub struct InHandTranslate {
    /// Translation direction, in the grasp frame.
    pub direction: Direction,
    /// Translation magnitude.
    pub distance: Quantity,
    /// The established grasp to manipulate within (default active).
    pub grasp_handle: Option<GraspHandle>,
}

/// `in_hand.roll` parameters: roll a held object through rolling contact.
#[derive(Debug)]
pub struct InHandRoll {
    /// Rolling axis, in the grasp frame.
    pub roll_axis: Direction,
    /// Signed roll magnitude.
    pub angle: Quantity,
    /// The established grasp to roll within (default active).
    pub grasp_handle: Option<GraspHandle>,
}

/// `in_hand.slide` parameters: slide a held object along one contact surface.
#[derive(Debug)]
pub struct InHandSlide {
    /// Direction of slip along the contact surface, in the grasp frame.
    pub slide_direction: Direction,
    /// What ends the slide; lowered into a monitor.
    pub stop_condition: YamlValue,
    /// The established grasp to slide within (default active).
    pub grasp_handle: Option<GraspHandle>,
}

/// `transport.handoff` parameters: transfer a held object to a partner effector.
#[derive(Debug)]
pub struct TransportHandoff {
    /// The partner effector receiving the object (a control-frame name).
    pub receiver: String,
    /// The grasp mode the receiver should form, by name (`auto`/absent -> pinch).
    pub receiver_mode: Option<String>,
    /// Max combined force during the dual-grasp window.
    pub cograsp_force_budget: Option<Quantity>,
    /// The giver's current grasp (default active).
    pub grasp_handle: Option<GraspHandle>,
}

/// The receiver's grasp mode of a handoff.
pub open spec fn spec_receiver_mode(m: Option<String>) -> GraspMode {
    match m {
        Some(name) => spec_named_mode(name@),
        None => GraspMode::Pinch,
    }
}

impl TransportHandoff {
    /// The receiver's grasp mode (`pin` / `platform` / else `pinch`; absent -> `pinch`).
    pub fn receiver_grasp_mode(&self) -> (r: GraspMode)
        ensures
            r == spec_receiver_mode(self.receiver_mode),
    {
        match &self.receiver_mode {
            Some(name) => named_mode(name.as_str()),
            None => GraspMode::Pinch,
        }
    }
}

/// `transport.lift` parameters: raise a held object vertically.
#[derive(Debug)]
pub struct TransportLift {
    /// Vertical lift distance.
    pub height: Quantity,
    /// The "up" direction (default −gravity).
    pub up_direction: Option<Direction>,
}

/// `transport.lower` parameters: lower a held object with controlled deceleration.
#[derive(Debug)]
pub struct TransportLower {
    /// Stop after a fixed descent (`height`) or on touchdown (default touchdown).
    pub stop_mode: Option<String>,
    /// (`height` mode) descent distance; absent = until touchdown.
    pub height: Option<Quantity>,
    /// Descent direction (default gravity).
    pub down_direction: Option<Direction>,
}

/// `transport.follow_trajectory` parameters.
#[derive(Debug)]
pub struct TransportFollowTrajectory {
    /// The parameterized path of the held object.
    pub trajectory: YamlValue,
    /// `strict` | `time_scalable` (default time_scalable).
    pub timing_mode: Option<String>,
}

/// `transport.move_to_pose` parameters.
#[derive(Debug)]
pub struct TransportMoveToPose {
    /// The target pose, an inline frame-relative object or a reference.
    pub target_pose: YamlValue,
}

/// `place.put_down` parameters.
#[derive(Debug)]
pub struct PlacePutDown {
    /// Where to place (default auto = the surface below).
    pub target_surface: Option<YamlValue>,
}

/// `place.stack` parameters.
#[derive(Debug)]
pub struct PlaceStack {
    /// The object or stack to place on top of.
    pub support_object: Ref,
    /// How to align over the support's top face (default centered).
    pub alignment: Option<String>,
}

/// `place.insert_loose` parameters.
#[derive(Debug)]
pub struct PlaceInsertLoose {
    /// The container to insert into.
    pub container: Ref,
}

/// `place.orient` parameters.
#[derive(Debug)]
pub struct PlaceOrient {
    /// The orientation the placed object must have.
    pub required_orientation: YamlValue,
    /// Where to place (default auto).
    pub target_surface: Option<YamlValue>,
}

/// `place.hand_to` parameters: hand a held object to a human.
#[derive(Debug)]
pub struct PlaceHandTo {
    /// Fraction of the object's weight the human must take before release.
    pub weight_transfer_threshold: Option<YamlValue>,
    /// Hard cap on force exchanged with the human.
    pub max_interaction_force: Option<Quantity>,
}

/// `place.discard` parameters: release a held object into a coarse zone.
#[derive(Debug)]
pub struct PlaceDiscard {
    /// The region the object must land within.
    pub discard_zone: YamlValue,
    /// Cap on release height above the landing surface.
    pub max_drop_height: Option<Quantity>,
}

/// A carry's disturbance budget: `Force | auto`.
#[derive(Debug)]
pub enum DisturbanceArg {
    /// The literal `auto`.
    Auto(AutoLiteral),
    /// An explicit force budget.
    Force(Quantity),
}

/// A carry's stability margin: `Ratio | auto` (`auto` = the descriptor default).
#[derive(Debug)]
pub enum StabilityMarginArg {
    /// The literal `auto`.
    Auto(AutoLiteral),
    /// An explicit headroom ratio (an IEEE double).
    Ratio(F64Bits),
}

/// `transport.carry` parameters.
#[derive(Debug)]
pub struct TransportCarry {
    /// `{to_pose: Pose6D}` or `{trajectory: T}`.
    pub motion: YamlValue,
    /// External perturbation the carry must reject.
    pub disturbance_budget: Option<DisturbanceArg>,
    /// Required holding-capacity headroom.
    pub stability_margin: Option<StabilityMarginArg>,
}

/// `reach.align` axes: the literal `all` or a list of principal axes.
#[derive(Debug)]
pub enum Axes {
    /// All three orientation axes.
    All(AllLiteral),
    /// A subset of principal axes.
    Listed(Vec<Axis>),
}

/// The literal string `all`.
#[derive(Debug, Clone, Copy, PartialEq, Eq)]
pub enum AllLiteral {
    /// `all`.
    All,
}

/// An unsigned principal axis.
#[derive(Debug, Clone, Copy, PartialEq, Eq)]
pub enum Axis {
    /// x.
    X,
    /// y.
    Y,
    /// z.
    Z,
}

/// `reach.to_pose` parameters.
#[derive(Debug)]
pub struct ReachToPose {
    /// The target pose, an inline frame-relative object or a reference.
    pub target_pose: YamlValue,
}

/// `reach.approach` parameters.
#[derive(Debug)]
pub struct ReachApproach {
    /// The surface to approach (a frame name).
    pub target: FrameRef,
    /// Terminal distance from the surface along its outward normal.
    pub standoff: Quantity,
    /// Controlled-frame axis aligned anti-parallel to the surface normal.
    pub approach_axis: Option<Direction>,
}

/// `reach.align` parameters.
#[derive(Debug)]
pub struct ReachAlign {
    /// Calibrated reference orientation frame.
    pub target_frame: FrameRef,
    /// Controlled-frame axes to bring parallel to `target_frame` (default all).
    pub axes: Axes,
}

/// The default alignment axes, `all`.
pub fn axes_all() -> (r: Axes)
    ensures
        r is All,
{
    Axes::All(AllLiteral::All)
}

/// Compliance mode.
#[derive(Debug, Clone, Copy, PartialEq, Eq)]
pub enum Compliance {
    /// Passive compliance.
    Passive,
    /// Active compliance.
    Active,
    /// Planner-selected.
    Auto,
}

/// `force.insert_fit` parameters.
#[derive(Debug)]
pub struct ForceInsertFit {
    /// The hole / socket / receptacle.
    pub target_fit: Ref,
    /// Max force along the insertion axis.
    pub force_budget: Quantity,
    /// Compliance mode required for the fit.
    pub compliance: Option<Compliance>,
    /// The seating stop condition, lowered into a monitor.
    pub stop_condition: YamlValue,
}

/// A grasp handle: the literal `active` or a let-reference.
#[derive(Debug)]
pub enum GraspHandle {
    /// The current grasp on the controlled frame.
    Active(ActiveLiteral),
    /// A let-reference to a grasp bound earlier.
    Ref(Ref),
}

/// The literal string `active`.
#[derive(Debug, Clone, Copy, PartialEq, Eq)]
pub enum ActiveLiteral {
    /// `active`.
    Active,
}

/// `grasp.release` parameters.
#[derive(Debug)]
pub struct GraspRelease {
    /// The grasp to release (default active).
    pub grasp_handle: Option<GraspHandle>,
}

/// `reach.retract` parameters.
#[derive(Debug)]
pub struct ReachRetract {
    /// Retreat direction.
    pub direction: Direction,
    /// Retreat travel along `direction`.
    pub distance: Quantity,
}

/// `reach.scan` sweep pattern.
#[derive(Debug, Clone, Copy, PartialEq, Eq)]
pub enum ScanPattern {
    /// Serpentine surface coverage (default).
    Raster,
    /// Caller-supplied poses verbatim.
    Waypoints,
    /// Archimedean spiral.
    Spiral,
    /// Swept arc.
    Arc,
}

/// `reach.scan` parameters.
#[derive(Debug)]
pub struct ReachScan {
    /// The region to cover.
    pub region: ScanRegion,
    /// Sensor-to-region distance maintained during the sweep.
    pub standoff: Quantity,
    /// Sweep pattern (default raster).
    pub pattern: Option<ScanPattern>,
    /// Sensor frame whose coverage matters (default the embodiment sensor frame).
    pub sensor_frame: Option<FrameRef>,
    /// Overlap between passes (an IEEE double ratio).
    pub coverage_overlap: Option<F64Bits>,
}

/// `reach.hover` parameters: sustained station-keeping at a standoff.
#[derive(Debug)]
pub struct ReachHover {
    /// The surface / frame to hover over.
    pub target: FrameRef,
    /// Maintained distance from `target` along its outward normal.
    pub standoff: Quantity,
    /// Hold duration (`Duration | until`).
    pub duration: Option<YamlValue>,
    /// Allowed positional excursion from the hover setpoint (default 2 mm).
    pub station_tolerance: Option<Quantity>,
    /// Max time to return within `station_tolerance` after a disturbance
    /// (`Duration | auto`).
    pub settling_time: Option<YamlValue>,
}

/// `sense.inspect` parameters.
#[derive(Debug)]
pub struct SenseInspect {
    /// What to observe.
    pub target: Ref,
    /// What to capture.
    pub observe: Option<Vec<String>>,
}

/// `sense.probe` parameters: a single light tactile contact.
#[derive(Debug)]
pub struct SenseProbe {
    /// Where to probe.
    pub target_pose: YamlValue,
    /// The light force at which contact is registered.
    pub contact_force: Quantity,
    /// What to measure on contact.
    pub measure: Option<Vec<String>>,
    /// Hard cap guaranteeing non-disturbance.
    pub max_probe_force: Option<Quantity>,
}

/// `sense.verify` parameters: check a predicate over external state.
#[derive(Debug)]
pub struct SenseVerify {
    /// The condition to check.
    pub predicate: YamlValue,
    /// Min confidence to assert true / false rather than indeterminate.
    pub confidence_threshold: Option<YamlValue>,
}

/// `sense.weigh` parameters: estimate the mass of a held object.
#[derive(Debug)]
pub struct SenseWeigh {
    /// `static` | `dynamic` | `auto` estimation method (default auto).
    pub method: Option<String>,
    /// What to estimate (default {mass}).
    pub measure: Option<Vec<String>>,
    /// The grasp holding the object to weigh (default active).
    pub grasp_handle: Option<GraspHandle>,
}

/// `force.screw` parameters.
#[derive(Debug)]
pub struct ForceScrew {
    /// The screw / thread axis.
    pub thread_axis: Direction,
    /// Max torque about `thread_axis`.
    pub torque_budget: Quantity,
    /// The completion condition, lowered into a monitor.
    pub completion: YamlValue,
    /// Rotation-to-advance coupling pitch.
    pub thread_pitch: Option<Quantity>,
    /// Whether a held tool transmits the torque.
    pub tool_mediated: Option<YamlValue>,
    /// Required compliance mode.
    pub compliance: Option<Compliance>,
    /// The grasp on the fastener or the driving tool.
    pub grasp_handle: Option<GraspHandle>,
}

/// `force.push` parameters: hold a directional force against a surface.
#[derive(Debug)]
pub struct ForcePush {
    /// The surface to push against (a frame name).
    pub target: FrameRef,
    /// The contact force to establish and hold.
    pub target_force: Quantity,
    /// Direction to apply force (default into the surface).
    pub push_direction: Option<Direction>,
    /// Required compliance mode.
    pub compliance: Option<Compliance>,
}

/// `force.pull` parameters: draw a held target toward the effector.
#[derive(Debug)]
pub struct ForcePull {
    /// Direction of tensile force, in the grasp frame.
    pub pull_direction: Direction,
    /// Max tensile force to apply.
    pub force_budget: Quantity,
    /// What ends the pull; lowered into a monitor.
    pub stop_condition: YamlValue,
    /// On a sudden resistance drop: `arrest` (default) or `continue`.
    pub breakaway_response: Option<String>,
    /// Required compliance mode.
    pub compliance: Option<Compliance>,
    /// The grasp on the target being pulled (default active).
    pub grasp_handle: Option<GraspHandle>,
}

/// `force.scrub` parameters: oscillate over a surface under regulated normal force.
#[derive(Debug)]
pub struct ForceScrub {
    /// The surface to scrub (a frame name).
    pub surface: FrameRef,
    /// Regulated contact force normal to the surface.
    pub normal_force: Quantity,
    /// Tangential oscillation amplitude.
    pub amplitude: Quantity,
    /// What ends the scrub; lowered into a monitor.
    pub completion: YamlValue,
    /// Required compliance mode.
    pub compliance: Option<Compliance>,
}

/// `force.press_button` parameters.
#[derive(Debug)]
pub struct ForcePressButton {
    /// The button surface / frame to press.
    pub target: FrameRef,
    /// What marks actuation: `detent` or an effort rise.
    pub actuation: YamlValue,
    /// Max press force.
    pub force_budget: Quantity,
    /// Required compliance mode.
    pub compliance: Option<Compliance>,
}

/// `force.wipe` parameters.
#[derive(Debug)]
pub struct ForceWipe {
    /// The surface / frame to wipe over.
    pub surface: FrameRef,
    /// The tangential path.
    pub wipe_path: YamlValue,
    /// The contact force to maintain normal to the surface.
    pub normal_force: Quantity,
    /// Allowed deviation of the maintained normal force (`Force | auto`).
    pub normal_force_tolerance: Option<YamlValue>,
    /// Required compliance mode.
    pub compliance: Option<Compliance>,
}

/// `force.snap_engage` parameters.
#[derive(Debug)]
pub struct ForceSnapEngage {
    /// The bistable mechanism / receptacle to engage.
    pub mate_feature: YamlValue,
    /// Direction to drive engagement.
    pub engage_direction: Direction,
    /// Max engagement force.
    pub force_budget: Quantity,
    /// What marks snap-in: `detent` (default) or an effort rise.
    pub snap_signature: Option<YamlValue>,
    /// Verify the bistable connection holds after engagement (default true).
    pub confirm_held: Option<bool>,
    /// Required compliance mode.
    pub compliance: Option<Compliance>,
}

/// `force.cut` parameters.
#[derive(Debug)]
pub struct ForceCut {
    /// The path along which to cut.
    pub cut_path: YamlValue,
    /// Max shear force.
    pub shear_force_budget: Quantity,
    /// The completion condition, lowered into a monitor.
    pub completion: YamlValue,
    /// Required compliance mode.
    pub compliance: Option<Compliance>,
}

/// `in_hand.flip` parameters: the only continuity-suspending primitive.
#[derive(Debug)]
pub struct InHandFlip {
    /// Reorientation axis, in the grasp frame.
    pub flip_axis: Direction,
    /// Reorientation magnitude.
    pub angle: Quantity,
    /// Hard upper bound on the unsecured window.
    pub max_release_time: Quantity,
    /// Region below the operation where an uncaught object lands safely.
    pub safe_drop_zone: YamlValue,
}

/// `force.unscrew` parameters.
#[derive(Debug)]
pub struct ForceUnscrew {
    /// The thread axis.
    pub thread_axis: Direction,
    /// Max loosening torque about `thread_axis`.
    pub torque_budget: Quantity,
    /// The completion condition (default disengagement).
    pub completion: Option<YamlValue>,
    /// Reverse rotation-to-retreat coupling pitch.
    pub thread_pitch: Option<Quantity>,
    /// Whether a held tool transmits the loosening torque.
    pub tool_mediated: Option<YamlValue>,
    /// Required compliance mode.
    pub compliance: Option<Compliance>,
    /// The grasp on the fastener or the driving tool.
    pub grasp_handle: Option<GraspHandle>,
    /// Freed-fastener disposition (default retain).
    pub on_disengagement: Option<YamlValue>,
}

/// The grasp mode a primitive establishes, if it forms a grasp: the grasp modes,
/// a regrasp's target mode, and a handoff receiver's mode.
pub open spec fn spec_establishes_grasp(p: Primitive) -> Option<GraspMode> {
    match p {
        Primitive::GraspPinch(_) => Some(GraspMode::Pinch),
        Primitive::GraspPower(_) => Some(GraspMode::Power),
        Primitive::GraspLateral(_) => Some(GraspMode::Lateral),
        Primitive::GraspPrecisionTripod(_) => Some(GraspMode::PrecisionTripod),
        Primitive::GraspHook(_) => Some(GraspMode::Hook),
        Primitive::GraspEnvelope(e) => Some(spec_envelope_grasp_mode(e.mode)),
        Primitive::GraspPin(_) => Some(GraspMode::Pin),
        Primitive::GraspPlatform(_) => Some(GraspMode::Platform),
        Primitive::InHandRegrasp(r) => Some(spec_named_mode(r.target_mode@)),
        Primitive::TransportHandoff(h) => Some(spec_receiver_mode(h.receiver_mode)),
        _ => None,
    }
}

/// Whether a primitive supersedes the active grasp (a regrasp or a handoff).
pub open spec fn spec_supersedes_grasp(p: Primitive) -> bool {
    p is InHandRegrasp || p is TransportHandoff
}

/// Whether a primitive releases the active grasp: `grasp.release` and every
/// `place.*` (each ends with a controlled release).
pub open spec fn spec_releases_grasp(p: Primitive) -> bool {
    ||| p is GraspRelease
    ||| p is PlacePutDown
    ||| p is PlaceStack
    ||| p is PlaceInsertLoose
    ||| p is PlaceOrient
    ||| p is PlaceHandTo
    ||| p is PlaceDiscard
}

/// Whether a primitive freely transports a held object through space.
pub open spec fn spec_is_free_transport(p: Primitive) -> bool {
    p is TransportMoveToPose || p is TransportCarry
}

/// Whether a primitive requires a held object: `in_hand.*`, `place.*`,
/// `transport.handoff`, `grasp.release`, `force.pull` and `sense.weigh`.
pub open spec fn spec_requires_held_grasp(p: Primitive) -> bool {
    ||| p is InHandFlip
    ||| p is InHandRegrasp
    ||| p is InHandPivot
    ||| p is InHandRotate
    ||| p is InHandTranslate
    ||| p is InHandRoll
    ||| p is InHandSlide
    ||| p is TransportHandoff
    ||| p is PlacePutDown
    ||| p is PlaceStack
    ||| p is PlaceInsertLoose
    ||| p is PlaceOrient
    ||| p is PlaceHandTo
    ||| p is PlaceDiscard
    ||| p is GraspRelease
    ||| p is ForcePull
    ||| p is SenseWeigh
}

/// The primitive's identifier in the Skill ISA, as a skill names it
/// (`category.name`, e.g. `transport.lift`).
pub open spec fn spec_isa_name(p: Primitive) -> Seq<char> {
    match p {
        Primitive::SenseLocate(_) => "sense.locate"@,
        Primitive::GraspPinch(_) => "grasp.pinch"@,
        Primitive::GraspPower(_) => "grasp.power"@,
        Primitive::GraspLateral(_) => "grasp.lateral"@,
        Primitive::GraspPrecisionTripod(_) => "grasp.precision_tripod"@,
        Primitive::GraspHook(_) => "grasp.hook"@,
        Primitive::GraspEnvelope(_) => "grasp.envelope"@,
        Primitive::GraspAdjust(_) => "grasp.adjust"@,
        Primitive::TransportMoveToPose(_) => "transport.move_to_pose"@,
        Primitive::TransportLift(_) => "transport.lift"@,
        Primitive::TransportLower(_) => "transport.lower"@,
        Primitive::TransportFollowTrajectory(_) => "transport.follow_trajectory"@,
        Primitive::PlacePutDown(_) => "place.put_down"@,
        Primitive::PlaceStack(_) => "place.stack"@,
        Primitive::PlaceInsertLoose(_) => "place.insert_loose"@,
        Primitive::PlaceOrient(_) => "place.orient"@,
        Primitive::PlaceHandTo(_) => "place.hand_to"@,
        Primitive::PlaceDiscard(_) => "place.discard"@,
        Primitive::ReachAlign(_) => "reach.align"@,
        Primitive::ReachToPose(_) => "reach.to_pose"@,
        Primitive::ReachApproach(_) => "reach.approach"@,
        Primitive::ForceInsertFit(_) => "force.insert_fit"@,
        Primitive::ForcePush(_) => "force.push"@,
        Primitive::ForcePull(_) => "force.pull"@,
        Primitive::ForceScrub(_) => "force.scrub"@,
        Primitive::GraspRelease(_) => "grasp.release"@,
        Primitive::ReachRetract(_) => "reach.retract"@,
        Primitive::ReachScan(_) => "reach.scan"@,
        Primitive::ReachHover(_) => "reach.hover"@,
        Primitive::SenseInspect(_) => "sense.inspect"@,
        Primitive::SenseProbe(_) => "sense.probe"@,
        Primitive::SenseVerify(_) => "sense.verify"@,
        Primitive::SenseWeigh(_) => "sense.weigh"@,
        Primitive::ForceScrew(_) => "force.screw"@,
        Primitive::ForceUnscrew(_) => "force.unscrew"@,
        Primitive::TransportCarry(_) => "transport.carry"@,
        Primitive::ForcePressButton(_) => "force.press_button"@,
        Primitive::ForceWipe(_) => "force.wipe"@,
        Primitive::ForceSnapEngage(_) => "force.snap_engage"@,
        Primitive::ForceCut(_) => "force.cut"@,
        Primitive::InHandFlip(_) => "in_hand.flip"@,
        Primitive::GraspPin(_) => "grasp.pin"@,
        Primitive::GraspPlatform(_) => "grasp.platform"@,
        Primitive::InHandRegrasp(_) => "in_hand.regrasp"@,
        Primitive::InHandPivot(_) => "in_hand.pivot"@,
        Primitive::InHandRotate(_) => "in_hand.rotate"@,
        Primitive::InHandTranslate(_) => "in_hand.translate"@,
        Primitive::InHandRoll(_) => "in_hand.roll"@,
        Primitive::InHandSlide(_) => "in_hand.slide"@,
        Primitive::TransportHandoff(_) => "transport.handoff"@,
    }
}

/// For an in-hand DOF move, its failure name and whether the moved DOF is rotational.
pub open spec fn spec_in_hand_move_kind(p: Primitive) -> Option<(Seq<char>, bool)> {
    match p {
        Primitive::InHandRotate(_) => Some(("rotation_inadmissible"@, true)),
        Primitive::InHandRoll(_) => Some(("roll_inadmissible"@, true)),
        Primitive::InHandPivot(_) => Some(("pivot_inadmissible"@, true)),
        Primitive::InHandTranslate(_) => Some(("translation_inadmissible"@, false)),
        Primitive::InHandSlide(_) => Some(("slide_inadmissible"@, false)),
        _ => None,
    }
}

/// The let-name a grasp handle references, when it is a reference.
pub open spec fn spec_handle_name(h: Option<GraspHandle>) -> Option<Seq<char>> {
    match h {
        Some(GraspHandle::Ref(name)) => Some(name@),
        _ => None,
    }
}

/// The let-bound grasp handle a primitive references, if any.
pub open spec fn spec_grasp_handle_ref(p: Primitive) -> Option<Seq<char>> {
    match p {
        Primitive::GraspRelease(x) => spec_handle_name(x.grasp_handle),
        Primitive::InHandRegrasp(x) => spec_handle_name(x.grasp_handle),
        Primitive::InHandPivot(x) => spec_handle_name(x.grasp_handle),
        Primitive::InHandRotate(x) => spec_handle_name(x.grasp_handle),
        Primitive::InHandTranslate(x) => spec_handle_name(x.grasp_handle),
        Primitive::InHandRoll(x) => spec_handle_name(x.grasp_handle),
        Primitive::InHandSlide(x) => spec_handle_name(x.grasp_handle),
        Primitive::TransportHandoff(x) => spec_handle_name(x.grasp_handle),
        Primitive::ForcePull(x) => spec_handle_name(x.grasp_handle),
        Primitive::SenseWeigh(x) => spec_handle_name(x.grasp_handle),
        _ => None,
    }
}

fn handle_name<'a>(h: &'a Option<GraspHandle>) -> (r: Option<&'a str>)
    ensures
        match spec_handle_name(*h) {
            Some(n) => r matches Some(x) && x@ == n,
            None => r is None,
        },
{
    match h {
        Some(GraspHandle::Ref(name)) => Some(name.as_str()),
        _ => None,
    }
}

impl Primitive {
    /// The grasp mode this primitive establishes, if it forms a grasp.
    pub fn establishes_grasp(&self) -> (r: Option<GraspMode>)
        ensures
            r == spec_establishes_grasp(*self),
    {
        match self {
            Primitive::GraspPinch(_) => Some(GraspMode::Pinch),
            Primitive::GraspPower(_) => Some(GraspMode::Power),
            Primitive::GraspLateral(_) => Some(GraspMode::Lateral),
            Primitive::GraspPrecisionTripod(_) => Some(GraspMode::PrecisionTripod),
            Primitive::GraspHook(_) => Some(GraspMode::Hook),
            Primitive::GraspEnvelope(p) => Some(p.grasp_mode()),
            Primitive::GraspPin(_) => Some(GraspMode::Pin),
            Primitive::GraspPlatform(_) => Some(GraspMode::Platform),
            Primitive::InHandRegrasp(r) => Some(r.target_grasp_mode()),
            Primitive::TransportHandoff(h) => Some(h.receiver_grasp_mode()),
            _ => None,
        }
    }

    /// True if this primitive supersedes the active grasp: it produces a new grasp
    /// that invalidates the originating handle (`in_hand.regrasp`, `transport.handoff`).
    pub fn supersedes_grasp(&self) -> (r: bool)
        ensures
            r == spec_supersedes_grasp(*self),
    {
        matches!(self, Primitive::InHandRegrasp(_) | Primitive::TransportHandoff(_))
    }

    /// True if this primitive releases the active grasp.
    pub fn releases_grasp(&self) -> (r: bool)
        ensures
            r == spec_releases_grasp(*self),
    {
        matches!(
            self,
            Primitive::GraspRelease(_) | Primitive::PlacePutDown(_) | Primitive::PlaceStack(_)
                | Primitive::PlaceInsertLoose(_) | Primitive::PlaceOrient(_)
                | Primitive::PlaceHandTo(_) | Primitive::PlaceDiscard(_)
        )
    }

    /// True if this primitive freely transports a held object through space.
    pub fn is_free_transport(&self) -> (r: bool)
        ensures
            r == spec_is_free_transport(*self),
    {
        matches!(self, Primitive::TransportMoveToPose(_) | Primitive::TransportCarry(_))
    }

    /// True if this primitive acts on a held object; using it with no active grasp
    /// is `no_active_grasp`. The base and vertical transports are excluded: a free
    /// move of the empty effector is legal.
    pub fn requires_held_grasp(&self) -> (r: bool)
        ensures
            r == spec_requires_held_grasp(*self),
    {
        matches!(
            self,
            Primitive::InHandFlip(_) | Primitive::InHandRegrasp(_) | Primitive::InHandPivot(_)
                | Primitive::InHandRotate(_) | Primitive::InHandTranslate(_)
                | Primitive::InHandRoll(_) | Primitive::InHandSlide(_)
                | Primitive::TransportHandoff(_) | Primitive::PlacePutDown(_)
                | Primitive::PlaceStack(_) | Primitive::PlaceInsertLoose(_)
                | Primitive::PlaceOrient(_) | Primitive::PlaceHandTo(_)
                | Primitive::PlaceDiscard(_) | Primitive::GraspRelease(_)
                | Primitive::ForcePull(_) | Primitive::SenseWeigh(_)
        )
    }

    /// For an in-hand DOF move, its `*_inadmissible` failure name and whether the
    /// moved DOF is rotational; `None` otherwise.
    pub fn in_hand_move_kind(&self) -> (r: Option<(&'static str, bool)>)
        ensures
            match spec_in_hand_move_kind(*self) {
                Some((n, rot)) => r matches Some((rn, rr)) && rn@ == n && rr == rot,
                None => r is None,
            },
    {
        proof {
            reveal_strlit("rotation_inadmissible");
            reveal_strlit("roll_inadmissible");
            reveal_strlit("pivot_inadmissible");
            reveal_strlit("translation_inadmissible");
            reveal_strlit("slide_inadmissible");
        }
        match self {
            Primitive::InHandRotate(_) => Some(("rotation_inadmissible", true)),
            Primitive::InHandRoll(_) => Some(("roll_inadmissible", true)),
            Primitive::InHandPivot(_) => Some(("pivot_inadmissible", true)),
            Primitive::InHandTranslate(_) => Some(("translation_inadmissible", false)),
            Primitive::InHandSlide(_) => Some(("slide_inadmissible", false)),
            _ => None,
        }
    }

    /// The let-bound grasp handle this primitive references, when its
    /// `grasp_handle` is a reference (not `active`).
    pub fn grasp_handle_ref(&self) -> (r: Option<&str>)
        ensures
            match spec_grasp_handle_ref(*self) {
                Some(n) => r matches Some(x) && x@ == n,
                None => r is None,
            },
    {
        match self {
            Primitive::GraspRelease(p) => handle_name(&p.grasp_handle),
            Primitive::InHandRegrasp(p) => handle_name(&p.grasp_handle),
            Primitive::InHandPivot(p) => handle_name(&p.grasp_handle),
            Primitive::InHandRotate(p) => handle_name(&p.grasp_handle),
            Primitive::InHandTranslate(p) => handle_name(&p.grasp_handle),
            Primitive::InHandRoll(p) => handle_name(&p.grasp_handle),
            Primitive::InHandSlide(p) => handle_name(&p.grasp_handle),
            Primitive::TransportHandoff(p) => handle_name(&p.grasp_handle),
            Primitive::ForcePull(p) => handle_name(&p.grasp_handle),
            Primitive::SenseWeigh(p) => handle_name(&p.grasp_handle),
            _ => None,
        }
    }
}

} // verus!
