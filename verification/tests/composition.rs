use rfl_core::error::Error;
use rfl_core::json::YamlValue;
use rfl_core::quantity::Quantity;
use rfl_core::skill_isa::{
    axes_all, tactile_auto, Compliance, ForceInsertFit, ReachAlign, ReachRetract, SlipResponse, GraspHandle, GraspHook, GraspPin, GraspPinch, GraspPlatform,
    GraspPrecisionTripod, GraspRelease, InHandRegrasp, InHandRoll, InHandRotate,
    InHandTranslate, LetBind, Modality, ObjectDecl, Primitive, SenseLocate, Sequence, Skill,
    Statement, TransportMoveToPose,
};

fn q(s: &str) -> Quantity {
    Quantity(s.to_string())
}

fn y(s: &str) -> YamlValue {
    YamlValue::String(s.to_string())
}

fn skill(name: &str, stmts: Vec<Statement>) -> Skill {
    Skill {
        skill: name.to_string(),
        description: None,
        objects: vec![],
        body: Sequence { sequence: stmts },
    }
}

fn call(p: Primitive) -> Statement {
    Statement::Primitive(p)
}

fn bind(name: &str, p: Primitive) -> Statement {
    Statement::LetBind(LetBind { name: name.to_string(), from: Box::new(p) })
}

fn locate(target: &str) -> Primitive {
    Primitive::SenseLocate(SenseLocate { target_ref: target.to_string(), modality: Some(Modality::Auto) })
}

fn pinch(target: &str, budget: &str) -> Primitive {
    Primitive::GraspPinch(GraspPinch {
        target: target.to_string(),
        force_budget: q(budget),
        tactile_target: tactile_auto(),
        slip_response: None,
    })
}

fn pin(target: &str, surface: &str, budget: &str) -> Primitive {
    Primitive::GraspPin(GraspPin {
        target: target.to_string(),
        against_surface: surface.to_string(),
        force_budget: q(budget),
        tactile_target: tactile_auto(),
    })
}

fn platform(target: &str, load: &str) -> Primitive {
    Primitive::GraspPlatform(GraspPlatform {
        target: target.to_string(),
        load_budget: q(load),
        tactile_target: tactile_auto(),
    })
}

fn hook(target: &str, load: &str) -> Primitive {
    Primitive::GraspHook(GraspHook {
        target: target.to_string(),
        load_budget: q(load),
        load_direction: None,
        tactile_target: tactile_auto(),
    })
}

fn tripod(target: &str, budget: &str) -> Primitive {
    Primitive::GraspPrecisionTripod(GraspPrecisionTripod {
        target: target.to_string(),
        force_budget: q(budget),
        tactile_target: tactile_auto(),
        slip_response: None,
    })
}

fn handle(h: Option<&str>) -> Option<GraspHandle> {
    h.map(|n| GraspHandle::Ref(n.to_string()))
}

fn rotate(axis: &str, angle: &str, h: Option<&str>) -> Primitive {
    Primitive::InHandRotate(InHandRotate { axis: y(axis), angle: q(angle), grasp_handle: handle(h) })
}

fn translate(dir: &str, dist: &str) -> Primitive {
    Primitive::InHandTranslate(InHandTranslate {
        direction: y(dir),
        distance: q(dist),
        grasp_handle: None,
    })
}

fn roll(axis: &str, angle: &str) -> Primitive {
    Primitive::InHandRoll(InHandRoll { roll_axis: y(axis), angle: q(angle), grasp_handle: None })
}

fn release() -> Primitive {
    Primitive::GraspRelease(GraspRelease { grasp_handle: None })
}

fn move_to_dest() -> Primitive {
    Primitive::TransportMoveToPose(TransportMoveToPose {
        target_pose: YamlValue::Mapping(vec![(y("ref"), y("dest"))]),
    })
}

fn regrasp(mode: &str) -> Primitive {
    Primitive::InHandRegrasp(InHandRegrasp { target_mode: mode.to_string(), grasp_handle: None })
}

fn err_text(s: &Skill) -> String {
    match s.validate() {
        Err(e) => e.message(),
        Ok(()) => panic!("expected a validation failure"),
    }
}

/// The cable-insertion composition: locate, pinch, transport, locate, align,
/// insert, release, retract.
fn cable_skill() -> Skill {
    let pinch = Primitive::GraspPinch(GraspPinch {
        target: "connector_t".to_string(),
        force_budget: q("8 N"),
        tactile_target: tactile_auto(),
        slip_response: Some(SlipResponse::Retighten),
    });
    let transport = Primitive::TransportMoveToPose(TransportMoveToPose {
        target_pose: YamlValue::Mapping(vec![
            (y("frame"), y("receptacle")),
            (y("offset"), YamlValue::Mapping(vec![(y("along"), y("+z")), (y("distance"), y("50 mm"))])),
        ]),
    });
    let align = Primitive::ReachAlign(ReachAlign { target_frame: "receptacle".to_string(), axes: axes_all() });
    let insert = Primitive::ForceInsertFit(ForceInsertFit {
        target_fit: "receptacle_t".to_string(),
        force_budget: q("15 N"),
        compliance: Some(Compliance::Active),
        stop_condition: YamlValue::Mapping(vec![(y("seated"), YamlValue::Bool(true))]),
    });
    let retract = Primitive::ReachRetract(ReachRetract { direction: y("-tool_axis"), distance: q("30 mm") });
    Skill {
        skill: "cable-insertion".to_string(),
        description: None,
        objects: vec![
            (
                "connector".to_string(),
                ObjectDecl { object_ref: "connector".to_string(), estimated_mass: Some(q("1.45 N")) },
            ),
            (
                "receptacle".to_string(),
                ObjectDecl { object_ref: "receptacle".to_string(), estimated_mass: None },
            ),
        ],
        body: Sequence {
            sequence: vec![
                bind("connector_t", locate("connector")),
                call(pinch),
                call(transport),
                bind("receptacle_t", locate("receptacle")),
                call(align),
                call(insert),
                call(release()),
                call(retract),
            ],
        },
    }
}

#[test]
fn validate_accepts_unique_lets_and_rejects_duplicates() {
    assert!(cable_skill().validate().is_ok());
    let dup = skill("dup", vec![bind("x", locate("connector")), bind("x", locate("connector"))]);
    let err = err_text(&dup);
    assert!(err.contains("duplicate let-binding 'x'"), "got: {err}");
}

#[test]
fn stb3_rejects_free_transport_of_a_surface_bound_pin() {
    let bad = skill("pin-then-carry", vec![call(pin("part", "workbench", "8 N")), call(move_to_dest())]);
    let err = err_text(&bad);
    assert!(err.contains("transport_inadmissible"), "got: {err}");
    assert!(err.contains("Pin"), "names the surface_bound mode: {err}");
}

#[test]
fn stb3_accepts_release_before_transport_and_a_pinch_transport() {
    let released = skill(
        "pin-release-move",
        vec![call(pin("part", "workbench", "8 N")), call(release()), call(move_to_dest())],
    );
    assert!(released.validate().is_ok());
    let pinch_move = skill("pinch-move", vec![call(pinch("part", "8 N")), call(move_to_dest())]);
    assert!(pinch_move.validate().is_ok());
}

#[test]
fn stb3_rejects_free_transport_of_a_support_grasp() {
    let bad = skill("support-then-move", vec![call(platform("tray", "10 N")), call(move_to_dest())]);
    let err = err_text(&bad);
    assert!(err.contains("transport_inadmissible"), "got: {err}");
    assert!(err.contains("Platform"), "names the support mode: {err}");
    let ok = skill(
        "support-release-move",
        vec![call(platform("tray", "10 N")), call(release()), call(move_to_dest())],
    );
    assert!(ok.validate().is_ok());
}

#[test]
fn dof_admissibility_rejects_in_hand_on_form_held_and_rotation_constrained() {
    let hook_rotate = skill("hook-rotate", vec![call(hook("part", "12 N")), call(rotate("+z", "90 deg", None))]);
    let err = err_text(&hook_rotate);
    assert!(err.contains("rotation_inadmissible"), "got: {err}");
    assert!(err.contains("form_held"), "names the reason: {err}");
    let hook_translate = skill("hook-translate", vec![call(hook("part", "12 N")), call(translate("+x", "10 mm"))]);
    assert!(err_text(&hook_translate).contains("translation_inadmissible"));
    let tripod_rotate = skill("tripod-rotate", vec![call(tripod("part", "5 N")), call(roll("+y", "180 deg"))]);
    let err = err_text(&tripod_rotate);
    assert!(err.contains("roll_inadmissible"), "got: {err}");
    assert!(err.contains("rotation_constrained"), "names the reason: {err}");
}

#[test]
fn dof_admissibility_accepts_friction_held_and_tripod_translation() {
    let pinch_rotate = skill("pinch-rotate", vec![call(pinch("part", "8 N")), call(rotate("+z", "90 deg", None))]);
    assert!(pinch_rotate.validate().is_ok());
    let tripod_translate = skill("tripod-translate", vec![call(tripod("part", "5 N")), call(translate("+x", "10 mm"))]);
    assert!(tripod_translate.validate().is_ok());
}

#[test]
fn lifecycle_rejects_held_op_with_no_active_grasp() {
    let no_grasp = skill("rotate-nothing", vec![call(rotate("+z", "90 deg", None))]);
    let err = err_text(&no_grasp);
    assert!(err.contains("no_active_grasp"), "got: {err}");
    let free_move = skill("free-move", vec![call(move_to_dest())]);
    assert!(free_move.validate().is_ok());
}

#[test]
fn grasp_ref_supersession_rejects_a_stale_handle() {
    let stale = skill(
        "stale-handle",
        vec![bind("g", pinch("part", "8 N")), call(regrasp("pinch")), call(rotate("+z", "90 deg", Some("g")))],
    );
    let err = err_text(&stale);
    assert!(err.contains("grasp_ref_superseded"), "got: {err}");
    assert!(err.contains("'g'"), "names the handle: {err}");
    let live = skill("live-handle", vec![bind("g", pinch("part", "8 N")), call(rotate("+z", "90 deg", Some("g")))]);
    assert!(live.validate().is_ok());
}

#[test]
fn failure_texts_are_exact() {
    let dup = skill("dup", vec![bind("x", locate("a")), bind("x", locate("a"))]);
    assert!(matches!(dup.validate(), Err(Error::SkillIsa(ref m)) if m == "duplicate let-binding 'x'"));
    assert_eq!(err_text(&dup), "skill ISA error: duplicate let-binding 'x'");
    let hook_rotate = skill("h", vec![call(hook("part", "12 N")), call(rotate("+z", "90 deg", None))]);
    assert_eq!(
        err_text(&hook_rotate),
        "skill ISA error: rotation_inadmissible: a form_held grasp (Hook) is not movable in-hand (spec/01 § DOF-admissibility)"
    );
    let tripod_roll = skill("t", vec![call(tripod("part", "5 N")), call(roll("+y", "1 rad"))]);
    assert_eq!(
        err_text(&tripod_roll),
        "skill ISA error: roll_inadmissible: a rotation_constrained grasp (PrecisionTripod) resists in-hand rotation (spec/01 § DOF-admissibility)"
    );
    let none = skill("n", vec![call(release())]);
    assert_eq!(
        err_text(&none),
        "skill ISA error: no_active_grasp: a held-requiring primitive has no active grasp (spec/01 § Lifecycle transitions)"
    );
    let pin_move = skill("p", vec![call(pin("part", "bench", "8 N")), call(move_to_dest())]);
    assert_eq!(
        err_text(&pin_move),
        "skill ISA error: transport_inadmissible: a non-transportable grasp (Pin) cannot be freely transported (spec/05 STB3)"
    );
    let stale = skill("s", vec![bind("g", pinch("p", "8 N")), call(regrasp("pin")), call(rotate("+z", "9 deg", Some("g")))]);
    assert_eq!(
        err_text(&stale),
        "skill ISA error: grasp_ref_superseded: grasp handle 'g' was invalidated by a prior regrasp / handoff (spec/01 § GraspRef supersession)"
    );
}

#[test]
fn every_prefix_of_a_valid_composition_is_valid() {
    let full = cable_skill();
    assert!(full.validate().is_ok());
    let n = full.body.sequence.len();
    for k in 0..=n {
        let mut s = cable_skill();
        s.body.sequence.truncate(k);
        assert!(s.validate().is_ok(), "prefix of length {k}");
    }
}

#[test]
fn a_release_ends_the_active_grasp_and_the_first_violation_wins() {
    // the release clears the grasp, so the later rotation has nothing to move.
    let s = skill("r", vec![call(pinch("p", "8 N")), call(release()), call(rotate("+z", "90 deg", None))]);
    assert!(err_text(&s).contains("no_active_grasp"));
    // a duplicate binding is reported before the in-hand rule on the same statement.
    let s = skill("d", vec![bind("g", hook("p", "1 N")), bind("g", rotate("+z", "1 deg", None))]);
    assert!(err_text(&s).contains("duplicate let-binding 'g'"));
}

#[test]
fn regrasp_to_pin_makes_the_grasp_surface_bound() {
    let s = skill("rp", vec![call(pinch("p", "8 N")), call(regrasp("pin")), call(move_to_dest())]);
    assert!(err_text(&s).contains("(Pin)"));
    let s = skill("rq", vec![call(pinch("p", "8 N")), call(regrasp("anything")), call(move_to_dest())]);
    assert!(s.validate().is_ok());
}
