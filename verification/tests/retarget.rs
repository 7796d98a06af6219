use rfl_core::canonical::{action_id, ExecuteGoal, PoseExpr, SweepExpr, TactileTargetOut, TimingMode};
use rfl_core::embodiment::{Aux, Capabilities, Embodiment, Fov, Frames, LimitValue, RoleDefaults, Sensor};
use rfl_core::grasp_force::GraspMode;
use rfl_core::json::{Derived, JsonValue, YamlNumber, YamlValue};
use rfl_core::lowering::GraspContext;
use rfl_core::lower_contact::lower_force_insert_fit;
use rfl_core::lower_grasp::{lower_grasp_pin, lower_grasp_pinch, lower_grasp_platform, lower_grasp_release};
use rfl_core::lower_motion::lower_reach_align;
use rfl_core::quantity::{F64Bits, MarginExpr, Quantity, QuantityExpr};
use rfl_core::region::ScanRegion;
use rfl_core::skill_isa::{
    axes_all, tactile_auto, Compliance, DisturbanceArg, EnvelopeMode, ForceCut, ForceInsertFit,
    ForcePressButton, ForceScrew, ForceSnapEngage, ForceUnscrew, ForceWipe, GraspEnvelope,
    GraspHandle, GraspPin, GraspPinch, GraspPlatform, GraspRelease, InHandFlip, LetBind, Modality, ObjectDecl, PlaceDiscard, PlaceHandTo,
    PlaceInsertLoose, PlaceOrient, PlacePutDown, PlaceStack, Primitive, ReachAlign, ReachHover, ReachRetract, ReachScan, ScanPattern,
    SenseLocate, Sequence, Skill, SlipResponse, StabilityMarginArg, Statement, TransportCarry,
    TransportMoveToPose,
};
use rfl_core::stability::{Closure, DofSecuring};
use rfl_core::translation::{build_weights, check_capability, retarget, RetargetOutput};

fn q(s: &str) -> Quantity {
    Quantity(s.to_string())
}

fn y(s: &str) -> YamlValue {
    YamlValue::String(s.to_string())
}

fn map(entries: Vec<(&str, YamlValue)>) -> YamlValue {
    YamlValue::Mapping(entries.into_iter().map(|(k, v)| (y(k), v)).collect())
}

fn strs(v: &[&str]) -> Vec<String> {
    v.iter().map(|s| s.to_string()).collect()
}

fn scalar(k: &str, v: &str) -> (String, LimitValue) {
    (k.to_string(), LimitValue::Scalar(q(v)))
}

fn descriptor(id: &str, skills: &[&str], tactile: bool, limits: Vec<(String, LimitValue)>, grasp: &str) -> Embodiment {
    Embodiment {
        id: id.to_string(),
        class: Some("dexterous_hand".to_string()),
        capabilities: Capabilities {
            skills: strs(skills),
            aux: Aux {
                tactile_sensing: Some(tactile),
                compliance: None,
                tool_safety: None,
                human_collaboration_safety: None,
            },
        },
        limits,
        tactile: None,
        frames: Frames {
            control_frames: strs(&["tcp_index", "tcp_thumb"]),
            role_defaults: RoleDefaults {
                grasp: Some(grasp.to_string()),
                sensor: Some("palm_cam".to_string()),
                tactile: None,
                support: None,
            },
        },
        sensors: vec![(
            "palm_cam".to_string(),
            Sensor {
                bore_axis: Some("+z".to_string()),
                fov: Some(Fov { h_angle: q("60 deg"), v_angle: q("45 deg") }),
            },
        )],
    }
}

/// A tactile dexterous hand with a 20 N grip.
fn allegro() -> Embodiment {
    descriptor(
        "wonik-allegro-v4",
        &["sense.locate", "grasp.pinch", "transport", "transport.carry", "force.insert_fit"],
        true,
        vec![
            scalar("a_cartesian_max", "1.5 m/s^2"),
            scalar("grip_force_max", "20 N"),
            scalar("payload_grasp_pinch", "3 N"),
            scalar("stop_time", "0.2 s"),
            scalar("v_cartesian_max", "0.25 m/s"),
        ],
        "tcp_thumb",
    )
}

/// A pneumatic gripper with no contact sensing and a 12 N grip.
fn pneumatic() -> Embodiment {
    descriptor(
        "generic-pneumatic-6f",
        &["sense.locate", "grasp.pinch", "transport", "force.insert_fit"],
        false,
        vec![
            scalar("a_cartesian_max", "0.8 m/s^2"),
            scalar("grip_force_max", "12 N"),
            scalar("payload_grasp_pinch", "1.5 N"),
        ],
        "palm",
    )
}

fn one(p: Primitive) -> Skill {
    Skill { skill: "t".to_string(), description: None, objects: vec![], body: Sequence { sequence: vec![Statement::Primitive(p)] } }
}

fn bind(name: &str, p: Primitive) -> Statement {
    Statement::LetBind(LetBind { name: name.to_string(), from: Box::new(p) })
}

fn locate(target: &str) -> Primitive {
    Primitive::SenseLocate(SenseLocate { target_ref: target.to_string(), modality: Some(Modality::Auto) })
}

fn pinch(target: &str, budget: &str) -> Primitive {
    Primitive::GraspPinch(GraspPinch {
        target: target.to_string(),
        force_budget: q(budget),
        tactile_target: tactile_auto(),
        slip_response: Some(SlipResponse::Retighten),
    })
}

fn cable_skill() -> Skill {
    let transport = Primitive::TransportMoveToPose(TransportMoveToPose {
        target_pose: map(vec![
            ("frame", y("receptacle")),
            ("offset", map(vec![("along", y("+z")), ("distance", y("50 mm"))])),
        ]),
    });
    let align = Primitive::ReachAlign(ReachAlign { target_frame: "receptacle".to_string(), axes: axes_all() });
    let insert = Primitive::ForceInsertFit(ForceInsertFit {
        target_fit: "receptacle_t".to_string(),
        force_budget: q("15 N"),
        compliance: Some(Compliance::Active),
        stop_condition: map(vec![(
            "all_of",
            YamlValue::Sequence(vec![map(vec![("effort_rise", y("3 N"))]), map(vec![("depth", y("4 mm"))])]),
        )]),
    });
    let retract = Primitive::ReachRetract(ReachRetract { direction: y("-tool_axis"), distance: q("50 mm") });
    Skill {
        skill: "cable-insertion".to_string(),
        description: None,
        objects: vec![
            ("connector".to_string(), ObjectDecl { object_ref: "connector".to_string(), estimated_mass: Some(q("1.45 N")) }),
            ("receptacle".to_string(), ObjectDecl { object_ref: "receptacle".to_string(), estimated_mass: None }),
        ],
        body: Sequence {
            sequence: vec![
                bind("connector_t", locate("connector")),
                Statement::Primitive(pinch("connector_t", "8 N")),
                Statement::Primitive(transport),
                bind("receptacle_t", locate("receptacle")),
                Statement::Primitive(align),
                Statement::Primitive(insert),
                Statement::Primitive(Primitive::GraspRelease(GraspRelease { grasp_handle: None })),
                Statement::Primitive(retract),
            ],
        },
    }
}

fn field<'a>(v: &'a JsonValue, key: &str) -> Option<&'a JsonValue> {
    match v {
        JsonValue::Object(es) => es.iter().rev().find(|(k, _)| k == key).map(|(_, x)| x),
        _ => None,
    }
}

fn text(v: Option<&JsonValue>) -> Option<&str> {
    match v {
        Some(JsonValue::String(s)) => Some(s.as_str()),
        Some(JsonValue::Yaml(YamlValue::String(s))) => Some(s.as_str()),
        _ => None,
    }
}

fn failure(s: &Skill, e: &Embodiment) -> String {
    match retarget(s, e) {
        Err(err) => err.message(),
        Ok(_) => panic!("expected a retargeting failure"),
    }
}

fn run(s: &Skill, e: &Embodiment) -> RetargetOutput {
    match retarget(s, e) {
        Ok(out) => out,
        Err(err) => panic!("retarget failed: {}", err.message()),
    }
}

fn holding_floor(weight: &str, mode: GraspMode) -> QuantityExpr {
    QuantityExpr::HoldingFloor { weight: q(weight), mode }
}

#[test]
fn full_skill_retargets_to_eight_actions() {
    let out = run(&cable_skill(), &allegro());
    assert_eq!(out.actions.len(), 8);
    assert_eq!(
        out.suffixes,
        vec!["locate", "pinch", "transport", "locate", "align", "insert_fit", "release", "retract"]
    );
}

#[test]
fn capability_absent_when_gate_key_missing() {
    let mut emb = allegro();
    emb.capabilities.skills.retain(|s| s != "grasp.pinch");
    let err = match retarget(&cable_skill(), &emb) {
        Err(e) => e,
        Ok(_) => panic!("expected failure"),
    };
    assert!(matches!(err, rfl_core::error::Error::Translation(_)));
    assert!(err.message().contains("capability_absent"));
    assert!(err.message().contains("grasp.pinch"));
    assert_eq!(err.message(), "translation error: capability_absent: grasp.pinch");
}

#[test]
fn release_clears_held_context() {
    let skill = cable_skill();
    let emb = allegro();
    let weights = build_weights(&skill);
    let mut ctx = GraspContext::default();
    let Statement::Primitive(Primitive::GraspPinch(p)) = &skill.body.sequence[1] else {
        panic!("expected grasp.pinch at index 1");
    };
    lower_grasp_pinch(p, &emb, &mut ctx, &weights);
    assert!(ctx.held.is_some());
    let Statement::Primitive(Primitive::GraspRelease(r)) = &skill.body.sequence[6] else {
        panic!("expected grasp.release at index 6");
    };
    lower_grasp_release(r, &emb, &mut ctx);
    assert!(ctx.held.is_none());
}

#[test]
fn held_transport_carries_the_holding_floor_and_the_dynamic_limit() {
    let out = run(&cable_skill(), &allegro());
    let fp = out.actions[2].safety_envelope.force_profile.as_ref().expect("held transport profile");
    assert_eq!(
        field(fp, "min_holding_force"),
        Some(&JsonValue::Derived(Derived::Quantity(holding_floor("1.45 N", GraspMode::Pinch))))
    );
    assert_eq!(
        out.actions[2].safety_envelope.motion_bounds.a_max,
        Some(QuantityExpr::TransportAccel {
            weight: q("1.45 N"),
            mode: GraspMode::Pinch,
            payload: q("3 N"),
            ceiling: q("1.5 m/s^2"),
        })
    );
    // after the release, the retract carries no floor.
    assert!(out.actions[7].safety_envelope.force_profile.is_none());
    assert_eq!(out.actions[7].safety_envelope.motion_bounds.a_max, Some(QuantityExpr::Given(q("1.5 m/s^2"))));
}

/// The pinch of the cable skill, lowered on its own with a fresh grasp context.
fn pinch_only(skill: &Skill, emb: &Embodiment) -> rfl_core::canonical::CanonicalAction {
    let Statement::Primitive(Primitive::GraspPinch(p)) = &skill.body.sequence[1] else {
        panic!("expected grasp.pinch at index 1");
    };
    let weights = build_weights(skill);
    let mut ctx = GraspContext::default();
    lower_grasp_pinch(p, emb, &mut ctx, &weights)
}

#[test]
fn pinch_clamps_force_and_keeps_manifold_tier_on_allegro() {
    let out = pinch_only(&cable_skill(), &allegro());
    // 8 N, clamped to grip_force_max 20 N and raised to the 1.45 N pinch floor: 8 N.
    assert_eq!(
        out.force_budget,
        Some(QuantityExpr::RaisedToHoldingFloor {
            budget: q("8 N"),
            limit: Some(q("20 N")),
            weight: q("1.45 N"),
            mode: GraspMode::Pinch,
        })
    );
    assert!(matches!(out.tactile_target, Some(TactileTargetOut::Auto)));
    assert_eq!(out.target_frame, "tcp_thumb");
}

#[test]
fn pinch_degrades_to_proxy_on_pneumatic() {
    let out = pinch_only(&cable_skill(), &pneumatic());
    // 8 N under grip_force_max 12 N.
    assert_eq!(
        out.force_budget,
        Some(QuantityExpr::RaisedToHoldingFloor {
            budget: q("8 N"),
            limit: Some(q("12 N")),
            weight: q("1.45 N"),
            mode: GraspMode::Pinch,
        })
    );
    assert_eq!(out.target_frame, "palm");
    match &out.tactile_target {
        Some(TactileTargetOut::Proxy { proxy }) => {
            assert_eq!(proxy.tier, "proxy");
            assert_eq!(proxy.criterion, "position_convergence_and_force_hold");
        },
        other => panic!("expected the proxy tier, got {other:?}"),
    }
}

#[test]
fn pinch_emits_min_holding_force_floor() {
    let out = pinch_only(&cable_skill(), &allegro());
    let fp = out.safety_envelope.force_profile.as_ref().expect("pinch force profile");
    // 1.45 N x k_holding(pinch) = 2.9 N.
    assert_eq!(
        field(fp, "min_holding_force"),
        Some(&JsonValue::Derived(Derived::Quantity(holding_floor("1.45 N", GraspMode::Pinch))))
    );
}

#[test]
fn pinch_emits_force_closure_grasp_stability() {
    let out = pinch_only(&cable_skill(), &allegro());
    let st = out.grasp_stability.as_ref().expect("a grasp action carries grasp_stability");
    assert_eq!(st.closure, Closure::Force);
    assert_eq!(st.secured_dof.get("all_axes"), Some(&DofSecuring::FrictionHeld));
    assert_eq!(st.min_holding_force, Some(holding_floor("1.45 N", GraspMode::Pinch)));
    assert!(st.flags.is_empty());
}

#[test]
fn non_grasp_action_omits_grasp_stability() {
    let skill = cable_skill();
    let Statement::Primitive(Primitive::ReachAlign(p)) = &skill.body.sequence[4] else {
        panic!("expected reach.align at index 4");
    };
    let a = lower_reach_align(p, &allegro());
    assert!(a.grasp_stability.is_none());
}

#[test]
fn pin_emits_surface_bound_extrinsic_grasp_stability() {
    let p = GraspPin {
        target: "part_t".to_string(),
        against_surface: "workbench".to_string(),
        force_budget: q("8 N"),
        tactile_target: tactile_auto(),
    };
    let a = lower_grasp_pin(&p, &allegro());
    let st = a.grasp_stability.as_ref().expect("pin carries grasp_stability");
    assert_eq!(st.closure, Closure::Force);
    assert!(st.flags.surface_bound && st.flags.extrinsic);
    // under grip_force_max 20 N: 8 N.
    assert_eq!(a.force_budget, Some(QuantityExpr::ClampedToLimit { value: q("8 N"), limit: q("20 N") }));
    let fp = a.safety_envelope.force_profile.as_ref().unwrap();
    assert_eq!(text(field(fp, "against_surface")), Some("workbench"));
}

#[test]
fn platform_emits_support_closure_and_controlled_lowering_safe_state() {
    let p = GraspPlatform { target: "tray".to_string(), load_budget: q("10 N"), tactile_target: tactile_auto() };
    let a = lower_grasp_platform(&p, &allegro());
    let st = a.grasp_stability.as_ref().expect("platform carries grasp_stability");
    assert_eq!(st.closure, Closure::Support);
    let fp = a.safety_envelope.force_profile.as_ref().unwrap();
    assert_eq!(text(field(fp, "safe_state")), Some("controlled_lowering"));
}

#[test]
fn insert_fit_lowers_stop_condition_into_monitors() {
    let skill = cable_skill();
    let Statement::Primitive(Primitive::ForceInsertFit(p)) = &skill.body.sequence[5] else {
        panic!("expected force.insert_fit at index 5");
    };
    let a = lower_force_insert_fit(p, &allegro(), &GraspContext::default());
    // no held object: unclamped.
    assert_eq!(a.force_budget, Some(QuantityExpr::Given(q("15 N"))));
    assert_eq!(a.safety_envelope.compliance.as_deref(), Some("active"));
    assert_eq!(a.monitors.len(), 1);
    let JsonValue::Yaml(cond) = &a.monitors[0].stop_condition else { panic!("carried stop condition") };
    let YamlValue::Mapping(es) = cond else { panic!("a mapping") };
    assert_eq!(es[0].0, y("all_of"));
    let YamlValue::Sequence(items) = &es[0].1 else { panic!("a sequence") };
    assert_eq!(items[0], map(vec![("effort_rise", y("3 N"))]));
    assert_eq!(items[1], map(vec![("depth", y("4 mm"))]));
}

#[test]
fn transport_carries_frame_relative_pose() {
    let out = run(&cable_skill(), &allegro());
    let PoseExpr::FrameRelative { frame, offset } = &out.actions[2].target_pose else {
        panic!("expected a frame-relative pose");
    };
    assert_eq!(frame, "receptacle");
    assert!(matches!(offset, JsonValue::Yaml(_)));
    assert_eq!(out.actions[2].timing.timing_mode, TimingMode::TimeScalable);
}

#[test]
fn align_emits_residual_directive() {
    let out = run(&cable_skill(), &allegro());
    let PoseExpr::OrientationAlign { align } = &out.actions[4].target_pose else {
        panic!("expected an alignment");
    };
    assert_eq!(align.residual, "min_geodesic_rotation");
    assert_eq!(align.target_frame, "receptacle");
    assert_eq!(align.axes, strs(&["x", "y", "z"]));
    assert_eq!(out.actions[4].target_frame, "tcp_index");
}

#[test]
fn insert_fit_reaction_limit_and_monitor() {
    let out = run(&cable_skill(), &allegro());
    let a = &out.actions[5];
    let expected = QuantityExpr::ReactionLimit { budget: q("15 N"), grip_max: q("20 N"), mode: GraspMode::Pinch };
    assert_eq!(a.force_budget, Some(expected.clone()));
    let fp = a.safety_envelope.force_profile.as_ref().unwrap();
    assert_eq!(field(fp, "axial"), Some(&JsonValue::Derived(Derived::Quantity(expected))));
    assert_eq!(a.monitors.len(), 1);
    assert_eq!(a.safety_envelope.compliance.as_deref(), Some("active"));
}

#[test]
fn retract_is_axis_relative() {
    let out = run(&cable_skill(), &allegro());
    let PoseExpr::AxisRelative { direction, distance } = &out.actions[7].target_pose else {
        panic!("expected an axis-relative pose");
    };
    assert_eq!(distance.0, "50 mm");
    assert!(matches!(direction, JsonValue::Yaml(YamlValue::String(s)) if s == "-tool_axis"));
}

#[test]
fn release_withdraws_along_the_tool_axis() {
    let out = run(&cable_skill(), &allegro());
    let PoseExpr::AxisRelative { direction, distance } = &out.actions[6].target_pose else {
        panic!("expected an axis-relative pose");
    };
    assert_eq!(distance.0, "0 mm");
    assert_eq!(direction, &JsonValue::String("-tool_axis".to_string()));
}

#[test]
fn every_action_rests_at_its_goal_under_the_descriptor_stop_time() {
    let out = run(&cable_skill(), &allegro());
    for (i, a) in out.actions.iter().enumerate() {
        assert!(a.timing.stop_at_goal);
        if out.suffixes[i] != "locate" {
            assert_eq!(a.safety_envelope.stop_time, Some(q("0.2 s")), "action {i}");
            assert_eq!(a.safety_envelope.motion_bounds.v_max, Some(q("0.25 m/s")), "action {i}");
        }
    }
}

fn screw() -> Primitive {
    Primitive::ForceScrew(ForceScrew {
        thread_axis: y("-z"),
        torque_budget: q("2 N·m"),
        completion: map(vec![(
            "all_of",
            YamlValue::Sequence(vec![
                map(vec![("effort_rise", y("1.5 N·m"))]),
                map(vec![("reached", map(vec![("advance", y("5 mm"))]))]),
            ]),
        )]),
        thread_pitch: Some(q("0.8 mm")),
        tool_mediated: Some(YamlValue::Bool(true)),
        compliance: Some(Compliance::Active),
        grasp_handle: Some(GraspHandle::Active(rfl_core::skill_isa::ActiveLiteral::Active)),
    })
}

#[test]
fn screw_lowers_torque_and_completion() {
    let out = run(&one(screw()), &with_skill(allegro(), "force.screw"));
    assert_eq!(out.suffixes, vec!["screw"]);
    let a = &out.actions[0];
    let fp = a.safety_envelope.force_profile.as_ref().unwrap();
    // no held tool: the torque is not clamped.
    assert_eq!(field(fp, "torque"), Some(&JsonValue::Derived(Derived::Quantity(QuantityExpr::Given(q("2 N·m"))))));
    let coupling = field(fp, "coupling").expect("thread coupling");
    assert_eq!(text(field(coupling, "advance_per_turn")), Some("0.8 mm"));
    assert_eq!(a.safety_envelope.compliance.as_deref(), Some("active"));
    let JsonValue::Yaml(YamlValue::Mapping(es)) = &a.monitors[0].stop_condition else { panic!("carried completion") };
    let YamlValue::Sequence(items) = &es[0].1 else { panic!("all_of") };
    assert_eq!(items[0], map(vec![("effort_rise", y("1.5 N·m"))]));
    assert_eq!(items[1], map(vec![("reached", map(vec![("advance", y("5 mm"))]))]));
    // the budget is a torque, carried in the force profile.
    assert!(a.force_budget.is_none());
}

#[test]
fn screw_capability_absent_when_not_declared() {
    let err = failure(&one(screw()), &allegro());
    assert!(err.contains("capability_absent: force.screw"), "got {err}");
}

#[test]
fn press_button_capability_absent_when_not_declared() {
    let p = Primitive::ForcePressButton(ForcePressButton {
        target: "button".to_string(),
        actuation: y("detent"),
        force_budget: q("5 N"),
        compliance: None,
    });
    let err = failure(&one(p), &allegro());
    assert!(err.contains("capability_absent: force.press_button"), "got {err}");
}

fn wipe() -> Primitive {
    Primitive::ForceWipe(ForceWipe {
        surface: "panel".to_string(),
        wipe_path: y("stroke_path"),
        normal_force: q("5 N"),
        normal_force_tolerance: Some(y("1 N")),
        compliance: None,
    })
}

#[test]
fn wipe_capability_absent_when_not_declared() {
    let err = failure(&one(wipe()), &allegro());
    assert!(err.contains("capability_absent: force.wipe"), "got {err}");
}

#[test]
fn snap_engage_capability_absent_when_not_declared() {
    let p = Primitive::ForceSnapEngage(ForceSnapEngage {
        mate_feature: y("clip"),
        engage_direction: y("+z"),
        force_budget: q("25 N"),
        snap_signature: None,
        confirm_held: Some(true),
        compliance: None,
    });
    let err = failure(&one(p), &allegro());
    assert!(err.contains("capability_absent: force.snap_engage"), "got {err}");
}

fn cut() -> Primitive {
    Primitive::ForceCut(ForceCut {
        cut_path: y("seam_path"),
        shear_force_budget: q("30 N"),
        completion: y("separation"),
        compliance: None,
    })
}

#[test]
fn cut_capability_absent_when_not_declared() {
    let err = failure(&one(cut()), &allegro());
    assert!(err.contains("capability_absent: force.cut"), "got {err}");
}

#[test]
fn cut_requires_tool_safety_capability() {
    let mut emb = descriptor("test-hand", &["force.cut"], false, vec![], "grasp");
    emb.frames.role_defaults.grasp = None;
    let err = failure(&one(cut()), &emb);
    assert!(err.contains("capability_absent: tool_safety"), "got {err}");
    emb.capabilities.aux.tool_safety = Some(true);
    let out = run(&one(cut()), &emb);
    assert_eq!(out.suffixes, vec!["cut"]);
    assert_eq!(out.actions[0].target_frame, "grasp");
    let fp = out.actions[0].safety_envelope.force_profile.as_ref().unwrap();
    assert_eq!(field(fp, "irreversible"), Some(&JsonValue::Bool(true)));
}

fn flip() -> Primitive {
    Primitive::InHandFlip(InHandFlip {
        flip_axis: y("+x"),
        angle: q("180 deg"),
        max_release_time: q("0.3 s"),
        safe_drop_zone: y("tray"),
    })
}

#[test]
fn flip_capability_absent_when_not_declared() {
    let err = failure(&one(flip()), &allegro());
    assert!(err.contains("capability_absent: in_hand.flip"), "got {err}");
}

#[test]
fn unscrew_capability_absent_when_gate_key_missing() {
    let p = Primitive::ForceUnscrew(ForceUnscrew {
        thread_axis: y("-z"),
        torque_budget: q("2 N·m"),
        completion: None,
        thread_pitch: None,
        tool_mediated: None,
        compliance: None,
        grasp_handle: None,
        on_disengagement: None,
    });
    let err = failure(&one(p), &allegro());
    assert!(err.contains("capability_absent: force.unscrew"), "got {err}");
}

#[test]
fn unscrew_lowers_to_torque_trajectory_with_disengagement_default() {
    let p = Primitive::ForceUnscrew(ForceUnscrew {
        thread_axis: y("-z"),
        torque_budget: q("2 N·m"),
        completion: None,
        thread_pitch: Some(q("0.8 mm")),
        tool_mediated: Some(YamlValue::Bool(true)),
        compliance: Some(Compliance::Active),
        grasp_handle: Some(GraspHandle::Active(rfl_core::skill_isa::ActiveLiteral::Active)),
        on_disengagement: Some(y("retain")),
    });
    let out = run(&one(p), &with_skill(allegro(), "force.unscrew"));
    assert_eq!(out.suffixes, vec!["unscrew"]);
    let a = &out.actions[0];
    let fp = a.safety_envelope.force_profile.as_ref().expect("force_profile");
    // unclamped: no tool held.
    assert_eq!(field(fp, "torque"), Some(&JsonValue::Derived(Derived::Quantity(QuantityExpr::Given(q("2 N·m"))))));
    assert_eq!(text(field(fp, "rotation_sense")), Some("loosen"));
    assert_eq!(text(field(fp, "on_disengagement")), Some("retain"));
    assert_eq!(a.monitors[0].stop_condition, JsonValue::Object(vec![("disengagement".to_string(), JsonValue::Bool(true))]));
}

#[test]
fn unscrew_defaults_to_retaining_the_fastener() {
    let out = run(&one(match_unscrew()), &with_skill(allegro(), "force.unscrew"));
    let fp = out.actions[0].safety_envelope.force_profile.as_ref().unwrap();
    assert_eq!(text(field(fp, "on_disengagement")), Some("retain"));
}

fn match_unscrew() -> Primitive {
    Primitive::ForceUnscrew(ForceUnscrew {
        thread_axis: y("-z"),
        torque_budget: q("2 N·m"),
        completion: None,
        thread_pitch: None,
        tool_mediated: None,
        compliance: None,
        grasp_handle: None,
        on_disengagement: None,
    })
}

fn carry_skill() -> Skill {
    let carry = Primitive::TransportCarry(TransportCarry {
        motion: map(vec![(
            "to_pose",
            map(vec![("frame", y("staging")), ("offset", map(vec![("along", y("+z")), ("distance", y("100 mm"))]))]),
        )]),
        disturbance_budget: Some(DisturbanceArg::Force(q("0.4 N"))),
        stability_margin: Some(StabilityMarginArg::Auto(rfl_core::skill_isa::AutoLiteral::Auto)),
    });
    Skill {
        skill: "cable-carry".to_string(),
        description: None,
        objects: vec![("connector".to_string(), ObjectDecl { object_ref: "connector".to_string(), estimated_mass: Some(q("1.45 N")) })],
        body: Sequence {
            sequence: vec![
                bind("connector_t", locate("connector")),
                Statement::Primitive(pinch("connector_t", "8 N")),
                Statement::Primitive(carry),
            ],
        },
    }
}

#[test]
fn carry_capability_absent_when_not_declared() {
    let mut emb = allegro();
    emb.capabilities.skills.retain(|s| s != "transport.carry");
    let err = failure(&carry_skill(), &emb);
    assert!(err.contains("capability_absent: transport.carry"), "got {err}");
}

#[test]
fn carry_emits_floor_disturbance_margin_and_clamps_a_max_on_allegro() {
    let mut emb = allegro();
    emb.limits.push(("stability_margin".to_string(), LimitValue::Other(YamlValue::Number(YamlNumber::Float(F64Bits(0.5f64.to_bits()))))));
    let out = run(&carry_skill(), &emb);
    let a = &out.actions[2];
    let PoseExpr::FrameRelative { frame, .. } = &a.target_pose else { panic!("frame-relative") };
    assert_eq!(frame, "staging");
    let fp = a.safety_envelope.force_profile.as_ref().unwrap();
    assert_eq!(field(fp, "min_holding_force"), Some(&JsonValue::Derived(Derived::Quantity(holding_floor("1.45 N", GraspMode::Pinch)))));
    assert_eq!(
        field(fp, "disturbance_budget"),
        Some(&JsonValue::Derived(Derived::Quantity(QuantityExpr::DisturbanceNewtons { disturbance: Some(q("0.4 N")) })))
    );
    let margin = MarginExpr::Limit(YamlNumber::Float(F64Bits(0.5f64.to_bits())));
    assert_eq!(field(fp, "stability_margin"), Some(&JsonValue::Derived(Derived::Margin(margin.clone()))));
    assert_eq!(
        a.safety_envelope.motion_bounds.a_max,
        Some(QuantityExpr::CarryAccel {
            weight: q("1.45 N"),
            mode: GraspMode::Pinch,
            payload: q("3 N"),
            ceiling: q("1.5 m/s^2"),
            disturbance: Some(q("0.4 N")),
            margin,
        })
    );
}

fn hover(settling: Option<YamlValue>, tol: Option<&str>) -> Primitive {
    Primitive::ReachHover(ReachHover {
        target: "panel".to_string(),
        standoff: q("50 mm"),
        duration: Some(y("5 s")),
        station_tolerance: tol.map(q),
        settling_time: settling,
    })
}

#[test]
fn hover_lowers_to_a_standoff_setpoint() {
    let out = run(&one(hover(None, None)), &allegro());
    assert_eq!(out.suffixes, vec!["hover"]);
    let PoseExpr::FrameRelative { frame, offset } = &out.actions[0].target_pose else {
        panic!("expected FrameRelative");
    };
    assert_eq!(frame, "panel");
    assert_eq!(text(field(offset, "distance")), Some("50 mm"));
}

#[test]
fn hover_with_settling_time_emits_station_keeping() {
    let out = run(&one(hover(Some(y("1 s")), Some("2 mm"))), &allegro());
    let sk = out.actions[0].safety_envelope.station_keeping.as_ref().expect("station_keeping emitted");
    assert_eq!(text(field(sk, "station_tolerance")), Some("2 mm"));
    assert_eq!(text(field(sk, "settling_time")), Some("1 s"));
    let out = run(&one(hover(Some(y("1 s")), None)), &allegro());
    let sk = out.actions[0].safety_envelope.station_keeping.as_ref().unwrap();
    assert_eq!(text(field(sk, "station_tolerance")), Some("2 mm"));
}

#[test]
fn bare_hover_emits_no_station_keeping() {
    let out = run(&one(hover(None, None)), &allegro());
    assert!(out.actions[0].safety_envelope.station_keeping.is_none());
    let out = run(&one(hover(Some(y("auto")), None)), &allegro());
    assert!(out.actions[0].safety_envelope.station_keeping.is_none());
}

fn envelope_skill(mode: EnvelopeMode, clearance: Option<&str>) -> Skill {
    let env = Primitive::GraspEnvelope(GraspEnvelope {
        target: "ot".to_string(),
        force_budget: q("3 N"),
        mode,
        cage_clearance: clearance.map(q),
        tactile_target: tactile_auto(),
    });
    Skill {
        skill: "t".to_string(),
        description: None,
        objects: vec![("o".to_string(), ObjectDecl { object_ref: "o".to_string(), estimated_mass: Some(q("1.0 N")) })],
        body: Sequence { sequence: vec![bind("ot", locate("o")), Statement::Primitive(env)] },
    }
}

fn with_skill(mut e: Embodiment, k: &str) -> Embodiment {
    e.capabilities.skills.push(k.to_string());
    e
}

#[test]
fn envelope_conform_is_compliant_friction_grip_with_holding_floor() {
    let out = run(&envelope_skill(EnvelopeMode::Conform, None), &with_skill(allegro(), "grasp.envelope"));
    assert_eq!(out.suffixes, vec!["locate", "conform"]);
    let st = out.actions[1].grasp_stability.as_ref().expect("stability");
    assert_eq!(st.closure, Closure::Form);
    assert!(st.flags.compliant);
    assert!(st.residual_mobility.is_none());
    assert_eq!(st.min_holding_force, Some(holding_floor("1.0 N", GraspMode::EnvelopeConform)));
}

#[test]
fn envelope_cage_traps_with_residual_mobility_and_no_floor() {
    let out = run(&envelope_skill(EnvelopeMode::Cage, Some("4 mm")), &with_skill(allegro(), "grasp.envelope"));
    assert_eq!(out.suffixes, vec!["locate", "cage"]);
    let st = out.actions[1].grasp_stability.as_ref().expect("stability");
    assert_eq!(st.closure, Closure::Form);
    assert!(!st.flags.compliant);
    assert_eq!(st.residual_mobility.as_ref().unwrap().0, "4 mm");
    assert!(st.min_holding_force.is_none(), "a caged object has no grip floor");
}

#[test]
fn place_hand_to_requires_human_collaboration_safety() {
    let hand_to = || Primitive::PlaceHandTo(PlaceHandTo { weight_transfer_threshold: None, max_interaction_force: Some(q("20 N")) });
    let mut emb = with_skill(allegro(), "place.hand_to");
    let skill = Skill {
        skill: "t".to_string(),
        description: None,
        objects: vec![],
        body: Sequence { sequence: vec![Statement::Primitive(pinch("o", "8 N")), Statement::Primitive(hand_to())] },
    };
    let err = failure(&skill, &emb);
    assert!(err.contains("capability_absent: human_collaboration_safety"), "got: {err}");
    emb.capabilities.aux.human_collaboration_safety = Some(true);
    let out = run(&skill, &emb);
    assert_eq!(out.suffixes[1], "hand_to");
    let fp = out.actions[1].safety_envelope.force_profile.as_ref().unwrap();
    assert_eq!(text(field(fp, "max_interaction_force")), Some("20 N"));
    assert_eq!(text(field(fp, "placement")), Some("hand_to"));
}

#[test]
fn place_family_emits_continuity_floor_and_clears_held() {
    let cases: Vec<(Primitive, &str)> = vec![
        (Primitive::PlacePutDown(PlacePutDown { target_surface: Some(y("bench")) }), "put_down"),
        (Primitive::PlaceStack(PlaceStack { support_object: "base".to_string(), alignment: None }), "stack"),
        (Primitive::PlaceInsertLoose(PlaceInsertLoose { container: "bin".to_string() }), "insert_loose"),
        (
            Primitive::PlaceOrient(PlaceOrient { required_orientation: map(vec![("label_normal", y("up"))]), target_surface: None }),
            "orient",
        ),
        (
            Primitive::PlaceDiscard(PlaceDiscard {
                discard_zone: map(vec![("kind", y("surface")), ("frame", y("bin"))]),
                max_drop_height: None,
            }),
            "discard",
        ),
    ];
    let mut emb = allegro();
    for k in ["place.put_down", "place.stack", "place.insert_loose", "place.orient", "place.discard"] {
        emb = with_skill(emb, k);
    }
    for (place, kind) in cases {
        let mut skill = envelope_skill(EnvelopeMode::Conform, None);
        skill.body.sequence[1] = Statement::Primitive(pinch("ot", "8 N"));
        skill.body.sequence.push(Statement::Primitive(place));
        let out = run(&skill, &emb);
        assert_eq!(out.suffixes, vec!["locate", "pinch", kind], "kind {kind}");
        let fp = out.actions[2].safety_envelope.force_profile.as_ref().unwrap_or_else(|| panic!("force_profile for {kind}"));
        assert_eq!(text(field(fp, "placement")), Some(kind), "placement marker for {kind}");
        assert_eq!(field(fp, "break_contact"), Some(&JsonValue::Bool(true)));
        // 1.0 N pinch: the 2 N held floor is kept until the release.
        assert_eq!(
            field(fp, "min_holding_force"),
            Some(&JsonValue::Derived(Derived::Quantity(holding_floor("1.0 N", GraspMode::Pinch)))),
            "floor for {kind}"
        );
        assert!(out.actions[2].grasp_stability.is_none(), "kind {kind}");
    }
}

#[test]
fn put_down_marks_the_controlled_release() {
    let mut skill = envelope_skill(EnvelopeMode::Conform, None);
    skill.body.sequence[1] = Statement::Primitive(pinch("ot", "8 N"));
    skill.body.sequence.push(Statement::Primitive(Primitive::PlacePutDown(PlacePutDown { target_surface: None })));
    skill.body.sequence.push(Statement::Primitive(Primitive::PlacePutDown(PlacePutDown { target_surface: None })));
    let out = run(&skill, &with_skill(allegro(), "place.put_down"));
    let fp = out.actions[2].safety_envelope.force_profile.as_ref().unwrap();
    assert_eq!(text(field(fp, "placement")), Some("put_down"));
    assert_eq!(field(fp, "break_contact"), Some(&JsonValue::Bool(true)));
    assert_eq!(field(fp, "min_holding_force"), Some(&JsonValue::Derived(Derived::Quantity(holding_floor("1.0 N", GraspMode::Pinch)))));
    // the placement released the object: the second placement has no floor.
    let fp = out.actions[3].safety_envelope.force_profile.as_ref().unwrap();
    assert_eq!(field(fp, "min_holding_force"), None);
}

#[test]
fn release_needs_some_grasp_capability() {
    let skill = one(Primitive::GraspRelease(GraspRelease { grasp_handle: None }));
    let emb = descriptor("bare", &["transport"], false, vec![], "grasp");
    assert_eq!(failure(&skill, &emb), "translation error: capability_absent: grasp");
    let release = Primitive::GraspRelease(GraspRelease { grasp_handle: None });
    assert!(check_capability(&release, &allegro()).is_ok());
}

#[test]
fn reach_primitives_are_ungated() {
    let emb = descriptor("bare", &[], false, vec![], "grasp");
    let p = Primitive::ReachRetract(ReachRetract { direction: y("+z"), distance: q("1 mm") });
    assert!(check_capability(&p, &emb).is_ok());
    let out = run(&one(hover(None, None)), &emb);
    assert_eq!(out.actions[0].target_frame, "tcp_index");
}

#[test]
fn scan_sweeps_the_surface_with_the_sensor_fov() {
    let scan = |pattern| {
        Primitive::ReachScan(ReachScan {
            region: ScanRegion::Surface { frame: "panel".to_string(), size_u: q("200 mm"), size_v: q("150 mm") },
            standoff: q("100 mm"),
            pattern,
            sensor_frame: None,
            coverage_overlap: Some(F64Bits(0.2f64.to_bits())),
        })
    };
    let out = run(&one(scan(Some(ScanPattern::Raster))), &allegro());
    assert_eq!(out.actions[0].target_frame, "palm_cam");
    let PoseExpr::SweepPath { pattern, poses } = &out.actions[0].target_pose else { panic!("sweep") };
    assert_eq!(pattern, "raster");
    let SweepExpr::Raster(s) = poses else { panic!("raster") };
    assert_eq!(s.fov, Some((q("60 deg"), q("45 deg"))));
    let out = run(&one(scan(Some(ScanPattern::Spiral))), &allegro());
    let PoseExpr::SweepPath { pattern, poses } = &out.actions[0].target_pose else { panic!("sweep") };
    assert_eq!(pattern, "spiral");
    assert!(matches!(poses, SweepExpr::Spiral(_)));
    let out = run(&one(scan(Some(ScanPattern::Arc))), &allegro());
    let PoseExpr::SweepPath { pattern, poses } = &out.actions[0].target_pose else { panic!("sweep") };
    assert_eq!(pattern, "arc");
    assert!(matches!(poses, SweepExpr::Raster(_)));
}

#[test]
fn action_ids_are_one_based_and_zero_padded() {
    assert_eq!(action_id("cable-insertion", "wonik-allegro-v4", 0, "pinch"), "cable-insertion/wonik-allegro-v4/0001-pinch");
    assert_eq!(action_id("a", "b", 11, "x"), "a/b/0012-x");
    assert_eq!(action_id("a", "b", 12344, "x"), "a/b/12345-x");
    let out = run(&cable_skill(), &allegro());
    let mut actions = out.actions;
    let goal = ExecuteGoal::wrap(action_id("cable-insertion", "wonik-allegro-v4", 1, out.suffixes[1]), actions.remove(1));
    assert_eq!(goal.message, "execute");
    assert_eq!(goal.action_id, "cable-insertion/wonik-allegro-v4/0002-pinch");
}
