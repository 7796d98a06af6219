use rfl_core::embodiment::{Aux, Capabilities, Embodiment, Fov, Frames, LimitValue, RoleDefaults, Sensor};
use rfl_core::json::{YamlNumber, YamlValue};
use rfl_core::quantity::Quantity;

fn q(s: &str) -> Quantity {
    Quantity(s.to_string())
}

fn strs(v: &[&str]) -> Vec<String> {
    v.iter().map(|s| s.to_string()).collect()
}

fn descriptor(id: &str, tactile: Option<bool>, grip: &str, grasp: &str) -> Embodiment {
    Embodiment {
        id: id.to_string(),
        class: None,
        capabilities: Capabilities {
            skills: strs(&["sense.locate", "grasp.pinch", "transport", "force.insert_fit"]),
            aux: Aux { tactile_sensing: tactile, compliance: None, tool_safety: None, human_collaboration_safety: None },
        },
        limits: vec![
            ("enclosure_span".to_string(), LimitValue::Range(vec![q("10 mm"), q("80 mm")])),
            ("grip_force_max".to_string(), LimitValue::Scalar(q(grip))),
            ("stability_margin".to_string(), LimitValue::Other(YamlValue::Number(YamlNumber::PosInt(1)))),
        ],
        tactile: None,
        frames: Frames {
            control_frames: strs(&["tcp_index", "tcp_thumb"]),
            role_defaults: RoleDefaults { grasp: Some(grasp.to_string()), sensor: Some("palm_cam".to_string()), tactile: None, support: None },
        },
        sensors: vec![(
            "palm_cam".to_string(),
            Sensor { bore_axis: Some("+z".to_string()), fov: Some(Fov { h_angle: q("60 deg"), v_angle: q("45 deg") }) },
        )],
    }
}

#[test]
fn allegro_declares_tactile_and_grip_limit() {
    let e = descriptor("wonik-allegro-v4", Some(true), "20 N", "tcp_thumb");
    assert_eq!(e.id, "wonik-allegro-v4");
    assert!(e.has_skill("grasp.pinch"));
    assert!(e.has_skill("transport"));
    assert!(e.tactile_sensing());
    assert_eq!(e.scalar_limit("grip_force_max").unwrap().0, "20 N");
    assert_eq!(e.grasp_frame(), "tcp_thumb");
    assert_eq!(e.control_frame(), "tcp_index");
}

#[test]
fn pneumatic_has_no_tactile_sensing() {
    let e = descriptor("generic-pneumatic-6f", Some(false), "12 N", "palm");
    assert_eq!(e.id, "generic-pneumatic-6f");
    assert!(e.has_skill("grasp.pinch"));
    assert!(!e.tactile_sensing());
    assert_eq!(e.scalar_limit("grip_force_max").unwrap().0, "12 N");
    assert_eq!(e.grasp_frame(), "palm");
}

#[test]
fn reads_sensor_fov() {
    let e = descriptor("wonik-allegro-v4", Some(true), "20 N", "tcp_thumb");
    let fov = e.sensor_fov("palm_cam").expect("palm_cam fov");
    assert_eq!(fov.h_angle.0, "60 deg");
    assert_eq!(fov.v_angle.0, "45 deg");
    assert!(e.sensor_fov("wrist_cam").is_none());
}

#[test]
fn only_scalar_limits_clamp_and_bare_numbers_are_ratios() {
    let e = descriptor("h", None, "20 N", "g");
    assert!(e.scalar_limit("enclosure_span").is_none());
    assert!(e.scalar_limit("missing").is_none());
    assert_eq!(e.ratio_limit("stability_margin"), Some(YamlNumber::PosInt(1)));
    assert_eq!(e.ratio_limit("grip_force_max"), None);
    assert!(!e.tactile_sensing());
    assert!(!e.has_tool_safety() && !e.has_human_collaboration_safety());
}

#[test]
fn frames_default_by_role_name() {
    let mut e = descriptor("h", None, "20 N", "g");
    e.frames.role_defaults.grasp = None;
    e.frames.role_defaults.sensor = None;
    e.frames.control_frames.clear();
    assert_eq!(e.grasp_frame(), "grasp");
    assert_eq!(e.sensor_frame(), "sensor");
    assert_eq!(e.control_frame(), "control");
    assert!(e.has_skill_prefix("grasp."));
    assert!(!e.has_skill_prefix("place."));
}
