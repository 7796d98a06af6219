use rfl_core::driver::Outcome;
use rfl_core::error::Error;
use rfl_core::grasp_force::GraspMode;
use rfl_core::json::{copy_yaml, get, yaml_converts, YamlNumber, YamlValue};
use rfl_core::quantity::{is_float_text, F64Bits, Quantity};
use rfl_core::skill_isa::{InHandRegrasp, TransportHandoff};

fn y(s: &str) -> YamlValue {
    YamlValue::String(s.to_string())
}

#[test]
fn splits_magnitude_and_unit() {
    let cases = [("8 N", "8", "N"), ("50 mm", "50", "mm"), ("0.05 m/s", "0.05", "m/s"), ("  2 N·m ", "2", "N·m")];
    for (text, n, u) in cases {
        assert_eq!(Quantity(text.to_string()).split(), Some((n.to_string(), u.to_string())), "{text}");
    }
}

#[test]
fn rejects_non_quantity() {
    assert_eq!(Quantity("auto".to_string()).split(), None);
    assert!(!Quantity("auto".to_string()).parses());
    assert!(!Quantity("x N".to_string()).parses());
    assert!(!Quantity("8".to_string()).parses());
}

#[test]
fn float_literals_follow_the_std_grammar() {
    for ok in ["8", "-1.5", "+.5", "5.", "1e3", "2.5E-3", "inf", "-Infinity", "NaN"] {
        assert!(is_float_text(ok), "{ok}");
        assert_eq!(is_float_text(ok), ok.parse::<f64>().is_ok(), "{ok}");
    }
    for bad in ["", ".", "e3", "1e", "1.2.3", "0x10", "1_000", "--1"] {
        assert!(!is_float_text(bad), "{bad}");
        assert_eq!(is_float_text(bad), bad.parse::<f64>().is_ok(), "{bad}");
    }
}

#[test]
fn payload_keys_and_names_of_modes() {
    assert_eq!(GraspMode::Pinch.payload_key(), "payload_grasp_pinch");
    assert_eq!(GraspMode::Pin.payload_key(), "payload_grasp_pin");
    assert_eq!(GraspMode::Platform.payload_key(), "payload_support");
    assert_eq!(GraspMode::EnvelopeCage.payload_key(), GraspMode::EnvelopeConform.payload_key());
    assert_eq!(GraspMode::PrecisionTripod.name(), "PrecisionTripod");
}

#[test]
fn regrasp_and_handoff_name_their_modes() {
    let r = |m: &str| InHandRegrasp { target_mode: m.to_string(), grasp_handle: None }.target_grasp_mode();
    assert_eq!(r("pin"), GraspMode::Pin);
    assert_eq!(r("platform"), GraspMode::Platform);
    assert_eq!(r("power"), GraspMode::Pinch);
    let h = |m: Option<&str>| TransportHandoff {
        receiver: "right_hand".to_string(),
        receiver_mode: m.map(str::to_string),
        cograsp_force_budget: None,
        grasp_handle: None,
    }
    .receiver_grasp_mode();
    assert_eq!(h(Some("pin")), GraspMode::Pin);
    assert_eq!(h(Some("auto")), GraspMode::Pinch);
    assert_eq!(h(None), GraspMode::Pinch);
}

#[test]
fn yaml_conversion_needs_textual_keys() {
    let ok = YamlValue::Mapping(vec![(y("a"), YamlValue::Sequence(vec![y("b")])), (YamlValue::Bool(true), YamlValue::Null)]);
    assert!(yaml_converts(&ok));
    let bad = YamlValue::Mapping(vec![(YamlValue::Sequence(vec![]), y("x"))]);
    assert!(!yaml_converts(&bad));
    let nan_key = YamlValue::Mapping(vec![(YamlValue::Number(YamlNumber::Float(F64Bits(f64::NAN.to_bits()))), y("x"))]);
    assert!(!yaml_converts(&nan_key));
    let tagged = YamlValue::Tagged("!t".to_string(), Box::new(ok.clone_deep()));
    assert!(yaml_converts(&tagged));
}

trait DeepCopy {
    fn clone_deep(&self) -> Self;
}

impl DeepCopy for YamlValue {
    fn clone_deep(&self) -> Self {
        copy_yaml(self)
    }
}

#[test]
fn copies_and_lookups_of_yaml_values() {
    let v = YamlValue::Tagged(
        "!pose".to_string(),
        Box::new(YamlValue::Mapping(vec![(y("frame"), y("bench")), (y("frame"), y("table"))])),
    );
    assert_eq!(copy_yaml(&v), v);
    // lookups see through tags and take the last entry of a key.
    assert_eq!(get(&v, "frame"), Some(&y("table")));
    assert_eq!(get(&v, "offset"), None);
    assert_eq!(get(&y("frame"), "frame"), None);
}

#[test]
fn error_messages_name_their_layer() {
    assert_eq!(Error::SkillIsa("x".to_string()).message(), "skill ISA error: x");
    assert_eq!(Error::Translation("y".to_string()).message(), "translation error: y");
    assert_eq!(Error::Driver("z".to_string()).message(), "driver interface error: z");
    assert_eq!(Outcome::Indeterminate.name(), "indeterminate");
}
