use reda_lef::{
    LefClearanceMeasure, LefMacroClass, LefMacroClassBlockType, LefMacroClassCoreType,
    LefMacroClassEndcapType, LefMacroClassPadType, LefPinDirection, LefPinShape, LefPortClass,
    LefPropertyType, LefPropertyValue, LefRoutingDirection, LefSignalUse, LefSiteClass,
};
use reda_lef::text::str_eq;

#[test]
fn routing_direction_round_trip() {
    let all = [
        (LefRoutingDirection::Vertical, "VERTICAL"),
        (LefRoutingDirection::Horizontal, "HORIZONTAL"),
        (LefRoutingDirection::Diag45, "DIAG45"),
        (LefRoutingDirection::Diag135, "DIAG135"),
    ];
    for (v, word) in all {
        assert_eq!(v.to_string(), word);
        assert_eq!(LefRoutingDirection::from_str(word), Ok(v));
        assert_eq!(LefRoutingDirection::from_str(&v.to_string()), Ok(v));
    }
    assert_eq!(LefRoutingDirection::from_str("vertical"), Err(()));
    assert_eq!(LefRoutingDirection::from_str("DIAG"), Err(()));
    assert_eq!(LefRoutingDirection::default(), LefRoutingDirection::Vertical);
}

#[test]
fn signal_use_round_trip() {
    let all = [
        (LefSignalUse::Signal, "SIGNAL"),
        (LefSignalUse::Analog, "ANALOG"),
        (LefSignalUse::Power, "POWER"),
        (LefSignalUse::Ground, "GROUND"),
        (LefSignalUse::Clock, "CLOCK"),
    ];
    for (v, word) in all {
        assert_eq!(v.to_string(), word);
        assert_eq!(LefSignalUse::from_str(word), Ok(v));
        assert_eq!(LefSignalUse::from_str(&v.to_string()), Ok(v));
    }
    assert_eq!(LefSignalUse::from_str("SIGNALS"), Err(()));
}

#[test]
fn port_class_round_trip() {
    let all = [
        (LefPortClass::NoClass, "NONE"),
        (LefPortClass::Core, "CORE"),
        (LefPortClass::Bump, "BUMP"),
    ];
    for (v, word) in all {
        assert_eq!(v.to_string(), word);
        assert_eq!(LefPortClass::from_str(word), Ok(v));
        assert_eq!(LefPortClass::from_str(&v.to_string()), Ok(v));
    }
    assert_eq!(LefPortClass::from_str("None"), Err(()));
}

#[test]
fn pin_shape_round_trip() {
    let all = [
        (LefPinShape::Abutment, "ABUTMENT"),
        (LefPinShape::Ring, "RING"),
        (LefPinShape::Feedthru, "FEEDTHRU"),
    ];
    for (v, word) in all {
        assert_eq!(v.to_string(), word);
        assert_eq!(LefPinShape::from_str(word), Ok(v));
        assert_eq!(LefPinShape::from_str(&v.to_string()), Ok(v));
    }
    assert_eq!(LefPinShape::from_str("RINGS"), Err(()));
}

#[test]
fn site_class_round_trip() {
    let all = [(LefSiteClass::CORE, "CORE"), (LefSiteClass::PAD, "PAD")];
    for (v, word) in all {
        assert_eq!(v.to_string(), word);
        assert_eq!(LefSiteClass::from_str(word), Ok(v));
        assert_eq!(LefSiteClass::from_str(&v.to_string()), Ok(v));
    }
    assert_eq!(LefSiteClass::from_str("core"), Err(()));
    assert_eq!(LefSiteClass::default(), LefSiteClass::CORE);
}

#[test]
fn clearance_measure_round_trip() {
    let all = [
        (LefClearanceMeasure::Maxxy, "MAXXY"),
        (LefClearanceMeasure::Euclidean, "EUCLIDEAN"),
    ];
    for (v, word) in all {
        assert_eq!(v.to_string(), word);
        assert_eq!(LefClearanceMeasure::from_str(word), Ok(v));
        assert_eq!(LefClearanceMeasure::from_str(&v.to_string()), Ok(v));
    }
    assert_eq!(LefClearanceMeasure::from_str("MAXXYZ"), Err(()));
    assert_eq!(LefClearanceMeasure::default(), LefClearanceMeasure::Euclidean);
}

#[test]
fn pin_direction_round_trip() {
    let all = [
        (LefPinDirection::Input, "INPUT"),
        (LefPinDirection::Output(false), "OUTPUT"),
        (LefPinDirection::Output(true), "OUTPUT TRISTATE"),
        (LefPinDirection::Inout, "INOUT"),
        (LefPinDirection::Feedthru, "FEEDTHRU"),
    ];
    for (v, word) in all {
        assert_eq!(v.to_string(), word);
        assert_eq!(LefPinDirection::from_str(word), Ok(v));
        assert_eq!(LefPinDirection::from_str(&v.to_string()), Ok(v));
    }
    assert_eq!(LefPinDirection::from_str("OUTPUT  TRISTATE"), Err(()));
    assert_eq!(LefPinDirection::from_str("TRISTATE"), Err(()));
}

#[test]
fn property_type_round_trip() {
    let all = [
        (LefPropertyType::Integer, "INTEGER"),
        (LefPropertyType::Real, "REAL"),
        (LefPropertyType::String, "STRING"),
    ];
    for (v, word) in all {
        assert_eq!(v.to_string(), word);
        assert_eq!(LefPropertyType::from_str(word), Ok(v));
    }
    assert_eq!(LefPropertyType::from_str("INT"), Err(()));
}

#[test]
fn property_value_type() {
    assert_eq!(LefPropertyValue::Int(-3).property_type(), LefPropertyType::Integer);
    assert_eq!(LefPropertyValue::Real(1500).property_type(), LefPropertyType::Real);
    assert_eq!(
        LefPropertyValue::String("a".to_string()).property_type(),
        LefPropertyType::String
    );
}

#[test]
fn macro_subclass_round_trip() {
    let block = [
        (LefMacroClassBlockType::BLACKBOX, "BLACKBOX"),
        (LefMacroClassBlockType::SOFT, "SOFT"),
    ];
    for (v, word) in block {
        assert_eq!(v.to_string(), word);
        assert_eq!(LefMacroClassBlockType::from_str(word), Ok(v));
    }
    let pad = [
        (LefMacroClassPadType::INPUT, "INPUT"),
        (LefMacroClassPadType::OUTPUT, "OUTPUT"),
        (LefMacroClassPadType::INOUT, "INOUT"),
        (LefMacroClassPadType::POWER, "POWER"),
        (LefMacroClassPadType::SPACER, "SPACER"),
        (LefMacroClassPadType::AREAIO, "AREAIO"),
    ];
    for (v, word) in pad {
        assert_eq!(v.to_string(), word);
        assert_eq!(LefMacroClassPadType::from_str(word), Ok(v));
    }
    let core = [
        (LefMacroClassCoreType::FEEDTHRU, "FEEDTHRU"),
        (LefMacroClassCoreType::TIEHIGH, "TIEHIGH"),
        (LefMacroClassCoreType::TIELOW, "TIELOW"),
        (LefMacroClassCoreType::SPACER, "SPACER"),
        (LefMacroClassCoreType::ANTENNACELL, "ANTENNACELL"),
        (LefMacroClassCoreType::WELLTAP, "WELLTAP"),
    ];
    for (v, word) in core {
        assert_eq!(v.to_string(), word);
        assert_eq!(LefMacroClassCoreType::from_str(word), Ok(v));
    }
    let endcap = [
        (LefMacroClassEndcapType::PRE, "PRE"),
        (LefMacroClassEndcapType::POST, "POST"),
        (LefMacroClassEndcapType::TOPLEFT, "TOPLEFT"),
        (LefMacroClassEndcapType::TOPRIGHT, "TOPRIGHT"),
        (LefMacroClassEndcapType::BOTTOMLEFT, "BOTTOMLEFT"),
        (LefMacroClassEndcapType::BOTTOMRIGHT, "BOTTOMRIGHT"),
    ];
    for (v, word) in endcap {
        assert_eq!(v.to_string(), word);
        assert_eq!(LefMacroClassEndcapType::from_str(word), Ok(v));
    }
    assert_eq!(LefMacroClassBlockType::from_str("HARD"), Err(()));
    assert_eq!(LefMacroClassPadType::from_str("PAD"), Err(()));
    assert_eq!(LefMacroClassCoreType::from_str("TIE"), Err(()));
    assert_eq!(LefMacroClassEndcapType::from_str("TOP"), Err(()));
}

fn all_macro_classes() -> Vec<(LefMacroClass, String)> {
    let mut all = vec![
        (LefMacroClass::COVER(false), "COVER".to_string()),
        (LefMacroClass::COVER(true), "COVER BUMP".to_string()),
        (LefMacroClass::RING, "RING".to_string()),
        (LefMacroClass::BLOCK(None), "BLOCK".to_string()),
        (LefMacroClass::PAD(None), "PAD".to_string()),
        (LefMacroClass::CORE(None), "CORE".to_string()),
        (LefMacroClass::ENDCAP(None), "ENDCAP".to_string()),
    ];
    for sub in [LefMacroClassBlockType::BLACKBOX, LefMacroClassBlockType::SOFT] {
        all.push((LefMacroClass::BLOCK(Some(sub)), format!("BLOCK {}", sub.to_string())));
    }
    for sub in [
        LefMacroClassPadType::INPUT,
        LefMacroClassPadType::OUTPUT,
        LefMacroClassPadType::INOUT,
        LefMacroClassPadType::POWER,
        LefMacroClassPadType::SPACER,
        LefMacroClassPadType::AREAIO,
    ] {
        all.push((LefMacroClass::PAD(Some(sub)), format!("PAD {}", sub.to_string())));
    }
    for sub in [
        LefMacroClassCoreType::FEEDTHRU,
        LefMacroClassCoreType::TIEHIGH,
        LefMacroClassCoreType::TIELOW,
        LefMacroClassCoreType::SPACER,
        LefMacroClassCoreType::ANTENNACELL,
        LefMacroClassCoreType::WELLTAP,
    ] {
        all.push((LefMacroClass::CORE(Some(sub)), format!("CORE {}", sub.to_string())));
    }
    for sub in [
        LefMacroClassEndcapType::PRE,
        LefMacroClassEndcapType::POST,
        LefMacroClassEndcapType::TOPLEFT,
        LefMacroClassEndcapType::TOPRIGHT,
        LefMacroClassEndcapType::BOTTOMLEFT,
        LefMacroClassEndcapType::BOTTOMRIGHT,
    ] {
        all.push((LefMacroClass::ENDCAP(Some(sub)), format!("ENDCAP {}", sub.to_string())));
    }
    all
}

#[test]
fn macro_class_round_trip() {
    let all = all_macro_classes();
    assert_eq!(all.len(), 27);
    for (v, word) in all {
        assert_eq!(v.to_string(), word);
        assert_eq!(LefMacroClass::from_str(&word), Ok(v));
        assert_eq!(LefMacroClass::from_str(&v.to_string()), Ok(v));
    }
}

#[test]
fn macro_class_without_subclass() {
    assert_eq!(LefMacroClass::from_str("COVER"), Ok(LefMacroClass::COVER(false)));
    assert_eq!(LefMacroClass::from_str("RING"), Ok(LefMacroClass::RING));
    assert_eq!(LefMacroClass::from_str("BLOCK"), Ok(LefMacroClass::BLOCK(None)));
    assert_eq!(LefMacroClass::from_str("PAD"), Ok(LefMacroClass::PAD(None)));
    assert_eq!(LefMacroClass::from_str("CORE"), Ok(LefMacroClass::CORE(None)));
    assert_eq!(LefMacroClass::from_str("ENDCAP"), Ok(LefMacroClass::ENDCAP(None)));
}

#[test]
fn macro_class_rejects_other_words() {
    assert_eq!(LefMacroClass::from_str(""), Err(()));
    assert_eq!(LefMacroClass::from_str("core"), Err(()));
    assert_eq!(LefMacroClass::from_str("COVERBUMP"), Err(()));
    assert_eq!(LefMacroClass::from_str("RING BUMP"), Err(()));
    assert_eq!(LefMacroClass::from_str("CORE BLACKBOX"), Err(()));
    assert_eq!(LefMacroClass::from_str("PAD  INPUT"), Err(()));
    assert_eq!(LefMacroClass::from_str("BUMP"), Err(()));
}

#[test]
fn str_eq_compares_characters() {
    assert!(str_eq("", ""));
    assert!(str_eq("M1", "M1"));
    assert!(!str_eq("M1", "M2"));
    assert!(!str_eq("M1", "M10"));
    assert!(!str_eq("m1", "M1"));
    assert!(str_eq("µm", "µm"));
    assert!(!str_eq("µm", "um"));
}
