use reda_lef::read::geometry::{assemble_geometries, read_geometries, take_geometry_item};
use reda_lef::read::makro::{build_macro, build_pin, read_foreigns, read_sites};
use reda_lef::{
    LefCellLibrary, LefCellLibraryEvent, LefCellLibraryReader, LefForeignEvent, LefGeometry,
    LefGeometryItem, LefLayerGeometries, LefMacro, LefMacroClass, LefMacroClassCoreType,
    LefMacroEvent, LefMacroPin, LefMacroPinPort, LefOrient, LefPinDirection, LefPinEvent,
    LefPinShape, LefPortClass, LefReadError, LefShape, LefSignalUse, LefSite, LefSiteEvent,
    LefSitePatternEvent, LefSpacingOrDesignRuleWidth, LefStepPattern, LefSymmetry,
};

/// A decimal quantity in thousandths.
fn q(v: f64) -> i64 {
    (v * 1000.0).round() as i64
}

fn layer(name: &str) -> LefGeometryItem {
    LefGeometryItem::Layer(name.to_string())
}

fn rect(xl: i64, yl: i64, xh: i64, yh: i64) -> LefGeometryItem {
    LefGeometryItem::Rect { xl, yl, xh, yh }
}

fn group(name: &str) -> LefLayerGeometries {
    LefLayerGeometries {
        layer_name: name.to_string(),
        except_pg_net: false,
        spacing_or_designrule_width: None,
        width: None,
        geometries: vec![],
        vias: vec![],
    }
}

fn plain(shape: LefShape) -> LefGeometry {
    LefGeometry { step_pattern: None, shape }
}

#[test]
fn shapes_are_grouped_by_layer() {
    let step = LefStepPattern { num_x: 2, num_y: 3, space_x: 10, space_y: 20 };
    let items = vec![
        layer("M1"),
        rect(0, 0, 1, 1),
        LefGeometryItem::Polygon(vec![(0, 0), (2, 0), (2, 2)]),
        layer("M2"),
        LefGeometryItem::RectIter { xl: 1, yl: 2, xh: 3, yh: 4, step },
        LefGeometryItem::PolygonIter(vec![(5, 5), (6, 6), (7, 5)], step),
        layer("M1"),
        rect(9, 9, 10, 10),
    ];
    let groups = read_geometries(&items).unwrap();
    let mut first = group("M1");
    first.geometries = vec![
        plain(LefShape::Rect((0, 0), (1, 1))),
        plain(LefShape::Polygon(vec![(0, 0), (2, 0), (2, 2)])),
    ];
    let mut second = group("M2");
    second.geometries = vec![
        LefGeometry { step_pattern: Some(step), shape: LefShape::Rect((1, 2), (3, 4)) },
        LefGeometry {
            step_pattern: Some(step),
            shape: LefShape::Polygon(vec![(5, 5), (6, 6), (7, 5)]),
        },
    ];
    let mut third = group("M1");
    third.geometries = vec![plain(LefShape::Rect((9, 9), (10, 10)))];
    assert_eq!(groups, vec![first, second, third]);
}

#[test]
fn layer_statements_set_the_current_group() {
    let items = vec![
        layer("M1"),
        LefGeometryItem::LayerExceptPgNet,
        LefGeometryItem::LayerMinSpacing(5),
        LefGeometryItem::Width(7),
        layer("M2"),
        LefGeometryItem::LayerRuleWidth(6),
        layer("M3"),
    ];
    let groups = read_geometries(&items).unwrap();
    assert_eq!(groups.len(), 3);
    assert_eq!(
        groups[0],
        LefLayerGeometries {
            layer_name: "M1".to_string(),
            except_pg_net: true,
            spacing_or_designrule_width: Some(LefSpacingOrDesignRuleWidth::MinSpacing(5)),
            width: Some(7),
            geometries: vec![],
            vias: vec![],
        }
    );
    assert_eq!(
        groups[1].spacing_or_designrule_width,
        Some(LefSpacingOrDesignRuleWidth::DesignRuleWidth(6))
    );
    assert!(!groups[1].except_pg_net);
    assert_eq!(groups[1].width, None);
    assert_eq!(groups[2], group("M3"));
}

#[test]
fn later_statement_replaces_earlier_one() {
    let items = vec![
        layer("M1"),
        LefGeometryItem::LayerMinSpacing(5),
        LefGeometryItem::LayerRuleWidth(6),
        LefGeometryItem::Width(1),
        LefGeometryItem::Width(2),
    ];
    let groups = read_geometries(&items).unwrap();
    assert_eq!(
        groups[0].spacing_or_designrule_width,
        Some(LefSpacingOrDesignRuleWidth::DesignRuleWidth(6))
    );
    assert_eq!(groups[0].width, Some(2));
}

#[test]
fn path_takes_the_width_in_effect() {
    let items = vec![
        layer("M1"),
        LefGeometryItem::Path(vec![(0, 0), (5, 0)]),
        LefGeometryItem::Width(70),
        LefGeometryItem::Path(vec![(0, 1), (5, 1)]),
        LefGeometryItem::Width(90),
        LefGeometryItem::Path(vec![(0, 2)]),
        layer("M2"),
        LefGeometryItem::Path(vec![]),
    ];
    let groups = read_geometries(&items).unwrap();
    assert_eq!(
        groups[0].geometries,
        vec![
            plain(LefShape::Path(0, vec![(0, 0), (5, 0)])),
            plain(LefShape::Path(70, vec![(0, 1), (5, 1)])),
            plain(LefShape::Path(90, vec![(0, 2)])),
        ]
    );
    assert_eq!(groups[0].width, Some(90));
    assert_eq!(groups[1].geometries, vec![plain(LefShape::Path(0, vec![]))]);
}

#[test]
fn item_before_any_layer_is_a_structural_violation() {
    let step = LefStepPattern::default();
    let firsts = vec![
        rect(0, 0, 1, 1),
        LefGeometryItem::RectIter { xl: 0, yl: 0, xh: 1, yh: 1, step },
        LefGeometryItem::Polygon(vec![]),
        LefGeometryItem::PolygonIter(vec![], step),
        LefGeometryItem::Path(vec![]),
        LefGeometryItem::PathIter(vec![], step),
        LefGeometryItem::Width(1),
        LefGeometryItem::LayerExceptPgNet,
        LefGeometryItem::LayerMinSpacing(1),
        LefGeometryItem::LayerRuleWidth(1),
        LefGeometryItem::Class("CORE".to_string()),
        LefGeometryItem::Class("nothing".to_string()),
        LefGeometryItem::Via,
        LefGeometryItem::ViaIter,
    ];
    for first in firsts {
        let items = vec![first, layer("M1")];
        assert_eq!(read_geometries(&items), Err(LefReadError::StructuralViolation));
        assert_eq!(assemble_geometries(&items), Err(LefReadError::StructuralViolation));
    }
}

#[test]
fn kinds_that_are_not_covered_fail() {
    let step = LefStepPattern::default();
    for item in [
        LefGeometryItem::PathIter(vec![(0, 0)], step),
        LefGeometryItem::Via,
        LefGeometryItem::ViaIter,
    ] {
        let items = vec![layer("M1"), rect(0, 0, 1, 1), item, rect(0, 0, 2, 2)];
        assert_eq!(read_geometries(&items), Err(LefReadError::UnsupportedConstruct));
    }
}

#[test]
fn no_items_no_groups() {
    assert_eq!(read_geometries(&vec![]), Ok(vec![]));
    assert_eq!(assemble_geometries(&vec![]), Ok(LefMacroPinPort::default()));
}

#[test]
fn port_class_comes_from_its_item() {
    let items = vec![layer("M1"), LefGeometryItem::Class("BUMP".to_string()), rect(0, 0, 1, 1)];
    let port = assemble_geometries(&items).unwrap();
    assert_eq!(port.class, Some(LefPortClass::Bump));
    assert_eq!(port.geometries.len(), 1);
    assert_eq!(port.geometries[0].geometries, vec![plain(LefShape::Rect((0, 0), (1, 1)))]);

    let items = vec![layer("M1"), LefGeometryItem::Class("NONE".to_string())];
    assert_eq!(assemble_geometries(&items).unwrap().class, Some(LefPortClass::NoClass));

    let items = vec![layer("M1")];
    assert_eq!(assemble_geometries(&items).unwrap().class, None);

    let items = vec![layer("M1"), LefGeometryItem::Class("EDGE".to_string())];
    assert_eq!(
        assemble_geometries(&items),
        Err(LefReadError::UnknownEnumerationValue("EDGE".to_string()))
    );
}

#[test]
fn one_item_at_a_time() {
    let mut port = LefMacroPinPort::default();
    assert_eq!(
        take_geometry_item(&mut port, &rect(0, 0, 1, 1)),
        Err(LefReadError::StructuralViolation)
    );
    assert_eq!(take_geometry_item(&mut port, &layer("M1")), Ok(()));
    assert_eq!(take_geometry_item(&mut port, &rect(0, 0, 1, 1)), Ok(()));
    assert_eq!(take_geometry_item(&mut port, &LefGeometryItem::Via), Err(LefReadError::UnsupportedConstruct));
    let mut expected = group("M1");
    expected.geometries.push(plain(LefShape::Rect((0, 0), (1, 1))));
    assert_eq!(port, LefMacroPinPort { class: None, geometries: vec![expected] });
}

fn pin_a() -> LefPinEvent {
    LefPinEvent {
        name: "A".to_string(),
        has_direction: true,
        direction: "INPUT".to_string(),
        ports: vec![vec![layer("M1"), rect(q(0.1), q(0.2), q(0.3), q(0.4))]],
        ..Default::default()
    }
}

#[test]
fn minimal_macro() {
    let events = vec![
        LefCellLibraryEvent::Pin(pin_a()),
        LefCellLibraryEvent::Macro(LefMacroEvent {
            name: "INV_X1".to_string(),
            has_size: true,
            size_x: q(0.38),
            size_y: q(1.4),
            ..Default::default()
        }),
    ];
    let library = LefCellLibrary::load(&events).unwrap();
    assert_eq!(library.macros.len(), 1);
    let makro = library.macros.get("INV_X1").unwrap();
    assert_eq!(makro.size, Some((q(0.38), q(1.4))));
    assert_eq!(makro.size, Some((380, 1400)));
    assert_eq!(makro.pins.len(), 1);
    assert_eq!(makro.pins[0].name, "A");
    assert_eq!(makro.pins[0].direction, Some(LefPinDirection::Input));
    assert_eq!(makro.pins[0].ports.len(), 1);
    let port = &makro.pins[0].ports[0];
    assert_eq!(port.class, None);
    assert_eq!(port.geometries.len(), 1);
    assert_eq!(port.geometries[0].layer_name, "M1");
    assert_eq!(
        port.geometries[0].geometries,
        vec![plain(LefShape::Rect((100, 200), (300, 400)))]
    );
    let mut expected = LefMacro::default();
    expected.name = "INV_X1".to_string();
    expected.size = Some((380, 1400));
    expected.pins = vec![build_pin(&pin_a()).unwrap()];
    assert_eq!(makro, &expected);
}

#[test]
fn macro_defaults() {
    let makro = LefMacro::default();
    assert_eq!(makro.name, "");
    assert_eq!(makro.class, None);
    assert!(!makro.fixed_mask);
    assert!(makro.foreign.is_empty());
    assert_eq!(makro.origin, (0, 0));
    assert_eq!(makro.eeq, None);
    assert_eq!(makro.size, None);
    assert_eq!(makro.symmetry, LefSymmetry::default());
    assert!(makro.sites.is_empty() && makro.pins.is_empty() && makro.obs.is_empty());
    assert!(makro.density.is_empty());
    assert_eq!(makro.properties.len(), 0);
    let event = LefMacroEvent { name: "X".to_string(), ..Default::default() };
    let mut expected = LefMacro::default();
    expected.name = "X".to_string();
    assert_eq!(build_macro(&event, vec![], vec![]), Ok(expected));
}

#[test]
fn macro_scalars() {
    let event = LefMacroEvent {
        name: "TAP".to_string(),
        has_class: true,
        class: "CORE WELLTAP".to_string(),
        is_fixed_mask: true,
        has_origin: true,
        origin_x: 5,
        origin_y: -5,
        has_eeq: true,
        eeq: "TAP2".to_string(),
        has_size: false,
        size_x: 9,
        size_y: 9,
        has_x_symmetry: true,
        has_y_symmetry: false,
        has_90_symmetry: true,
        ..Default::default()
    };
    let makro = build_macro(&event, vec![], vec![]).unwrap();
    assert_eq!(makro.class, Some(LefMacroClass::CORE(Some(LefMacroClassCoreType::WELLTAP))));
    assert!(makro.fixed_mask);
    assert_eq!(makro.origin, (5, -5));
    assert_eq!(makro.eeq, Some("TAP2".to_string()));
    assert_eq!(makro.size, None);
    assert_eq!(makro.symmetry, LefSymmetry::new(true, false, true));
}

#[test]
fn unknown_macro_class_is_fatal() {
    let event = LefMacroEvent {
        name: "X".to_string(),
        has_class: true,
        class: "CORE SHELL".to_string(),
        ..Default::default()
    };
    let error = LefReadError::UnknownEnumerationValue("CORE SHELL".to_string());
    assert_eq!(build_macro(&event, vec![], vec![]), Err(error.clone()));
    let events = vec![
        LefCellLibraryEvent::Macro(LefMacroEvent { name: "OK".to_string(), ..Default::default() }),
        LefCellLibraryEvent::Macro(event),
    ];
    assert_eq!(LefCellLibrary::load(&events), Err(error));
}

fn foreign(name: &str) -> LefForeignEvent {
    LefForeignEvent {
        name: name.to_string(),
        has_point: false,
        x: 11,
        y: 12,
        has_orient: false,
        orient: "FS".to_string(),
    }
}

#[test]
fn foreign_references_keep_order_and_defaults() {
    let mut with_point = foreign("b");
    with_point.has_point = true;
    let mut with_both = foreign("c");
    with_both.has_point = true;
    with_both.has_orient = true;
    let mut with_orient = foreign("d");
    with_orient.has_orient = true;
    let mut event = LefMacroEvent {
        name: "X".to_string(),
        has_foreign: true,
        foreigns: vec![foreign("a"), with_point, with_both, with_orient],
        ..Default::default()
    };
    let expected = vec![
        ("a".to_string(), (0, 0), LefOrient::N),
        ("b".to_string(), (11, 12), LefOrient::N),
        ("c".to_string(), (11, 12), LefOrient::FS),
        ("d".to_string(), (0, 0), LefOrient::FS),
    ];
    assert_eq!(read_foreigns(&event), Ok(expected.clone()));
    assert_eq!(build_macro(&event, vec![], vec![]).unwrap().foreign, expected);
    event.has_foreign = false;
    assert_eq!(read_foreigns(&event), Ok(vec![]));
}

#[test]
fn unknown_foreign_orientation_is_fatal() {
    let mut bad = foreign("b");
    bad.has_orient = true;
    bad.orient = "NE".to_string();
    let mut worse = foreign("c");
    worse.has_orient = true;
    worse.orient = "SW".to_string();
    let event = LefMacroEvent {
        name: "X".to_string(),
        has_foreign: true,
        foreigns: vec![foreign("a"), bad, worse],
        ..Default::default()
    };
    assert_eq!(
        read_foreigns(&event),
        Err(LefReadError::UnknownEnumerationValue("NE".to_string()))
    );
}

fn pattern(name: &str, orient: &str) -> LefSitePatternEvent {
    LefSitePatternEvent {
        name: name.to_string(),
        x: 1,
        y: 2,
        orient: orient.to_string(),
        has_step_pattern: false,
        x_start: 3,
        y_start: 4,
        x_step: 5,
        y_step: 6,
    }
}

#[test]
fn named_site_comes_before_the_patterns() {
    let mut stepped = pattern("row_b", "FW");
    stepped.has_step_pattern = true;
    let mut event = LefMacroEvent {
        name: "X".to_string(),
        has_site_name: true,
        site_name: "core".to_string(),
        site_patterns: vec![pattern("row_a", "S"), stepped],
        ..Default::default()
    };
    let named = LefSite {
        name: "core".to_string(),
        origin: (0, 0),
        site_orient: LefOrient::N,
        step_pattern: None,
    };
    let first = LefSite {
        name: "row_a".to_string(),
        origin: (1, 2),
        site_orient: LefOrient::S,
        step_pattern: None,
    };
    let second = LefSite {
        name: "row_b".to_string(),
        origin: (1, 2),
        site_orient: LefOrient::FW,
        step_pattern: Some(LefStepPattern { num_x: 3, num_y: 4, space_x: 5, space_y: 6 }),
    };
    assert_eq!(read_sites(&event), Ok(vec![named.clone(), first.clone(), second.clone()]));
    assert_eq!(
        build_macro(&event, vec![], vec![]).unwrap().sites,
        vec![named, first.clone(), second.clone()]
    );
    event.has_site_name = false;
    assert_eq!(read_sites(&event), Ok(vec![first, second]));
    event.site_patterns.clear();
    assert_eq!(read_sites(&event), Ok(vec![]));
}

#[test]
fn site_default() {
    assert_eq!(
        LefSite::default(),
        LefSite {
            name: String::new(),
            origin: (0, 0),
            site_orient: LefOrient::N,
            step_pattern: None
        }
    );
}

#[test]
fn unknown_site_orientation_is_fatal() {
    let event = LefMacroEvent {
        name: "X".to_string(),
        has_site_name: true,
        site_name: "core".to_string(),
        site_patterns: vec![pattern("row_a", "S"), pattern("row_b", "UP"), pattern("row_c", "DOWN")],
        ..Default::default()
    };
    let error = LefReadError::UnknownEnumerationValue("UP".to_string());
    assert_eq!(read_sites(&event), Err(error.clone()));
    assert_eq!(build_macro(&event, vec![], vec![]), Err(error));
}

#[test]
fn macro_errors_come_in_order() {
    let mut bad_foreign = foreign("f");
    bad_foreign.has_orient = true;
    bad_foreign.orient = "F1".to_string();
    let mut event = LefMacroEvent {
        name: "X".to_string(),
        has_class: true,
        class: "C1".to_string(),
        has_foreign: true,
        foreigns: vec![bad_foreign],
        site_patterns: vec![pattern("row", "S1")],
        ..Default::default()
    };
    let unknown = |word: &str| Err(LefReadError::UnknownEnumerationValue(word.to_string()));
    assert_eq!(build_macro(&event, vec![], vec![]), unknown("C1"));
    event.has_class = false;
    assert_eq!(build_macro(&event, vec![], vec![]), unknown("F1"));
    event.has_foreign = false;
    assert_eq!(build_macro(&event, vec![], vec![]), unknown("S1"));
}

#[test]
fn pin_fields() {
    let event = LefPinEvent {
        name: "Z".to_string(),
        has_taper_rule: true,
        taper_rule: "wide".to_string(),
        has_direction: true,
        direction: "OUTPUT TRISTATE".to_string(),
        has_use: true,
        signal_use: "CLOCK".to_string(),
        has_supply_sensitivity: true,
        supply_sensitivity: "VDD".to_string(),
        has_ground_sensitivity: true,
        ground_sensitivity: "VSS".to_string(),
        has_shape: true,
        shape: "ABUTMENT".to_string(),
        has_must_join: true,
        must_join: "Z2".to_string(),
        ports: vec![
            vec![layer("M1"), LefGeometryItem::Class("CORE".to_string())],
            vec![],
            vec![layer("M2"), rect(0, 0, 1, 1)],
        ],
    };
    let pin = build_pin(&event).unwrap();
    assert_eq!(pin.name, "Z");
    assert_eq!(pin.taper_rule, Some("wide".to_string()));
    assert_eq!(pin.direction, Some(LefPinDirection::Output(true)));
    assert_eq!(pin.signal_use, Some(LefSignalUse::Clock));
    assert_eq!(pin.supply_sensitivity, Some("VDD".to_string()));
    assert_eq!(pin.ground_sensitivity, Some("VSS".to_string()));
    assert_eq!(pin.shape_type, Some(LefPinShape::Abutment));
    assert_eq!(pin.must_join, Some("Z2".to_string()));
    assert_eq!(pin.ports.len(), 3);
    assert_eq!(pin.ports[0], LefMacroPinPort { class: Some(LefPortClass::Core), geometries: vec![group("M1")] });
    assert_eq!(pin.ports[1], LefMacroPinPort::default());
    assert_eq!(pin.ports[2].geometries[0].layer_name, "M2");
}

#[test]
fn pin_fields_that_are_not_defined_stay_absent() {
    let event = LefPinEvent {
        name: "Z".to_string(),
        taper_rule: "wide".to_string(),
        direction: "INPUT".to_string(),
        signal_use: "no use".to_string(),
        supply_sensitivity: "VDD".to_string(),
        ground_sensitivity: "VSS".to_string(),
        shape: "no shape".to_string(),
        must_join: "Z2".to_string(),
        ..Default::default()
    };
    let mut expected = LefMacroPin::default();
    expected.name = "Z".to_string();
    assert_eq!(build_pin(&event), Ok(expected));
}

#[test]
fn pin_errors_come_in_order() {
    let mut event = LefPinEvent {
        name: "Z".to_string(),
        has_direction: true,
        direction: "D1".to_string(),
        has_use: true,
        signal_use: "U1".to_string(),
        has_shape: true,
        shape: "S1".to_string(),
        ports: vec![vec![layer("M1")], vec![rect(0, 0, 1, 1)], vec![LefGeometryItem::Via]],
        ..Default::default()
    };
    let unknown = |word: &str| Err(LefReadError::UnknownEnumerationValue(word.to_string()));
    assert_eq!(build_pin(&event), unknown("D1"));
    event.has_direction = false;
    assert_eq!(build_pin(&event), unknown("U1"));
    event.has_use = false;
    assert_eq!(build_pin(&event), unknown("S1"));
    event.has_shape = false;
    assert_eq!(build_pin(&event), Err(LefReadError::StructuralViolation));
    event.ports.remove(1);
    assert_eq!(build_pin(&event), Err(LefReadError::StructuralViolation));
    event.ports[1].insert(0, layer("M1"));
    assert_eq!(build_pin(&event), Err(LefReadError::UnsupportedConstruct));
}

fn named_pin(name: &str) -> LefPinEvent {
    LefPinEvent { name: name.to_string(), ..Default::default() }
}

fn named_macro(name: &str) -> LefMacroEvent {
    LefMacroEvent { name: name.to_string(), ..Default::default() }
}

#[test]
fn pins_and_obstructions_go_to_the_macro_that_closes_next() {
    let events = vec![
        LefCellLibraryEvent::Pin(named_pin("A")),
        LefCellLibraryEvent::Obs(vec![layer("M1"), rect(0, 0, 1, 1)]),
        LefCellLibraryEvent::Pin(named_pin("B")),
        LefCellLibraryEvent::Obs(vec![layer("M2"), layer("M3")]),
        LefCellLibraryEvent::Macro(named_macro("first")),
        LefCellLibraryEvent::Macro(named_macro("second")),
        LefCellLibraryEvent::Pin(named_pin("C")),
        LefCellLibraryEvent::Macro(named_macro("third")),
    ];
    let library = LefCellLibrary::load(&events).unwrap();
    assert_eq!(library.macros.len(), 3);
    assert_eq!(library.macros.name_at(0), "first");
    assert_eq!(library.macros.name_at(1), "second");
    assert_eq!(library.macros.name_at(2), "third");
    let first = library.macros.get("first").unwrap();
    let names: Vec<&str> = first.pins.iter().map(|p| p.name.as_str()).collect();
    assert_eq!(names, vec!["A", "B"]);
    let layers: Vec<&str> = first.obs.iter().map(|g| g.layer_name.as_str()).collect();
    assert_eq!(layers, vec!["M1", "M2", "M3"]);
    assert_eq!(first.obs[0].geometries, vec![plain(LefShape::Rect((0, 0), (1, 1)))]);
    let second = library.macros.get("second").unwrap();
    assert!(second.pins.is_empty() && second.obs.is_empty());
    let third = library.macros.get("third").unwrap();
    assert_eq!(third.pins.len(), 1);
    assert_eq!(third.pins[0].name, "C");
    assert!(third.obs.is_empty());
}

#[test]
fn macro_given_twice_keeps_the_last() {
    let mut again = named_macro("first");
    again.has_size = true;
    again.size_x = 1;
    again.size_y = 2;
    let events = vec![
        LefCellLibraryEvent::Macro(named_macro("first")),
        LefCellLibraryEvent::Macro(named_macro("second")),
        LefCellLibraryEvent::Macro(again),
    ];
    let library = LefCellLibrary::load(&events).unwrap();
    assert_eq!(library.macros.len(), 2);
    assert_eq!(library.macros.name_at(0), "first");
    assert_eq!(library.macros.get("first").unwrap().size, Some((1, 2)));
    assert_eq!(library.macros.get("second").unwrap().size, None);
}

#[test]
fn cell_library_reader_steps() {
    let mut reader = LefCellLibraryReader::new();
    assert_eq!(reader.lef, LefCellLibrary::new());
    assert_eq!(reader.read_pin(&pin_a()), 0);
    assert_eq!(reader.pins.len(), 1);
    assert_eq!(reader.read_obs(&vec![layer("M1")]), 0);
    assert_eq!(reader.geometries.len(), 1);
    let site = LefSiteEvent { name: "core".to_string(), ..Default::default() };
    assert_eq!(reader.read_site(&site), 0);
    assert_eq!(reader.read_macro(&named_macro("m")), 0);
    assert!(reader.pins.is_empty() && reader.geometries.is_empty());
    assert_eq!(reader.error, None);
    let library = reader.finish().unwrap();
    assert_eq!(library.macros.len(), 1);
    assert_eq!(library.sites.len(), 1);
    assert!(library.sites.contains_key("core"));
}

#[test]
fn cell_library_load_stops_at_the_first_error() {
    let mut reader = LefCellLibraryReader::new();
    assert_eq!(reader.read_macro(&named_macro("m")), 0);
    assert_eq!(reader.read_obs(&vec![rect(0, 0, 1, 1)]), 1);
    assert_eq!(reader.error, Some(LefReadError::StructuralViolation));
    // nothing changes after the failure
    assert_eq!(reader.read_pin(&pin_a()), 1);
    assert_eq!(reader.read_obs(&vec![LefGeometryItem::Layer("M1".to_string()), LefGeometryItem::Via]), 1);
    assert_eq!(reader.read_macro(&named_macro("n")), 1);
    assert_eq!(reader.read_site(&LefSiteEvent::default()), 1);
    assert_eq!(reader.read_failure("late"), 1);
    assert!(reader.pins.is_empty());
    assert_eq!(reader.lef.macros.len(), 1);
    assert_eq!(reader.error, Some(LefReadError::StructuralViolation));
    assert_eq!(reader.finish(), Err(LefReadError::StructuralViolation));
}

#[test]
fn cell_library_failure_of_the_source() {
    let events = vec![
        LefCellLibraryEvent::Macro(named_macro("m")),
        LefCellLibraryEvent::Failure("syntax error at line 3".to_string()),
        LefCellLibraryEvent::Macro(named_macro("n")),
    ];
    assert_eq!(
        LefCellLibrary::load(&events),
        Err(LefReadError::EventSourceFailure("syntax error at line 3".to_string()))
    );
    assert_eq!(LefCellLibrary::load(&vec![]), Ok(LefCellLibrary::default()));
}

#[test]
fn each_group_holds_the_shapes_of_its_layer() {
    let items = vec![
        layer("M1"),
        layer("M2"),
        rect(0, 0, 1, 1),
        rect(2, 2, 3, 3),
        LefGeometryItem::Polygon(vec![(4, 4), (5, 5), (6, 4)]),
    ];
    let groups = read_geometries(&items).unwrap();
    assert_eq!(groups.len(), 2);
    assert_eq!(groups[0], group("M1"));
    assert_eq!(groups[1].layer_name, "M2");
    assert_eq!(
        groups[1].geometries,
        vec![
            plain(LefShape::Rect((0, 0), (1, 1))),
            plain(LefShape::Rect((2, 2), (3, 3))),
            plain(LefShape::Polygon(vec![(4, 4), (5, 5), (6, 4)])),
        ]
    );
    assert!(groups[1].vias.is_empty());
}
