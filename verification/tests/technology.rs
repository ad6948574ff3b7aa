use reda_lef::read::site::build_site;
use reda_lef::{
    do_read_site, LefClearanceMeasure, LefLayer, LefLayerEvent, LefNonDefaultRules, LefOrient,
    LefReadError, LefRoutingDirection, LefRoutingLayer, LefSiteClass, LefSiteDefinition,
    LefSiteEvent, LefSiteRowEvent, LefSymmetry, LefTechnology, LefTechnologyEvent,
    LefTechnologyReader, LefUnits, LefUnitsEvent, LefViaEvent,
};

/// A decimal quantity in thousandths.
fn q(v: f64) -> i64 {
    (v * 1000.0).round() as i64
}

fn m1() -> LefLayerEvent {
    LefLayerEvent {
        name: "M1".to_string(),
        layer_type: "ROUTING".to_string(),
        has_direction: true,
        direction: "HORIZONTAL".to_string(),
        has_pitch: true,
        pitch: q(0.19),
        has_width: true,
        width: q(0.07),
        ..Default::default()
    }
}

#[test]
fn minimal_technology() {
    let events = vec![
        LefTechnologyEvent::Units(LefUnitsEvent {
            has_database: true,
            database_number: 1000,
            ..Default::default()
        }),
        LefTechnologyEvent::Layer(m1()),
    ];
    let lef = LefTechnology::load(&events).unwrap();
    let mut expected_layer = LefRoutingLayer::default();
    expected_layer.name = "M1".to_string();
    expected_layer.direction = LefRoutingDirection::Horizontal;
    expected_layer.pitch = (q(0.19), q(0.19));
    expected_layer.width = q(0.07);
    assert_eq!(lef.layers, vec![LefLayer::Routing(expected_layer)]);
    assert_eq!(lef.units.database_microns, 1000);
    let mut expected = LefTechnology::new();
    expected.units.database_microns = 1000;
    expected.layers = lef.layers.clone();
    assert_eq!(lef, expected);
}

#[test]
fn technology_at_the_start() {
    let lef = LefTechnology::new();
    assert_eq!(lef.version, None);
    assert_eq!(lef.busbitchars, ('[', ']'));
    assert_eq!(lef.dividerchar, '/');
    assert_eq!(lef.units, LefUnits::default());
    assert_eq!(lef.manufacturing_grid, None);
    assert_eq!(lef.clearance_measure, LefClearanceMeasure::Euclidean);
    assert!(lef.layers.is_empty());
    assert_eq!(lef.max_via_stack, None);
    assert_eq!(lef.vias.len(), 0);
    assert_eq!(lef.via_rules.len(), 0);
    assert_eq!(lef.sites.len(), 0);
    assert_eq!(lef.property_definitions.len(), 0);
    assert_eq!(lef.non_default_rule, LefNonDefaultRules::default());
    assert_eq!(LefTechnology::default(), lef);
    assert_eq!(LefTechnology::load(&vec![]), Ok(lef));
    let reader = LefTechnologyReader::new();
    assert_eq!(reader.error, None);
    assert_eq!(reader.finish(), Ok(LefTechnology::new()));
}

#[test]
fn units_default_to_zero() {
    assert_eq!(
        LefUnits::default(),
        LefUnits {
            time_ns: 0,
            capacitance_pf: 0,
            resistance_ohms: 0,
            power_mw: 0,
            current_ma: 0,
            voltage_v: 0,
            database_microns: 0,
            frequency_mega_hz: 0,
        }
    );
}

#[test]
fn units_are_taken_where_defined() {
    let mut reader = LefTechnologyReader::new();
    let all = LefUnitsEvent {
        has_time: true,
        time: 1,
        has_capacitance: true,
        capacitance: 2,
        has_resistance: true,
        resistance: 3,
        has_power: true,
        power: 4,
        has_current: true,
        current: 5,
        has_voltage: true,
        voltage: 6,
        has_database: true,
        database_number: 7,
        has_frequency: true,
        frequency: 8,
    };
    assert_eq!(reader.read_units(&all), 0);
    assert_eq!(
        reader.lef.units,
        LefUnits {
            time_ns: 1,
            capacitance_pf: 2,
            resistance_ohms: 3,
            power_mw: 4,
            current_ma: 5,
            voltage_v: 6,
            database_microns: 7,
            frequency_mega_hz: 8,
        }
    );
    // a later construct changes what it defines and nothing else
    let some = LefUnitsEvent {
        has_capacitance: true,
        capacitance: 20,
        database_number: 70,
        has_frequency: true,
        frequency: 0,
        time: 10,
        ..Default::default()
    };
    assert_eq!(reader.read_units(&some), 0);
    assert_eq!(
        reader.lef.units,
        LefUnits {
            time_ns: 1,
            capacitance_pf: 20,
            resistance_ohms: 3,
            power_mw: 4,
            current_ma: 5,
            voltage_v: 6,
            database_microns: 7,
            frequency_mega_hz: 0,
        }
    );
}

#[test]
fn scalar_constructs() {
    let mut reader = LefTechnologyReader::new();
    assert_eq!(reader.read_version(q(5.8)), 0);
    assert_eq!(reader.read_busbitchars("<>"), 0);
    assert_eq!(reader.read_dividerchar("|"), 0);
    assert_eq!(reader.read_manufacturing_grid(q(0.005)), 0);
    assert_eq!(reader.read_clearance_measure("MAXXY"), 0);
    let lef = reader.finish().unwrap();
    assert_eq!(lef.version, Some(5800));
    assert_eq!(lef.busbitchars, ('<', '>'));
    assert_eq!(lef.dividerchar, '|');
    assert_eq!(lef.manufacturing_grid, Some(5));
    assert_eq!(lef.clearance_measure, LefClearanceMeasure::Maxxy);
}

#[test]
fn delimiters_take_the_first_characters() {
    let mut reader = LefTechnologyReader::new();
    assert_eq!(reader.read_busbitchars("{}xyz"), 0);
    assert_eq!(reader.read_dividerchar(":/"), 0);
    assert_eq!(reader.lef.busbitchars, ('{', '}'));
    assert_eq!(reader.lef.dividerchar, ':');
}

#[test]
fn short_delimiters_are_a_structural_violation() {
    for text in ["", "["] {
        let mut reader = LefTechnologyReader::new();
        assert_eq!(reader.read_busbitchars(text), 1);
        assert_eq!(reader.error, Some(LefReadError::StructuralViolation));
        assert_eq!(reader.lef.busbitchars, ('[', ']'));
    }
    let mut reader = LefTechnologyReader::new();
    assert_eq!(reader.read_dividerchar(""), 1);
    assert_eq!(reader.finish(), Err(LefReadError::StructuralViolation));
}

#[test]
fn unknown_clearance_measure_is_fatal() {
    let mut reader = LefTechnologyReader::new();
    assert_eq!(reader.read_clearance_measure("MANHATTAN"), 1);
    assert_eq!(reader.lef.clearance_measure, LefClearanceMeasure::Euclidean);
    assert_eq!(
        reader.finish(),
        Err(LefReadError::UnknownEnumerationValue("MANHATTAN".to_string()))
    );
}

#[test]
fn layers_keep_process_order() {
    let mut events = Vec::new();
    for (name, layer_type) in
        [("poly", "MASTERSLICE"), ("M1", "ROUTING"), ("V1", "CUT"), ("M2", "ROUTING")]
    {
        events.push(LefTechnologyEvent::Layer(LefLayerEvent {
            name: name.to_string(),
            layer_type: layer_type.to_string(),
            ..Default::default()
        }));
    }
    let lef = LefTechnology::load(&events).unwrap();
    let names: Vec<&str> = lef.layers.iter().map(|l| l.name().as_str()).collect();
    assert_eq!(names, vec!["poly", "M1", "V1", "M2"]);
    assert!(matches!(lef.layers[0], LefLayer::MasterSlice(_)));
    assert!(matches!(lef.layers[2], LefLayer::Cut(_)));
}

#[test]
fn first_error_wins_and_nothing_changes_after_it() {
    let mut reader = LefTechnologyReader::new();
    assert_eq!(reader.read_layer(&m1()), 0);
    let mut bad = m1();
    bad.layer_type = "WELL".to_string();
    assert_eq!(reader.read_layer(&bad), 1);
    assert_eq!(reader.error, Some(LefReadError::StructuralViolation));
    assert_eq!(reader.read_layer(&m1()), 1);
    assert_eq!(reader.read_version(1), 1);
    assert_eq!(reader.read_busbitchars("()"), 1);
    assert_eq!(reader.read_dividerchar("."), 1);
    assert_eq!(reader.read_manufacturing_grid(1), 1);
    assert_eq!(reader.read_clearance_measure("NOPE"), 1);
    assert_eq!(reader.read_units(&LefUnitsEvent { has_time: true, time: 1, ..Default::default() }), 1);
    assert_eq!(reader.read_site(&LefSiteEvent::default()), 1);
    assert_eq!(reader.read_via(&LefViaEvent::default()), 1);
    assert_eq!(reader.read_failure("late"), 1);
    assert_eq!(reader.lef.layers.len(), 1);
    assert_eq!(reader.lef.version, None);
    assert_eq!(reader.lef.busbitchars, ('[', ']'));
    assert_eq!(reader.lef.units, LefUnits::default());
    assert_eq!(reader.lef.sites.len(), 0);
    assert_eq!(reader.lef.vias.len(), 0);
    assert_eq!(reader.error, Some(LefReadError::StructuralViolation));
    assert_eq!(reader.finish(), Err(LefReadError::StructuralViolation));
}

#[test]
fn failure_of_the_source_is_passed_on() {
    let events = vec![
        LefTechnologyEvent::Layer(m1()),
        LefTechnologyEvent::Failure("lef.y: syntax error".to_string()),
    ];
    let error = LefTechnology::load(&events).unwrap_err();
    assert_eq!(error, LefReadError::EventSourceFailure("lef.y: syntax error".to_string()));
    assert_eq!(error.to_string(), "lef.y: syntax error");

    let mut reader = LefTechnologyReader::new();
    assert_eq!(reader.read_failure(""), 1);
    assert_eq!(reader.finish(), Err(LefReadError::EventSourceFailure(String::new())));
}

#[test]
fn error_messages() {
    assert_eq!(LefReadError::EventSourceFailure("boom".to_string()).to_string(), "boom");
    assert_eq!(
        LefReadError::UnknownEnumerationValue("SIDEWAYS".to_string()).to_string(),
        "unknown keyword: SIDEWAYS"
    );
    assert_eq!(LefReadError::StructuralViolation.to_string(), "structural violation");
    assert_eq!(LefReadError::UnsupportedConstruct.to_string(), "unsupported construct");
    assert_eq!(
        LefReadError::unknown_keyword("x"),
        LefReadError::UnknownEnumerationValue("x".to_string())
    );
}

#[test]
fn load_reads_every_kind_of_construct() {
    let events = vec![
        LefTechnologyEvent::Version(5800),
        LefTechnologyEvent::BusBitChars("<>".to_string()),
        LefTechnologyEvent::DividerChar(":".to_string()),
        LefTechnologyEvent::Units(LefUnitsEvent { has_time: true, time: 1, ..Default::default() }),
        LefTechnologyEvent::ManufacturingGrid(5),
        LefTechnologyEvent::ClearanceMeasure("MAXXY".to_string()),
        LefTechnologyEvent::Site(LefSiteEvent { name: "core".to_string(), ..Default::default() }),
        LefTechnologyEvent::Layer(m1()),
        LefTechnologyEvent::Via(LefViaEvent { name: "v".to_string(), ..Default::default() }),
    ];
    let lef = LefTechnology::load(&events).unwrap();
    assert_eq!(lef.version, Some(5800));
    assert_eq!(lef.busbitchars, ('<', '>'));
    assert_eq!(lef.dividerchar, ':');
    assert_eq!(lef.units.time_ns, 1);
    assert_eq!(lef.manufacturing_grid, Some(5));
    assert_eq!(lef.clearance_measure, LefClearanceMeasure::Maxxy);
    assert!(lef.sites.contains_key("core"));
    assert_eq!(lef.layers.len(), 1);
    assert!(lef.vias.contains_key("v"));
    assert_eq!(lef.via_rules.len(), 0);
}

fn site_event() -> LefSiteEvent {
    LefSiteEvent {
        name: "io".to_string(),
        has_size: true,
        size_x: q(0.19),
        size_y: q(1.4),
        has_class: true,
        class: "PAD".to_string(),
        has_x_symmetry: false,
        has_y_symmetry: true,
        has_90_symmetry: true,
        row_pattern: vec![
            LefSiteRowEvent { name: "a".to_string(), orient: "N".to_string() },
            LefSiteRowEvent { name: "b".to_string(), orient: "FS".to_string() },
        ],
    }
}

#[test]
fn site_definition() {
    let site = build_site(&site_event()).unwrap();
    assert_eq!(
        site,
        LefSiteDefinition {
            name: "io".to_string(),
            size: (190, 1400),
            symmetry: LefSymmetry::new(false, true, true),
            class: LefSiteClass::PAD,
            row_pattern: vec![("a".to_string(), LefOrient::N), ("b".to_string(), LefOrient::FS)],
        }
    );
}

#[test]
fn site_definition_defaults() {
    let site = LefSiteDefinition::default();
    assert_eq!(site.name, "");
    assert_eq!(site.size, (0, 0));
    assert_eq!(site.symmetry, LefSymmetry::default());
    assert_eq!(site.class, LefSiteClass::CORE);
    assert!(site.row_pattern.is_empty());
    let event = LefSiteEvent {
        name: "core".to_string(),
        size_x: 5,
        size_y: 6,
        class: "PAD".to_string(),
        ..Default::default()
    };
    let mut expected = LefSiteDefinition::default();
    expected.name = "core".to_string();
    assert_eq!(build_site(&event), Ok(expected));
}

#[test]
fn site_read_into_an_existing_definition() {
    let mut site = build_site(&site_event()).unwrap();
    let event = LefSiteEvent {
        name: "io2".to_string(),
        has_x_symmetry: true,
        ..Default::default()
    };
    assert_eq!(do_read_site(&event, &mut site), Ok(()));
    assert_eq!(
        site,
        LefSiteDefinition {
            name: "io2".to_string(),
            size: (190, 1400),
            symmetry: LefSymmetry::x(),
            class: LefSiteClass::PAD,
            row_pattern: vec![],
        }
    );
}

#[test]
fn site_errors_leave_the_definition_alone() {
    let mut site = build_site(&site_event()).unwrap();
    let before = site.clone();
    let mut event = site_event();
    event.name = "other".to_string();
    event.class = "RING".to_string();
    event.row_pattern[1].orient = "SF".to_string();
    assert_eq!(
        do_read_site(&event, &mut site),
        Err(LefReadError::UnknownEnumerationValue("RING".to_string()))
    );
    assert_eq!(site, before);
    event.has_class = false;
    assert_eq!(
        do_read_site(&event, &mut site),
        Err(LefReadError::UnknownEnumerationValue("SF".to_string()))
    );
    assert_eq!(site, before);
    assert_eq!(
        build_site(&event),
        Err(LefReadError::UnknownEnumerationValue("SF".to_string()))
    );
}

#[test]
fn sites_are_stored_by_name() {
    let mut reader = LefTechnologyReader::new();
    assert_eq!(reader.read_site(&site_event()), 0);
    let mut core = site_event();
    core.name = "core".to_string();
    core.class = "CORE".to_string();
    assert_eq!(reader.read_site(&core), 0);
    let mut again = site_event();
    again.has_size = false;
    assert_eq!(reader.read_site(&again), 0);
    let lef = reader.finish().unwrap();
    assert_eq!(lef.sites.len(), 2);
    assert_eq!(lef.sites.name_at(0), "io");
    assert_eq!(lef.sites.name_at(1), "core");
    assert_eq!(lef.sites.get("io").unwrap().size, (0, 0));
    assert_eq!(lef.sites.get("core").unwrap().class, LefSiteClass::CORE);
    assert_eq!(lef.sites.get("pad"), None);
}

#[test]
fn vias_are_stored_by_name() {
    let mut reader = LefTechnologyReader::new();
    let mut via = LefViaEvent { name: "v12".to_string(), ..Default::default() };
    assert_eq!(reader.read_via(&via), 0);
    via.has_default = true;
    assert_eq!(reader.read_via(&via), 0);
    via.name = "v23".to_string();
    assert_eq!(reader.read_via(&via), 0);
    assert_eq!(reader.lef.vias.len(), 2);
    assert!(reader.lef.vias.get("v12").unwrap().is_default);
    assert_eq!(reader.lef.vias.name_at(1), "v23");
}

#[test]
fn copies_are_equal() {
    let events = vec![
        LefTechnologyEvent::Version(5800),
        LefTechnologyEvent::Site(site_event()),
        LefTechnologyEvent::Layer(m1()),
        LefTechnologyEvent::Via(LefViaEvent { name: "v".to_string(), ..Default::default() }),
    ];
    let lef = LefTechnology::load(&events).unwrap();
    assert_eq!(lef.clone(), lef);
    assert_eq!(lef.layers[0].clone(), lef.layers[0]);
    let error = LefReadError::UnknownEnumerationValue("x".to_string());
    assert_eq!(error.clone(), error);
}
