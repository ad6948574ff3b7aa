use reda_lef::read::via::{build_via, build_via_rule, read_via_shapes};
use reda_lef::{
    LefReadError, LefRectEvent, LefTechnology, LefTechnologyEvent, LefTechnologyReader,
    LefVia, LefViaEvent, LefViaGenerateRule, LefViaLayerEvent, LefViaRule, LefViaRuleEvent,
    LefViaRuleLayerEvent, LefViaShape,
};

fn rect(xl: i64, yl: i64, xh: i64, yh: i64) -> LefRectEvent {
    LefRectEvent { xl, yl, xh, yh }
}

fn via_event() -> LefViaEvent {
    LefViaEvent {
        name: "via12".to_string(),
        has_default: true,
        has_resistance: false,
        resistance: 77,
        layers: vec![
            LefViaLayerEvent {
                name: "M1".to_string(),
                rects: vec![rect(-1, -2, 1, 2), rect(3, 4, 5, 6)],
                polygons: vec![vec![(0, 0), (1, 0), (1, 1)]],
            },
            LefViaLayerEvent {
                name: "V1".to_string(),
                rects: vec![rect(0, 0, 1, 1)],
                polygons: vec![],
            },
            LefViaLayerEvent {
                name: "M2".to_string(),
                rects: vec![],
                polygons: vec![vec![(9, 9)], vec![(8, 8), (7, 7)]],
            },
        ],
    }
}

fn rule_layer(name: &str) -> LefViaRuleLayerEvent {
    LefViaRuleLayerEvent {
        name: name.to_string(),
        enclosure_overhang1: 1,
        enclosure_overhang2: 2,
        width_min: 3,
        width_max: 4,
        xl: 5,
        yl: 6,
        xh: 7,
        yh: 8,
        spacing_step_x: 9,
        spacing_step_y: 10,
        ..Default::default()
    }
}

fn rule_event(layers: usize) -> LefViaRuleEvent {
    let names = ["M1", "M2", "V1", "M3"];
    LefViaRuleEvent {
        name: "gen12".to_string(),
        has_generate: true,
        has_default: false,
        layers: names[..layers].iter().map(|n| rule_layer(n)).collect(),
    }
}

#[test]
fn via_shapes_rectangles_then_polygons() {
    let event = via_event();
    assert_eq!(
        read_via_shapes(&event.layers[0]),
        vec![
            LefViaShape::Rect((-1, -2), (1, 2)),
            LefViaShape::Rect((3, 4), (5, 6)),
            LefViaShape::Polygon(vec![(0, 0), (1, 0), (1, 1)]),
        ]
    );
    assert_eq!(read_via_shapes(&LefViaLayerEvent::default()), vec![]);
}

#[test]
fn via_keeps_layer_order() {
    let via = build_via(&via_event());
    assert!(via.is_default);
    assert_eq!(via.resistance, None);
    assert_eq!(via.geometry.len(), 3);
    assert_eq!(via.geometry.name_at(0), "M1");
    assert_eq!(via.geometry.name_at(1), "V1");
    assert_eq!(via.geometry.name_at(2), "M2");
    assert_eq!(via.geometry.get("V1"), Some(&vec![LefViaShape::Rect((0, 0), (1, 1))]));
    assert_eq!(
        via.geometry.value_at(2),
        &vec![LefViaShape::Polygon(vec![(9, 9)]), LefViaShape::Polygon(vec![(8, 8), (7, 7)])]
    );
    assert_eq!(via.geometry.get("M3"), None);
}

#[test]
fn via_resistance_follows_its_flag() {
    let mut event = via_event();
    event.has_resistance = true;
    event.has_default = false;
    let via = build_via(&event);
    assert_eq!(via.resistance, Some(77));
    assert!(!via.is_default);
    event.resistance = 0;
    assert_eq!(build_via(&event).resistance, Some(0));
}

#[test]
fn via_layer_given_twice_keeps_the_last_shapes() {
    let mut event = via_event();
    event.layers.push(LefViaLayerEvent {
        name: "M1".to_string(),
        rects: vec![rect(0, 0, 9, 9)],
        polygons: vec![],
    });
    let via = build_via(&event);
    assert_eq!(via.geometry.len(), 3);
    assert_eq!(via.geometry.name_at(0), "M1");
    assert_eq!(via.geometry.get("M1"), Some(&vec![LefViaShape::Rect((0, 0), (9, 9))]));
}

#[test]
fn via_default() {
    let via = LefVia::default();
    assert!(!via.is_default);
    assert_eq!(via.resistance, None);
    assert_eq!(via.geometry.len(), 0);
}

#[test]
fn via_rule_with_three_layers() {
    let mut event = rule_event(3);
    event.has_default = true;
    event.layers[0].has_enclosure = true;
    event.layers[1].has_width = true;
    event.layers[2].has_rect = true;
    let rule = build_via_rule(&event).unwrap();
    assert_eq!(
        rule,
        LefViaGenerateRule {
            is_default: true,
            rule_name: "gen12".to_string(),
            layers: ("M1".to_string(), "M2".to_string(), "V1".to_string()),
            enclosure: (Some((1, 2)), None),
            width: (None, Some((3, 4))),
            rect: Some(((5, 6), (7, 8))),
            spacing: None,
        }
    );
}

#[test]
fn via_rule_presence_flags() {
    let event = rule_event(3);
    let rule = build_via_rule(&event).unwrap();
    assert_eq!(rule.enclosure, (None, None));
    assert_eq!(rule.width, (None, None));
    assert_eq!(rule.rect, None);
    assert_eq!(rule.spacing, None);

    let mut event = rule_event(3);
    for layer in event.layers.iter_mut() {
        layer.has_enclosure = true;
        layer.has_width = true;
        layer.has_rect = true;
        layer.has_spacing = true;
    }
    event.layers[1].enclosure_overhang1 = 21;
    event.layers[1].width_max = 24;
    event.layers[2].xl = 25;
    event.layers[2].spacing_step_y = 30;
    let rule = build_via_rule(&event).unwrap();
    assert_eq!(rule.enclosure, (Some((1, 2)), Some((21, 2))));
    assert_eq!(rule.width, (Some((3, 4)), Some((3, 24))));
    assert_eq!(rule.rect, Some(((25, 6), (7, 8))));
    assert_eq!(rule.spacing, Some((9, 30)));
}

#[test]
fn via_rule_needs_three_layers() {
    for layers in [0, 1, 2, 4] {
        assert_eq!(build_via_rule(&rule_event(layers)), Err(LefReadError::StructuralViolation));
    }
    let mut not_generated = rule_event(2);
    not_generated.has_generate = false;
    assert_eq!(build_via_rule(&not_generated), Err(LefReadError::StructuralViolation));
}

#[test]
fn via_rule_of_two_layers_fails_the_load() {
    let events = vec![
        LefTechnologyEvent::Version(5800),
        LefTechnologyEvent::ViaRule(rule_event(2)),
        LefTechnologyEvent::ManufacturingGrid(5),
    ];
    assert_eq!(LefTechnology::load(&events), Err(LefReadError::StructuralViolation));

    let mut reader = LefTechnologyReader::new();
    assert_eq!(reader.read_viarule(&rule_event(2)), 1);
    assert_eq!(reader.error, Some(LefReadError::StructuralViolation));
    assert_eq!(reader.lef.via_rules.len(), 0);
    assert_eq!(reader.finish(), Err(LefReadError::StructuralViolation));
}

#[test]
fn via_rule_without_generate_is_unsupported() {
    let mut event = rule_event(3);
    event.has_generate = false;
    assert_eq!(build_via_rule(&event), Err(LefReadError::UnsupportedConstruct));
}

#[test]
fn via_rules_are_stored_by_name() {
    let mut reader = LefTechnologyReader::new();
    assert_eq!(reader.read_viarule(&rule_event(3)), 0);
    let mut second = rule_event(3);
    second.has_default = true;
    assert_eq!(reader.read_viarule(&second), 0);
    let lef = reader.finish().unwrap();
    assert_eq!(lef.via_rules.len(), 1);
    match lef.via_rules.get("gen12") {
        Some(LefViaRule::Generate(rule)) => {
            assert!(rule.is_default);
            assert_eq!(rule.rule_name, "gen12");
        }
        None => panic!("the rule is missing"),
    }
}
