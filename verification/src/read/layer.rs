//! The builder of layers.
use vstd::prelude::*;
use crate::model::keywords::LefRoutingDirection;
use crate::model::layer::{
    LefAntennaRules, LefCutLayer, LefCutLayerView, LefCutSpacingRule, LefEnclosureRule, LefLayer,
    LefLayerView, LefMasterSliceLayer, LefMasterSliceLayerView, LefMinStep, LefMinimumCut,
    LefProtrusionWidth, LefRoutingLayer, LefRoutingLayerView, LefSpacingRangeType,
    LefSpacingRules, LefSpacingTable, LefSpacingTableView, LefSpacingType,
};
use crate::model::LefNumber;
use crate::name_map::LefNameMap;
use crate::read::error::{LefReadError, LefReadErrorView, LefReadResult};
use crate::read::event::{
    LefEnclosureEvent, LefLayerEvent, LefLayerSpacingEvent, LefMinEnclosedAreaEvent,
    LefSpacingTableEvent,
};
use crate::read::utils::{
    keyword_value, lemma_try_map_next, lemma_try_map_rest, list_result_view, result_view,
    try_map,
};
use crate::text::{clone_list, optional, present, str_eq};

verus! {

/// The refinement of a range spacing rule: the length threshold where the
/// statement uses it, else the influence where it gives one.
pub open spec fn spacing_range_type(spacing: LefLayerSpacingEvent) -> Option<LefSpacingRangeType> {
    if spacing.has_range_use_length_threshold {
        Some(LefSpacingRangeType::UseLengthThreshold)
    } else if spacing.has_range_influence {
        Some(LefSpacingRangeType::Influence { influence_length: spacing.range_influence })
    } else {
        None
    }
}

/// The condition of a spacing rule. Where a statement defines several
/// conditions the first one in this order is kept: range, end of line, same
/// net, notch length, end of notch width.
pub open spec fn spacing_type(spacing: LefLayerSpacingEvent) -> Option<LefSpacingType> {
    if spacing.has_range {
        Some(
            LefSpacingType::Range {
                min_width: spacing.range_min,
                max_width: spacing.range_max,
                spacing_range_type: spacing_range_type(spacing),
            },
        )
    } else if spacing.has_end_of_line {
        Some(
            LefSpacingType::EndOfLine {
                eol_width: spacing.eol_width,
                eol_widthing: spacing.eol_within,
            },
        )
    } else if spacing.has_same_net {
        Some(LefSpacingType::SameNet { power_ground_only: spacing.has_same_net_pg_only })
    } else if spacing.has_notch_length {
        Some(LefSpacingType::NotchLength { min_notch_length: spacing.notch_length })
    } else if spacing.has_end_of_notch_width {
        Some(
            LefSpacingType::EndOfNotchWidth {
                end_of_notch_width: spacing.end_of_notch_width,
                min_notch_spacing: spacing.end_of_notch_spacing,
                min_notch_length: spacing.end_of_notch_length,
            },
        )
    } else {
        None
    }
}

/// The spacing rule of a routing layer that a SPACING statement stands for.
pub open spec fn routing_spacing_rule(spacing: LefLayerSpacingEvent) -> LefSpacingRules {
    LefSpacingRules { min_spacing: spacing.spacing, spacing_type: spacing_type(spacing) }
}

/// The spacing rule of a cut layer that a SPACING statement stands for.
/// Each rule carries the flags of its own statement.
pub open spec fn cut_spacing_rule(spacing: LefLayerSpacingEvent) -> LefCutSpacingRule {
    LefCutSpacingRule {
        spacing: spacing.spacing,
        center_to_center: spacing.has_center_to_center,
        same_net: spacing.has_same_net,
    }
}

/// The sides to which an enclosure rule applies, as `(above, below)`: both
/// where the statement names none, else the one that it names.
pub open spec fn enclosure_sides(enclosure: LefEnclosureEvent) -> Result<
    (bool, bool),
    LefReadErrorView,
> {
    if !enclosure.has_rule {
        Ok((true, true))
    } else if enclosure.rule@ == "ABOVE"@ {
        Ok((true, false))
    } else if enclosure.rule@ == "BELOW"@ {
        Ok((false, true))
    } else {
        Err(LefReadErrorView::UnknownEnumerationValue(enclosure.rule@))
    }
}

/// The enclosure rule that an ENCLOSURE statement stands for. Thresholds
/// that the statement does not define are zero.
pub open spec fn enclosure_rule(enclosure: LefEnclosureEvent) -> Result<
    LefEnclosureRule,
    LefReadErrorView,
> {
    match enclosure_sides(enclosure) {
        Err(error) => Err(error),
        Ok(sides) => Ok(
            LefEnclosureRule {
                above: sides.0,
                below: sides.1,
                overhang1: enclosure.overhang1,
                overhang2: enclosure.overhang2,
                min_width: if enclosure.has_width {
                    enclosure.min_width
                } else {
                    0
                },
                except_extracut_within: if enclosure.has_except_extra_cut {
                    enclosure.except_extra_cut_within
                } else {
                    0
                },
                min_length: if enclosure.has_min_length {
                    enclosure.min_length
                } else {
                    0
                },
            },
        ),
    }
}

/// The enclosure rules of a cut layer, in the order reported.
pub open spec fn enclosure_rules(enclosures: Seq<LefEnclosureEvent>) -> Result<
    Seq<LefEnclosureRule>,
    LefReadErrorView,
> {
    try_map(enclosures, |enclosure: LefEnclosureEvent| enclosure_rule(enclosure))
}

/// The table of average DC current densities of a routing layer, as
/// `(wire width, current density)`. One value for all widths is stored as a
/// single entry for the width zero. Else each width is paired with its
/// density; it is a structural violation if their numbers differ.
pub open spec fn dc_current_density(event: LefLayerEvent) -> Result<
    Seq<(LefNumber, LefNumber)>,
    LefReadErrorView,
> {
    if event.has_dc_current_density_default {
        Ok(seq![(0i64, event.dc_current_density_default)])
    } else if event.dc_current_density_widths@.len() != event.dc_current_density_values@.len() {
        Err(LefReadErrorView::StructuralViolation)
    } else {
        Ok(
            event.dc_current_density_widths@.zip_with(event.dc_current_density_values@),
        )
    }
}

/// The rule on enclosed areas that a MINENCLOSEDAREA statement stands for.
pub open spec fn min_enclosed_area(area: LefMinEnclosedAreaEvent) -> (
    LefNumber,
    Option<LefNumber>,
) {
    (area.area, present(area.has_width, area.width))
}

/// The table that a SPACINGTABLE statement holds.
pub open spec fn spacing_table_view(table: LefSpacingTableEvent) -> LefSpacingTableView {
    LefSpacingTableView {
        parallel_run_lengths: table.lengths@,
        widths: table.widths@,
        spacings: table.width_spacings.deep_view(),
    }
}

/// The spacing table of a routing layer. Tables are looked at only where
/// the layer has exactly one; with none or with several the layer gets no
/// table and no error. The one table is refused where it is of the
/// influence kind, which is not supported; taken where it is of the
/// parallel run length kind, and then it must be well formed; and passed
/// over where it is of another kind.
pub open spec fn layer_spacing_table(tables: Seq<LefSpacingTableEvent>) -> Result<
    Option<LefSpacingTableView>,
    LefReadErrorView,
> {
    if tables.len() != 1 {
        Ok(None)
    } else if tables[0].is_influence {
        Err(LefReadErrorView::UnsupportedConstruct)
    } else if tables[0].is_parallel {
        if spacing_table_view(tables[0]).wf() {
            Ok(Some(spacing_table_view(tables[0])))
        } else {
            Err(LefReadErrorView::StructuralViolation)
        }
    } else {
        Ok(None)
    }
}

/// A pair of quantities that an event gives as a pair or as one value for
/// both: the pair is preferred, and nothing is given where neither is.
pub open spec fn pair_or_single(
    has_pair: bool,
    x: LefNumber,
    y: LefNumber,
    has_single: bool,
    single: LefNumber,
) -> Option<(LefNumber, LefNumber)> {
    if has_pair {
        Some((x, y))
    } else if has_single {
        Some((single, single))
    } else {
        None
    }
}

/// The routing layer that a LAYER event stands for, once its direction,
/// its spacing table and its table of current densities are known. A
/// pitch, a diagonal pitch or an offset given as a pair is preferred over
/// one given as a single value; the pitch is zero where the event gives
/// none. The sheet resistance is preferred over the resistance per cut.
pub open spec fn routing_layer_with(
    event: LefLayerEvent,
    direction: LefRoutingDirection,
    spacing_table: Option<LefSpacingTableView>,
    dc_current_density: Seq<(LefNumber, LefNumber)>,
) -> LefRoutingLayerView {
    LefRoutingLayerView {
        name: event.name@,
        mask_num: present(event.has_mask, event.mask),
        direction,
        pitch: match pair_or_single(
            event.has_xy_pitch,
            event.pitch_x,
            event.pitch_y,
            event.has_pitch,
            event.pitch,
        ) {
            Some(pitch) => pitch,
            None => (0, 0),
        },
        diag_pitch: pair_or_single(
            event.has_xy_diag_pitch,
            event.diag_pitch_x,
            event.diag_pitch_y,
            event.has_diag_pitch,
            event.diag_pitch,
        ),
        width: if event.has_width {
            event.width
        } else {
            0
        },
        offset: pair_or_single(
            event.has_xy_offset,
            event.offset_x,
            event.offset_y,
            event.has_offset,
            event.offset,
        ),
        diag_width: present(event.has_diag_width, event.diag_width),
        diag_spacing: present(event.has_diag_spacing, event.diag_spacing),
        diag_min_edge_length: present(
            event.has_diag_min_edge_length,
            event.diag_min_edge_length,
        ),
        min_area: present(event.has_area, event.area),
        min_size: event.min_sizes@,
        min_step: LefMinStep {  },
        spacing: if event.has_spacing_number {
            event.spacings@.map_values(
                |spacing: LefLayerSpacingEvent| routing_spacing_rule(spacing),
            )
        } else {
            Seq::empty()
        },
        spacing_table,
        wire_extension: present(event.has_wire_extension, event.wire_extension),
        minimum_cut: LefMinimumCut {  },
        max_width: present(event.has_max_width, event.max_width),
        min_width: present(event.has_min_width, event.min_width),
        min_enclosed_area: event.min_enclosed_areas@.map_values(
            |area: LefMinEnclosedAreaEvent| min_enclosed_area(area),
        ),
        protrusion_width: LefProtrusionWidth {  },
        resistance: if event.has_resistance {
            Some(event.resistance)
        } else {
            present(event.has_resistance_per_cut, event.resistance_per_cut)
        },
        capacitance: present(event.has_capacitance, event.capacitance),
        height: present(event.has_height, event.height),
        thickness: present(event.has_thickness, event.thickness),
        shrinkage: present(event.has_shrinkage, event.shrinkage),
        cap_multiplier: if event.has_cap_multiplier {
            event.cap_multiplier
        } else {
            1
        },
        edge_capacitance: present(event.has_edge_cap, event.edge_cap),
        minimum_density: present(event.has_minimum_density, event.minimum_density),
        maximum_density: present(event.has_maximum_density, event.maximum_density),
        density_check_window: present(
            event.has_density_check_window,
            (event.density_check_window_length, event.density_check_window_width),
        ),
        density_check_step: present(
            event.has_density_check_step,
            event.density_check_step,
        ),
        fill_active_spacing: present(
            event.has_fill_active_spacing,
            event.fill_active_spacing,
        ),
        antenna_rules: LefAntennaRules {  },
        ac_current_density: None,
        dc_current_density,
        properties: Seq::empty(),
    }
}

/// The routing layer that a LAYER event stands for. The direction is
/// vertical where the event gives none; an unknown direction keyword is an
/// error, and so are a spacing table that cannot be taken and a table of
/// current densities that does not pair up, in this order.
pub open spec fn routing_layer_record(event: LefLayerEvent) -> Result<
    LefRoutingLayerView,
    LefReadErrorView,
> {
    let direction = if event.has_direction {
        keyword_value::<LefRoutingDirection>(event.direction@)
    } else {
        Ok(LefRoutingDirection::Vertical)
    };
    match direction {
        Err(error) => Err(error),
        Ok(direction) => match layer_spacing_table(event.spacing_tables@) {
            Err(error) => Err(error),
            Ok(spacing_table) => match dc_current_density(event) {
                Err(error) => Err(error),
                Ok(density) => Ok(routing_layer_with(event, direction, spacing_table, density)),
            },
        },
    }
}

/// The cut layer that a LAYER event stands for. The enclosure rules are
/// read before the preferred ones; an unknown side is an error.
pub open spec fn cut_layer_record(event: LefLayerEvent) -> Result<
    LefCutLayerView,
    LefReadErrorView,
> {
    match enclosure_rules(event.enclosures@) {
        Err(error) => Err(error),
        Ok(enclosure) => match enclosure_rules(event.prefer_enclosures@) {
            Err(error) => Err(error),
            Ok(prefer_enclosure) => Ok(
                LefCutLayerView {
                    name: event.name@,
                    mask_num: present(event.has_mask, event.mask),
                    spacing: if event.has_spacing_number {
                        event.spacings@.map_values(
                            |spacing: LefLayerSpacingEvent| cut_spacing_rule(spacing),
                        )
                    } else {
                        Seq::empty()
                    },
                    spacing_table: None,
                    array_spacing: None,
                    width: present(event.has_width, event.width),
                    enclosure,
                    prefer_enclosure,
                    resistance: present(event.has_resistance, event.resistance),
                    properties: Seq::empty(),
                },
            ),
        },
    }
}

/// The masterslice layer that a LAYER event stands for.
pub open spec fn master_slice_layer_record(event: LefLayerEvent) -> LefMasterSliceLayerView {
    LefMasterSliceLayerView {
        name: event.name@,
        mask_num: present(event.has_mask, event.mask),
        properties: Seq::empty(),
    }
}

/// The layer that a LAYER event stands for, by the type that the event
/// reports: `CUT`, `ROUTING` or `MASTERSLICE`. Any other type is a
/// structural violation.
pub open spec fn layer_record(event: LefLayerEvent) -> Result<LefLayerView, LefReadErrorView> {
    if event.layer_type@ == "CUT"@ {
        match cut_layer_record(event) {
            Ok(layer) => Ok(LefLayerView::Cut(layer)),
            Err(error) => Err(error),
        }
    } else if event.layer_type@ == "ROUTING"@ {
        match routing_layer_record(event) {
            Ok(layer) => Ok(LefLayerView::Routing(layer)),
            Err(error) => Err(error),
        }
    } else if event.layer_type@ == "MASTERSLICE"@ {
        Ok(LefLayerView::MasterSlice(master_slice_layer_record(event)))
    } else {
        Err(LefReadErrorView::StructuralViolation)
    }
}

/// A layer of a type other than `CUT`, `ROUTING` and `MASTERSLICE` is a
/// structural violation, whatever else its event holds.
pub proof fn lemma_other_layer_type_is_refused(event: LefLayerEvent)
    requires
        event.layer_type@ != "CUT"@,
        event.layer_type@ != "ROUTING"@,
        event.layer_type@ != "MASTERSLICE"@,
    ensures
        layer_record(event) == Err::<LefLayerView, _>(LefReadErrorView::StructuralViolation),
{
}

/// Reads the spacing rules of a routing layer.
pub fn read_routing_spacings(spacings: &Vec<LefLayerSpacingEvent>) -> (res: Vec<LefSpacingRules>)
    ensures
        res@ == spacings@.map_values(|spacing: LefLayerSpacingEvent| routing_spacing_rule(spacing)),
{
    let mut rules: Vec<LefSpacingRules> = Vec::new();
    let mut index: usize = 0;
    while index < spacings.len()
        invariant
            index <= spacings@.len(),
            rules@.len() == index,
            forall|k: int| 0 <= k < index ==> rules@[k] == routing_spacing_rule(spacings@[k]),
        decreases spacings@.len() - index,
    {
        let spacing = &spacings[index];
        let min_spacing = spacing.spacing;
        let spacing_type = if spacing.has_range {
            let spacing_range_type = if spacing.has_range_use_length_threshold {
                Some(LefSpacingRangeType::UseLengthThreshold)
            } else if spacing.has_range_influence {
                Some(LefSpacingRangeType::Influence { influence_length: spacing.range_influence })
            } else {
                None
            };
            Some(
                LefSpacingType::Range {
                    min_width: spacing.range_min,
                    max_width: spacing.range_max,
                    spacing_range_type,
                },
            )
        } else if spacing.has_end_of_line {
            Some(
                LefSpacingType::EndOfLine {
                    eol_width: spacing.eol_width,
                    eol_widthing: spacing.eol_within,
                },
            )
        } else if spacing.has_same_net {
            Some(LefSpacingType::SameNet { power_ground_only: spacing.has_same_net_pg_only })
        } else if spacing.has_notch_length {
            Some(LefSpacingType::NotchLength { min_notch_length: spacing.notch_length })
        } else if spacing.has_end_of_notch_width {
            Some(
                LefSpacingType::EndOfNotchWidth {
                    end_of_notch_width: spacing.end_of_notch_width,
                    min_notch_spacing: spacing.end_of_notch_spacing,
                    min_notch_length: spacing.end_of_notch_length,
                },
            )
        } else {
            None
        };
        rules.push(LefSpacingRules { min_spacing, spacing_type });
        index += 1;
    }
    assert(rules@ =~= spacings@.map_values(
        |spacing: LefLayerSpacingEvent| routing_spacing_rule(spacing),
    ));
    rules
}

/// Reads the spacing rules of a cut layer.
pub fn read_cut_spacings(spacings: &Vec<LefLayerSpacingEvent>) -> (res: Vec<LefCutSpacingRule>)
    ensures
        res@ == spacings@.map_values(|spacing: LefLayerSpacingEvent| cut_spacing_rule(spacing)),
{
    let mut rules: Vec<LefCutSpacingRule> = Vec::new();
    let mut index: usize = 0;
    while index < spacings.len()
        invariant
            index <= spacings@.len(),
            rules@.len() == index,
            forall|k: int| 0 <= k < index ==> rules@[k] == cut_spacing_rule(spacings@[k]),
        decreases spacings@.len() - index,
    {
        let spacing = spacings[index].spacing;
        let center_to_center = spacings[index].has_center_to_center;
        let same_net = spacings[index].has_same_net;
        rules.push(LefCutSpacingRule { spacing, center_to_center, same_net });
        index += 1;
    }
    assert(rules@ =~= spacings@.map_values(
        |spacing: LefLayerSpacingEvent| cut_spacing_rule(spacing),
    ));
    rules
}

/// Reads the enclosure rules of a cut layer.
pub fn read_enclosures(enclosures: &Vec<LefEnclosureEvent>) -> (res: LefReadResult<
    Vec<LefEnclosureRule>,
>)
    ensures
        list_result_view(res) == enclosure_rules(enclosures@),
{
    let ghost f = |enclosure: LefEnclosureEvent| enclosure_rule(enclosure);
    let mut rules: Vec<LefEnclosureRule> = Vec::new();
    let mut index: usize = 0;
    assert(enclosures@.take(0) =~= Seq::empty());
    while index < enclosures.len()
        invariant
            index <= enclosures@.len(),
            f == |enclosure: LefEnclosureEvent| enclosure_rule(enclosure),
            try_map(enclosures@.take(index as int), f) == Ok::<_, LefReadErrorView>(rules@),
        decreases enclosures@.len() - index,
    {
        proof {
            lemma_try_map_next(enclosures@, f, index as int);
        }
        let enclosure = &enclosures[index];
        let mut rule = LefEnclosureRule::default();
        if enclosure.has_rule {
            if str_eq(enclosure.rule.as_str(), "ABOVE") {
                rule.below = false;
            } else if str_eq(enclosure.rule.as_str(), "BELOW") {
                rule.above = false;
            } else {
                proof {
                    lemma_try_map_rest(enclosures@, f, index as int + 1);
                }
                return Err(LefReadError::unknown_keyword(enclosure.rule.as_str()));
            }
        }
        rule.overhang1 = enclosure.overhang1;
        rule.overhang2 = enclosure.overhang2;
        if enclosure.has_width {
            rule.min_width = enclosure.min_width;
        }
        if enclosure.has_except_extra_cut {
            rule.except_extracut_within = enclosure.except_extra_cut_within;
        }
        if enclosure.has_min_length {
            rule.min_length = enclosure.min_length;
        }
        rules.push(rule);
        index += 1;
    }
    assert(enclosures@.take(index as int) =~= enclosures@);
    Ok(rules)
}

/// Reads the table of average DC current densities of a routing layer.
pub fn read_dc_current_density(event: &LefLayerEvent) -> (res: LefReadResult<
    Vec<(LefNumber, LefNumber)>,
>)
    ensures
        list_result_view(res) == dc_current_density(*event),
{
    let mut table: Vec<(LefNumber, LefNumber)> = Vec::new();
    if event.has_dc_current_density_default {
        table.push((0, event.dc_current_density_default));
        assert(table@ =~= seq![(0i64, event.dc_current_density_default)]);
        return Ok(table);
    }
    let widths = &event.dc_current_density_widths;
    let values = &event.dc_current_density_values;
    if widths.len() != values.len() {
        return Err(LefReadError::StructuralViolation);
    }
    let mut index: usize = 0;
    while index < widths.len()
        invariant
            index <= widths@.len(),
            widths@.len() == values@.len(),
            table@.len() == index,
            forall|k: int| 0 <= k < index ==> table@[k] == (widths@[k], values@[k]),
        decreases widths@.len() - index,
    {
        table.push((widths[index], values[index]));
        index += 1;
    }
    assert(table@ =~= widths@.zip_with(values@));
    Ok(table)
}

/// Reads the rules on enclosed areas of a routing layer.
pub fn read_min_enclosed_areas(areas: &Vec<LefMinEnclosedAreaEvent>) -> (res: Vec<
    (LefNumber, Option<LefNumber>),
>)
    ensures
        res@ == areas@.map_values(|area: LefMinEnclosedAreaEvent| min_enclosed_area(area)),
{
    let mut rules: Vec<(LefNumber, Option<LefNumber>)> = Vec::new();
    let mut index: usize = 0;
    while index < areas.len()
        invariant
            index <= areas@.len(),
            rules@.len() == index,
            forall|k: int| 0 <= k < index ==> rules@[k] == min_enclosed_area(areas@[k]),
        decreases areas@.len() - index,
    {
        rules.push((areas[index].area, optional(areas[index].has_width, areas[index].width)));
        index += 1;
    }
    assert(rules@ =~= areas@.map_values(|area: LefMinEnclosedAreaEvent| min_enclosed_area(area)));
    rules
}

/// Copies the table that a SPACINGTABLE statement holds.
pub fn read_table(table: &LefSpacingTableEvent) -> (res: LefSpacingTable)
    ensures
        res.deep_view() == spacing_table_view(*table),
{
    let mut spacings: Vec<Vec<LefNumber>> = Vec::new();
    let mut row: usize = 0;
    while row < table.width_spacings.len()
        invariant
            row <= table.width_spacings@.len(),
            spacings@.len() == row,
            forall|k: int| 0 <= k < row ==> (#[trigger] spacings@[k])@ == table.width_spacings@[k]@,
        decreases table.width_spacings@.len() - row,
    {
        spacings.push(clone_list(&table.width_spacings[row]));
        row += 1;
    }
    assert(spacings.deep_view() =~= table.width_spacings.deep_view());
    LefSpacingTable {
        parallel_run_lengths: clone_list(&table.lengths),
        widths: clone_list(&table.widths),
        spacings,
    }
}

/// Reads the spacing table of a routing layer.
pub fn read_spacing_table(tables: &Vec<LefSpacingTableEvent>) -> (res: LefReadResult<
    Option<LefSpacingTable>,
>)
    ensures
        result_view(res) == layer_spacing_table(tables@),
{
    if tables.len() != 1 {
        return Ok(None);
    }
    let table = &tables[0];
    if table.is_influence {
        Err(LefReadError::UnsupportedConstruct)
    } else if table.is_parallel {
        let table = read_table(table);
        if table.is_well_formed() {
            Ok(Some(table))
        } else {
            Err(LefReadError::StructuralViolation)
        }
    } else {
        Ok(None)
    }
}

/// Picks the pair where the event gives one, else the single value for both.
pub fn read_pair_or_single(
    has_pair: bool,
    x: LefNumber,
    y: LefNumber,
    has_single: bool,
    single: LefNumber,
) -> (res: Option<(LefNumber, LefNumber)>)
    ensures
        res == pair_or_single(has_pair, x, y, has_single, single),
{
    if has_pair {
        Some((x, y))
    } else if has_single {
        Some((single, single))
    } else {
        None
    }
}

/// Builds a routing layer from a LAYER construct, its direction, its
/// spacing table and its table of current densities.
pub fn read_routing_layer_with(
    event: &LefLayerEvent,
    direction: LefRoutingDirection,
    spacing_table: Option<LefSpacingTable>,
    dc_current_density: Vec<(LefNumber, LefNumber)>,
) -> (res: LefRoutingLayer)
    ensures
        res.deep_view() == routing_layer_with(
            *event,
            direction,
            spacing_table.deep_view(),
            dc_current_density@,
        ),
{
    let pitch = match read_pair_or_single(
        event.has_xy_pitch,
        event.pitch_x,
        event.pitch_y,
        event.has_pitch,
        event.pitch,
    ) {
        Some(pitch) => pitch,
        None => (0, 0),
    };
    let resistance = if event.has_resistance {
        Some(event.resistance)
    } else {
        optional(event.has_resistance_per_cut, event.resistance_per_cut)
    };
    let spacing = if event.has_spacing_number {
        read_routing_spacings(&event.spacings)
    } else {
        Vec::new()
    };
    let ghost expected = routing_layer_with(
        *event,
        direction,
        spacing_table.deep_view(),
        dc_current_density@,
    );
    assert(spacing@ =~= expected.spacing);
    LefRoutingLayer {
        name: event.name.clone(),
        mask_num: optional(event.has_mask, event.mask),
        direction,
        pitch,
        diag_pitch: read_pair_or_single(
            event.has_xy_diag_pitch,
            event.diag_pitch_x,
            event.diag_pitch_y,
            event.has_diag_pitch,
            event.diag_pitch,
        ),
        width: if event.has_width {
            event.width
        } else {
            0
        },
        offset: read_pair_or_single(
            event.has_xy_offset,
            event.offset_x,
            event.offset_y,
            event.has_offset,
            event.offset,
        ),
        diag_width: optional(event.has_diag_width, event.diag_width),
        diag_spacing: optional(event.has_diag_spacing, event.diag_spacing),
        diag_min_edge_length: optional(event.has_diag_min_edge_length, event.diag_min_edge_length),
        min_area: optional(event.has_area, event.area),
        min_size: clone_list(&event.min_sizes),
        min_step: LefMinStep {  },
        spacing,
        spacing_table,
        wire_extension: optional(event.has_wire_extension, event.wire_extension),
        minimum_cut: LefMinimumCut {  },
        max_width: optional(event.has_max_width, event.max_width),
        min_width: optional(event.has_min_width, event.min_width),
        min_enclosed_area: read_min_enclosed_areas(&event.min_enclosed_areas),
        protrusion_width: LefProtrusionWidth {  },
        resistance,
        capacitance: optional(event.has_capacitance, event.capacitance),
        height: optional(event.has_height, event.height),
        thickness: optional(event.has_thickness, event.thickness),
        shrinkage: optional(event.has_shrinkage, event.shrinkage),
        cap_multiplier: if event.has_cap_multiplier {
            event.cap_multiplier
        } else {
            1
        },
        edge_capacitance: optional(event.has_edge_cap, event.edge_cap),
        minimum_density: optional(event.has_minimum_density, event.minimum_density),
        maximum_density: optional(event.has_maximum_density, event.maximum_density),
        density_check_window: optional(
            event.has_density_check_window,
            (event.density_check_window_length, event.density_check_window_width),
        ),
        density_check_step: optional(event.has_density_check_step, event.density_check_step),
        fill_active_spacing: optional(event.has_fill_active_spacing, event.fill_active_spacing),
        antenna_rules: LefAntennaRules {  },
        ac_current_density: None,
        dc_current_density,
        properties: LefNameMap::new(),
    }
}

/// Builds the routing layer that a LAYER construct stands for.
pub fn read_routing_layer(event: &LefLayerEvent) -> (res: LefReadResult<LefRoutingLayer>)
    ensures
        result_view(res) == routing_layer_record(*event),
{
    let direction = if event.has_direction {
        match LefRoutingDirection::from_str(event.direction.as_str()) {
            Ok(direction) => direction,
            Err(_) => {
                return Err(LefReadError::unknown_keyword(event.direction.as_str()));
            },
        }
    } else {
        LefRoutingDirection::Vertical
    };
    let spacing_table = match read_spacing_table(&event.spacing_tables) {
        Ok(spacing_table) => spacing_table,
        Err(error) => {
            return Err(error);
        },
    };
    match read_dc_current_density(event) {
        Ok(density) => Ok(read_routing_layer_with(event, direction, spacing_table, density)),
        Err(error) => Err(error),
    }
}

/// Builds the cut layer that a LAYER construct stands for.
pub fn read_cut_layer(event: &LefLayerEvent) -> (res: LefReadResult<LefCutLayer>)
    ensures
        result_view(res) == cut_layer_record(*event),
{
    let enclosure = match read_enclosures(&event.enclosures) {
        Ok(rules) => rules,
        Err(error) => {
            return Err(error);
        },
    };
    let prefer_enclosure = match read_enclosures(&event.prefer_enclosures) {
        Ok(rules) => rules,
        Err(error) => {
            return Err(error);
        },
    };
    let spacing = if event.has_spacing_number {
        read_cut_spacings(&event.spacings)
    } else {
        Vec::new()
    };
    let layer = LefCutLayer {
        name: event.name.clone(),
        mask_num: optional(event.has_mask, event.mask),
        spacing,
        spacing_table: None,
        array_spacing: None,
        width: optional(event.has_width, event.width),
        enclosure,
        prefer_enclosure,
        resistance: optional(event.has_resistance, event.resistance),
        properties: LefNameMap::new(),
    };
    assert(layer.deep_view().spacing =~= cut_layer_record(*event)->Ok_0.spacing);
    Ok(layer)
}

/// Builds the masterslice layer that a LAYER construct stands for.
pub fn read_master_slice_layer(event: &LefLayerEvent) -> (res: LefMasterSliceLayer)
    ensures
        res.deep_view() == master_slice_layer_record(*event),
{
    LefMasterSliceLayer {
        name: event.name.clone(),
        mask_num: optional(event.has_mask, event.mask),
        properties: LefNameMap::new(),
    }
}

/// Builds the layer that a LAYER construct stands for.
pub fn build_layer(event: &LefLayerEvent) -> (res: LefReadResult<LefLayer>)
    ensures
        result_view(res) == layer_record(*event),
{
    let layer_type = event.layer_type.as_str();
    if str_eq(layer_type, "CUT") {
        match read_cut_layer(event) {
            Ok(layer) => Ok(LefLayer::Cut(layer)),
            Err(error) => Err(error),
        }
    } else if str_eq(layer_type, "ROUTING") {
        match read_routing_layer(event) {
            Ok(layer) => Ok(LefLayer::Routing(layer)),
            Err(error) => Err(error),
        }
    } else if str_eq(layer_type, "MASTERSLICE") {
        Ok(LefLayer::MasterSlice(read_master_slice_layer(event)))
    } else {
        Err(LefReadError::StructuralViolation)
    }
}

} // verus!
