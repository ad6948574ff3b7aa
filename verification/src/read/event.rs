//! Construct events: what the event source reports of one construct, as
//! plain values. An optional field comes as a presence flag and the value
//! read beside it; the value means nothing where the flag is not set.
use vstd::prelude::*;
use crate::model::geometry::LefStepPattern;
use crate::model::{LefNumber, LefPoint};

verus! {

/// A UNITS construct.
#[derive(Copy, Clone, Debug, Default, PartialEq, Eq)]
pub struct LefUnitsEvent {
    pub has_time: bool,
    pub time: u64,
    pub has_capacitance: bool,
    pub capacitance: u64,
    pub has_resistance: bool,
    pub resistance: u64,
    pub has_power: bool,
    pub power: u64,
    pub has_current: bool,
    pub current: u64,
    pub has_voltage: bool,
    pub voltage: u64,
    pub has_database: bool,
    pub database_number: u64,
    pub has_frequency: bool,
    pub frequency: u64,
}

/// One entry of the row pattern of a composite site.
#[derive(Clone, Debug, Default, PartialEq, Eq)]
pub struct LefSiteRowEvent {
    /// Name of a previously defined site.
    pub name: String,
    /// Orientation keyword.
    pub orient: String,
}

/// A SITE construct.
#[derive(Clone, Debug, Default, PartialEq, Eq)]
pub struct LefSiteEvent {
    pub name: String,
    pub has_size: bool,
    pub size_x: LefNumber,
    pub size_y: LefNumber,
    pub has_class: bool,
    /// Site class keyword.
    pub class: String,
    pub has_x_symmetry: bool,
    pub has_y_symmetry: bool,
    pub has_90_symmetry: bool,
    pub row_pattern: Vec<LefSiteRowEvent>,
}

/// One SPACING statement of a layer.
#[derive(Copy, Clone, Debug, Default, PartialEq, Eq)]
pub struct LefLayerSpacingEvent {
    pub spacing: LefNumber,
    pub has_range: bool,
    pub range_min: LefNumber,
    pub range_max: LefNumber,
    pub has_range_use_length_threshold: bool,
    pub has_range_influence: bool,
    pub range_influence: LefNumber,
    pub has_end_of_line: bool,
    pub eol_width: LefNumber,
    pub eol_within: LefNumber,
    pub has_same_net: bool,
    pub has_same_net_pg_only: bool,
    pub has_notch_length: bool,
    pub notch_length: LefNumber,
    pub has_end_of_notch_width: bool,
    pub end_of_notch_width: LefNumber,
    pub end_of_notch_spacing: LefNumber,
    pub end_of_notch_length: LefNumber,
    pub has_center_to_center: bool,
}

/// One SPACINGTABLE statement of a layer.
#[derive(Clone, Debug, Default, PartialEq, Eq)]
pub struct LefSpacingTableEvent {
    /// The table is of the influence kind.
    pub is_influence: bool,
    /// The table is of the parallel run length kind.
    pub is_parallel: bool,
    /// Parallel run lengths: the column headers.
    pub lengths: Vec<LefNumber>,
    /// Widths: the row headers.
    pub widths: Vec<LefNumber>,
    /// The spacings, row by row.
    pub width_spacings: Vec<Vec<LefNumber>>,
}

/// One ENCLOSURE or PREFERENCLOSURE statement of a cut layer.
#[derive(Clone, Debug, Default, PartialEq, Eq)]
pub struct LefEnclosureEvent {
    /// The statement names the side to which it applies.
    pub has_rule: bool,
    /// The side: `ABOVE` or `BELOW`.
    pub rule: String,
    pub overhang1: LefNumber,
    pub overhang2: LefNumber,
    pub has_width: bool,
    pub min_width: LefNumber,
    pub has_except_extra_cut: bool,
    pub except_extra_cut_within: LefNumber,
    pub has_min_length: bool,
    pub min_length: LefNumber,
}

/// One MINENCLOSEDAREA statement of a routing layer.
#[derive(Copy, Clone, Debug, Default, PartialEq, Eq)]
pub struct LefMinEnclosedAreaEvent {
    pub area: LefNumber,
    pub has_width: bool,
    pub width: LefNumber,
}

/// A LAYER construct.
#[derive(Clone, Debug, Default, PartialEq, Eq)]
pub struct LefLayerEvent {
    pub name: String,
    /// Layer type keyword.
    pub layer_type: String,
    pub has_mask: bool,
    pub mask: u32,
    pub has_width: bool,
    pub width: LefNumber,
    pub has_area: bool,
    pub area: LefNumber,
    pub has_max_width: bool,
    pub max_width: LefNumber,
    pub has_min_width: bool,
    pub min_width: LefNumber,
    pub has_height: bool,
    pub height: LefNumber,
    pub has_resistance: bool,
    pub resistance: LefNumber,
    pub has_resistance_per_cut: bool,
    pub resistance_per_cut: LefNumber,
    pub has_capacitance: bool,
    pub capacitance: LefNumber,
    pub has_thickness: bool,
    pub thickness: LefNumber,
    pub has_shrinkage: bool,
    pub shrinkage: LefNumber,
    pub has_cap_multiplier: bool,
    pub cap_multiplier: u32,
    pub has_edge_cap: bool,
    pub edge_cap: LefNumber,
    pub has_direction: bool,
    /// Routing direction keyword.
    pub direction: String,
    pub has_pitch: bool,
    pub pitch: LefNumber,
    pub has_xy_pitch: bool,
    pub pitch_x: LefNumber,
    pub pitch_y: LefNumber,
    pub has_offset: bool,
    pub offset: LefNumber,
    pub has_xy_offset: bool,
    pub offset_x: LefNumber,
    pub offset_y: LefNumber,
    pub has_diag_pitch: bool,
    pub diag_pitch: LefNumber,
    pub has_xy_diag_pitch: bool,
    pub diag_pitch_x: LefNumber,
    pub diag_pitch_y: LefNumber,
    pub has_diag_width: bool,
    pub diag_width: LefNumber,
    pub has_diag_spacing: bool,
    pub diag_spacing: LefNumber,
    pub has_diag_min_edge_length: bool,
    pub diag_min_edge_length: LefNumber,
    pub has_wire_extension: bool,
    pub wire_extension: LefNumber,
    pub has_minimum_density: bool,
    pub minimum_density: LefNumber,
    pub has_maximum_density: bool,
    pub maximum_density: LefNumber,
    pub has_density_check_window: bool,
    pub density_check_window_length: LefNumber,
    pub density_check_window_width: LefNumber,
    pub has_density_check_step: bool,
    pub density_check_step: LefNumber,
    pub has_fill_active_spacing: bool,
    pub fill_active_spacing: LefNumber,
    /// MINSIZE rectangles, as `(minimal width, minimal length)`.
    pub min_sizes: Vec<LefPoint>,
    pub min_enclosed_areas: Vec<LefMinEnclosedAreaEvent>,
    /// The layer has SPACING statements.
    pub has_spacing_number: bool,
    pub spacings: Vec<LefLayerSpacingEvent>,
    pub spacing_tables: Vec<LefSpacingTableEvent>,
    pub enclosures: Vec<LefEnclosureEvent>,
    pub prefer_enclosures: Vec<LefEnclosureEvent>,
    /// The average DC current density is one value for all widths.
    pub has_dc_current_density_default: bool,
    pub dc_current_density_default: LefNumber,
    /// The wire widths of the table of average DC current densities.
    pub dc_current_density_widths: Vec<LefNumber>,
    /// The current densities for those widths, one for each.
    pub dc_current_density_values: Vec<LefNumber>,
}

/// One rectangle of a via layer.
#[derive(Copy, Clone, Debug, Default, PartialEq, Eq)]
pub struct LefRectEvent {
    pub xl: LefNumber,
    pub yl: LefNumber,
    pub xh: LefNumber,
    pub yh: LefNumber,
}

/// One layer of a VIA construct.
#[derive(Clone, Debug, Default, PartialEq, Eq)]
pub struct LefViaLayerEvent {
    pub name: String,
    pub rects: Vec<LefRectEvent>,
    /// The polygons, each by its vertices.
    pub polygons: Vec<Vec<LefPoint>>,
}

/// A VIA construct.
#[derive(Clone, Debug, Default, PartialEq, Eq)]
pub struct LefViaEvent {
    pub name: String,
    pub has_default: bool,
    pub has_resistance: bool,
    pub resistance: LefNumber,
    pub layers: Vec<LefViaLayerEvent>,
}

/// One layer of a VIARULE construct.
#[derive(Clone, Debug, Default, PartialEq, Eq)]
pub struct LefViaRuleLayerEvent {
    pub name: String,
    pub has_enclosure: bool,
    pub enclosure_overhang1: LefNumber,
    pub enclosure_overhang2: LefNumber,
    pub has_width: bool,
    pub width_min: LefNumber,
    pub width_max: LefNumber,
    pub has_rect: bool,
    pub xl: LefNumber,
    pub yl: LefNumber,
    pub xh: LefNumber,
    pub yh: LefNumber,
    pub has_spacing: bool,
    pub spacing_step_x: LefNumber,
    pub spacing_step_y: LefNumber,
}

/// A VIARULE construct.
#[derive(Clone, Debug, Default, PartialEq, Eq)]
pub struct LefViaRuleEvent {
    pub name: String,
    /// The rule is a GENERATE rule.
    pub has_generate: bool,
    pub has_default: bool,
    pub layers: Vec<LefViaRuleLayerEvent>,
}

/// One FOREIGN statement of a macro.
#[derive(Clone, Debug, Default, PartialEq, Eq)]
pub struct LefForeignEvent {
    pub name: String,
    pub has_point: bool,
    pub x: LefNumber,
    pub y: LefNumber,
    pub has_orient: bool,
    /// Orientation keyword.
    pub orient: String,
}

/// One SITE statement of a macro that places a site at a point.
#[derive(Clone, Debug, Default, PartialEq, Eq)]
pub struct LefSitePatternEvent {
    pub name: String,
    pub x: LefNumber,
    pub y: LefNumber,
    /// Orientation keyword.
    pub orient: String,
    pub has_step_pattern: bool,
    /// Number of repetitions in x-direction.
    pub x_start: u64,
    /// Number of repetitions in y-direction.
    pub y_start: u64,
    /// Spacing in x-direction.
    pub x_step: LefNumber,
    /// Spacing in y-direction.
    pub y_step: LefNumber,
}

/// A MACRO construct, reported when the macro closes.
#[derive(Clone, Debug, Default, PartialEq, Eq)]
pub struct LefMacroEvent {
    pub name: String,
    pub has_class: bool,
    /// Macro class keyword, with its subclass if it has one.
    pub class: String,
    pub is_fixed_mask: bool,
    /// The macro has FOREIGN statements.
    pub has_foreign: bool,
    pub foreigns: Vec<LefForeignEvent>,
    pub has_origin: bool,
    pub origin_x: LefNumber,
    pub origin_y: LefNumber,
    pub has_eeq: bool,
    pub eeq: String,
    pub has_size: bool,
    pub size_x: LefNumber,
    pub size_y: LefNumber,
    pub has_x_symmetry: bool,
    pub has_y_symmetry: bool,
    pub has_90_symmetry: bool,
    /// The macro names a single site.
    pub has_site_name: bool,
    pub site_name: String,
    pub site_patterns: Vec<LefSitePatternEvent>,
}

/// One item of the geometry of a port or an obstruction.
#[derive(Clone, Debug, PartialEq, Eq)]
pub enum LefGeometryItem {
    /// LAYER: the items that follow lie on the named layer.
    Layer(String),
    /// EXCEPTPGNET on the current layer.
    LayerExceptPgNet,
    /// SPACING on the current layer.
    LayerMinSpacing(LefNumber),
    /// DESIGNRULEWIDTH on the current layer.
    LayerRuleWidth(LefNumber),
    /// WIDTH: the width of the paths that follow.
    Width(LefNumber),
    /// CLASS of the port, as its keyword.
    Class(String),
    /// PATH through the given points.
    Path(Vec<LefPoint>),
    /// PATH repeated by a step pattern.
    PathIter(Vec<LefPoint>, LefStepPattern),
    /// RECT by its low and high corner.
    Rect { xl: LefNumber, yl: LefNumber, xh: LefNumber, yh: LefNumber },
    /// RECT repeated by a step pattern.
    RectIter { xl: LefNumber, yl: LefNumber, xh: LefNumber, yh: LefNumber, step: LefStepPattern },
    /// POLYGON by its vertices.
    Polygon(Vec<LefPoint>),
    /// POLYGON repeated by a step pattern.
    PolygonIter(Vec<LefPoint>, LefStepPattern),
    /// VIA placed in the geometry.
    Via,
    /// VIA repeated by a step pattern.
    ViaIter,
}

/// A PIN construct.
#[derive(Clone, Debug, Default, PartialEq, Eq)]
pub struct LefPinEvent {
    pub name: String,
    pub has_taper_rule: bool,
    pub taper_rule: String,
    pub has_direction: bool,
    /// Pin direction keyword.
    pub direction: String,
    pub has_use: bool,
    /// Signal use keyword.
    pub signal_use: String,
    pub has_supply_sensitivity: bool,
    pub supply_sensitivity: String,
    pub has_ground_sensitivity: bool,
    pub ground_sensitivity: String,
    pub has_shape: bool,
    /// Pin shape keyword.
    pub shape: String,
    pub has_must_join: bool,
    pub must_join: String,
    /// The ports, each as the items of its geometry.
    pub ports: Vec<Vec<LefGeometryItem>>,
}

} // verus!
