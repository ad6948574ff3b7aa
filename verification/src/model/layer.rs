//! Layers of the process stack and their design rules.
use vstd::prelude::*;
use crate::model::keywords::LefRoutingDirection;
use crate::model::property::{LefPropertyValue, LefPropertyValueView};
use crate::model::{LefNumber, LefPoint};
use crate::name_map::LefNameMap;
use crate::text::clone_list;

verus! {

/// One spacing rule of a routing layer.
#[derive(Copy, Clone, Debug, PartialEq, Eq)]
pub struct LefSpacingRules {
    /// The minimal spacing that the rule asks for.
    pub min_spacing: LefNumber,
    /// The condition under which the rule applies, if it has one.
    pub spacing_type: Option<LefSpacingType>,
}

impl Default for LefSpacingRules {
    fn default() -> (res: Self)
        ensures
            res == (LefSpacingRules { min_spacing: 0, spacing_type: None }),
    {
        LefSpacingRules { min_spacing: 0, spacing_type: None }
    }
}

/// The condition of a spacing rule of a routing layer.
#[derive(Copy, Clone, Debug, PartialEq, Eq)]
pub enum LefSpacingType {
    /// The rule applies to wires with a width in the range.
    Range {
        min_width: LefNumber,
        max_width: LefNumber,
        spacing_range_type: Option<LefSpacingRangeType>,
    },
    /// The rule applies to the end of a line.
    EndOfLine { eol_width: LefNumber, eol_widthing: LefNumber },
    /// Rule applies only for two shapes of the same net.
    SameNet {
        /// PGONLY, same-net rule applies for power and ground nets only.
        power_ground_only: bool,
    },
    /// The rule applies to notches up to the given length.
    NotchLength { min_notch_length: LefNumber },
    /// The rule applies to the end of a notch.
    EndOfNotchWidth {
        end_of_notch_width: LefNumber,
        min_notch_spacing: LefNumber,
        min_notch_length: LefNumber,
    },
}

/// Refinement of a range spacing rule.
#[derive(Copy, Clone, Debug, PartialEq, Eq)]
pub enum LefSpacingRangeType {
    /// The rule uses the length threshold.
    UseLengthThreshold,
    /// The rule reaches wires within the influence length.
    Influence { influence_length: LefNumber },
}

/// SPACINGTABLE, spacing rules for a routing layer: minimal spacings by
/// wire width (rows) and parallel run length (columns).
#[derive(Debug, Default, PartialEq, Eq)]
pub struct LefSpacingTable {
    /// Indices of the table columns.
    pub parallel_run_lengths: Vec<LefNumber>,
    /// Indices of the table rows.
    pub widths: Vec<LefNumber>,
    /// Table values, row by row.
    pub spacings: Vec<Vec<LefNumber>>,
}

/// What a `LefSpacingTable` holds.
pub struct LefSpacingTableView {
    pub parallel_run_lengths: Seq<LefNumber>,
    pub widths: Seq<LefNumber>,
    pub spacings: Seq<Seq<LefNumber>>,
}

impl DeepView for LefSpacingTable {
    type V = LefSpacingTableView;

    open spec fn deep_view(&self) -> LefSpacingTableView {
        LefSpacingTableView {
            parallel_run_lengths: self.parallel_run_lengths@,
            widths: self.widths@,
            spacings: self.spacings.deep_view(),
        }
    }
}

impl Clone for LefSpacingTable {
    fn clone(&self) -> (res: Self)
        ensures
            res.deep_view() == self.deep_view(),
    {
        let mut spacings: Vec<Vec<LefNumber>> = Vec::new();
        let mut row: usize = 0;
        while row < self.spacings.len()
            invariant
                row <= self.spacings@.len(),
                spacings@.len() == row,
                forall|k: int| 0 <= k < row ==> (#[trigger] spacings@[k])@ == self.spacings@[k]@,
            decreases self.spacings@.len() - row,
        {
            spacings.push(clone_list(&self.spacings[row]));
            row += 1;
        }
        assert(spacings.deep_view() =~= self.spacings.deep_view());
        LefSpacingTable {
            parallel_run_lengths: clone_list(&self.parallel_run_lengths),
            widths: clone_list(&self.widths),
            spacings,
        }
    }
}

/// Each header is smaller than the ones after it.
pub open spec fn strictly_ascending(headers: Seq<LefNumber>) -> bool {
    forall|i: int, j: int| 0 <= i < j < headers.len() ==> headers[i] < headers[j]
}

/// `index` is where a floor lookup of `query` lands: on the greatest header
/// that is not above `query`, or on the first header where all are above it.
pub open spec fn is_floor(headers: Seq<LefNumber>, query: LefNumber, index: int) -> bool {
    &&& 0 <= index < headers.len()
    &&& index > 0 ==> headers[index] <= query
    &&& forall|j: int| index < j < headers.len() ==> headers[j] > query
}

/// The position on which a floor lookup of `query` lands.
pub open spec fn floor_position(headers: Seq<LefNumber>, query: LefNumber) -> int {
    choose|index: int| is_floor(headers, query, index)
}

/// Among ascending headers a floor lookup lands on one position only.
pub proof fn lemma_floor_unique(headers: Seq<LefNumber>, query: LefNumber, a: int, b: int)
    requires
        strictly_ascending(headers),
        is_floor(headers, query, a),
        is_floor(headers, query, b),
    ensures
        a == b,
{
    if a < b {
        assert(headers[b] > query);
    } else if b < a {
        assert(headers[a] > query);
    }
}

/// The floor position among ascending headers, of which there is at least one.
pub fn floor_index(headers: &Vec<LefNumber>, query: LefNumber) -> (res: usize)
    requires
        strictly_ascending(headers@),
        headers@.len() > 0,
    ensures
        is_floor(headers@, query, res as int),
        res as int == floor_position(headers@, query),
{
    let mut i: usize = 0;
    while i < headers.len() - 1 && headers[i + 1] <= query
        invariant
            i < headers@.len(),
            i > 0 ==> headers@[i as int] <= query,
        decreases headers@.len() - i,
    {
        i += 1;
    }
    proof {
        assert forall|j: int| i < j < headers@.len() implies headers@[j] > query by {
            if j > i + 1 {
                assert(headers@[i + 1] < headers@[j]);
            }
        }
        assert(is_floor(headers@, query, i as int));
        lemma_floor_unique(headers@, query, i as int, floor_position(headers@, query));
    }
    i
}

impl LefSpacingTableView {
    /// The headers ascend strictly, and there is one row for each width
    /// and in each row one cell for each parallel run length.
    pub open spec fn wf(self) -> bool {
        &&& strictly_ascending(self.widths)
        &&& strictly_ascending(self.parallel_run_lengths)
        &&& self.spacings.len() == self.widths.len()
        &&& forall|row: int|
            0 <= row < self.spacings.len() ==> (#[trigger] self.spacings[row]).len()
                == self.parallel_run_lengths.len()
    }

    /// The minimal spacing for a wire of the given width that runs beside
    /// another over the given length: the cell in the row of the greatest
    /// width header not above `width` and in the column of the greatest
    /// length header not above `run_length`; below the first header the
    /// lookup lands on the first. A table without rows or columns answers nothing.
    pub open spec fn query(self, width: LefNumber, run_length: LefNumber) -> Option<LefNumber> {
        if self.widths.len() == 0 || self.parallel_run_lengths.len() == 0 {
            None
        } else {
            Some(
                self.spacings[floor_position(self.widths, width)][floor_position(
                    self.parallel_run_lengths,
                    run_length,
                )],
            )
        }
    }
}

/// Tells whether the headers ascend strictly.
pub fn is_strictly_ascending(headers: &Vec<LefNumber>) -> (res: bool)
    ensures
        res == strictly_ascending(headers@),
{
    let mut i: usize = 1;
    while i < headers.len()
        invariant
            1 <= i,
            forall|j: int|
                0 < j < i && j < headers@.len() ==> headers@[j - 1] < #[trigger] headers@[j],
        decreases headers@.len() - i,
    {
        if headers[i - 1] >= headers[i] {
            return false;
        }
        i += 1;
    }
    proof {
        lemma_steps_ascend(headers@);
    }
    true
}

/// Headers of which each one is above its predecessor ascend strictly.
pub proof fn lemma_steps_ascend(headers: Seq<LefNumber>)
    requires
        forall|j: int| 0 < j < headers.len() ==> headers[j - 1] < #[trigger] headers[j],
    ensures
        strictly_ascending(headers),
{
    assert forall|i: int, j: int| 0 <= i < j < headers.len() implies headers[i] < headers[j] by {
        lemma_step_chain(headers, i, j);
    }
}

proof fn lemma_step_chain(headers: Seq<LefNumber>, i: int, j: int)
    requires
        forall|k: int| 0 < k < headers.len() ==> headers[k - 1] < #[trigger] headers[k],
        0 <= i < j < headers.len(),
    ensures
        headers[i] < headers[j],
    decreases j - i,
{
    if i + 1 < j {
        lemma_step_chain(headers, i, j - 1);
    }
}

impl LefSpacingTable {
    /// Tells whether the table is well formed.
    pub fn is_well_formed(&self) -> (res: bool)
        ensures
            res == self.deep_view().wf(),
    {
        if !is_strictly_ascending(&self.widths) || !is_strictly_ascending(
            &self.parallel_run_lengths,
        ) || self.spacings.len() != self.widths.len() {
            return false;
        }
        let ghost view = self.deep_view();
        let mut row: usize = 0;
        while row < self.spacings.len()
            invariant
                row <= self.spacings@.len(),
                view == self.deep_view(),
                forall|r: int|
                    0 <= r < row ==> (#[trigger] view.spacings[r]).len()
                        == view.parallel_run_lengths.len(),
            decreases self.spacings@.len() - row,
        {
            if self.spacings[row].len() != self.parallel_run_lengths.len() {
                assert(view.spacings[row as int].len() != view.parallel_run_lengths.len());
                return false;
            }
            assert(view.spacings[row as int] == self.spacings@[row as int]@);
            row += 1;
        }
        true
    }

    /// The minimal spacing for the given wire width and parallel run
    /// length: a floor lookup, never interpolated.
    pub fn query(&self, width: LefNumber, run_length: LefNumber) -> (res: Option<LefNumber>)
        requires
            self.deep_view().wf(),
        ensures
            res == self.deep_view().query(width, run_length),
    {
        if self.widths.len() == 0 || self.parallel_run_lengths.len() == 0 {
            return None;
        }
        let row = floor_index(&self.widths, width);
        let column = floor_index(&self.parallel_run_lengths, run_length);
        assert(self.deep_view().spacings[row as int] == self.spacings@[row as int]@);
        Some(self.spacings[row][column])
    }
}

/// ENCLOSURE rules for a CUT (via) layer.
#[derive(Copy, Clone, Debug, PartialEq, Eq)]
pub struct LefEnclosureRule {
    /// Rule applies for the routing layer above.
    pub above: bool,
    /// Rule applies for the routing layer below.
    pub below: bool,
    /// Overhang that the adjacent routing layers must have on two opposing sides.
    pub overhang1: LefNumber,
    /// Overhang that the adjacent routing layers must have on the other two sides.
    pub overhang2: LefNumber,
    /// Rule only applies if the width of the adjacent shape of the routing
    /// layer is greater or equal than `min_width`. Default is 0.
    pub min_width: LefNumber,
    /// Don't use the WIDTH rule when another via is present to the current
    /// via within this distance.
    pub except_extracut_within: LefNumber,
    /// Rule only applies if the total length of the longest overhangs is
    /// greater or equal to `min_length`. The overhang length is measured
    /// from the via cut center. Default is 0.
    pub min_length: LefNumber,
}

impl LefEnclosureRule {
    /// The rule that applies above and below, with all distances zero.
    pub open spec fn spec_default() -> Self {
        LefEnclosureRule {
            above: true,
            below: true,
            overhang1: 0,
            overhang2: 0,
            min_width: 0,
            except_extracut_within: 0,
            min_length: 0,
        }
    }
}

impl Default for LefEnclosureRule {
    fn default() -> (res: Self)
        ensures
            res == LefEnclosureRule::spec_default(),
    {
        Self {
            above: true,
            below: true,
            overhang1: 0,
            overhang2: 0,
            min_width: 0,
            except_extracut_within: 0,
            min_length: 0,
        }
    }
}

/// SPACING rules for a CUT (via) layer.
#[derive(Copy, Clone, Debug, PartialEq, Eq)]
pub struct LefCutSpacingRule {
    /// Spacing between cuts.
    pub spacing: LefNumber,
    /// Measure the spacing from center of the cut to the center of another
    /// cut instead of from edge to edge. This is enabled by default.
    pub center_to_center: bool,
    /// Tell if this spacing rule applies for same-net cuts.
    pub same_net: bool,
}

impl Default for LefCutSpacingRule {
    fn default() -> (res: Self)
        ensures
            res == (LefCutSpacingRule { spacing: 0, center_to_center: true, same_net: false }),
    {
        Self { spacing: 0, center_to_center: true, same_net: false }
    }
}

/// MINSTEP rules: the minimal edge length of shapes. The model keeps none yet.
#[derive(Copy, Clone, Debug, Default, PartialEq, Eq)]
pub struct LefMinStep {
}

/// MINIMUMCUT rules: the minimal number of cuts of a via, by the width of the
/// wire. The model keeps none yet.
#[derive(Copy, Clone, Debug, Default, PartialEq, Eq)]
pub struct LefMinimumCut {
}

/// PROTRUSIONWIDTH rule: the width of a protrusion. The model keeps none yet.
#[derive(Copy, Clone, Debug, Default, PartialEq, Eq)]
pub struct LefProtrusionWidth {
}

/// AC current density information. The model keeps none yet.
#[derive(Copy, Clone, Debug, Default, PartialEq, Eq)]
pub struct LefAcCurrentDensity {
}

/// ARRAYSPACING rule of a cut layer. The model keeps none yet.
#[derive(Copy, Clone, Debug, Default, PartialEq, Eq)]
pub struct LefArraySpacing {
}

/// Spacing table of a cut layer. The model keeps none yet.
#[derive(Copy, Clone, Debug, Default, PartialEq, Eq)]
pub struct LefCutSpacingTable {
}

/// Antenna rule definitions. The model keeps no antenna rule yet.
#[derive(Copy, Clone, Debug, Default, PartialEq, Eq)]
pub struct LefAntennaRules {
}

/// Design rules for a MASTERSLICE layer.
/// Master slice layers are usually polysilicon layers and are typically
/// used when a MACRO has pins on the poly layer.
#[derive(Debug, Default, PartialEq, Eq)]
pub struct LefMasterSliceLayer {
    /// Name of the masterslice layer.
    pub name: String,
    /// Number of masks used for double- or triple-patterning.
    pub mask_num: Option<u32>,
    /// Custom properties.
    pub properties: LefNameMap<LefPropertyValue>,
}

/// What a `LefMasterSliceLayer` holds.
pub struct LefMasterSliceLayerView {
    pub name: Seq<char>,
    pub mask_num: Option<u32>,
    pub properties: Seq<(Seq<char>, LefPropertyValueView)>,
}

impl DeepView for LefMasterSliceLayer {
    type V = LefMasterSliceLayerView;

    open spec fn deep_view(&self) -> LefMasterSliceLayerView {
        LefMasterSliceLayerView {
            name: self.name@,
            mask_num: self.mask_num,
            properties: self.properties.deep_view(),
        }
    }
}

impl Clone for LefMasterSliceLayer {
    fn clone(&self) -> (res: Self)
        ensures
            res.deep_view() == self.deep_view(),
    {
        LefMasterSliceLayer {
            name: self.name.clone(),
            mask_num: self.mask_num,
            properties: self.properties.clone(),
        }
    }
}

/// Design rules for a CUT (via) layer.
#[derive(Debug, Default, PartialEq, Eq)]
pub struct LefCutLayer {
    /// Name of the cut layer.
    pub name: String,
    /// Number of masks used for double- or triple-patterning.
    pub mask_num: Option<u32>,
    /// Minimum spacing rules between cuts of same or different nets.
    pub spacing: Vec<LefCutSpacingRule>,
    /// Spacing table to be used on this cut layer.
    pub spacing_table: Option<LefCutSpacingTable>,
    /// Spacing of cuts in large arrays.
    pub array_spacing: Option<LefArraySpacing>,
    /// Minimum width of a cut. Usually this is the only allowed size of a cut.
    pub width: Option<LefNumber>,
    /// Enclosure rules that must be met.
    pub enclosure: Vec<LefEnclosureRule>,
    /// Preferred enclosure rules that can be used to improve yield but must
    /// not necessarily be met.
    pub prefer_enclosure: Vec<LefEnclosureRule>,
    /// Resistance per cut.
    pub resistance: Option<LefNumber>,
    /// Custom properties.
    pub properties: LefNameMap<LefPropertyValue>,
}

/// What a `LefCutLayer` holds.
pub struct LefCutLayerView {
    pub name: Seq<char>,
    pub mask_num: Option<u32>,
    pub spacing: Seq<LefCutSpacingRule>,
    pub spacing_table: Option<LefCutSpacingTable>,
    pub array_spacing: Option<LefArraySpacing>,
    pub width: Option<LefNumber>,
    pub enclosure: Seq<LefEnclosureRule>,
    pub prefer_enclosure: Seq<LefEnclosureRule>,
    pub resistance: Option<LefNumber>,
    pub properties: Seq<(Seq<char>, LefPropertyValueView)>,
}

impl DeepView for LefCutLayer {
    type V = LefCutLayerView;

    open spec fn deep_view(&self) -> LefCutLayerView {
        LefCutLayerView {
            name: self.name@,
            mask_num: self.mask_num,
            spacing: self.spacing@,
            spacing_table: self.spacing_table,
            array_spacing: self.array_spacing,
            width: self.width,
            enclosure: self.enclosure@,
            prefer_enclosure: self.prefer_enclosure@,
            resistance: self.resistance,
            properties: self.properties.deep_view(),
        }
    }
}

impl Clone for LefCutLayer {
    fn clone(&self) -> (res: Self)
        ensures
            res.deep_view() == self.deep_view(),
    {
        LefCutLayer {
            name: self.name.clone(),
            mask_num: self.mask_num,
            spacing: clone_list(&self.spacing),
            spacing_table: self.spacing_table,
            array_spacing: self.array_spacing,
            width: self.width,
            enclosure: clone_list(&self.enclosure),
            prefer_enclosure: clone_list(&self.prefer_enclosure),
            resistance: self.resistance,
            properties: self.properties.clone(),
        }
    }
}

/// Design rules for a routing layer.
#[derive(Debug, PartialEq, Eq)]
pub struct LefRoutingLayer {
    /// Name of the routing layer.
    pub name: String,
    /// Number of masks used for double- or triple-patterning.
    pub mask_num: Option<u32>,
    /// Preferred routing direction.
    pub direction: LefRoutingDirection,
    /// Routing pitch in x and y direction.
    pub pitch: LefPoint,
    /// Routing pitch for diagonal directions.
    pub diag_pitch: Option<LefPoint>,
    /// Default wire width.
    pub width: LefNumber,
    /// Offset of the routing tracks in x and y direction.
    pub offset: Option<LefPoint>,
    /// Default width for diagonal wires.
    pub diag_width: Option<LefNumber>,
    /// Default spacing for diagonal wires.
    pub diag_spacing: Option<LefNumber>,
    /// Minimum edge length for diagonal wires.
    pub diag_min_edge_length: Option<LefNumber>,
    /// Minimum area for shapes on this layer.
    pub min_area: Option<LefNumber>,
    /// Minimal rectangles that must fit in each shape on this layer.
    /// At least one needs to fit for each shape.
    /// Tuples of `(minimal width, minimal length)`.
    pub min_size: Vec<LefPoint>,
    /// Minimal edge length for shapes.
    pub min_step: LefMinStep,
    /// Spacing rules.
    pub spacing: Vec<LefSpacingRules>,
    /// Spacing table for spacing between wires.
    pub spacing_table: Option<LefSpacingTable>,
    /// Length of extension of a wire over a via. The extension must be at
    /// least half of the wire width.
    pub wire_extension: Option<LefNumber>,
    /// Minimal number of cuts of a via depending on the width of the wire.
    pub minimum_cut: LefMinimumCut,
    /// Maximum wire width.
    pub max_width: Option<LefNumber>,
    /// Minimum wire width.
    pub min_width: Option<LefNumber>,
    /// Minimum area of holes in metal shapes, as `(min area, width)` tuples.
    /// If a width is specified the rule only applies if at least one of the
    /// wires around the hole has a larger width.
    pub min_enclosed_area: Vec<(LefNumber, Option<LefNumber>)>,
    /// Width of a protrusion.
    pub protrusion_width: LefProtrusionWidth,
    /// Sheet resistance.
    pub resistance: Option<LefNumber>,
    /// Wire-to-ground capacitance per square unit.
    pub capacitance: Option<LefNumber>,
    /// Distance from top of ground plane to bottom of this interconnect layer.
    pub height: Option<LefNumber>,
    /// Thickness of the layer.
    pub thickness: Option<LefNumber>,
    /// Amount of loss in width of wires caused by the etching process.
    pub shrinkage: Option<LefNumber>,
    /// Account for increase in capacitance caused by close wires.
    /// Default is 1.
    pub cap_multiplier: u32,
    /// Capacitance of the wire edges.
    pub edge_capacitance: Option<LefNumber>,
    /// Minimum allowed metal density in percent.
    pub minimum_density: Option<LefNumber>,
    /// Maximum allowed metal density in percent.
    pub maximum_density: Option<LefNumber>,
    /// Length and width of the density check window.
    pub density_check_window: Option<LefPoint>,
    /// Stepping distance for metal density checks.
    pub density_check_step: Option<LefNumber>,
    /// Spacing between metal fills and active geometries.
    pub fill_active_spacing: Option<LefNumber>,
    /// Antenna rule definitions.
    pub antenna_rules: LefAntennaRules,
    /// AC current density information.
    pub ac_current_density: Option<LefAcCurrentDensity>,
    /// Average DC current density information.
    /// Stored as a `(wire width, current density)` table.
    /// If only a default value is specified for all widths
    /// it is stored as a single entry for wire width `0`:
    /// `(0, default_current_density)`.
    pub dc_current_density: Vec<LefPoint>,
    /// Custom properties.
    pub properties: LefNameMap<LefPropertyValue>,
}

/// What a `LefRoutingLayer` holds.
pub struct LefRoutingLayerView {
    pub name: Seq<char>,
    pub mask_num: Option<u32>,
    pub direction: LefRoutingDirection,
    pub pitch: LefPoint,
    pub diag_pitch: Option<LefPoint>,
    pub width: LefNumber,
    pub offset: Option<LefPoint>,
    pub diag_width: Option<LefNumber>,
    pub diag_spacing: Option<LefNumber>,
    pub diag_min_edge_length: Option<LefNumber>,
    pub min_area: Option<LefNumber>,
    pub min_size: Seq<LefPoint>,
    pub min_step: LefMinStep,
    pub spacing: Seq<LefSpacingRules>,
    pub spacing_table: Option<LefSpacingTableView>,
    pub wire_extension: Option<LefNumber>,
    pub minimum_cut: LefMinimumCut,
    pub max_width: Option<LefNumber>,
    pub min_width: Option<LefNumber>,
    pub min_enclosed_area: Seq<(LefNumber, Option<LefNumber>)>,
    pub protrusion_width: LefProtrusionWidth,
    pub resistance: Option<LefNumber>,
    pub capacitance: Option<LefNumber>,
    pub height: Option<LefNumber>,
    pub thickness: Option<LefNumber>,
    pub shrinkage: Option<LefNumber>,
    pub cap_multiplier: u32,
    pub edge_capacitance: Option<LefNumber>,
    pub minimum_density: Option<LefNumber>,
    pub maximum_density: Option<LefNumber>,
    pub density_check_window: Option<LefPoint>,
    pub density_check_step: Option<LefNumber>,
    pub fill_active_spacing: Option<LefNumber>,
    pub antenna_rules: LefAntennaRules,
    pub ac_current_density: Option<LefAcCurrentDensity>,
    pub dc_current_density: Seq<LefPoint>,
    pub properties: Seq<(Seq<char>, LefPropertyValueView)>,
}

impl DeepView for LefRoutingLayer {
    type V = LefRoutingLayerView;

    open spec fn deep_view(&self) -> LefRoutingLayerView {
        LefRoutingLayerView {
            name: self.name@,
            mask_num: self.mask_num,
            direction: self.direction,
            pitch: self.pitch,
            diag_pitch: self.diag_pitch,
            width: self.width,
            offset: self.offset,
            diag_width: self.diag_width,
            diag_spacing: self.diag_spacing,
            diag_min_edge_length: self.diag_min_edge_length,
            min_area: self.min_area,
            min_size: self.min_size@,
            min_step: self.min_step,
            spacing: self.spacing@,
            spacing_table: self.spacing_table.deep_view(),
            wire_extension: self.wire_extension,
            minimum_cut: self.minimum_cut,
            max_width: self.max_width,
            min_width: self.min_width,
            min_enclosed_area: self.min_enclosed_area@,
            protrusion_width: self.protrusion_width,
            resistance: self.resistance,
            capacitance: self.capacitance,
            height: self.height,
            thickness: self.thickness,
            shrinkage: self.shrinkage,
            cap_multiplier: self.cap_multiplier,
            edge_capacitance: self.edge_capacitance,
            minimum_density: self.minimum_density,
            maximum_density: self.maximum_density,
            density_check_window: self.density_check_window,
            density_check_step: self.density_check_step,
            fill_active_spacing: self.fill_active_spacing,
            antenna_rules: self.antenna_rules,
            ac_current_density: self.ac_current_density,
            dc_current_density: self.dc_current_density@,
            properties: self.properties.deep_view(),
        }
    }
}

impl LefRoutingLayerView {
    /// The routing layer of which nothing is known yet: no name, the
    /// vertical direction, zero pitch and width, a capacitance multiplier of
    /// one (the multiplicative identity), every list empty and every optional
    /// rule absent.
    pub open spec fn spec_default() -> Self {
        LefRoutingLayerView {
            name: Seq::empty(),
            mask_num: None,
            direction: LefRoutingDirection::Vertical,
            pitch: (0, 0),
            diag_pitch: None,
            width: 0,
            offset: None,
            diag_width: None,
            diag_spacing: None,
            diag_min_edge_length: None,
            min_area: None,
            min_size: Seq::empty(),
            min_step: LefMinStep {  },
            spacing: Seq::empty(),
            spacing_table: None,
            wire_extension: None,
            minimum_cut: LefMinimumCut {  },
            max_width: None,
            min_width: None,
            min_enclosed_area: Seq::empty(),
            protrusion_width: LefProtrusionWidth {  },
            resistance: None,
            capacitance: None,
            height: None,
            thickness: None,
            shrinkage: None,
            cap_multiplier: 1,
            edge_capacitance: None,
            minimum_density: None,
            maximum_density: None,
            density_check_window: None,
            density_check_step: None,
            fill_active_spacing: None,
            antenna_rules: LefAntennaRules {  },
            ac_current_density: None,
            dc_current_density: Seq::empty(),
            properties: Seq::empty(),
        }
    }
}

impl Default for LefRoutingLayer {
    fn default() -> (res: Self)
        ensures
            res.deep_view() == LefRoutingLayerView::spec_default(),
    {
        let res = Self {
            name: String::new(),
            mask_num: None,
            direction: LefRoutingDirection::Vertical,
            pitch: (0, 0),
            diag_pitch: None,
            width: 0,
            offset: None,
            diag_width: None,
            diag_spacing: None,
            diag_min_edge_length: None,
            min_area: None,
            min_size: Vec::new(),
            min_step: LefMinStep {  },
            spacing: Vec::new(),
            spacing_table: None,
            wire_extension: None,
            minimum_cut: LefMinimumCut {  },
            max_width: None,
            min_width: None,
            min_enclosed_area: Vec::new(),
            protrusion_width: LefProtrusionWidth {  },
            resistance: None,
            capacitance: None,
            height: None,
            thickness: None,
            shrinkage: None,
            // Take the multiplicative identity as default for the capacitance multiplier.
            cap_multiplier: 1,
            edge_capacitance: None,
            minimum_density: None,
            maximum_density: None,
            density_check_window: None,
            density_check_step: None,
            fill_active_spacing: None,
            antenna_rules: LefAntennaRules {  },
            ac_current_density: None,
            dc_current_density: Vec::new(),
            properties: LefNameMap::new(),
        };
        assert(res.deep_view().min_size =~= Seq::empty());
        assert(res.deep_view().spacing =~= Seq::empty());
        assert(res.deep_view().min_enclosed_area =~= Seq::empty());
        assert(res.deep_view().dc_current_density =~= Seq::empty());
        res
    }
}

impl Clone for LefRoutingLayer {
    fn clone(&self) -> (res: Self)
        ensures
            res.deep_view() == self.deep_view(),
    {
        let spacing_table = match &self.spacing_table {
            Some(table) => Some(table.clone()),
            None => None,
        };
        Self {
            name: self.name.clone(),
            mask_num: self.mask_num,
            direction: self.direction,
            pitch: self.pitch,
            diag_pitch: self.diag_pitch,
            width: self.width,
            offset: self.offset,
            diag_width: self.diag_width,
            diag_spacing: self.diag_spacing,
            diag_min_edge_length: self.diag_min_edge_length,
            min_area: self.min_area,
            min_size: clone_list(&self.min_size),
            min_step: self.min_step,
            spacing: clone_list(&self.spacing),
            spacing_table,
            wire_extension: self.wire_extension,
            minimum_cut: self.minimum_cut,
            max_width: self.max_width,
            min_width: self.min_width,
            min_enclosed_area: clone_list(&self.min_enclosed_area),
            protrusion_width: self.protrusion_width,
            resistance: self.resistance,
            capacitance: self.capacitance,
            height: self.height,
            thickness: self.thickness,
            shrinkage: self.shrinkage,
            cap_multiplier: self.cap_multiplier,
            edge_capacitance: self.edge_capacitance,
            minimum_density: self.minimum_density,
            maximum_density: self.maximum_density,
            density_check_window: self.density_check_window,
            density_check_step: self.density_check_step,
            fill_active_spacing: self.fill_active_spacing,
            antenna_rules: self.antenna_rules,
            ac_current_density: self.ac_current_density,
            dc_current_density: clone_list(&self.dc_current_density),
            properties: self.properties.clone(),
        }
    }
}

/// Layer definition.
/// A layer can have different types:
///
/// * MasterSlice: This is usually the first layer in the stack.
/// * Cut: Via layer that connects the previous and next layer.
/// * Routing: Metal wires.
#[derive(Debug, PartialEq, Eq)]
pub enum LefLayer {
    /// MASTERSLICE (poly) layer.
    MasterSlice(LefMasterSliceLayer),
    /// CUT layer.
    Cut(LefCutLayer),
    /// ROUTING layer.
    Routing(LefRoutingLayer),
}

/// What a `LefLayer` holds.
pub enum LefLayerView {
    MasterSlice(LefMasterSliceLayerView),
    Cut(LefCutLayerView),
    Routing(LefRoutingLayerView),
}

impl LefLayerView {
    /// The name of the layer.
    pub open spec fn name(self) -> Seq<char> {
        match self {
            LefLayerView::MasterSlice(l) => l.name,
            LefLayerView::Cut(l) => l.name,
            LefLayerView::Routing(l) => l.name,
        }
    }
}

impl DeepView for LefLayer {
    type V = LefLayerView;

    open spec fn deep_view(&self) -> LefLayerView {
        match self {
            LefLayer::MasterSlice(l) => LefLayerView::MasterSlice(l.deep_view()),
            LefLayer::Cut(l) => LefLayerView::Cut(l.deep_view()),
            LefLayer::Routing(l) => LefLayerView::Routing(l.deep_view()),
        }
    }
}

impl Clone for LefLayer {
    fn clone(&self) -> (res: Self)
        ensures
            res.deep_view() == self.deep_view(),
    {
        match self {
            LefLayer::MasterSlice(layer) => LefLayer::MasterSlice(layer.clone()),
            LefLayer::Cut(layer) => LefLayer::Cut(layer.clone()),
            LefLayer::Routing(layer) => LefLayer::Routing(layer.clone()),
        }
    }
}

impl LefLayer {
    /// Get the name of the layer.
    pub fn name(&self) -> (res: &String)
        ensures
            res@ == self.deep_view().name(),
    {
        match self {
            LefLayer::MasterSlice(l) => &l.name,
            LefLayer::Cut(l) => &l.name,
            LefLayer::Routing(l) => &l.name,
        }
    }
}

} // verus!
