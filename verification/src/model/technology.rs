//! The two aggregates of a load: the technology and the cell library.
use vstd::prelude::*;
use crate::model::keywords::LefClearanceMeasure;
use crate::model::layer::{LefLayer, LefLayerView};
use crate::model::makro::{LefMacro, LefMacroView};
use crate::model::property::LefPropertyDefinition;
use crate::model::site::{LefSiteDefinition, LefSiteDefinitionView};
use crate::model::via::{LefVia, LefViaRule, LefViaRuleView, LefViaView};
use crate::model::LefNumber;
use crate::name_map::LefNameMap;
use crate::text::clone_records;

verus! {

/// Units used in the library. A factor of zero means that the unit was not specified.
#[derive(Copy, Clone, Debug, PartialEq, Eq)]
pub struct LefUnits {
    /// Time in nano seconds.
    pub time_ns: u64,
    /// Capacitance in pico farads.
    pub capacitance_pf: u64,
    /// Resistance in ohms.
    pub resistance_ohms: u64,
    /// Power in milli watts.
    pub power_mw: u64,
    /// Current in milli amperes.
    pub current_ma: u64,
    /// Voltage in volts.
    pub voltage_v: u64,
    /// Length in micro meters.
    pub database_microns: u64,
    /// Frequency in mega hertz.
    pub frequency_mega_hz: u64,
}

impl LefUnits {
    /// The units of which none is specified.
    pub open spec fn unspecified() -> Self {
        LefUnits {
            time_ns: 0,
            capacitance_pf: 0,
            resistance_ohms: 0,
            power_mw: 0,
            current_ma: 0,
            voltage_v: 0,
            database_microns: 0,
            frequency_mega_hz: 0,
        }
    }
}

impl Default for LefUnits {
    fn default() -> (res: Self)
        ensures
            res == LefUnits::unspecified(),
    {
        LefUnits {
            time_ns: 0,
            capacitance_pf: 0,
            resistance_ohms: 0,
            power_mw: 0,
            current_ma: 0,
            voltage_v: 0,
            database_microns: 0,
            frequency_mega_hz: 0,
        }
    }
}

/// NONDEFAULTRULE definitions. The model keeps none yet.
#[derive(Copy, Clone, Debug, Default, PartialEq, Eq)]
pub struct LefNonDefaultRules {
}

/// Top-level structure of a LEF library.
#[derive(Debug, PartialEq, Eq)]
pub struct LefTechnology {
    /// LEF version.
    pub version: Option<LefNumber>,
    /// Characters used to indicate bus bits. Default is `[` and `]`.
    pub busbitchars: (char, char),
    /// Character used as path separator. Default is `/`.
    pub dividerchar: char,
    /// Units used in this library.
    pub units: LefUnits,
    /// Grid for geometrical alignment. Cells and shapes snap to locations on this grid.
    pub manufacturing_grid: Option<LefNumber>,
    /// Type of distance measure (Euclidean: `dx^2 + dy^2`, MaxXY: `max(dx, dy)`)
    pub clearance_measure: LefClearanceMeasure,
    /// Definitions of custom properties, by name.
    pub property_definitions: LefNameMap<LefPropertyDefinition>,
    /// Layer definitions (masterslice, cut, routing, ...).
    /// Layers are defined in their process order from bottom to top.
    pub layers: Vec<LefLayer>,
    /// Maximum number of single-cut vias stacked on top of each other.
    /// Optionally defines a range of (bottom layer, top layer) where the rule
    /// applies. Otherwise the rule applies to all layers.
    pub max_via_stack: Option<(u64, Option<(String, String)>)>,
    /// Definitions of fixed VIAs by name.
    pub vias: LefNameMap<LefVia>,
    /// Via rules by name.
    pub via_rules: LefNameMap<LefViaRule>,
    /// NONDEFAULTRULE definitions.
    pub non_default_rule: LefNonDefaultRules,
    /// All SITE definitions by name.
    pub sites: LefNameMap<LefSiteDefinition>,
}

/// What a `LefTechnology` holds.
pub struct LefTechnologyView {
    pub version: Option<LefNumber>,
    pub busbitchars: (char, char),
    pub dividerchar: char,
    pub units: LefUnits,
    pub manufacturing_grid: Option<LefNumber>,
    pub clearance_measure: LefClearanceMeasure,
    pub property_definitions: Seq<(Seq<char>, LefPropertyDefinition)>,
    pub layers: Seq<LefLayerView>,
    pub max_via_stack: Option<(u64, Option<(Seq<char>, Seq<char>)>)>,
    pub vias: Seq<(Seq<char>, LefViaView)>,
    pub via_rules: Seq<(Seq<char>, LefViaRuleView)>,
    pub non_default_rule: LefNonDefaultRules,
    pub sites: Seq<(Seq<char>, LefSiteDefinitionView)>,
}

impl DeepView for LefTechnology {
    type V = LefTechnologyView;

    open spec fn deep_view(&self) -> LefTechnologyView {
        LefTechnologyView {
            version: self.version,
            busbitchars: self.busbitchars,
            dividerchar: self.dividerchar,
            units: self.units,
            manufacturing_grid: self.manufacturing_grid,
            clearance_measure: self.clearance_measure,
            property_definitions: self.property_definitions.deep_view(),
            layers: self.layers.deep_view(),
            max_via_stack: self.max_via_stack.deep_view(),
            vias: self.vias.deep_view(),
            via_rules: self.via_rules.deep_view(),
            non_default_rule: self.non_default_rule,
            sites: self.sites.deep_view(),
        }
    }
}

impl LefTechnologyView {
    /// The technology at the start of a load: bus bits in `[` and `]`, the
    /// divider `/`, Euclidean clearance, no unit specified, and nothing else.
    pub open spec fn empty() -> Self {
        LefTechnologyView {
            version: None,
            busbitchars: ('[', ']'),
            dividerchar: '/',
            units: LefUnits::unspecified(),
            manufacturing_grid: None,
            clearance_measure: LefClearanceMeasure::Euclidean,
            property_definitions: Seq::empty(),
            layers: Seq::empty(),
            max_via_stack: None,
            vias: Seq::empty(),
            via_rules: Seq::empty(),
            non_default_rule: LefNonDefaultRules {  },
            sites: Seq::empty(),
        }
    }
}

impl LefTechnology {
    /// The technology at the start of a load.
    pub fn new() -> (res: Self)
        ensures
            res.deep_view() == LefTechnologyView::empty(),
    {
        let res = LefTechnology {
            version: None,
            busbitchars: ('[', ']'),
            dividerchar: '/',
            units: LefUnits::default(),
            manufacturing_grid: None,
            clearance_measure: LefClearanceMeasure::Euclidean,
            property_definitions: LefNameMap::new(),
            layers: Vec::new(),
            max_via_stack: None,
            vias: LefNameMap::new(),
            via_rules: LefNameMap::new(),
            non_default_rule: LefNonDefaultRules {  },
            sites: LefNameMap::new(),
        };
        assert(res.deep_view().layers =~= Seq::empty());
        res
    }
}

impl Default for LefTechnology {
    fn default() -> (res: Self)
        ensures
            res.deep_view() == LefTechnologyView::empty(),
    {
        LefTechnology::new()
    }
}

/// Copies the rule on stacked vias.
pub fn clone_max_via_stack(rule: &Option<(u64, Option<(String, String)>)>) -> (res: Option<
    (u64, Option<(String, String)>),
>)
    ensures
        res.deep_view() == rule.deep_view(),
{
    match rule {
        Some((count, Some((bottom, top)))) => Some((*count, Some((bottom.clone(), top.clone())))),
        Some((count, None)) => Some((*count, None)),
        None => None,
    }
}

impl Clone for LefTechnology {
    fn clone(&self) -> (res: Self)
        ensures
            res.deep_view() == self.deep_view(),
    {
        LefTechnology {
            version: self.version,
            busbitchars: self.busbitchars,
            dividerchar: self.dividerchar,
            units: self.units,
            manufacturing_grid: self.manufacturing_grid,
            clearance_measure: self.clearance_measure,
            property_definitions: self.property_definitions.clone(),
            layers: clone_records(&self.layers),
            max_via_stack: clone_max_via_stack(&self.max_via_stack),
            vias: self.vias.clone(),
            via_rules: self.via_rules.clone(),
            non_default_rule: self.non_default_rule,
            sites: self.sites.clone(),
        }
    }
}

/// The macros of a library, by name, and the sites defined beside them.
#[derive(Debug, PartialEq, Eq)]
pub struct LefCellLibrary {
    /// MACRO definitions by name.
    pub macros: LefNameMap<LefMacro>,
    /// SITE definitions by name.
    pub sites: LefNameMap<LefSiteDefinition>,
}

/// What a `LefCellLibrary` holds.
pub struct LefCellLibraryView {
    pub macros: Seq<(Seq<char>, LefMacroView)>,
    pub sites: Seq<(Seq<char>, LefSiteDefinitionView)>,
}

impl DeepView for LefCellLibrary {
    type V = LefCellLibraryView;

    open spec fn deep_view(&self) -> LefCellLibraryView {
        LefCellLibraryView { macros: self.macros.deep_view(), sites: self.sites.deep_view() }
    }
}

impl Clone for LefCellLibrary {
    fn clone(&self) -> (res: Self)
        ensures
            res.deep_view() == self.deep_view(),
    {
        LefCellLibrary { macros: self.macros.clone(), sites: self.sites.clone() }
    }
}

impl LefCellLibraryView {
    /// The library at the start of a load.
    pub open spec fn empty() -> Self {
        LefCellLibraryView { macros: Seq::empty(), sites: Seq::empty() }
    }
}

impl LefCellLibrary {
    /// The library at the start of a load.
    pub fn new() -> (res: Self)
        ensures
            res.deep_view() == LefCellLibraryView::empty(),
    {
        LefCellLibrary { macros: LefNameMap::new(), sites: LefNameMap::new() }
    }
}

impl Default for LefCellLibrary {
    fn default() -> (res: Self)
        ensures
            res.deep_view() == LefCellLibraryView::empty(),
    {
        LefCellLibrary::new()
    }
}

} // verus!
