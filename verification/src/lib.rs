//! An in-memory model of LEF technology and cell libraries, and the assembler
//! that folds a stream of construct events into it.
//!
//! The event source that recognizes the text of a library is not part of
//! this crate: it hands over one event for each construct, as plain values
//! ([`read::event`]). The builders under [`read`] turn each event into a
//! record of the model ([`model`]), and a reader gathers the records into a
//! [`LefTechnology`] or a [`LefCellLibrary`].
pub mod keyword;
pub mod model;
pub mod name_map;
pub mod read;
pub mod text;

pub use crate::keyword::LefKeyword;
pub use crate::model::geometry::{
    LefGeometry, LefGeometryVia, LefLayerGeometries, LefShape, LefSpacingOrDesignRuleWidth,
    LefStepPattern,
};
pub use crate::model::keywords::{
    LefClearanceMeasure, LefPinDirection, LefPinShape, LefPortClass, LefRoutingDirection,
    LefSignalUse, LefSiteClass,
};
pub use crate::model::layer::{
    LefAcCurrentDensity, LefAntennaRules, LefArraySpacing, LefCutLayer, LefCutSpacingRule,
    LefCutSpacingTable, LefEnclosureRule, LefLayer, LefMasterSliceLayer, LefMinStep,
    LefMinimumCut, LefProtrusionWidth, LefRoutingLayer, LefSpacingRangeType, LefSpacingRules,
    LefSpacingTable, LefSpacingType,
};
pub use crate::model::macro_class::{
    LefMacroClass, LefMacroClassBlockType, LefMacroClassCoreType, LefMacroClassEndcapType,
    LefMacroClassPadType,
};
pub use crate::model::makro::{LefDensity, LefMacro, LefMacroPin, LefMacroPinPort};
pub use crate::model::orient::{LefOrient, LefSymmetry};
pub use crate::model::property::{LefPropertyDefinition, LefPropertyType, LefPropertyValue};
pub use crate::model::site::{LefSite, LefSiteDefinition};
pub use crate::model::technology::{
    LefCellLibrary, LefNonDefaultRules, LefTechnology, LefUnits,
};
pub use crate::model::via::{LefVia, LefViaGenerateRule, LefViaRule, LefViaShape};
pub use crate::model::{LefNumber, LefPoint};
pub use crate::name_map::LefNameMap;
pub use crate::read::error::{LefReadError, LefReadResult};
pub use crate::read::event::{
    LefEnclosureEvent, LefForeignEvent, LefGeometryItem, LefLayerEvent, LefLayerSpacingEvent,
    LefMacroEvent, LefMinEnclosedAreaEvent, LefPinEvent, LefRectEvent, LefSiteEvent,
    LefSitePatternEvent, LefSiteRowEvent, LefSpacingTableEvent, LefUnitsEvent, LefViaEvent,
    LefViaLayerEvent, LefViaRuleEvent, LefViaRuleLayerEvent,
};
pub use crate::read::site::do_read_site;
pub use crate::read::library::{LefCellLibraryEvent, LefCellLibraryReader};
pub use crate::read::technology::{LefTechnologyEvent, LefTechnologyReader};
