//! Macros: the abstract view of a standard cell or block, with its pins.
use vstd::prelude::*;
use crate::model::geometry::{LefLayerGeometries, LefLayerGeometriesView};
use crate::model::keywords::{LefPinDirection, LefPinShape, LefPortClass, LefSignalUse};
use crate::model::macro_class::LefMacroClass;
use crate::model::orient::{LefOrient, LefSymmetry};
use crate::model::property::{LefPropertyValue, LefPropertyValueView};
use crate::model::site::{LefSite, LefSiteView};
use crate::model::LefPoint;
use crate::name_map::LefNameMap;
use crate::text::{clone_list, clone_optional_text, clone_records};

verus! {

/// PORT definition of a MACRO PIN.
/// A port describes where a pin is geometrically located.
/// A pin can have multiple ports. They are electrically equivalent.
#[derive(Debug, Default, PartialEq, Eq)]
pub struct LefMacroPinPort {
    /// Type of the port.
    pub class: Option<LefPortClass>,
    /// Geometrical shapes that make this port, grouped by layer.
    pub geometries: Vec<LefLayerGeometries>,
}

/// What a `LefMacroPinPort` holds.
pub struct LefMacroPinPortView {
    pub class: Option<LefPortClass>,
    pub geometries: Seq<LefLayerGeometriesView>,
}

impl DeepView for LefMacroPinPort {
    type V = LefMacroPinPortView;

    open spec fn deep_view(&self) -> LefMacroPinPortView {
        LefMacroPinPortView { class: self.class, geometries: self.geometries.deep_view() }
    }
}

impl Clone for LefMacroPinPort {
    fn clone(&self) -> (res: Self)
        ensures
            res.deep_view() == self.deep_view(),
    {
        LefMacroPinPort { class: self.class, geometries: clone_records(&self.geometries) }
    }
}

/// PIN definition of a MACRO.
#[derive(Debug, Default, PartialEq, Eq)]
pub struct LefMacroPin {
    /// Name of the pin.
    pub name: String,
    /// Name of the NONDEFAULTRULE to be used when tapering wires to this pin.
    pub taper_rule: Option<String>,
    /// Signal direction.
    pub direction: Option<LefPinDirection>,
    /// Type of the signal for this pin.
    pub signal_use: Option<LefSignalUse>,
    /// Net name where this pin should be connected if it is tied HIGH (constant logical 1).
    pub supply_sensitivity: Option<String>,
    /// Net name where this pin should be connected if it is tied LOW (constant logical 0).
    pub ground_sensitivity: Option<String>,
    /// Specify special connection requirements of the pin.
    pub shape_type: Option<LefPinShape>,
    /// Name of another pin that must be connected to this pin.
    pub must_join: Option<String>,
    /// The physical realizations of the pin.
    pub ports: Vec<LefMacroPinPort>,
}

/// What a `LefMacroPin` holds.
pub struct LefMacroPinView {
    pub name: Seq<char>,
    pub taper_rule: Option<Seq<char>>,
    pub direction: Option<LefPinDirection>,
    pub signal_use: Option<LefSignalUse>,
    pub supply_sensitivity: Option<Seq<char>>,
    pub ground_sensitivity: Option<Seq<char>>,
    pub shape_type: Option<LefPinShape>,
    pub must_join: Option<Seq<char>>,
    pub ports: Seq<LefMacroPinPortView>,
}

impl DeepView for LefMacroPin {
    type V = LefMacroPinView;

    open spec fn deep_view(&self) -> LefMacroPinView {
        LefMacroPinView {
            name: self.name@,
            taper_rule: self.taper_rule.deep_view(),
            direction: self.direction,
            signal_use: self.signal_use,
            supply_sensitivity: self.supply_sensitivity.deep_view(),
            ground_sensitivity: self.ground_sensitivity.deep_view(),
            shape_type: self.shape_type,
            must_join: self.must_join.deep_view(),
            ports: self.ports.deep_view(),
        }
    }
}

impl Clone for LefMacroPin {
    fn clone(&self) -> (res: Self)
        ensures
            res.deep_view() == self.deep_view(),
    {
        LefMacroPin {
            name: self.name.clone(),
            taper_rule: clone_optional_text(&self.taper_rule),
            direction: self.direction,
            signal_use: self.signal_use,
            supply_sensitivity: clone_optional_text(&self.supply_sensitivity),
            ground_sensitivity: clone_optional_text(&self.ground_sensitivity),
            shape_type: self.shape_type,
            must_join: clone_optional_text(&self.must_join),
            ports: clone_records(&self.ports),
        }
    }
}

/// Density specification of a macro. The model keeps nothing of it yet.
#[derive(Copy, Clone, Debug, Default, PartialEq, Eq)]
pub struct LefDensity {
}

/// MACRO definition.
#[derive(Debug, PartialEq, Eq)]
pub struct LefMacro {
    /// Name of the macro.
    pub name: String,
    /// Class of the macro.
    pub class: Option<LefMacroClass>,
    /// Disable shifting of masks.
    /// When set, shifting of macro pin mask assignments to other masks is not allowed.
    /// Used for technologies that use multi-mask patterning.
    pub fixed_mask: bool,
    /// Name of the corresponding cell layout in the GDS/OASIS file.
    /// Associated with an offset and orientation.
    pub foreign: Vec<(String, LefPoint, LefOrient)>,
    /// Coordinate of the origin of the macro. Default is (0, 0).
    /// A placement of a cell in DEF is given by the location of the origin.
    pub origin: LefPoint,
    /// Name of electrically equivalent macro.
    pub eeq: Option<String>,
    /// Width and height of the macro.
    pub size: Option<LefPoint>,
    /// Symmetry of the macro. Tells how the macro can be mirrored and rotated.
    pub symmetry: LefSymmetry,
    /// SITES associated with the macro. Normal macros have only one associated site.
    /// Later entries overlay earlier ones.
    pub sites: Vec<LefSite>,
    /// Definitions of the electrical pins of the macro.
    pub pins: Vec<LefMacroPin>,
    /// Obstructions (blockages).
    pub obs: Vec<LefLayerGeometries>,
    /// Density specifications.
    pub density: Vec<LefDensity>,
    /// Additional properties of the macro.
    pub properties: LefNameMap<LefPropertyValue>,
}

/// What a `LefMacro` holds.
pub struct LefMacroView {
    pub name: Seq<char>,
    pub class: Option<LefMacroClass>,
    pub fixed_mask: bool,
    pub foreign: Seq<(Seq<char>, LefPoint, LefOrient)>,
    pub origin: LefPoint,
    pub eeq: Option<Seq<char>>,
    pub size: Option<LefPoint>,
    pub symmetry: LefSymmetry,
    pub sites: Seq<LefSiteView>,
    pub pins: Seq<LefMacroPinView>,
    pub obs: Seq<LefLayerGeometriesView>,
    pub density: Seq<LefDensity>,
    pub properties: Seq<(Seq<char>, LefPropertyValueView)>,
}

impl DeepView for LefMacro {
    type V = LefMacroView;

    open spec fn deep_view(&self) -> LefMacroView {
        LefMacroView {
            name: self.name@,
            class: self.class,
            fixed_mask: self.fixed_mask,
            foreign: self.foreign.deep_view(),
            origin: self.origin,
            eeq: self.eeq.deep_view(),
            size: self.size,
            symmetry: self.symmetry,
            sites: self.sites.deep_view(),
            pins: self.pins.deep_view(),
            obs: self.obs.deep_view(),
            density: self.density@,
            properties: self.properties.deep_view(),
        }
    }
}

impl LefMacroView {
    /// The macro of which nothing is known yet.
    pub open spec fn spec_default() -> Self {
        LefMacroView {
            name: Seq::empty(),
            class: None,
            fixed_mask: false,
            foreign: Seq::empty(),
            origin: (0, 0),
            eeq: None,
            size: None,
            symmetry: LefSymmetry { x: false, y: false, r90: false },
            sites: Seq::empty(),
            pins: Seq::empty(),
            obs: Seq::empty(),
            density: Seq::empty(),
            properties: Seq::empty(),
        }
    }
}

impl Default for LefMacro {
    fn default() -> (res: Self)
        ensures
            res.deep_view() == LefMacroView::spec_default(),
    {
        let res = LefMacro {
            name: String::new(),
            class: None,
            fixed_mask: false,
            foreign: Vec::new(),
            origin: (0, 0),
            eeq: None,
            size: None,
            symmetry: LefSymmetry { x: false, y: false, r90: false },
            sites: Vec::new(),
            pins: Vec::new(),
            obs: Vec::new(),
            density: Vec::new(),
            properties: LefNameMap::new(),
        };
        assert(res.deep_view().foreign =~= Seq::empty());
        assert(res.deep_view().sites =~= Seq::empty());
        assert(res.deep_view().pins =~= Seq::empty());
        assert(res.deep_view().obs =~= Seq::empty());
        res
    }
}

/// Copies the foreign cell references of a macro.
pub fn clone_foreign(foreign: &Vec<(String, LefPoint, LefOrient)>) -> (res: Vec<
    (String, LefPoint, LefOrient),
>)
    ensures
        res.deep_view() == foreign.deep_view(),
{
    let mut res: Vec<(String, LefPoint, LefOrient)> = Vec::new();
    let mut i: usize = 0;
    while i < foreign.len()
        invariant
            i <= foreign@.len(),
            res@.len() == i,
            forall|k: int|
                0 <= k < i ==> (#[trigger] res@[k]).deep_view() == foreign@[k].deep_view(),
        decreases foreign@.len() - i,
    {
        res.push((foreign[i].0.clone(), foreign[i].1, foreign[i].2));
        i += 1;
    }
    assert(res.deep_view() =~= foreign.deep_view());
    res
}

impl Clone for LefMacro {
    fn clone(&self) -> (res: Self)
        ensures
            res.deep_view() == self.deep_view(),
    {
        LefMacro {
            name: self.name.clone(),
            class: self.class,
            fixed_mask: self.fixed_mask,
            foreign: clone_foreign(&self.foreign),
            origin: self.origin,
            eeq: clone_optional_text(&self.eeq),
            size: self.size,
            symmetry: self.symmetry,
            sites: clone_records(&self.sites),
            pins: clone_records(&self.pins),
            obs: clone_records(&self.obs),
            density: clone_list(&self.density),
            properties: self.properties.clone(),
        }
    }
}

} // verus!
