//! Sites: the placement grid of rows, and the sites that a macro occupies.
use vstd::prelude::*;
use crate::model::geometry::LefStepPattern;
use crate::model::keywords::LefSiteClass;
use crate::model::orient::{LefOrient, LefSymmetry};
use crate::model::LefPoint;

verus! {

/// Macro SITE declaration.
#[derive(Debug, PartialEq, Eq)]
pub struct LefSite {
    /// Name of the site.
    pub name: String,
    /// Origin of the site within the macro.
    pub origin: LefPoint,
    /// Orientation of the site.
    pub site_orient: LefOrient,
    /// Optional repetition pattern.
    pub step_pattern: Option<LefStepPattern>,
}

/// What a `LefSite` holds.
pub struct LefSiteView {
    pub name: Seq<char>,
    pub origin: LefPoint,
    pub site_orient: LefOrient,
    pub step_pattern: Option<LefStepPattern>,
}

impl DeepView for LefSite {
    type V = LefSiteView;

    open spec fn deep_view(&self) -> LefSiteView {
        LefSiteView {
            name: self.name@,
            origin: self.origin,
            site_orient: self.site_orient,
            step_pattern: self.step_pattern,
        }
    }
}

impl Default for LefSite {
    fn default() -> (res: Self)
        ensures
            res.deep_view() == (LefSiteView {
                name: Seq::empty(),
                origin: (0, 0),
                site_orient: LefOrient::N,
                step_pattern: None,
            }),
    {
        LefSite {
            name: String::new(),
            origin: (0, 0),
            site_orient: LefOrient::N,
            step_pattern: None,
        }
    }
}

impl Clone for LefSite {
    fn clone(&self) -> (res: Self)
        ensures
            res.deep_view() == self.deep_view(),
    {
        LefSite {
            name: self.name.clone(),
            origin: self.origin,
            site_orient: self.site_orient,
            step_pattern: self.step_pattern,
        }
    }
}

/// SITE definition.
#[derive(Debug, PartialEq, Eq)]
pub struct LefSiteDefinition {
    /// Name of the site.
    pub name: String,
    /// Dimensions of the site.
    pub size: LefPoint,
    /// Define orientations of the site that are considered equivalent.
    /// This is used for example to specify whether cell flipping inside
    /// a row is allowed.
    pub symmetry: LefSymmetry,
    /// Specify site type (IO or CORE).
    pub class: LefSiteClass,
    /// Construct this site as a composition of previously defined sites.
    /// List of tuples: (previous site, orientation)
    pub row_pattern: Vec<(String, LefOrient)>,
}

/// What a `LefSiteDefinition` holds.
pub struct LefSiteDefinitionView {
    pub name: Seq<char>,
    pub size: LefPoint,
    pub symmetry: LefSymmetry,
    pub class: LefSiteClass,
    pub row_pattern: Seq<(Seq<char>, LefOrient)>,
}

impl LefSiteDefinitionView {
    /// The site of which nothing is known yet: a core site without name,
    /// extent, symmetry or row pattern.
    pub open spec fn spec_default() -> Self {
        LefSiteDefinitionView {
            name: Seq::empty(),
            size: (0, 0),
            symmetry: LefSymmetry { x: false, y: false, r90: false },
            class: LefSiteClass::CORE,
            row_pattern: Seq::empty(),
        }
    }
}

impl DeepView for LefSiteDefinition {
    type V = LefSiteDefinitionView;

    open spec fn deep_view(&self) -> LefSiteDefinitionView {
        LefSiteDefinitionView {
            name: self.name@,
            size: self.size,
            symmetry: self.symmetry,
            class: self.class,
            row_pattern: self.row_pattern.deep_view(),
        }
    }
}

impl Default for LefSiteDefinition {
    fn default() -> (res: Self)
        ensures
            res.deep_view() == LefSiteDefinitionView::spec_default(),
    {
        let res = LefSiteDefinition {
            name: String::new(),
            size: (0, 0),
            symmetry: LefSymmetry { x: false, y: false, r90: false },
            class: LefSiteClass::CORE,
            row_pattern: Vec::new(),
        };
        assert(res.deep_view().row_pattern =~= Seq::empty());
        res
    }
}

/// Copies the row pattern of a composite site.
pub fn clone_row_pattern(rows: &Vec<(String, LefOrient)>) -> (res: Vec<(String, LefOrient)>)
    ensures
        res.deep_view() == rows.deep_view(),
{
    let mut res: Vec<(String, LefOrient)> = Vec::new();
    let mut i: usize = 0;
    while i < rows.len()
        invariant
            i <= rows@.len(),
            res@.len() == i,
            forall|k: int| 0 <= k < i ==> (#[trigger] res@[k]).deep_view() == rows@[k].deep_view(),
        decreases rows@.len() - i,
    {
        res.push((rows[i].0.clone(), rows[i].1));
        i += 1;
    }
    assert(res.deep_view() =~= rows.deep_view());
    res
}

impl Clone for LefSiteDefinition {
    fn clone(&self) -> (res: Self)
        ensures
            res.deep_view() == self.deep_view(),
    {
        LefSiteDefinition {
            name: self.name.clone(),
            size: self.size,
            symmetry: self.symmetry,
            class: self.class,
            row_pattern: clone_row_pattern(&self.row_pattern),
        }
    }
}

} // verus!
