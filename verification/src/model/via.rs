//! Vias and via generation rules.
use vstd::prelude::*;
use crate::model::{LefNumber, LefPoint};
use crate::name_map::LefNameMap;
use crate::text::{clone_list, lemma_vec_clone_keeps_view};

verus! {

/// Either a rectangle or a polygon.
#[derive(Debug, PartialEq, Eq)]
pub enum LefViaShape {
    /// Axis-aligned rectangle, by its low and its high corner.
    Rect(LefPoint, LefPoint),
    /// Polygon.
    Polygon(Vec<LefPoint>),
}

/// What a `LefViaShape` holds.
pub enum LefViaShapeView {
    Rect(LefPoint, LefPoint),
    Polygon(Seq<LefPoint>),
}

impl DeepView for LefViaShape {
    type V = LefViaShapeView;

    open spec fn deep_view(&self) -> LefViaShapeView {
        match self {
            LefViaShape::Rect(low, high) => LefViaShapeView::Rect(*low, *high),
            LefViaShape::Polygon(points) => LefViaShapeView::Polygon(points@),
        }
    }
}

impl Clone for LefViaShape {
    fn clone(&self) -> (res: Self)
        ensures
            res.deep_view() == self.deep_view(),
    {
        match self {
            LefViaShape::Rect(low, high) => LefViaShape::Rect(*low, *high),
            LefViaShape::Polygon(points) => LefViaShape::Polygon(clone_list(points)),
        }
    }
}

/// An explicitly defined via.
#[derive(Debug, PartialEq, Eq)]
pub struct LefVia {
    /// Default via to be used for routing between the adjacent layers.
    pub is_default: bool,
    /// Electrical resistance of the via.
    pub resistance: Option<LefNumber>,
    /// Layers and shapes of the via geometry: the shapes of each layer by
    /// the layer's name, layers and shapes in the order in which they were given.
    pub geometry: LefNameMap<Vec<LefViaShape>>,
}

/// What a `LefVia` holds.
pub struct LefViaView {
    pub is_default: bool,
    pub resistance: Option<LefNumber>,
    pub geometry: Seq<(Seq<char>, Seq<LefViaShapeView>)>,
}

impl DeepView for LefVia {
    type V = LefViaView;

    open spec fn deep_view(&self) -> LefViaView {
        LefViaView {
            is_default: self.is_default,
            resistance: self.resistance,
            geometry: self.geometry.deep_view(),
        }
    }
}

impl Default for LefVia {
    fn default() -> (res: Self)
        ensures
            res.deep_view() == (LefViaView {
                is_default: false,
                resistance: None,
                geometry: Seq::empty(),
            }),
    {
        LefVia { is_default: false, resistance: None, geometry: LefNameMap::new() }
    }
}

impl Clone for LefVia {
    fn clone(&self) -> (res: Self)
        ensures
            res.deep_view() == self.deep_view(),
    {
        proof {
            lemma_vec_clone_keeps_view::<LefViaShape>();
        }
        LefVia {
            is_default: self.is_default,
            resistance: self.resistance,
            geometry: self.geometry.clone(),
        }
    }
}

/// A via rule.
#[derive(Debug, PartialEq, Eq)]
pub enum LefViaRule {
    /// A rule that generates vias.
    Generate(LefViaGenerateRule),
}

/// What a `LefViaRule` holds.
pub enum LefViaRuleView {
    Generate(LefViaGenerateRuleView),
}

impl DeepView for LefViaRule {
    type V = LefViaRuleView;

    open spec fn deep_view(&self) -> LefViaRuleView {
        match self {
            LefViaRule::Generate(rule) => LefViaRuleView::Generate(rule.deep_view()),
        }
    }
}

impl Clone for LefViaRule {
    fn clone(&self) -> (res: Self)
        ensures
            res.deep_view() == self.deep_view(),
    {
        match self {
            LefViaRule::Generate(rule) => LefViaRule::Generate(rule.clone()),
        }
    }
}

/// A generated via.
#[derive(Debug, PartialEq, Eq)]
pub struct LefViaGenerateRule {
    /// Default via to be used for routing between the adjacent layers.
    pub is_default: bool,
    /// Via generate rule which was used to generate this via.
    pub rule_name: String,
    /// The three layers of the rule, in the order in which the rule names them.
    pub layers: (String, String, String),
    /// Enclosure of the first and of the second layer, each as a pair of
    /// overhangs and each present only where the rule gives it.
    pub enclosure: (Option<LefPoint>, Option<LefPoint>),
    /// Width range of the first and of the second layer, each as
    /// `(min width, max width)` and each present only where the rule gives it.
    pub width: (Option<LefPoint>, Option<LefPoint>),
    /// Cut rectangle of the third layer, by its low and its high corner.
    pub rect: Option<(LefPoint, LefPoint)>,
    /// Center-to-center spacing in the x and y dimensions to create an array
    /// of contact cuts, as given with the third layer.
    pub spacing: Option<LefPoint>,
}

/// What a `LefViaGenerateRule` holds.
pub struct LefViaGenerateRuleView {
    pub is_default: bool,
    pub rule_name: Seq<char>,
    pub layers: (Seq<char>, Seq<char>, Seq<char>),
    pub enclosure: (Option<LefPoint>, Option<LefPoint>),
    pub width: (Option<LefPoint>, Option<LefPoint>),
    pub rect: Option<(LefPoint, LefPoint)>,
    pub spacing: Option<LefPoint>,
}

impl DeepView for LefViaGenerateRule {
    type V = LefViaGenerateRuleView;

    open spec fn deep_view(&self) -> LefViaGenerateRuleView {
        LefViaGenerateRuleView {
            is_default: self.is_default,
            rule_name: self.rule_name@,
            layers: (self.layers.0@, self.layers.1@, self.layers.2@),
            enclosure: self.enclosure,
            width: self.width,
            rect: self.rect,
            spacing: self.spacing,
        }
    }
}

impl Clone for LefViaGenerateRule {
    fn clone(&self) -> (res: Self)
        ensures
            res.deep_view() == self.deep_view(),
    {
        LefViaGenerateRule {
            is_default: self.is_default,
            rule_name: self.rule_name.clone(),
            layers: (self.layers.0.clone(), self.layers.1.clone(), self.layers.2.clone()),
            enclosure: self.enclosure,
            width: self.width,
            rect: self.rect,
            spacing: self.spacing,
        }
    }
}

} // verus!
