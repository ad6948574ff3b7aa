//! Shapes, step patterns and the geometry of one layer.
use vstd::prelude::*;
use crate::model::{LefNumber, LefPoint};
use crate::text::{clone_list, clone_records};

verus! {

/// Array-like repetition of an element.
///
/// Use `each_offset()` to get all offsets described by this pattern, or
/// `offset_at()` to compute a single one.
#[derive(Copy, Clone, Debug, PartialEq, Eq)]
pub struct LefStepPattern {
    /// Number of repetitions in x-direction.
    pub num_x: u64,
    /// Number of repetitions in y-direction.
    pub num_y: u64,
    /// Spacing in x-direction.
    pub space_x: LefNumber,
    /// Spacing in y-direction.
    pub space_y: LefNumber,
}

impl Default for LefStepPattern {
    fn default() -> (res: Self)
        ensures
            res == (LefStepPattern { num_x: 1, num_y: 1, space_x: 0, space_y: 0 }),
    {
        LefStepPattern { num_x: 1, num_y: 1, space_x: 0, space_y: 0 }
    }
}

impl LefStepPattern {
    /// Both repetition counts are at least one, as the format asks. A
    /// pattern is stored as it is reported; with a count of zero it
    /// describes no offset at all.
    pub open spec fn wf(self) -> bool {
        self.num_x >= 1 && self.num_y >= 1
    }

    /// The offsets of a pattern with counts of at least one start at the
    /// origin, and there are as many as the product of the counts.
    pub proof fn lemma_offsets_start_at_origin(pattern: LefStepPattern)
        requires
            pattern.wf(),
        ensures
            pattern.offsets().len() == pattern.num_x * pattern.num_y,
            pattern.offsets().len() >= 1,
            pattern.offsets()[0] == (0int, 0int),
    {
        assert(pattern.num_x * pattern.num_y >= 1) by (nonlinear_arith)
            requires
                pattern.num_x >= 1,
                pattern.num_y >= 1,
        ;
        assert(0int / (pattern.num_y as int) == 0 && 0int % (pattern.num_y as int) == 0);
        assert(0 * pattern.space_x == 0 && 0 * pattern.space_y == 0);
    }

    /// Number of offsets that the pattern describes.
    pub open spec fn offset_count(self) -> nat {
        (self.num_x * self.num_y) as nat
    }

    /// The offset of the element in column `ix` and row `iy`.
    pub open spec fn spec_offset_at(self, ix: int, iy: int) -> (int, int) {
        (ix * self.space_x, iy * self.space_y)
    }

    /// All offsets, column by column (x-major), and within a column row by
    /// row (y-minor). The origin is at `(0, 0)`.
    pub open spec fn offsets(self) -> Seq<(int, int)> {
        Seq::new(
            self.offset_count(),
            |k: int| self.spec_offset_at(k / (self.num_y as int), k % (self.num_y as int)),
        )
    }

    /// The offset of the element in column `ix` and row `iy`. The products
    /// are exact: they are computed in 128 bits.
    pub fn offset_at(&self, ix: u64, iy: u64) -> (res: (i128, i128))
        ensures
            (res.0 as int, res.1 as int) == self.spec_offset_at(ix as int, iy as int),
    {
        let sx: i128 = self.space_x as i128;
        let sy: i128 = self.space_y as i128;
        let x: i128 = ix as i128;
        let y: i128 = iy as i128;
        proof {
            lemma_product_fits(x as int, sx as int);
            lemma_product_fits(y as int, sy as int);
        }
        (x * sx, y * sy)
    }

    /// Every offset of the step pattern, in the order of `offsets()`.
    pub fn each_offset(&self) -> (res: Vec<(i128, i128)>)
        requires
            self.offset_count() <= usize::MAX,
        ensures
            res@.map_values(|offset: (i128, i128)| (offset.0 as int, offset.1 as int))
                == self.offsets(),
    {
        let mut res: Vec<(i128, i128)> = Vec::new();
        let mut ix: u64 = 0;
        while ix < self.num_x
            invariant
                ix <= self.num_x,
                self.offset_count() <= usize::MAX,
                res@.len() == ix * self.num_y,
                forall|k: int|
                    0 <= k < res@.len() ==> (res@[k].0 as int, res@[k].1 as int)
                        == self.spec_offset_at(k / (self.num_y as int), k % (self.num_y as int)),
            decreases self.num_x - ix,
        {
            let mut iy: u64 = 0;
            while iy < self.num_y
                invariant
                    ix < self.num_x,
                    iy <= self.num_y,
                    self.offset_count() <= usize::MAX,
                    res@.len() == ix * self.num_y + iy,
                    forall|k: int|
                        0 <= k < res@.len() ==> (res@[k].0 as int, res@[k].1 as int)
                            == self.spec_offset_at(
                            k / (self.num_y as int),
                            k % (self.num_y as int),
                        ),
                decreases self.num_y - iy,
            {
                let offset = self.offset_at(ix, iy);
                proof {
                    lemma_cell_index(ix as int, iy as int, self.num_x as int, self.num_y as int);
                }
                res.push(offset);
                iy += 1;
            }
            proof {
                assert(ix * self.num_y + self.num_y == (ix + 1) * self.num_y) by (nonlinear_arith);
            }
            ix += 1;
        }
        proof {
            assert(ix * self.num_y == self.num_x * self.num_y);
            assert(res@.map_values(|offset: (i128, i128)| (offset.0 as int, offset.1 as int))
                =~= self.offsets());
        }
        res
    }
}

/// Holds either the value of the SPACING argument or of the DESIGNRULEWIDTH
/// argument of a layer statement in a PIN or OBS.
#[derive(Copy, Clone, Debug, PartialEq, Eq)]
pub enum LefSpacingOrDesignRuleWidth {
    /// Minimal allowed spacing between this shape and other shapes.
    MinSpacing(LefNumber),
    /// Effective design rule width.
    DesignRuleWidth(LefNumber),
}

/// Either a path, rectangle or polygon.
#[derive(Debug, PartialEq, Eq)]
pub enum LefShape {
    /// Width and path. The width is the override in effect where the path
    /// was given, or zero where the default width of the layer applies.
    Path(LefNumber, Vec<LefPoint>),
    /// Low and high corner of a rectangle.
    Rect(LefPoint, LefPoint),
    /// Vertices of a polygon.
    Polygon(Vec<LefPoint>),
}

/// What a `LefShape` holds.
pub enum LefShapeView {
    Path(LefNumber, Seq<LefPoint>),
    Rect(LefPoint, LefPoint),
    Polygon(Seq<LefPoint>),
}

impl DeepView for LefShape {
    type V = LefShapeView;

    open spec fn deep_view(&self) -> LefShapeView {
        match self {
            LefShape::Path(width, points) => LefShapeView::Path(*width, points@),
            LefShape::Rect(low, high) => LefShapeView::Rect(*low, *high),
            LefShape::Polygon(points) => LefShapeView::Polygon(points@),
        }
    }
}

impl Clone for LefShape {
    fn clone(&self) -> (res: Self)
        ensures
            res.deep_view() == self.deep_view(),
    {
        match self {
            LefShape::Path(width, points) => LefShape::Path(*width, clone_list(points)),
            LefShape::Rect(low, high) => LefShape::Rect(*low, *high),
            LefShape::Polygon(points) => LefShape::Polygon(clone_list(points)),
        }
    }
}

/// Shape with an optional array step pattern.
#[derive(Debug, PartialEq, Eq)]
pub struct LefGeometry {
    /// Array-like repetition of the shape.
    pub step_pattern: Option<LefStepPattern>,
    /// Geometric primitive.
    pub shape: LefShape,
}

/// What a `LefGeometry` holds.
pub struct LefGeometryView {
    pub step_pattern: Option<LefStepPattern>,
    pub shape: LefShapeView,
}

impl DeepView for LefGeometry {
    type V = LefGeometryView;

    open spec fn deep_view(&self) -> LefGeometryView {
        LefGeometryView { step_pattern: self.step_pattern, shape: self.shape.deep_view() }
    }
}

impl Clone for LefGeometry {
    fn clone(&self) -> (res: Self)
        ensures
            res.deep_view() == self.deep_view(),
    {
        LefGeometry { step_pattern: self.step_pattern, shape: self.shape.clone() }
    }
}

/// A via placed within the geometry of a layer. The model keeps nothing of it yet.
#[derive(Copy, Clone, Debug, Default, PartialEq, Eq)]
pub struct LefGeometryVia {
}

/// Geometrical shapes on a named layer as used in MACRO PIN and OBS definitions.
#[derive(Debug, Default, PartialEq, Eq)]
pub struct LefLayerGeometries {
    /// Name of the layer.
    pub layer_name: String,
    /// Obstruction blocks signal routing but not power or ground routing.
    pub except_pg_net: bool,
    /// Either minimal allowed spacing or an effective width.
    pub spacing_or_designrule_width: Option<LefSpacingOrDesignRuleWidth>,
    /// The width to be used for PATH. If not specified the default width of
    /// the layer is used.
    pub width: Option<LefNumber>,
    /// Geometrical shapes (PATH, RECT, POLYGON), each with its repetition pattern.
    pub geometries: Vec<LefGeometry>,
    /// Vias to be placed, with their locations.
    pub vias: Vec<LefGeometryVia>,
}

/// What a `LefLayerGeometries` holds.
pub struct LefLayerGeometriesView {
    pub layer_name: Seq<char>,
    pub except_pg_net: bool,
    pub spacing_or_designrule_width: Option<LefSpacingOrDesignRuleWidth>,
    pub width: Option<LefNumber>,
    pub geometries: Seq<LefGeometryView>,
    pub vias: Seq<LefGeometryVia>,
}

impl DeepView for LefLayerGeometries {
    type V = LefLayerGeometriesView;

    open spec fn deep_view(&self) -> LefLayerGeometriesView {
        LefLayerGeometriesView {
            layer_name: self.layer_name@,
            except_pg_net: self.except_pg_net,
            spacing_or_designrule_width: self.spacing_or_designrule_width,
            width: self.width,
            geometries: self.geometries.deep_view(),
            vias: self.vias@,
        }
    }
}

impl Clone for LefLayerGeometries {
    fn clone(&self) -> (res: Self)
        ensures
            res.deep_view() == self.deep_view(),
    {
        LefLayerGeometries {
            layer_name: self.layer_name.clone(),
            except_pg_net: self.except_pg_net,
            spacing_or_designrule_width: self.spacing_or_designrule_width,
            width: self.width,
            geometries: clone_records(&self.geometries),
            vias: clone_list(&self.vias),
        }
    }
}

/// The product of a 64-bit count with a 64-bit quantity fits in 128 bits.
pub proof fn lemma_product_fits(count: int, quantity: int)
    requires
        0 <= count <= u64::MAX,
        i64::MIN <= quantity <= i64::MAX,
    ensures
        i128::MIN <= count * quantity <= i128::MAX,
{
    assert(count * quantity <= 0xffff_ffff_ffff_ffff * 0x7fff_ffff_ffff_ffff) by (nonlinear_arith)
        requires
            0 <= count <= 0xffff_ffff_ffff_ffff,
            quantity <= 0x7fff_ffff_ffff_ffff,
    ;
    assert(count * quantity >= 0xffff_ffff_ffff_ffff * (-0x8000_0000_0000_0000)) by (
        nonlinear_arith)
        requires
            0 <= count <= 0xffff_ffff_ffff_ffff,
            quantity >= -0x8000_0000_0000_0000,
    ;
}

/// In a grid of `columns` by `rows` cells counted column by column, the
/// cell in column `ix` and row `iy` has the index `ix * rows + iy`.
pub proof fn lemma_cell_index(ix: int, iy: int, columns: int, rows: int)
    requires
        0 <= ix < columns,
        0 <= iy < rows,
    ensures
        0 <= ix * rows + iy < columns * rows,
        (ix * rows + iy) / rows == ix,
        (ix * rows + iy) % rows == iy,
{
    vstd::arithmetic::div_mod::lemma_fundamental_div_mod_converse(ix * rows + iy, rows, ix, iy);
    assert(ix * rows + iy < columns * rows) by (nonlinear_arith)
        requires
            0 <= ix < columns,
            0 <= iy < rows,
    ;
    assert(0 <= ix * rows) by (nonlinear_arith)
        requires
            0 <= ix,
            0 < rows,
    ;
}

} // verus!
