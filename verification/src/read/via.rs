//! The builders of vias and via generation rules.
use vstd::prelude::*;
use crate::model::via::{
    LefVia, LefViaGenerateRule, LefViaGenerateRuleView, LefViaShape, LefViaShapeView, LefViaView,
};
use crate::model::LefPoint;
use crate::name_map::{name_insert, LefNameMap};
use crate::read::error::{LefReadError, LefReadErrorView, LefReadResult};
use crate::read::event::{LefRectEvent, LefViaEvent, LefViaLayerEvent, LefViaRuleEvent};
use crate::read::utils::{fold, lemma_fold_next, result_view};
use crate::text::{clone_list, optional, present};

verus! {

/// The shapes of one layer of a via: every rectangle, then every polygon,
/// each kind in the order reported.
pub open spec fn via_layer_shapes(layer: LefViaLayerEvent) -> Seq<LefViaShapeView> {
    layer.rects@.map_values(
        |rect: LefRectEvent| LefViaShapeView::Rect((rect.xl, rect.yl), (rect.xh, rect.yh)),
    ) + layer.polygons@.map_values(|points: Vec<LefPoint>| LefViaShapeView::Polygon(points@))
}

/// The geometry of a via after one more layer: the layer's shapes are
/// stored under the layer's name.
pub open spec fn via_geometry_step(
    geometry: Seq<(Seq<char>, Seq<LefViaShapeView>)>,
    layer: LefViaLayerEvent,
) -> Seq<(Seq<char>, Seq<LefViaShapeView>)> {
    name_insert(geometry, layer.name@, via_layer_shapes(layer))
}

/// The via that a VIA event stands for.
pub open spec fn via_record(event: LefViaEvent) -> LefViaView {
    LefViaView {
        is_default: event.has_default,
        resistance: present(event.has_resistance, event.resistance),
        geometry: fold(
            Seq::empty(),
            event.layers@,
            |geometry: Seq<(Seq<char>, Seq<LefViaShapeView>)>, layer: LefViaLayerEvent|
                via_geometry_step(geometry, layer),
        ),
    }
}

/// Copies the shapes of one layer of a via.
pub fn read_via_shapes(layer: &LefViaLayerEvent) -> (res: Vec<LefViaShape>)
    ensures
        res.deep_view() == via_layer_shapes(*layer),
{
    let mut shapes: Vec<LefViaShape> = Vec::new();
    let mut r: usize = 0;
    while r < layer.rects.len()
        invariant
            r <= layer.rects@.len(),
            shapes@.len() == r,
            forall|k: int|
                0 <= k < r ==> (#[trigger] shapes@[k]).deep_view() == via_layer_shapes(*layer)[k],
        decreases layer.rects@.len() - r,
    {
        let rect = &layer.rects[r];
        shapes.push(LefViaShape::Rect((rect.xl, rect.yl), (rect.xh, rect.yh)));
        r += 1;
    }
    let mut p: usize = 0;
    while p < layer.polygons.len()
        invariant
            p <= layer.polygons@.len(),
            r == layer.rects@.len(),
            shapes@.len() == r + p,
            forall|k: int|
                0 <= k < r + p ==> (#[trigger] shapes@[k]).deep_view() == via_layer_shapes(
                    *layer,
                )[k],
        decreases layer.polygons@.len() - p,
    {
        shapes.push(LefViaShape::Polygon(clone_list(&layer.polygons[p])));
        p += 1;
    }
    assert(shapes.deep_view() =~= via_layer_shapes(*layer));
    shapes
}

/// Builds the via that a VIA construct stands for.
pub fn build_via(event: &LefViaEvent) -> (res: LefVia)
    ensures
        res.deep_view() == via_record(*event),
{
    let ghost step = |geometry: Seq<(Seq<char>, Seq<LefViaShapeView>)>, layer: LefViaLayerEvent|
        via_geometry_step(geometry, layer);
    let mut geometry: LefNameMap<Vec<LefViaShape>> = LefNameMap::new();
    let mut l: usize = 0;
    assert(event.layers@.take(0) =~= Seq::empty());
    while l < event.layers.len()
        invariant
            l <= event.layers@.len(),
            step == |geometry: Seq<(Seq<char>, Seq<LefViaShapeView>)>, layer: LefViaLayerEvent|
                via_geometry_step(geometry, layer),
            geometry.deep_view() == fold(Seq::empty(), event.layers@.take(l as int), step),
        decreases event.layers@.len() - l,
    {
        proof {
            lemma_fold_next(Seq::empty(), event.layers@, step, l as int);
        }
        let shapes = read_via_shapes(&event.layers[l]);
        geometry.insert(event.layers[l].name.clone(), shapes);
        l += 1;
    }
    assert(event.layers@.take(l as int) =~= event.layers@);
    LefVia {
        is_default: event.has_default,
        resistance: optional(event.has_resistance, event.resistance),
        geometry,
    }
}

/// The via generation rule that a VIARULE event stands for. The rule must
/// name exactly three layers, and it must be a GENERATE rule. The
/// enclosures and the width ranges are those of the first two layers, the
/// cut rectangle and the array spacing those of the third; each is present
/// only where its layer defines it.
pub open spec fn via_rule_record(event: LefViaRuleEvent) -> Result<
    LefViaGenerateRuleView,
    LefReadErrorView,
> {
    if event.layers@.len() != 3 {
        Err(LefReadErrorView::StructuralViolation)
    } else if !event.has_generate {
        Err(LefReadErrorView::UnsupportedConstruct)
    } else {
        let first = event.layers@[0];
        let second = event.layers@[1];
        let third = event.layers@[2];
        Ok(
            LefViaGenerateRuleView {
                is_default: event.has_default,
                rule_name: event.name@,
                layers: (first.name@, second.name@, third.name@),
                enclosure: (
                    present(
                        first.has_enclosure,
                        (first.enclosure_overhang1, first.enclosure_overhang2),
                    ),
                    present(
                        second.has_enclosure,
                        (second.enclosure_overhang1, second.enclosure_overhang2),
                    ),
                ),
                width: (
                    present(first.has_width, (first.width_min, first.width_max)),
                    present(second.has_width, (second.width_min, second.width_max)),
                ),
                rect: present(third.has_rect, ((third.xl, third.yl), (third.xh, third.yh))),
                spacing: present(third.has_spacing, (third.spacing_step_x, third.spacing_step_y)),
            },
        )
    }
}

/// Builds the via generation rule that a VIARULE construct stands for.
pub fn build_via_rule(event: &LefViaRuleEvent) -> (res: LefReadResult<LefViaGenerateRule>)
    ensures
        result_view(res) == via_rule_record(*event),
{
    if event.layers.len() != 3 {
        return Err(LefReadError::StructuralViolation);
    }
    if !event.has_generate {
        return Err(LefReadError::UnsupportedConstruct);
    }
    let first = &event.layers[0];
    let second = &event.layers[1];
    let third = &event.layers[2];
    Ok(
        LefViaGenerateRule {
            is_default: event.has_default,
            rule_name: event.name.clone(),
            layers: (first.name.clone(), second.name.clone(), third.name.clone()),
            enclosure: (
                optional(
                    first.has_enclosure,
                    (first.enclosure_overhang1, first.enclosure_overhang2),
                ),
                optional(
                    second.has_enclosure,
                    (second.enclosure_overhang1, second.enclosure_overhang2),
                ),
            ),
            width: (
                optional(first.has_width, (first.width_min, first.width_max)),
                optional(second.has_width, (second.width_min, second.width_max)),
            ),
            rect: optional(third.has_rect, ((third.xl, third.yl), (third.xh, third.yh))),
            spacing: optional(third.has_spacing, (third.spacing_step_x, third.spacing_step_y)),
        },
    )
}

} // verus!
