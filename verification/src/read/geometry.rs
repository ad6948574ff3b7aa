//! The geometry assembler: groups the items of a port or an obstruction by layer.
use vstd::prelude::*;
use crate::model::geometry::{
    LefGeometry, LefGeometryView, LefLayerGeometries, LefLayerGeometriesView,
    LefShape, LefShapeView, LefSpacingOrDesignRuleWidth, LefStepPattern,
};
use crate::model::keywords::LefPortClass;
use crate::model::makro::{LefMacroPinPort, LefMacroPinPortView};
use crate::read::error::{LefReadError, LefReadErrorView, LefReadResult};
use crate::read::event::LefGeometryItem;
use crate::read::utils::{
    keyword_value, lemma_try_fold_next, lemma_try_fold_rest, result_view, try_fold,
};
use crate::text::{clone_list, lemma_deep_view_pop, lemma_deep_view_push};

verus! {

/// The group that a LAYER item starts: nothing but the name of the layer.
pub open spec fn new_group(layer_name: Seq<char>) -> LefLayerGeometriesView {
    LefLayerGeometriesView {
        layer_name,
        except_pg_net: false,
        spacing_or_designrule_width: None,
        width: None,
        geometries: Seq::empty(),
        vias: Seq::empty(),
    }
}

/// The port before any item is taken: no class and no group.
pub open spec fn empty_port() -> LefMacroPinPortView {
    LefMacroPinPortView { class: None, geometries: Seq::empty() }
}

/// A shape, alone or repeated by a step pattern.
pub open spec fn shaped(step_pattern: Option<LefStepPattern>, shape: LefShapeView)
    -> LefGeometryView {
    LefGeometryView { step_pattern, shape }
}

/// Tells whether the assembler covers the kind of an item. Repeated paths
/// and vias within a geometry are not covered.
pub open spec fn item_supported(item: LefGeometryItem) -> bool {
    !(item is PathIter || item is Via || item is ViaIter)
}

/// The current group after an item that is neither LAYER nor CLASS. The
/// statements of the layer set its fields; a shape is appended with the
/// step pattern that its item carries. A path takes the width in effect,
/// or zero where none was given.
pub open spec fn group_after(group: LefLayerGeometriesView, item: LefGeometryItem)
    -> LefLayerGeometriesView {
    match item {
        LefGeometryItem::LayerExceptPgNet => LefLayerGeometriesView {
            except_pg_net: true,
            ..group
        },
        LefGeometryItem::LayerMinSpacing(spacing) => LefLayerGeometriesView {
            spacing_or_designrule_width: Some(LefSpacingOrDesignRuleWidth::MinSpacing(spacing)),
            ..group
        },
        LefGeometryItem::LayerRuleWidth(width) => LefLayerGeometriesView {
            spacing_or_designrule_width: Some(LefSpacingOrDesignRuleWidth::DesignRuleWidth(width)),
            ..group
        },
        LefGeometryItem::Width(width) => LefLayerGeometriesView { width: Some(width), ..group },
        LefGeometryItem::Path(points) => LefLayerGeometriesView {
            geometries: group.geometries.push(
                shaped(
                    None,
                    LefShapeView::Path(
                        match group.width {
                            Some(width) => width,
                            None => 0,
                        },
                        points@,
                    ),
                ),
            ),
            ..group
        },
        LefGeometryItem::Rect { xl, yl, xh, yh } => LefLayerGeometriesView {
            geometries: group.geometries.push(shaped(None, LefShapeView::Rect((xl, yl), (xh, yh)))),
            ..group
        },
        LefGeometryItem::RectIter { xl, yl, xh, yh, step } => LefLayerGeometriesView {
            geometries: group.geometries.push(
                shaped(Some(step), LefShapeView::Rect((xl, yl), (xh, yh))),
            ),
            ..group
        },
        LefGeometryItem::Polygon(points) => LefLayerGeometriesView {
            geometries: group.geometries.push(shaped(None, LefShapeView::Polygon(points@))),
            ..group
        },
        LefGeometryItem::PolygonIter(points, step) => LefLayerGeometriesView {
            geometries: group.geometries.push(shaped(Some(step), LefShapeView::Polygon(points@))),
            ..group
        },
        _ => group,
    }
}

/// One step of the assembler. A LAYER item starts a new group. Every other
/// item needs a group to act on: before the first LAYER item it is a
/// structural violation. Then an item of a kind that is not covered is
/// refused, a CLASS item sets the class of the port (an unknown keyword is
/// an error), and any other item acts on the current group, the last one.
pub open spec fn geometry_step(port: LefMacroPinPortView, item: LefGeometryItem) -> Result<
    LefMacroPinPortView,
    LefReadErrorView,
> {
    match item {
        LefGeometryItem::Layer(name) => Ok(
            LefMacroPinPortView { geometries: port.geometries.push(new_group(name@)), ..port },
        ),
        _ => if port.geometries.len() == 0 {
            Err(LefReadErrorView::StructuralViolation)
        } else if !item_supported(item) {
            Err(LefReadErrorView::UnsupportedConstruct)
        } else {
            match item {
                LefGeometryItem::Class(keyword) => match keyword_value::<LefPortClass>(keyword@) {
                    Ok(class) => Ok(LefMacroPinPortView { class: Some(class), ..port }),
                    Err(error) => Err(error),
                },
                _ => Ok(
                    LefMacroPinPortView {
                        geometries: port.geometries.update(
                            port.geometries.len() - 1,
                            group_after(port.geometries.last(), item),
                        ),
                        ..port
                    },
                ),
            }
        },
    }
}

/// The port that a sequence of geometry items stands for: its class and
/// its shapes grouped by layer, or the error of the first item that fails.
pub open spec fn assembled(items: Seq<LefGeometryItem>) -> Result<
    LefMacroPinPortView,
    LefReadErrorView,
> {
    try_fold(
        empty_port(),
        items,
        |port: LefMacroPinPortView, item: LefGeometryItem| geometry_step(port, item),
    )
}

/// Tells whether an item is a rectangle or a polygon, alone or repeated.
pub open spec fn is_plain_shape(item: LefGeometryItem) -> bool {
    item is Rect || item is RectIter || item is Polygon || item is PolygonIter
}

/// The shape that a rectangle or polygon item stands for, with the step
/// pattern that the item carries.
pub open spec fn plain_shape(item: LefGeometryItem) -> LefGeometryView {
    match item {
        LefGeometryItem::Rect { xl, yl, xh, yh } => shaped(
            None,
            LefShapeView::Rect((xl, yl), (xh, yh)),
        ),
        LefGeometryItem::RectIter { xl, yl, xh, yh, step } => shaped(
            Some(step),
            LefShapeView::Rect((xl, yl), (xh, yh)),
        ),
        LefGeometryItem::PolygonIter(points, step) => shaped(
            Some(step),
            LefShapeView::Polygon(points@),
        ),
        LefGeometryItem::Polygon(points) => shaped(None, LefShapeView::Polygon(points@)),
        _ => shaped(None, LefShapeView::Polygon(Seq::empty())),
    }
}

/// One more item: the assembler goes on from what the items before it gave.
pub proof fn lemma_assembled_next(items: Seq<LefGeometryItem>, item: LefGeometryItem)
    ensures
        assembled(items.push(item)) == match assembled(items) {
            Ok(port) => geometry_step(port, item),
            Err(error) => Err(error),
        },
{
    assert(items.push(item).drop_last() =~= items);
}

/// Shapes are grouped by layer, in their order: after a LAYER item and
/// the rectangles and polygons that follow it, the port has one more group,
/// which carries the name of the layer and holds exactly those shapes in
/// the order given. The groups before it and the class stay as they are.
pub proof fn lemma_group_holds_its_shapes(
    before: Seq<LefGeometryItem>,
    layer_name: String,
    shapes: Seq<LefGeometryItem>,
)
    requires
        assembled(before) is Ok,
        forall|i: int| 0 <= i < shapes.len() ==> is_plain_shape(#[trigger] shapes[i]),
    ensures
        assembled(before.push(LefGeometryItem::Layer(layer_name)) + shapes) == Ok::<
            _,
            LefReadErrorView,
        >(
            LefMacroPinPortView {
                class: assembled(before)->Ok_0.class,
                geometries: assembled(before)->Ok_0.geometries.push(
                    LefLayerGeometriesView {
                        geometries: shapes.map_values(|item: LefGeometryItem| plain_shape(item)),
                        ..new_group(layer_name@)
                    },
                ),
            },
        ),
    decreases shapes.len(),
{
    let start = before.push(LefGeometryItem::Layer(layer_name));
    let port = assembled(before)->Ok_0;
    let f = |item: LefGeometryItem| plain_shape(item);
    if shapes.len() == 0 {
        assert(start + shapes =~= start);
        lemma_assembled_next(before, LefGeometryItem::Layer(layer_name));
        assert(shapes.map_values(f) =~= Seq::empty());
    } else {
        let earlier = shapes.drop_last();
        let last = shapes.last();
        lemma_group_holds_its_shapes(before, layer_name, earlier);
        assert(start + shapes =~= (start + earlier).push(last));
        lemma_assembled_next(start + earlier, last);
        let group = LefLayerGeometriesView {
            geometries: earlier.map_values(f),
            ..new_group(layer_name@)
        };
        let so_far = LefMacroPinPortView {
            class: port.class,
            geometries: port.geometries.push(group),
        };
        assert(assembled(start + earlier) == Ok::<_, LefReadErrorView>(so_far));
        assert(is_plain_shape(last));
        assert(so_far.geometries.last() == group);
        assert(group_after(group, last).geometries == group.geometries.push(plain_shape(last)));
        assert(earlier.map_values(f).push(plain_shape(last)) =~= shapes.map_values(f));
        assert(so_far.geometries.update(
            so_far.geometries.len() - 1,
            group_after(group, last),
        ) =~= port.geometries.push(
            LefLayerGeometriesView { geometries: shapes.map_values(f), ..new_group(layer_name@) },
        ));
    }
}

/// Appends a shape to a group.
fn push_shape(group: &mut LefLayerGeometries, step_pattern: Option<LefStepPattern>, shape: LefShape)
    ensures
        final(group).deep_view() == (LefLayerGeometriesView {
            geometries: old(group).deep_view().geometries.push(
                shaped(step_pattern, shape.deep_view()),
            ),
            ..old(group).deep_view()
        }),
{
    let ghost before = group.geometries;
    let geometry = LefGeometry { step_pattern, shape };
    group.geometries.push(geometry);
    proof {
        lemma_deep_view_push(before, group.geometries, geometry);
    }
}

/// Lets an item that is neither LAYER nor CLASS act on the current group.
fn update_group(group: &mut LefLayerGeometries, item: &LefGeometryItem)
    ensures
        final(group).deep_view() == group_after(old(group).deep_view(), *item),
{
    match item {
        LefGeometryItem::LayerExceptPgNet => {
            group.except_pg_net = true;
        },
        LefGeometryItem::LayerMinSpacing(spacing) => {
            group.spacing_or_designrule_width = Some(
                LefSpacingOrDesignRuleWidth::MinSpacing(*spacing),
            );
        },
        LefGeometryItem::LayerRuleWidth(width) => {
            group.spacing_or_designrule_width = Some(
                LefSpacingOrDesignRuleWidth::DesignRuleWidth(*width),
            );
        },
        LefGeometryItem::Width(width) => {
            group.width = Some(*width);
        },
        LefGeometryItem::Path(points) => {
            let width = match group.width {
                Some(width) => width,
                None => 0,
            };
            push_shape(group, None, LefShape::Path(width, clone_list(points)));
        },
        LefGeometryItem::Rect { xl, yl, xh, yh } => {
            push_shape(group, None, LefShape::Rect((*xl, *yl), (*xh, *yh)));
        },
        LefGeometryItem::RectIter { xl, yl, xh, yh, step } => {
            push_shape(group, Some(*step), LefShape::Rect((*xl, *yl), (*xh, *yh)));
        },
        LefGeometryItem::Polygon(points) => {
            push_shape(group, None, LefShape::Polygon(clone_list(points)));
        },
        LefGeometryItem::PolygonIter(points, step) => {
            push_shape(group, Some(*step), LefShape::Polygon(clone_list(points)));
        },
        _ => {},
    }
}

/// Takes one item into the port that is being assembled.
pub fn take_geometry_item(port: &mut LefMacroPinPort, item: &LefGeometryItem) -> (res:
    LefReadResult<()>)
    ensures
        match geometry_step(old(port).deep_view(), *item) {
            Ok(after) => res is Ok && final(port).deep_view() == after,
            Err(error) => result_view(res) == Err::<(), _>(error) && final(port).deep_view() == old(
                port,
            ).deep_view(),
        },
{
    let ghost before = port.geometries;
    match item {
        LefGeometryItem::Layer(name) => {
            let group = LefLayerGeometries {
                layer_name: name.clone(),
                except_pg_net: false,
                spacing_or_designrule_width: None,
                width: None,
                geometries: Vec::new(),
                vias: Vec::new(),
            };
            assert(group.deep_view().geometries =~= Seq::empty());
            assert(group.deep_view().vias =~= Seq::empty());
            port.geometries.push(group);
            proof {
                lemma_deep_view_push(before, port.geometries, group);
            }
            Ok(())
        },
        LefGeometryItem::PathIter(_, _) | LefGeometryItem::Via | LefGeometryItem::ViaIter => {
            if port.geometries.len() == 0 {
                Err(LefReadError::StructuralViolation)
            } else {
                Err(LefReadError::UnsupportedConstruct)
            }
        },
        LefGeometryItem::Class(keyword) => {
            if port.geometries.len() == 0 {
                return Err(LefReadError::StructuralViolation);
            }
            match LefPortClass::from_str(keyword.as_str()) {
                Ok(class) => {
                    port.class = Some(class);
                    Ok(())
                },
                Err(_) => Err(LefReadError::unknown_keyword(keyword.as_str())),
            }
        },
        _ => {
            let mut group = match port.geometries.pop() {
                Some(group) => group,
                None => {
                    return Err(LefReadError::StructuralViolation);
                },
            };
            let ghost rest = port.geometries;
            let ghost current = group;
            proof {
                lemma_deep_view_pop(before, rest, current);
            }
            update_group(&mut group, item);
            port.geometries.push(group);
            proof {
                lemma_deep_view_push(rest, port.geometries, group);
                assert(port.geometries.deep_view() =~= before.deep_view().update(
                    before.deep_view().len() - 1,
                    group_after(before.deep_view().last(), *item),
                ));
            }
            Ok(())
        },
    }
}

/// Assembles the port that a sequence of geometry items stands for.
pub fn assemble_geometries(items: &Vec<LefGeometryItem>) -> (res: LefReadResult<LefMacroPinPort>)
    ensures
        result_view(res) == assembled(items@),
{
    let ghost step = |port: LefMacroPinPortView, item: LefGeometryItem| geometry_step(port, item);
    let mut port = LefMacroPinPort { class: None, geometries: Vec::new() };
    assert(port.deep_view().geometries =~= Seq::empty());
    assert(items@.take(0) =~= Seq::empty());
    let mut index: usize = 0;
    while index < items.len()
        invariant
            index <= items@.len(),
            step == |port: LefMacroPinPortView, item: LefGeometryItem| geometry_step(port, item),
            try_fold(empty_port(), items@.take(index as int), step) == Ok::<_, LefReadErrorView>(
                port.deep_view(),
            ),
        decreases items@.len() - index,
    {
        proof {
            lemma_try_fold_next(empty_port(), items@, step, index as int);
        }
        match take_geometry_item(&mut port, &items[index]) {
            Ok(_) => {},
            Err(error) => {
                proof {
                    lemma_try_fold_rest(empty_port(), items@, step, index as int + 1);
                }
                return Err(error);
            },
        }
        index += 1;
    }
    assert(items@.take(index as int) =~= items@);
    Ok(port)
}

/// The groups of shapes that the items of an obstruction stand for.
pub open spec fn assembled_groups(items: Seq<LefGeometryItem>) -> Result<
    Seq<LefLayerGeometriesView>,
    LefReadErrorView,
> {
    match assembled(items) {
        Ok(port) => Ok(port.geometries),
        Err(error) => Err(error),
    }
}

/// Groups the shapes of a sequence of geometry items by layer.
pub fn read_geometries(items: &Vec<LefGeometryItem>) -> (res: LefReadResult<
    Vec<LefLayerGeometries>,
>)
    ensures
        result_view(res) == assembled_groups(items@),
{
    match assemble_geometries(items) {
        Ok(port) => Ok(port.geometries),
        Err(error) => Err(error),
    }
}

} // verus!
