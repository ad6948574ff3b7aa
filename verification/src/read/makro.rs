//! The builders of pins and macros.
use vstd::prelude::*;
use crate::model::geometry::{LefLayerGeometries, LefLayerGeometriesView, LefStepPattern};
use crate::model::keywords::{LefPinDirection, LefPinShape, LefSignalUse};
use crate::model::macro_class::LefMacroClass;
use crate::model::makro::{
    LefDensity, LefMacro, LefMacroPin, LefMacroPinPort, LefMacroPinPortView, LefMacroPinView,
    LefMacroView,
};
use crate::model::orient::{LefOrient, LefSymmetry};
use crate::model::site::{LefSite, LefSiteView};
use crate::model::LefPoint;
use crate::name_map::LefNameMap;
use crate::read::error::{LefReadError, LefReadErrorView, LefReadResult};
use crate::read::event::{
    LefForeignEvent, LefGeometryItem, LefMacroEvent, LefPinEvent, LefSitePatternEvent,
};
use crate::read::geometry::{assemble_geometries, assembled};
use crate::read::utils::{
    keyword_value, lemma_try_map_next, lemma_try_map_rest, result_view, try_map,
};
use crate::keyword::LefKeyword;
use crate::text::{lemma_deep_view_push, optional, present};

verus! {

/// The value of an optional keyword field: nothing where the field is not
/// defined, else the value that the keyword stands for.
pub open spec fn optional_keyword<K: LefKeyword>(defined: bool, text: Seq<char>) -> Result<
    Option<K>,
    LefReadErrorView,
> {
    if defined {
        match keyword_value::<K>(text) {
            Ok(value) => Ok(Some(value)),
            Err(error) => Err(error),
        }
    } else {
        Ok(None)
    }
}

/// The text of an optional field.
pub open spec fn optional_text(defined: bool, text: String) -> Option<Seq<char>> {
    if defined {
        Some(text@)
    } else {
        None
    }
}

/// The ports of a pin: each port assembled from its items.
pub open spec fn pin_ports(ports: Seq<Vec<LefGeometryItem>>) -> Result<
    Seq<LefMacroPinPortView>,
    LefReadErrorView,
> {
    try_map(ports, |items: Vec<LefGeometryItem>| assembled(items@))
}

/// The pin that a PIN event stands for. The keywords are read in the order
/// direction, use, shape; then the ports are assembled one after the other.
/// The first failure is the error.
pub open spec fn pin_record(event: LefPinEvent) -> Result<LefMacroPinView, LefReadErrorView> {
    match optional_keyword::<LefPinDirection>(event.has_direction, event.direction@) {
        Err(error) => Err(error),
        Ok(direction) => match optional_keyword::<LefSignalUse>(event.has_use, event.signal_use@) {
            Err(error) => Err(error),
            Ok(signal_use) => match optional_keyword::<LefPinShape>(event.has_shape, event.shape@) {
                Err(error) => Err(error),
                Ok(shape_type) => match pin_ports(event.ports@) {
                    Err(error) => Err(error),
                    Ok(ports) => Ok(
                        LefMacroPinView {
                            name: event.name@,
                            taper_rule: optional_text(event.has_taper_rule, event.taper_rule),
                            direction,
                            signal_use,
                            supply_sensitivity: optional_text(
                                event.has_supply_sensitivity,
                                event.supply_sensitivity,
                            ),
                            ground_sensitivity: optional_text(
                                event.has_ground_sensitivity,
                                event.ground_sensitivity,
                            ),
                            shape_type,
                            must_join: optional_text(event.has_must_join, event.must_join),
                            ports,
                        },
                    ),
                },
            },
        },
    }
}

/// Copies the text of an optional field.
pub fn read_optional_text(defined: bool, text: &String) -> (res: Option<String>)
    ensures
        res.deep_view() == optional_text(defined, *text),
{
    if defined {
        Some(text.clone())
    } else {
        None
    }
}

/// Assembles the ports of a pin.
pub fn read_ports(ports: &Vec<Vec<LefGeometryItem>>) -> (res: LefReadResult<Vec<LefMacroPinPort>>)
    ensures
        result_view(res) == pin_ports(ports@),
{
    let ghost f = |items: Vec<LefGeometryItem>| assembled(items@);
    let mut out: Vec<LefMacroPinPort> = Vec::new();
    let mut index: usize = 0;
    assert(ports@.take(0) =~= Seq::empty());
    assert(out.deep_view() =~= Seq::empty());
    while index < ports.len()
        invariant
            index <= ports@.len(),
            f == |items: Vec<LefGeometryItem>| assembled(items@),
            try_map(ports@.take(index as int), f) == Ok::<_, LefReadErrorView>(out.deep_view()),
        decreases ports@.len() - index,
    {
        proof {
            lemma_try_map_next(ports@, f, index as int);
        }
        match assemble_geometries(&ports[index]) {
            Ok(port) => {
                let ghost before = out;
                out.push(port);
                proof {
                    lemma_deep_view_push(before, out, port);
                }
            },
            Err(error) => {
                proof {
                    lemma_try_map_rest(ports@, f, index as int + 1);
                }
                return Err(error);
            },
        }
        index += 1;
    }
    assert(ports@.take(index as int) =~= ports@);
    Ok(out)
}

/// Builds the pin that a PIN construct stands for.
pub fn build_pin(event: &LefPinEvent) -> (res: LefReadResult<LefMacroPin>)
    ensures
        result_view(res) == pin_record(*event),
{
    let direction = if event.has_direction {
        match LefPinDirection::from_str(event.direction.as_str()) {
            Ok(direction) => Some(direction),
            Err(_) => {
                return Err(LefReadError::unknown_keyword(event.direction.as_str()));
            },
        }
    } else {
        None
    };
    let signal_use = if event.has_use {
        match LefSignalUse::from_str(event.signal_use.as_str()) {
            Ok(signal_use) => Some(signal_use),
            Err(_) => {
                return Err(LefReadError::unknown_keyword(event.signal_use.as_str()));
            },
        }
    } else {
        None
    };
    let shape_type = if event.has_shape {
        match LefPinShape::from_str(event.shape.as_str()) {
            Ok(shape) => Some(shape),
            Err(_) => {
                return Err(LefReadError::unknown_keyword(event.shape.as_str()));
            },
        }
    } else {
        None
    };
    let ports = match read_ports(&event.ports) {
        Ok(ports) => ports,
        Err(error) => {
            return Err(error);
        },
    };
    Ok(
        LefMacroPin {
            name: event.name.clone(),
            taper_rule: read_optional_text(event.has_taper_rule, &event.taper_rule),
            direction,
            signal_use,
            supply_sensitivity: read_optional_text(
                event.has_supply_sensitivity,
                &event.supply_sensitivity,
            ),
            ground_sensitivity: read_optional_text(
                event.has_ground_sensitivity,
                &event.ground_sensitivity,
            ),
            shape_type,
            must_join: read_optional_text(event.has_must_join, &event.must_join),
            ports,
        },
    )
}

/// The foreign cell reference that a FOREIGN statement stands for. The
/// offset is `(0, 0)` where the statement gives no point, the orientation
/// `N` where it gives none.
pub open spec fn foreign_record(foreign: LefForeignEvent) -> Result<
    (Seq<char>, LefPoint, LefOrient),
    LefReadErrorView,
> {
    let orient = if foreign.has_orient {
        keyword_value::<LefOrient>(foreign.orient@)
    } else {
        Ok(LefOrient::N)
    };
    match orient {
        Err(error) => Err(error),
        Ok(orient) => Ok(
            (
                foreign.name@,
                if foreign.has_point {
                    (foreign.x, foreign.y)
                } else {
                    (0, 0)
                },
                orient,
            ),
        ),
    }
}

/// The site of a macro that is given by its name alone.
pub open spec fn named_site(name: Seq<char>) -> LefSiteView {
    LefSiteView { name, origin: (0, 0), site_orient: LefOrient::N, step_pattern: None }
}

/// The site of a macro that a site pattern stands for.
pub open spec fn site_pattern_record(pattern: LefSitePatternEvent) -> Result<
    LefSiteView,
    LefReadErrorView,
> {
    match keyword_value::<LefOrient>(pattern.orient@) {
        Err(error) => Err(error),
        Ok(orient) => Ok(
            LefSiteView {
                name: pattern.name@,
                origin: (pattern.x, pattern.y),
                site_orient: orient,
                step_pattern: present(
                    pattern.has_step_pattern,
                    LefStepPattern {
                        num_x: pattern.x_start,
                        num_y: pattern.y_start,
                        space_x: pattern.x_step,
                        space_y: pattern.y_step,
                    },
                ),
            },
        ),
    }
}

/// The sites of a macro: the site that the macro names directly, if it
/// names one, and after it the site patterns in the order reported.
pub open spec fn macro_sites(event: LefMacroEvent) -> Result<Seq<LefSiteView>, LefReadErrorView> {
    match try_map(
        event.site_patterns@,
        |pattern: LefSitePatternEvent| site_pattern_record(pattern),
    ) {
        Err(error) => Err(error),
        Ok(patterns) => Ok(
            if event.has_site_name {
                seq![named_site(event.site_name@)] + patterns
            } else {
                patterns
            },
        ),
    }
}

/// The foreign cell references of a macro, in the order reported.
pub open spec fn macro_foreigns(event: LefMacroEvent) -> Result<
    Seq<(Seq<char>, LefPoint, LefOrient)>,
    LefReadErrorView,
> {
    if event.has_foreign {
        try_map(event.foreigns@, |foreign: LefForeignEvent| foreign_record(foreign))
    } else {
        Ok(Seq::empty())
    }
}

/// The macro that a MACRO event stands for, with the pins and the
/// obstructions that were gathered for it. The class is read first, then
/// the foreign cell references, then the sites; the first failure is the error.
pub open spec fn macro_record(
    event: LefMacroEvent,
    pins: Seq<LefMacroPinView>,
    obs: Seq<LefLayerGeometriesView>,
) -> Result<LefMacroView, LefReadErrorView> {
    match optional_keyword::<LefMacroClass>(event.has_class, event.class@) {
        Err(error) => Err(error),
        Ok(class) => match macro_foreigns(event) {
            Err(error) => Err(error),
            Ok(foreign) => match macro_sites(event) {
                Err(error) => Err(error),
                Ok(sites) => Ok(
                    LefMacroView {
                        name: event.name@,
                        class,
                        fixed_mask: event.is_fixed_mask,
                        foreign,
                        origin: if event.has_origin {
                            (event.origin_x, event.origin_y)
                        } else {
                            (0, 0)
                        },
                        eeq: optional_text(event.has_eeq, event.eeq),
                        size: present(event.has_size, (event.size_x, event.size_y)),
                        symmetry: LefSymmetry {
                            x: event.has_x_symmetry,
                            y: event.has_y_symmetry,
                            r90: event.has_90_symmetry,
                        },
                        sites,
                        pins,
                        obs,
                        density: Seq::empty(),
                        properties: Seq::empty(),
                    },
                ),
            },
        },
    }
}

/// Reads the foreign cell references of a macro.
pub fn read_foreigns(event: &LefMacroEvent) -> (res: LefReadResult<
    Vec<(String, LefPoint, LefOrient)>,
>)
    ensures
        result_view(res) == macro_foreigns(*event),
{
    let ghost f = |foreign: LefForeignEvent| foreign_record(foreign);
    let mut out: Vec<(String, LefPoint, LefOrient)> = Vec::new();
    assert(out.deep_view() =~= Seq::empty());
    if !event.has_foreign {
        return Ok(out);
    }
    let mut index: usize = 0;
    assert(event.foreigns@.take(0) =~= Seq::empty());
    while index < event.foreigns.len()
        invariant
            index <= event.foreigns@.len(),
            event.has_foreign,
            f == |foreign: LefForeignEvent| foreign_record(foreign),
            try_map(event.foreigns@.take(index as int), f) == Ok::<_, LefReadErrorView>(
                out.deep_view(),
            ),
        decreases event.foreigns@.len() - index,
    {
        proof {
            lemma_try_map_next(event.foreigns@, f, index as int);
        }
        let foreign = &event.foreigns[index];
        let orient = if foreign.has_orient {
            match LefOrient::from_str(foreign.orient.as_str()) {
                Ok(orient) => orient,
                Err(_) => {
                    proof {
                        lemma_try_map_rest(event.foreigns@, f, index as int + 1);
                    }
                    return Err(LefReadError::unknown_keyword(foreign.orient.as_str()));
                },
            }
        } else {
            LefOrient::default()
        };
        let position = if foreign.has_point {
            (foreign.x, foreign.y)
        } else {
            (0, 0)
        };
        let ghost before = out;
        let entry = (foreign.name.clone(), position, orient);
        out.push(entry);
        proof {
            lemma_deep_view_push(before, out, entry);
        }
        index += 1;
    }
    assert(event.foreigns@.take(index as int) =~= event.foreigns@);
    Ok(out)
}

/// Reads the sites of a macro.
pub fn read_sites(event: &LefMacroEvent) -> (res: LefReadResult<Vec<LefSite>>)
    ensures
        result_view(res) == macro_sites(*event),
{
    let ghost f = |pattern: LefSitePatternEvent| site_pattern_record(pattern);
    let mut sites: Vec<LefSite> = Vec::new();
    assert(sites.deep_view() =~= Seq::empty());
    if event.has_site_name {
        let ghost before = sites;
        let mut site = LefSite::default();
        site.name = event.site_name.clone();
        sites.push(site);
        proof {
            lemma_deep_view_push(before, sites, site);
        }
    }
    let ghost head = sites.deep_view();
    assert(head =~= if event.has_site_name {
        seq![named_site(event.site_name@)]
    } else {
        Seq::empty()
    });
    let mut index: usize = 0;
    assert(event.site_patterns@.take(0) =~= Seq::empty());
    assert(sites.deep_view() =~= head + Seq::empty());
    while index < event.site_patterns.len()
        invariant
            index <= event.site_patterns@.len(),
            f == |pattern: LefSitePatternEvent| site_pattern_record(pattern),
            try_map(event.site_patterns@.take(index as int), f) is Ok,
            sites.deep_view() == head + try_map(event.site_patterns@.take(index as int), f)->Ok_0,
        decreases event.site_patterns@.len() - index,
    {
        proof {
            lemma_try_map_next(event.site_patterns@, f, index as int);
        }
        let pattern = &event.site_patterns[index];
        let site_orient = match LefOrient::from_str(pattern.orient.as_str()) {
            Ok(orient) => orient,
            Err(_) => {
                proof {
                    lemma_try_map_rest(event.site_patterns@, f, index as int + 1);
                }
                return Err(LefReadError::unknown_keyword(pattern.orient.as_str()));
            },
        };
        let step_pattern = optional(
            pattern.has_step_pattern,
            LefStepPattern {
                num_x: pattern.x_start,
                num_y: pattern.y_start,
                space_x: pattern.x_step,
                space_y: pattern.y_step,
            },
        );
        let site = LefSite {
            name: pattern.name.clone(),
            origin: (pattern.x, pattern.y),
            site_orient,
            step_pattern,
        };
        let ghost before = sites;
        sites.push(site);
        proof {
            lemma_deep_view_push(before, sites, site);
            let earlier = try_map(event.site_patterns@.take(index as int), f)->Ok_0;
            assert((head + earlier).push(site.deep_view()) =~= head + earlier.push(
                site.deep_view(),
            ));
        }
        index += 1;
    }
    assert(event.site_patterns@.take(index as int) =~= event.site_patterns@);
    Ok(sites)
}

/// Builds the macro that a MACRO construct stands for, and attaches the
/// pins and the obstructions that were gathered for it.
pub fn build_macro(event: &LefMacroEvent, pins: Vec<LefMacroPin>, obs: Vec<LefLayerGeometries>)
    -> (res: LefReadResult<LefMacro>)
    ensures
        result_view(res) == macro_record(*event, pins.deep_view(), obs.deep_view()),
{
    let class = if event.has_class {
        match LefMacroClass::from_str(event.class.as_str()) {
            Ok(class) => Some(class),
            Err(_) => {
                return Err(LefReadError::unknown_keyword(event.class.as_str()));
            },
        }
    } else {
        None
    };
    let foreign = match read_foreigns(event) {
        Ok(foreign) => foreign,
        Err(error) => {
            return Err(error);
        },
    };
    let sites = match read_sites(event) {
        Ok(sites) => sites,
        Err(error) => {
            return Err(error);
        },
    };
    let origin = if event.has_origin {
        (event.origin_x, event.origin_y)
    } else {
        (0, 0)
    };
    let density: Vec<LefDensity> = Vec::new();
    assert(density@ =~= Seq::empty());
    Ok(
        LefMacro {
            name: event.name.clone(),
            class,
            fixed_mask: event.is_fixed_mask,
            foreign,
            origin,
            eeq: read_optional_text(event.has_eeq, &event.eeq),
            size: optional(event.has_size, (event.size_x, event.size_y)),
            symmetry: LefSymmetry {
                x: event.has_x_symmetry,
                y: event.has_y_symmetry,
                r90: event.has_90_symmetry,
            },
            sites,
            pins,
            obs,
            density,
            properties: LefNameMap::new(),
        },
    )
}

} // verus!
