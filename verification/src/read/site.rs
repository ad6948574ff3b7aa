//! The builder of site definitions.
use vstd::prelude::*;
use crate::model::keywords::LefSiteClass;
use crate::model::orient::{LefOrient, LefSymmetry};
use crate::model::site::{LefSiteDefinition, LefSiteDefinitionView};
use crate::read::error::{LefReadError, LefReadErrorView, LefReadResult};
use crate::read::event::{LefSiteEvent, LefSiteRowEvent};
use crate::read::utils::{
    keyword_value, lemma_try_map_next, lemma_try_map_rest, result_view, try_map,
};
use crate::text::lemma_deep_view_push;

verus! {

/// The row of a composite site that a row event stands for.
pub open spec fn site_row(row: LefSiteRowEvent) -> Result<
    (Seq<char>, LefOrient),
    LefReadErrorView,
> {
    match keyword_value::<LefOrient>(row.orient@) {
        Ok(orient) => Ok((row.name@, orient)),
        Err(error) => Err(error),
    }
}

/// The site definition after a SITE event is read into it. The name, the
/// symmetry and the row pattern are those of the event; the size and the
/// class stay as they are where the event does not define them. An unknown
/// class or orientation keyword is an error.
pub open spec fn site_after(site: LefSiteDefinitionView, event: LefSiteEvent) -> Result<
    LefSiteDefinitionView,
    LefReadErrorView,
> {
    let class = if event.has_class {
        keyword_value::<LefSiteClass>(event.class@)
    } else {
        Ok(site.class)
    };
    match class {
        Err(error) => Err(error),
        Ok(class) => match try_map(event.row_pattern@, |row: LefSiteRowEvent| site_row(row)) {
            Err(error) => Err(error),
            Ok(row_pattern) => Ok(
                LefSiteDefinitionView {
                    name: event.name@,
                    size: if event.has_size {
                        (event.size_x, event.size_y)
                    } else {
                        site.size
                    },
                    symmetry: LefSymmetry {
                        x: event.has_x_symmetry,
                        y: event.has_y_symmetry,
                        r90: event.has_90_symmetry,
                    },
                    class,
                    row_pattern,
                },
            ),
        },
    }
}

/// The site definition that a SITE event stands for.
pub open spec fn site_record(event: LefSiteEvent) -> Result<
    LefSiteDefinitionView,
    LefReadErrorView,
> {
    site_after(LefSiteDefinitionView::spec_default(), event)
}

/// Reads the row pattern of a composite site.
pub fn read_site_rows(rows: &Vec<LefSiteRowEvent>) -> (res: LefReadResult<Vec<(String, LefOrient)>>)
    ensures
        result_view(res) == try_map(rows@, |row: LefSiteRowEvent| site_row(row)),
{
    let ghost f = |row: LefSiteRowEvent| site_row(row);
    let mut out: Vec<(String, LefOrient)> = Vec::new();
    let mut i: usize = 0;
    assert(rows@.take(0) =~= Seq::empty());
    assert(out.deep_view() =~= Seq::empty());
    while i < rows.len()
        invariant
            i <= rows@.len(),
            f == |row: LefSiteRowEvent| site_row(row),
            try_map(rows@.take(i as int), f) == Ok::<_, LefReadErrorView>(out.deep_view()),
        decreases rows@.len() - i,
    {
        proof {
            lemma_try_map_next(rows@, f, i as int);
        }
        let orient = match LefOrient::from_str(rows[i].orient.as_str()) {
            Ok(orient) => orient,
            Err(_) => {
                let error = LefReadError::unknown_keyword(rows[i].orient.as_str());
                proof {
                    lemma_try_map_rest(rows@, f, i as int + 1);
                }
                return Err(error);
            },
        };
        let ghost before = out;
        out.push((rows[i].name.clone(), orient));
        proof {
            lemma_deep_view_push(before, out, (rows@[i as int].name, orient));
        }
        i += 1;
    }
    assert(rows@.take(i as int) =~= rows@);
    Ok(out)
}

/// Reads a SITE construct into `site`.
pub fn do_read_site(event: &LefSiteEvent, site: &mut LefSiteDefinition) -> (res: LefReadResult<()>)
    ensures
        match site_after(old(site).deep_view(), *event) {
            Ok(after) => res is Ok && final(site).deep_view() == after,
            Err(error) => result_view(res) == Err::<(), _>(error) && final(site).deep_view() == old(
                site,
            ).deep_view(),
        },
{
    let class = if event.has_class {
        match LefSiteClass::from_str(event.class.as_str()) {
            Ok(class) => class,
            Err(_) => {
                return Err(LefReadError::unknown_keyword(event.class.as_str()));
            },
        }
    } else {
        site.class
    };
    let row_pattern = match read_site_rows(&event.row_pattern) {
        Ok(rows) => rows,
        Err(error) => {
            return Err(error);
        },
    };
    site.name = event.name.clone();
    if event.has_size {
        site.size = (event.size_x, event.size_y);
    }
    site.class = class;
    site.symmetry = LefSymmetry {
        x: event.has_x_symmetry,
        y: event.has_y_symmetry,
        r90: event.has_90_symmetry,
    };
    site.row_pattern = row_pattern;
    Ok(())
}

/// Builds the site definition that a SITE construct stands for.
pub fn build_site(event: &LefSiteEvent) -> (res: LefReadResult<LefSiteDefinition>)
    ensures
        result_view(res) == site_record(*event),
{
    let mut site = LefSiteDefinition::default();
    match do_read_site(event, &mut site) {
        Ok(_) => Ok(site),
        Err(error) => Err(error),
    }
}

} // verus!
