//! The reader of cell libraries.
use vstd::prelude::*;
use crate::model::geometry::{LefLayerGeometries, LefLayerGeometriesView};
use crate::model::makro::{LefMacroPin, LefMacroPinView, LefMacroView};
use crate::model::technology::{LefCellLibrary, LefCellLibraryView};
use crate::name_map::{
    lemma_insert_entries, lemma_insert_keeps_names_distinct, name_insert, names_distinct,
};
use crate::read::error::{LefReadError, LefReadErrorView, LefReadResult};
use crate::read::event::{LefGeometryItem, LefMacroEvent, LefPinEvent, LefSiteEvent};
use crate::read::geometry::{assembled_groups, read_geometries};
use crate::read::makro::{build_macro, build_pin, macro_record, pin_record};
use crate::read::site::{build_site, site_record};
use crate::read::utils::{fold, lemma_fold_next, result_view};
use crate::text::{lemma_deep_view_append, lemma_deep_view_push};

verus! {

/// One construct of a cell library stream.
#[derive(Clone, Debug, PartialEq, Eq)]
pub enum LefCellLibraryEvent {
    /// SITE.
    Site(LefSiteEvent),
    /// PIN of the macro that closes next.
    Pin(LefPinEvent),
    /// OBS of the macro that closes next, as the items of its geometry.
    Obs(Vec<LefGeometryItem>),
    /// MACRO, reported when the macro closes.
    Macro(LefMacroEvent),
    /// The event source reports a syntax or lexical problem, with its message.
    Failure(String),
}

impl LefCellLibraryView {
    /// The library after SITE: the site is stored under its name.
    pub open spec fn with_site(self, event: LefSiteEvent) -> Result<Self, LefReadErrorView> {
        match site_record(event) {
            Ok(site) => Ok(
                LefCellLibraryView { sites: name_insert(self.sites, site.name, site), ..self },
            ),
            Err(error) => Err(error),
        }
    }

    /// The library after MACRO, with the pins and the obstructions that
    /// were gathered for the macro: the macro is stored under its name.
    pub open spec fn with_macro(
        self,
        event: LefMacroEvent,
        pins: Seq<LefMacroPinView>,
        obs: Seq<LefLayerGeometriesView>,
    ) -> Result<Self, LefReadErrorView> {
        match macro_record(event, pins, obs) {
            Ok(makro) => Ok(
                LefCellLibraryView { macros: name_insert(self.macros, makro.name, makro), ..self },
            ),
            Err(error) => Err(error),
        }
    }
}

impl LefCellLibraryView {
    /// The invariant of a cell library: names are unique in each
    /// collection, and every macro and every site is stored under its own name.
    pub open spec fn wf(self) -> bool {
        &&& names_distinct(self.macros)
        &&& names_distinct(self.sites)
        &&& forall|i: int|
            0 <= i < self.macros.len() ==> (#[trigger] self.macros[i]).0 == self.macros[i].1.name
        &&& forall|i: int|
            0 <= i < self.sites.len() ==> (#[trigger] self.sites[i]).0 == self.sites[i].1.name
    }
}

/// Reads the events of a cell library one by one. The pins and the
/// obstructions of a macro are reported before the macro itself: the reader
/// gathers them and attaches them when the macro closes.
#[derive(Clone, Debug)]
pub struct LefCellLibraryReader {
    /// The library as far as it is loaded.
    pub lef: LefCellLibrary,
    /// The pins gathered for the macro that closes next.
    pub pins: Vec<LefMacroPin>,
    /// The obstructions gathered for the macro that closes next.
    pub geometries: Vec<LefLayerGeometries>,
    /// The first error of the load, if there was one.
    pub error: Option<LefReadError>,
}

/// What a `LefCellLibraryReader` holds.
pub struct LefCellLibraryReaderView {
    pub lef: LefCellLibraryView,
    pub pins: Seq<LefMacroPinView>,
    pub geometries: Seq<LefLayerGeometriesView>,
    pub error: Option<LefReadErrorView>,
}

impl DeepView for LefCellLibraryReader {
    type V = LefCellLibraryReaderView;

    open spec fn deep_view(&self) -> LefCellLibraryReaderView {
        LefCellLibraryReaderView {
            lef: self.lef.deep_view(),
            pins: self.pins.deep_view(),
            geometries: self.geometries.deep_view(),
            error: self.error.deep_view(),
        }
    }
}

impl LefCellLibraryReaderView {
    /// The reader at the start of a load.
    pub open spec fn start() -> Self {
        LefCellLibraryReaderView {
            lef: LefCellLibraryView::empty(),
            pins: Seq::empty(),
            geometries: Seq::empty(),
            error: None,
        }
    }

    /// The reader after a step with the given outcome. Once a load has
    /// failed nothing changes any more; the first error stays.
    pub open spec fn after(self, outcome: Result<Self, LefReadErrorView>) -> Self {
        if self.error is Some {
            self
        } else {
            match outcome {
                Ok(reader) => reader,
                Err(error) => LefCellLibraryReaderView { error: Some(error), ..self },
            }
        }
    }

    /// What a SITE construct makes of the reader.
    pub open spec fn with_site(self, event: LefSiteEvent) -> Result<Self, LefReadErrorView> {
        match self.lef.with_site(event) {
            Ok(lef) => Ok(LefCellLibraryReaderView { lef, ..self }),
            Err(error) => Err(error),
        }
    }

    /// What a PIN construct makes of the reader: the pin is gathered.
    pub open spec fn with_pin(self, event: LefPinEvent) -> Result<Self, LefReadErrorView> {
        match pin_record(event) {
            Ok(pin) => Ok(LefCellLibraryReaderView { pins: self.pins.push(pin), ..self }),
            Err(error) => Err(error),
        }
    }

    /// What an OBS construct makes of the reader: its groups of shapes are
    /// gathered behind those of earlier obstructions.
    pub open spec fn with_obs(self, items: Seq<LefGeometryItem>) -> Result<Self, LefReadErrorView> {
        match assembled_groups(items) {
            Ok(groups) => Ok(
                LefCellLibraryReaderView { geometries: self.geometries + groups, ..self },
            ),
            Err(error) => Err(error),
        }
    }

    /// What a MACRO construct makes of the reader: the macro takes what
    /// was gathered, and the reader starts to gather for the next one.
    pub open spec fn with_macro(self, event: LefMacroEvent) -> Result<Self, LefReadErrorView> {
        match self.lef.with_macro(event, self.pins, self.geometries) {
            Ok(lef) => Ok(
                LefCellLibraryReaderView {
                    lef,
                    pins: Seq::empty(),
                    geometries: Seq::empty(),
                    error: None,
                },
            ),
            Err(error) => Err(error),
        }
    }

    /// What one construct makes of the reader, or the error that it gives.
    pub open spec fn with_event(self, event: LefCellLibraryEvent) -> Result<
        Self,
        LefReadErrorView,
    > {
        match event {
            LefCellLibraryEvent::Site(site) => self.with_site(site),
            LefCellLibraryEvent::Pin(pin) => self.with_pin(pin),
            LefCellLibraryEvent::Obs(items) => self.with_obs(items@),
            LefCellLibraryEvent::Macro(makro) => self.with_macro(makro),
            LefCellLibraryEvent::Failure(message) => Err(
                LefReadErrorView::EventSourceFailure(message@),
            ),
        }
    }

    /// The reader after one construct.
    pub open spec fn step(self, event: LefCellLibraryEvent) -> Self {
        self.after(self.with_event(event))
    }

    /// What the reader tells the event source: 0 to go on, 1 to stop.
    pub open spec fn status(self) -> i32 {
        if self.error is Some {
            1
        } else {
            0
        }
    }

    /// The outcome of the load: the library, or the first error.
    pub open spec fn outcome(self) -> Result<LefCellLibraryView, LefReadErrorView> {
        match self.error {
            Some(error) => Err(error),
            None => Ok(self.lef),
        }
    }

    /// The reader after a stream of constructs.
    pub open spec fn after_all(events: Seq<LefCellLibraryEvent>) -> Self {
        fold(
            Self::start(),
            events,
            |reader: LefCellLibraryReaderView, event: LefCellLibraryEvent| reader.step(event),
        )
    }
}

/// A macro is built in the same way whatever was gathered for it: the
/// pins and the obstructions are attached as they are.
pub proof fn lemma_macro_record_attaches(
    event: LefMacroEvent,
    pins: Seq<LefMacroPinView>,
    obs: Seq<LefLayerGeometriesView>,
)
    ensures
        macro_record(event, pins, obs) == match macro_record(event, Seq::empty(), Seq::empty()) {
            Ok(makro) => Ok(LefMacroView { pins, obs, ..makro }),
            Err(error) => Err(error),
        },
{
}

/// A construct that is read without error keeps the invariant of the library.
pub proof fn lemma_event_keeps_library_wf(
    reader: LefCellLibraryReaderView,
    event: LefCellLibraryEvent,
)
    requires
        reader.lef.wf(),
        reader.with_event(event) is Ok,
    ensures
        reader.with_event(event)->Ok_0.lef.wf(),
{
    let after = reader.with_event(event)->Ok_0.lef;
    match event {
        LefCellLibraryEvent::Site(site) => {
            let record = site_record(site)->Ok_0;
            lemma_insert_keeps_names_distinct(reader.lef.sites, record.name, record);
            assert forall|i: int| 0 <= i < after.sites.len() implies (#[trigger] after.sites[i]).0
                == after.sites[i].1.name by {
                lemma_insert_entries(reader.lef.sites, record.name, record, i);
            }
        },
        LefCellLibraryEvent::Macro(makro) => {
            let record = macro_record(makro, reader.pins, reader.geometries)->Ok_0;
            lemma_insert_keeps_names_distinct(reader.lef.macros, record.name, record);
            assert forall|i: int| 0 <= i < after.macros.len() implies (
            #[trigger] after.macros[i]).0 == after.macros[i].1.name by {
                lemma_insert_entries(reader.lef.macros, record.name, record, i);
            }
        },
        _ => {},
    }
}

/// Whatever the stream, the library that the reader holds meets its invariant.
pub proof fn lemma_loaded_library_wf(events: Seq<LefCellLibraryEvent>)
    ensures
        LefCellLibraryReaderView::after_all(events).lef.wf(),
    decreases events.len(),
{
    if events.len() > 0 {
        let before = LefCellLibraryReaderView::after_all(events.drop_last());
        lemma_loaded_library_wf(events.drop_last());
        if before.error is None && before.with_event(events.last()) is Ok {
            lemma_event_keeps_library_wf(before, events.last());
        }
    }
}

/// The first error of a stream is the outcome of the load: where the
/// reader has failed after the first `n` constructs, it ends as it stands then.
pub proof fn lemma_first_library_error_stays(events: Seq<LefCellLibraryEvent>, n: int)
    requires
        0 <= n <= events.len(),
        LefCellLibraryReaderView::after_all(events.take(n)).error is Some,
    ensures
        LefCellLibraryReaderView::after_all(events) == LefCellLibraryReaderView::after_all(
            events.take(n),
        ),
    decreases events.len() - n,
{
    if n < events.len() {
        let step = |reader: LefCellLibraryReaderView, event: LefCellLibraryEvent|
            reader.step(event);
        lemma_fold_next(LefCellLibraryReaderView::start(), events, step, n);
        lemma_first_library_error_stays(events, n + 1);
    } else {
        assert(events.take(n) =~= events);
    }
}

impl LefCellLibraryReader {
    /// A reader at the start of a load.
    pub fn new() -> (res: Self)
        ensures
            res.deep_view() == LefCellLibraryReaderView::start(),
    {
        let res = Self {
            lef: LefCellLibrary::new(),
            pins: Vec::new(),
            geometries: Vec::new(),
            error: None,
        };
        assert(res.deep_view().pins =~= Seq::empty());
        assert(res.deep_view().geometries =~= Seq::empty());
        res
    }

    /// Records an error, and tells the event source to stop.
    fn fail(&mut self, error: LefReadError) -> (status: i32)
        requires
            old(self).error is None,
        ensures
            final(self).deep_view() == old(self).deep_view().after(Err(error.deep_view())),
            status == 1,
    {
        self.error = Some(error);
        1
    }

    /// Reads a SITE construct.
    pub fn read_site(&mut self, event: &LefSiteEvent) -> (status: i32)
        ensures
            final(self).deep_view() == old(self).deep_view().after(
                old(self).deep_view().with_site(*event),
            ),
            status == final(self).deep_view().status(),
    {
        if self.error.is_some() {
            return 1;
        }
        match build_site(event) {
            Ok(site) => {
                self.lef.sites.insert(site.name.clone(), site);
                0
            },
            Err(error) => self.fail(error),
        }
    }

    /// Reads a PIN construct.
    pub fn read_pin(&mut self, event: &LefPinEvent) -> (status: i32)
        ensures
            final(self).deep_view() == old(self).deep_view().after(
                old(self).deep_view().with_pin(*event),
            ),
            status == final(self).deep_view().status(),
    {
        if self.error.is_some() {
            return 1;
        }
        match build_pin(event) {
            Ok(pin) => {
                let ghost before = self.pins;
                self.pins.push(pin);
                proof {
                    lemma_deep_view_push(before, self.pins, pin);
                }
                0
            },
            Err(error) => self.fail(error),
        }
    }

    /// Reads an OBS construct.
    pub fn read_obs(&mut self, items: &Vec<LefGeometryItem>) -> (status: i32)
        ensures
            final(self).deep_view() == old(self).deep_view().after(
                old(self).deep_view().with_obs(items@),
            ),
            status == final(self).deep_view().status(),
    {
        if self.error.is_some() {
            return 1;
        }
        match read_geometries(items) {
            Ok(groups) => {
                let ghost before = self.geometries;
                let mut groups = groups;
                let ghost tail = groups;
                self.geometries.append(&mut groups);
                proof {
                    lemma_deep_view_append(before, tail, self.geometries);
                }
                0
            },
            Err(error) => self.fail(error),
        }
    }

    /// Reads a MACRO construct: builds the macro, attaches the pins and
    /// the obstructions gathered for it and stores it under its name.
    pub fn read_macro(&mut self, event: &LefMacroEvent) -> (status: i32)
        ensures
            final(self).deep_view() == old(self).deep_view().after(
                old(self).deep_view().with_macro(*event),
            ),
            status == final(self).deep_view().status(),
    {
        if self.error.is_some() {
            return 1;
        }
        let pins: Vec<LefMacroPin> = Vec::new();
        let obs: Vec<LefLayerGeometries> = Vec::new();
        proof {
            let before = self.deep_view();
            assert(pins.deep_view() =~= Seq::empty());
            assert(obs.deep_view() =~= Seq::empty());
            lemma_macro_record_attaches(*event, before.pins, before.geometries);
        }
        match build_macro(event, pins, obs) {
            Ok(makro) => {
                let mut makro = makro;
                core::mem::swap(&mut self.pins, &mut makro.pins);
                core::mem::swap(&mut self.geometries, &mut makro.obs);
                self.lef.macros.insert(makro.name.clone(), makro);
                0
            },
            Err(error) => self.fail(error),
        }
    }

    /// Takes note that the event source failed. The message becomes the
    /// error of the load unless a construct had failed before.
    pub fn read_failure(&mut self, message: &str) -> (status: i32)
        ensures
            final(self).deep_view() == old(self).deep_view().after(
                Err(LefReadErrorView::EventSourceFailure(message@)),
            ),
            status == 1,
    {
        if self.error.is_some() {
            return 1;
        }
        self.fail(LefReadError::EventSourceFailure(message.to_owned()))
    }

    /// Reads one construct of the stream.
    pub fn read_event(&mut self, event: &LefCellLibraryEvent) -> (status: i32)
        ensures
            final(self).deep_view() == old(self).deep_view().step(*event),
            status == final(self).deep_view().status(),
    {
        match event {
            LefCellLibraryEvent::Site(site) => self.read_site(site),
            LefCellLibraryEvent::Pin(pin) => self.read_pin(pin),
            LefCellLibraryEvent::Obs(items) => self.read_obs(items),
            LefCellLibraryEvent::Macro(makro) => self.read_macro(makro),
            LefCellLibraryEvent::Failure(message) => self.read_failure(message.as_str()),
        }
    }

    /// Ends the load: the library, or the first error.
    pub fn finish(self) -> (res: LefReadResult<LefCellLibrary>)
        ensures
            result_view(res) == self.deep_view().outcome(),
    {
        match self.error {
            None => Ok(self.lef),
            Some(error) => Err(error),
        }
    }
}

impl LefCellLibrary {
    /// Loads a cell library from the constructs of a stream, in their order.
    /// The load stops at the first construct that fails. Returns the
    /// library, or the first error and nothing else.
    pub fn load(events: &Vec<LefCellLibraryEvent>) -> (res: LefReadResult<LefCellLibrary>)
        ensures
            result_view(res) == LefCellLibraryReaderView::after_all(events@).outcome(),
    {
        let ghost step = |reader: LefCellLibraryReaderView, event: LefCellLibraryEvent|
            reader.step(event);
        let mut reader = LefCellLibraryReader::new();
        let mut index: usize = 0;
        assert(events@.take(0) =~= Seq::empty());
        while index < events.len()
            invariant
                index <= events@.len(),
                step == |reader: LefCellLibraryReaderView, event: LefCellLibraryEvent|
                    reader.step(event),
                reader.deep_view() == fold(
                    LefCellLibraryReaderView::start(),
                    events@.take(index as int),
                    step,
                ),
            decreases events@.len() - index,
        {
            proof {
                lemma_fold_next(LefCellLibraryReaderView::start(), events@, step, index as int);
            }
            let status = reader.read_event(&events[index]);
            if status != 0 {
                proof {
                    lemma_first_library_error_stays(events@, index as int + 1);
                }
                return reader.finish();
            }
            index += 1;
        }
        assert(events@.take(index as int) =~= events@);
        reader.finish()
    }
}

} // verus!
