//! The reader of technologies.
use vstd::prelude::*;
use vstd::string::StrSliceExecFns;
use crate::model::keywords::LefClearanceMeasure;
use crate::model::layer::LefLayerView;
use crate::model::technology::{LefTechnology, LefTechnologyView, LefUnits};
use crate::model::via::{LefViaGenerateRuleView, LefViaRule, LefViaRuleView};
use crate::model::LefNumber;
use crate::name_map::{
    lemma_insert_entries, lemma_insert_keeps_names_distinct, name_insert, names_distinct,
};
use crate::read::error::{LefReadError, LefReadErrorView, LefReadResult};
use crate::read::event::{
    LefLayerEvent, LefSiteEvent, LefUnitsEvent, LefViaEvent, LefViaRuleEvent,
};
use crate::read::layer::{build_layer, layer_record};
use crate::read::site::{build_site, site_record};
use crate::read::utils::{fold, keyword_value, lemma_fold_next, result_view};
use crate::read::via::{build_via, build_via_rule, via_record, via_rule_record};
use crate::text::lemma_deep_view_push;

verus! {


/// The units after a UNITS construct: each factor that the construct
/// defines is taken from it, each other one stays as it is.
pub open spec fn units_after(units: LefUnits, event: LefUnitsEvent) -> LefUnits {
    LefUnits {
        time_ns: if event.has_time {
            event.time
        } else {
            units.time_ns
        },
        capacitance_pf: if event.has_capacitance {
            event.capacitance
        } else {
            units.capacitance_pf
        },
        resistance_ohms: if event.has_resistance {
            event.resistance
        } else {
            units.resistance_ohms
        },
        power_mw: if event.has_power {
            event.power
        } else {
            units.power_mw
        },
        current_ma: if event.has_current {
            event.current
        } else {
            units.current_ma
        },
        voltage_v: if event.has_voltage {
            event.voltage
        } else {
            units.voltage_v
        },
        database_microns: if event.has_database {
            event.database_number
        } else {
            units.database_microns
        },
        frequency_mega_hz: if event.has_frequency {
            event.frequency
        } else {
            units.frequency_mega_hz
        },
    }
}

/// One construct of a technology stream.
#[derive(Clone, Debug, PartialEq, Eq)]
pub enum LefTechnologyEvent {
    /// VERSION.
    Version(LefNumber),
    /// BUSBITCHARS, as the text of the two delimiters.
    BusBitChars(String),
    /// DIVIDERCHAR, as the text of the divider.
    DividerChar(String),
    /// UNITS.
    Units(LefUnitsEvent),
    /// MANUFACTURINGGRID.
    ManufacturingGrid(LefNumber),
    /// CLEARANCEMEASURE, as its keyword.
    ClearanceMeasure(String),
    /// SITE.
    Site(LefSiteEvent),
    /// LAYER.
    Layer(LefLayerEvent),
    /// VIA.
    Via(LefViaEvent),
    /// VIARULE.
    ViaRule(LefViaRuleEvent),
    /// The event source reports a syntax or lexical problem, with its message.
    Failure(String),
}

impl LefTechnologyView {
    /// The technology after BUSBITCHARS: the first two characters of the
    /// text are the delimiters. A text with fewer than two is a structural violation.
    pub open spec fn with_busbitchars(self, text: Seq<char>) -> Result<Self, LefReadErrorView> {
        if text.len() < 2 {
            Err(LefReadErrorView::StructuralViolation)
        } else {
            Ok(LefTechnologyView { busbitchars: (text[0], text[1]), ..self })
        }
    }

    /// The technology after DIVIDERCHAR: the first character of the text
    /// is the divider. An empty text is a structural violation.
    pub open spec fn with_dividerchar(self, text: Seq<char>) -> Result<Self, LefReadErrorView> {
        if text.len() < 1 {
            Err(LefReadErrorView::StructuralViolation)
        } else {
            Ok(LefTechnologyView { dividerchar: text[0], ..self })
        }
    }

    /// The technology after CLEARANCEMEASURE.
    pub open spec fn with_clearance_measure(self, text: Seq<char>) -> Result<
        Self,
        LefReadErrorView,
    > {
        match keyword_value::<LefClearanceMeasure>(text) {
            Ok(clearance_measure) => Ok(LefTechnologyView { clearance_measure, ..self }),
            Err(error) => Err(error),
        }
    }

    /// The technology after SITE: the site is stored under its name.
    pub open spec fn with_site(self, event: LefSiteEvent) -> Result<Self, LefReadErrorView> {
        match site_record(event) {
            Ok(site) => Ok(
                LefTechnologyView { sites: name_insert(self.sites, site.name, site), ..self },
            ),
            Err(error) => Err(error),
        }
    }

    /// The technology after LAYER: the layer goes on top of the stack.
    pub open spec fn with_layer(self, event: LefLayerEvent) -> Result<Self, LefReadErrorView> {
        match layer_record(event) {
            Ok(layer) => Ok(LefTechnologyView { layers: self.layers.push(layer), ..self }),
            Err(error) => Err(error),
        }
    }

    /// The technology after VIA: the via is stored under its name.
    pub open spec fn with_via(self, event: LefViaEvent) -> Self {
        LefTechnologyView { vias: name_insert(self.vias, event.name@, via_record(event)), ..self }
    }

    /// The technology after VIARULE: the rule is stored under its name.
    pub open spec fn with_via_rule(self, event: LefViaRuleEvent) -> Result<Self, LefReadErrorView> {
        match via_rule_record(event) {
            Ok(rule) => Ok(
                LefTechnologyView {
                    via_rules: name_insert(
                        self.via_rules,
                        event.name@,
                        LefViaRuleView::Generate(rule),
                    ),
                    ..self
                },
            ),
            Err(error) => Err(error),
        }
    }

    /// The technology after one construct, or the error that the construct gives.
    pub open spec fn with_event(self, event: LefTechnologyEvent) -> Result<Self, LefReadErrorView> {
        match event {
            LefTechnologyEvent::Version(version) => Ok(
                LefTechnologyView { version: Some(version), ..self },
            ),
            LefTechnologyEvent::BusBitChars(text) => self.with_busbitchars(text@),
            LefTechnologyEvent::DividerChar(text) => self.with_dividerchar(text@),
            LefTechnologyEvent::Units(units) => Ok(
                LefTechnologyView { units: units_after(self.units, units), ..self },
            ),
            LefTechnologyEvent::ManufacturingGrid(grid) => Ok(
                LefTechnologyView { manufacturing_grid: Some(grid), ..self },
            ),
            LefTechnologyEvent::ClearanceMeasure(text) => self.with_clearance_measure(text@),
            LefTechnologyEvent::Site(site) => self.with_site(site),
            LefTechnologyEvent::Layer(layer) => self.with_layer(layer),
            LefTechnologyEvent::Via(via) => Ok(self.with_via(via)),
            LefTechnologyEvent::ViaRule(rule) => self.with_via_rule(rule),
            LefTechnologyEvent::Failure(message) => Err(
                LefReadErrorView::EventSourceFailure(message@),
            ),
        }
    }
}

/// Reads the events of a technology one by one.
#[derive(Clone, Debug)]
pub struct LefTechnologyReader {
    /// The technology as far as it is loaded.
    pub lef: LefTechnology,
    /// The first error of the load, if there was one.
    pub error: Option<LefReadError>,
}

/// What a `LefTechnologyReader` holds.
pub struct LefTechnologyReaderView {
    pub lef: LefTechnologyView,
    pub error: Option<LefReadErrorView>,
}

impl DeepView for LefTechnologyReader {
    type V = LefTechnologyReaderView;

    open spec fn deep_view(&self) -> LefTechnologyReaderView {
        LefTechnologyReaderView { lef: self.lef.deep_view(), error: self.error.deep_view() }
    }
}

impl LefTechnologyReaderView {
    /// The reader at the start of a load.
    pub open spec fn start() -> Self {
        LefTechnologyReaderView { lef: LefTechnologyView::empty(), error: None }
    }

    /// The reader after a step with the given outcome. Once a load has
    /// failed nothing changes any more; the first error stays.
    pub open spec fn after(self, outcome: Result<LefTechnologyView, LefReadErrorView>) -> Self {
        if self.error is Some {
            self
        } else {
            match outcome {
                Ok(lef) => LefTechnologyReaderView { lef, error: None },
                Err(error) => LefTechnologyReaderView { lef: self.lef, error: Some(error) },
            }
        }
    }

    /// The reader after one construct.
    pub open spec fn step(self, event: LefTechnologyEvent) -> Self {
        self.after(self.lef.with_event(event))
    }

    /// What the reader tells the event source: 0 to go on, 1 to stop.
    pub open spec fn status(self) -> i32 {
        if self.error is Some {
            1
        } else {
            0
        }
    }

    /// The outcome of the load: the technology, or the first error.
    pub open spec fn outcome(self) -> Result<LefTechnologyView, LefReadErrorView> {
        match self.error {
            Some(error) => Err(error),
            None => Ok(self.lef),
        }
    }

    /// The reader after a stream of constructs.
    pub open spec fn after_all(events: Seq<LefTechnologyEvent>) -> Self {
        fold(
            Self::start(),
            events,
            |reader: LefTechnologyReaderView, event: LefTechnologyEvent| reader.step(event),
        )
    }
}

impl LefTechnologyReader {
    /// A reader at the start of a load.
    pub fn new() -> (res: Self)
        ensures
            res.deep_view() == LefTechnologyReaderView::start(),
    {
        Self { lef: LefTechnology::new(), error: None }
    }

    /// Records an error, and tells the event source to stop.
    fn fail(&mut self, error: LefReadError) -> (status: i32)
        requires
            old(self).error is None,
        ensures
            final(self).deep_view() == old(self).deep_view().after(Err(error.deep_view())),
            status == 1,
    {
        self.error = Some(error);
        1
    }

    /// Reads a VERSION construct.
    pub fn read_version(&mut self, version: LefNumber) -> (status: i32)
        ensures
            final(self).deep_view() == old(self).deep_view().step(
                LefTechnologyEvent::Version(version),
            ),
            status == final(self).deep_view().status(),
    {
        if self.error.is_some() {
            return 1;
        }
        self.lef.version = Some(version);
        0
    }

    /// Reads a BUSBITCHARS construct.
    pub fn read_busbitchars(&mut self, text: &str) -> (status: i32)
        ensures
            final(self).deep_view() == old(self).deep_view().after(
                old(self).deep_view().lef.with_busbitchars(text@),
            ),
            status == final(self).deep_view().status(),
    {
        if self.error.is_some() {
            return 1;
        }
        if text.unicode_len() < 2 {
            return self.fail(LefReadError::StructuralViolation);
        }
        self.lef.busbitchars = (text.get_char(0), text.get_char(1));
        0
    }

    /// Reads a DIVIDERCHAR construct.
    pub fn read_dividerchar(&mut self, text: &str) -> (status: i32)
        ensures
            final(self).deep_view() == old(self).deep_view().after(
                old(self).deep_view().lef.with_dividerchar(text@),
            ),
            status == final(self).deep_view().status(),
    {
        if self.error.is_some() {
            return 1;
        }
        if text.unicode_len() < 1 {
            return self.fail(LefReadError::StructuralViolation);
        }
        self.lef.dividerchar = text.get_char(0);
        0
    }

    /// Reads a UNITS construct.
    pub fn read_units(&mut self, event: &LefUnitsEvent) -> (status: i32)
        ensures
            final(self).deep_view() == old(self).deep_view().step(
                LefTechnologyEvent::Units(*event),
            ),
            status == final(self).deep_view().status(),
    {
        if self.error.is_some() {
            return 1;
        }
        if event.has_time {
            self.lef.units.time_ns = event.time;
        }
        if event.has_capacitance {
            self.lef.units.capacitance_pf = event.capacitance;
        }
        if event.has_resistance {
            self.lef.units.resistance_ohms = event.resistance;
        }
        if event.has_power {
            self.lef.units.power_mw = event.power;
        }
        if event.has_current {
            self.lef.units.current_ma = event.current;
        }
        if event.has_voltage {
            self.lef.units.voltage_v = event.voltage;
        }
        if event.has_database {
            self.lef.units.database_microns = event.database_number;
        }
        if event.has_frequency {
            self.lef.units.frequency_mega_hz = event.frequency;
        }
        0
    }

    /// Reads a MANUFACTURINGGRID construct.
    pub fn read_manufacturing_grid(&mut self, grid: LefNumber) -> (status: i32)
        ensures
            final(self).deep_view() == old(self).deep_view().step(
                LefTechnologyEvent::ManufacturingGrid(grid),
            ),
            status == final(self).deep_view().status(),
    {
        if self.error.is_some() {
            return 1;
        }
        self.lef.manufacturing_grid = Some(grid);
        0
    }

    /// Reads a CLEARANCEMEASURE construct.
    pub fn read_clearance_measure(&mut self, text: &str) -> (status: i32)
        ensures
            final(self).deep_view() == old(self).deep_view().after(
                old(self).deep_view().lef.with_clearance_measure(text@),
            ),
            status == final(self).deep_view().status(),
    {
        if self.error.is_some() {
            return 1;
        }
        match LefClearanceMeasure::from_str(text) {
            Ok(clearance_measure) => {
                self.lef.clearance_measure = clearance_measure;
                0
            },
            Err(_) => self.fail(LefReadError::unknown_keyword(text)),
        }
    }

    /// Reads a SITE construct.
    pub fn read_site(&mut self, event: &LefSiteEvent) -> (status: i32)
        ensures
            final(self).deep_view() == old(self).deep_view().after(
                old(self).deep_view().lef.with_site(*event),
            ),
            status == final(self).deep_view().status(),
    {
        if self.error.is_some() {
            return 1;
        }
        match build_site(event) {
            Ok(site) => {
                self.lef.sites.insert(site.name.clone(), site);
                0
            },
            Err(error) => self.fail(error),
        }
    }

    /// Reads a LAYER construct.
    pub fn read_layer(&mut self, event: &LefLayerEvent) -> (status: i32)
        ensures
            final(self).deep_view() == old(self).deep_view().after(
                old(self).deep_view().lef.with_layer(*event),
            ),
            status == final(self).deep_view().status(),
    {
        if self.error.is_some() {
            return 1;
        }
        match build_layer(event) {
            Ok(layer) => {
                let ghost before = self.lef.layers;
                self.lef.layers.push(layer);
                proof {
                    lemma_deep_view_push(before, self.lef.layers, layer);
                }
                0
            },
            Err(error) => self.fail(error),
        }
    }

    /// Reads a VIA construct.
    pub fn read_via(&mut self, event: &LefViaEvent) -> (status: i32)
        ensures
            final(self).deep_view() == old(self).deep_view().after(
                Ok(old(self).deep_view().lef.with_via(*event)),
            ),
            status == final(self).deep_view().status(),
    {
        if self.error.is_some() {
            return 1;
        }
        let via = build_via(event);
        self.lef.vias.insert(event.name.clone(), via);
        0
    }

    /// Reads a VIARULE construct.
    pub fn read_viarule(&mut self, event: &LefViaRuleEvent) -> (status: i32)
        ensures
            final(self).deep_view() == old(self).deep_view().after(
                old(self).deep_view().lef.with_via_rule(*event),
            ),
            status == final(self).deep_view().status(),
    {
        if self.error.is_some() {
            return 1;
        }
        match build_via_rule(event) {
            Ok(rule) => {
                self.lef.via_rules.insert(event.name.clone(), LefViaRule::Generate(rule));
                0
            },
            Err(error) => self.fail(error),
        }
    }

    /// Takes note that the event source failed. The message becomes the
    /// error of the load unless a construct had failed before.
    pub fn read_failure(&mut self, message: &str) -> (status: i32)
        ensures
            final(self).deep_view() == old(self).deep_view().after(
                Err(LefReadErrorView::EventSourceFailure(message@)),
            ),
            status == 1,
    {
        if self.error.is_some() {
            return 1;
        }
        self.fail(LefReadError::EventSourceFailure(message.to_owned()))
    }

    /// Reads one construct of the stream.
    pub fn read_event(&mut self, event: &LefTechnologyEvent) -> (status: i32)
        ensures
            final(self).deep_view() == old(self).deep_view().step(*event),
            status == final(self).deep_view().status(),
    {
        match event {
            LefTechnologyEvent::Version(version) => self.read_version(*version),
            LefTechnologyEvent::BusBitChars(text) => self.read_busbitchars(text.as_str()),
            LefTechnologyEvent::DividerChar(text) => self.read_dividerchar(text.as_str()),
            LefTechnologyEvent::Units(units) => self.read_units(units),
            LefTechnologyEvent::ManufacturingGrid(grid) => self.read_manufacturing_grid(*grid),
            LefTechnologyEvent::ClearanceMeasure(text) => self.read_clearance_measure(
                text.as_str(),
            ),
            LefTechnologyEvent::Site(site) => self.read_site(site),
            LefTechnologyEvent::Layer(layer) => self.read_layer(layer),
            LefTechnologyEvent::Via(via) => self.read_via(via),
            LefTechnologyEvent::ViaRule(rule) => self.read_viarule(rule),
            LefTechnologyEvent::Failure(message) => self.read_failure(message.as_str()),
        }
    }

    /// Ends the load: the technology, or the first error.
    pub fn finish(self) -> (res: LefReadResult<LefTechnology>)
        ensures
            result_view(res) == self.deep_view().outcome(),
    {
        match self.error {
            None => Ok(self.lef),
            Some(error) => Err(error),
        }
    }
}

impl LefTechnology {
    /// Loads a technology from the constructs of a stream, in their order.
    /// The load stops at the first construct that fails. Returns the
    /// technology, or the first error and nothing else.
    pub fn load(events: &Vec<LefTechnologyEvent>) -> (res: LefReadResult<LefTechnology>)
        ensures
            result_view(res) == LefTechnologyReaderView::after_all(events@).outcome(),
    {
        let ghost step = |reader: LefTechnologyReaderView, event: LefTechnologyEvent|
            reader.step(event);
        let mut reader = LefTechnologyReader::new();
        let mut index: usize = 0;
        assert(events@.take(0) =~= Seq::empty());
        while index < events.len()
            invariant
                index <= events@.len(),
                step == |reader: LefTechnologyReaderView, event: LefTechnologyEvent|
                    reader.step(event),
                reader.deep_view() == fold(
                    LefTechnologyReaderView::start(),
                    events@.take(index as int),
                    step,
                ),
            decreases events@.len() - index,
        {
            proof {
                lemma_fold_next(LefTechnologyReaderView::start(), events@, step, index as int);
            }
            let status = reader.read_event(&events[index]);
            if status != 0 {
                proof {
                    lemma_first_error_stays(events@, index as int + 1);
                }
                return reader.finish();
            }
            index += 1;
        }
        assert(events@.take(index as int) =~= events@);
        reader.finish()
    }
}

impl LefLayerView {
    /// The spacing table of the layer, if it has one, is well formed.
    pub open spec fn wf(self) -> bool {
        match self {
            LefLayerView::Routing(layer) => match layer.spacing_table {
                Some(table) => table.wf(),
                None => true,
            },
            _ => true,
        }
    }
}

impl LefTechnologyView {
    /// The invariant of a technology: names are unique in each collection,
    /// every site and every via rule is stored under its own name, and the
    /// spacing tables of the layers are well formed.
    pub open spec fn wf(self) -> bool {
        &&& names_distinct(self.vias)
        &&& names_distinct(self.via_rules)
        &&& names_distinct(self.sites)
        &&& forall|i: int|
            0 <= i < self.sites.len() ==> (#[trigger] self.sites[i]).0 == self.sites[i].1.name
        &&& forall|i: int|
            0 <= i < self.via_rules.len() ==> (#[trigger] self.via_rules[i]).0
                == self.via_rules[i].1->Generate_0.rule_name
        &&& forall|i: int| 0 <= i < self.layers.len() ==> (#[trigger] self.layers[i]).wf()
    }
}

/// A construct that is read without error keeps the invariant of the technology.
pub proof fn lemma_event_keeps_technology_wf(lef: LefTechnologyView, event: LefTechnologyEvent)
    requires
        lef.wf(),
        lef.with_event(event) is Ok,
    ensures
        lef.with_event(event)->Ok_0.wf(),
{
    let after = lef.with_event(event)->Ok_0;
    match event {
        LefTechnologyEvent::Site(site) => {
            let record = site_record(site)->Ok_0;
            lemma_insert_keeps_names_distinct(lef.sites, record.name, record);
            assert forall|i: int| 0 <= i < after.sites.len() implies (#[trigger] after.sites[i]).0
                == after.sites[i].1.name by {
                lemma_insert_entries(lef.sites, record.name, record, i);
            }
        },
        LefTechnologyEvent::Layer(layer) => {
            let record = layer_record(layer)->Ok_0;
            assert forall|i: int| 0 <= i < after.layers.len() implies (
            #[trigger] after.layers[i]).wf() by {
                if i < lef.layers.len() {
                    assert(after.layers[i] == lef.layers[i]);
                }
            }
        },
        LefTechnologyEvent::Via(via) => {
            lemma_insert_keeps_names_distinct(lef.vias, via.name@, via_record(via));
        },
        LefTechnologyEvent::ViaRule(rule) => {
            let record = LefViaRuleView::Generate(via_rule_record(rule)->Ok_0);
            lemma_insert_keeps_names_distinct(lef.via_rules, rule.name@, record);
            assert forall|i: int| 0 <= i < after.via_rules.len() implies (
            #[trigger] after.via_rules[i]).0 == after.via_rules[i].1->Generate_0.rule_name by {
                lemma_insert_entries(lef.via_rules, rule.name@, record, i);
            }
        },
        _ => {},
    }
}

/// Whatever the stream, the technology that the reader holds meets its invariant.
pub proof fn lemma_loaded_technology_wf(events: Seq<LefTechnologyEvent>)
    ensures
        LefTechnologyReaderView::after_all(events).lef.wf(),
    decreases events.len(),
{
    if events.len() > 0 {
        let before = LefTechnologyReaderView::after_all(events.drop_last());
        lemma_loaded_technology_wf(events.drop_last());
        if before.error is None && before.lef.with_event(events.last()) is Ok {
            lemma_event_keeps_technology_wf(before.lef, events.last());
        }
    }
}

/// Once a load has failed, no construct changes the reader any more.
pub proof fn lemma_error_is_final(reader: LefTechnologyReaderView, event: LefTechnologyEvent)
    requires
        reader.error is Some,
    ensures
        reader.step(event) == reader,
{
}

/// The first error of a stream is the outcome of the load: where the
/// reader has failed after the first `n` constructs, it ends as it stands then.
pub proof fn lemma_first_error_stays(events: Seq<LefTechnologyEvent>, n: int)
    requires
        0 <= n <= events.len(),
        LefTechnologyReaderView::after_all(events.take(n)).error is Some,
    ensures
        LefTechnologyReaderView::after_all(events) == LefTechnologyReaderView::after_all(
            events.take(n),
        ),
    decreases events.len() - n,
{
    if n < events.len() {
        let step = |reader: LefTechnologyReaderView, event: LefTechnologyEvent| reader.step(event);
        lemma_fold_next(LefTechnologyReaderView::start(), events, step, n);
        lemma_first_error_stays(events, n + 1);
    } else {
        assert(events.take(n) =~= events);
    }
}

/// A stream with a construct that fails gives no technology. If no
/// construct before it has failed, the error of the load is the error of
/// that construct.
pub proof fn lemma_failing_construct_fails_the_load(events: Seq<LefTechnologyEvent>, n: int)
    requires
        0 <= n < events.len(),
        forall|lef: LefTechnologyView| (#[trigger] lef.with_event(events[n])) is Err,
    ensures
        LefTechnologyReaderView::after_all(events).outcome() is Err,
        LefTechnologyReaderView::after_all(events.take(n)).error is None ==> {
            let before = LefTechnologyReaderView::after_all(events.take(n));
            LefTechnologyReaderView::after_all(events).outcome() == Err::<LefTechnologyView, _>(
                before.lef.with_event(events[n])->Err_0,
            )
        },
{
    let step = |reader: LefTechnologyReaderView, event: LefTechnologyEvent| reader.step(event);
    let before = LefTechnologyReaderView::after_all(events.take(n));
    lemma_fold_next(LefTechnologyReaderView::start(), events, step, n);
    assert(before.lef.with_event(events[n]) is Err);
    lemma_first_error_stays(events, n + 1);
}

/// A via rule that does not name exactly three layers is a structural
/// violation, whatever else it holds, and a stream with such a rule gives
/// no technology.
pub proof fn lemma_via_rule_needs_three_layers(events: Seq<LefTechnologyEvent>, n: int)
    requires
        0 <= n < events.len(),
        events[n] is ViaRule,
        events[n]->ViaRule_0.layers@.len() != 3,
    ensures
        via_rule_record(events[n]->ViaRule_0) == Err::<LefViaGenerateRuleView, _>(
            LefReadErrorView::StructuralViolation,
        ),
        LefTechnologyReaderView::after_all(events).outcome() is Err,
        LefTechnologyReaderView::after_all(events.take(n)).error is None
            ==> LefTechnologyReaderView::after_all(events).outcome() == Err::<
            LefTechnologyView,
            _,
        >(LefReadErrorView::StructuralViolation),
{
    assert forall|lef: LefTechnologyView| (#[trigger] lef.with_event(events[n])) is Err by {
        assert(lef.with_event(events[n]) == lef.with_via_rule(events[n]->ViaRule_0));
    }
    lemma_failing_construct_fails_the_load(events, n);
    let before = LefTechnologyReaderView::after_all(events.take(n));
    assert(before.lef.with_event(events[n]) == before.lef.with_via_rule(events[n]->ViaRule_0));
}

} // verus!
