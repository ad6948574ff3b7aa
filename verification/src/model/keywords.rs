//! The small keyword enumerations of the model.
use vstd::prelude::*;
use crate::keyword::{lemma_parse_round_trip, parse_result, LefKeyword};
use crate::text::str_eq;

verus! {

/// Type of distance measurement.
#[derive(Copy, Clone, Debug, PartialEq, Eq, Structural)]
pub enum LefClearanceMeasure {
    /// Take the maximum of the x and the y distance.
    Maxxy,
    /// Euclidean distance: the root of `dx^2 + dy^2`.
    Euclidean,
}

impl Default for LefClearanceMeasure {
    fn default() -> (res: Self)
        ensures
            res == LefClearanceMeasure::Euclidean,
    {
        LefClearanceMeasure::Euclidean
    }
}

impl LefKeyword for LefClearanceMeasure {
    open spec fn keyword(self) -> Seq<char> {
        match self {
            LefClearanceMeasure::Maxxy => "MAXXY"@,
            LefClearanceMeasure::Euclidean => "EUCLIDEAN"@,
        }
    }

    proof fn lemma_keyword_injective(a: Self, b: Self) {
        reveal_strlit("MAXXY");
        reveal_strlit("EUCLIDEAN");
        assert("MAXXY"@.len() == 5);
        assert("EUCLIDEAN"@.len() == 9);
    }
}

impl LefClearanceMeasure {
    /// Reads a clearance measure: `Err` for any text that is not one of its keywords.
    pub fn from_str(input: &str) -> (res: Result<Self, ()>)
        ensures
            res == parse_result::<Self>(input@),
    {
        let res = if str_eq(input, "MAXXY") {
            Ok(LefClearanceMeasure::Maxxy)
        } else if str_eq(input, "EUCLIDEAN") {
            Ok(LefClearanceMeasure::Euclidean)
        } else {
            Err(())
        };
        proof {
            if let Ok(v) = res {
                lemma_parse_round_trip(v);
            }
        }
        res
    }

    /// Writes the value as its keyword.
    pub fn to_string(&self) -> (res: String)
        ensures
            res@ == self.keyword(),
    {
        match self {
            LefClearanceMeasure::Maxxy => "MAXXY".to_owned(),
            LefClearanceMeasure::Euclidean => "EUCLIDEAN".to_owned(),
        }
    }
}

/// Preferred routing direction on a routing layer.
#[derive(Copy, Clone, Debug, PartialEq, Eq, Structural)]
pub enum LefRoutingDirection {
    /// Vertical routing direction.
    Vertical,
    /// Horizontal routing direction.
    Horizontal,
    /// 45 degree routing direction.
    Diag45,
    /// 135 degree routing direction.
    Diag135,
}

impl Default for LefRoutingDirection {
    fn default() -> (res: Self)
        ensures
            res == LefRoutingDirection::Vertical,
    {
        LefRoutingDirection::Vertical
    }
}

impl LefKeyword for LefRoutingDirection {
    open spec fn keyword(self) -> Seq<char> {
        match self {
            LefRoutingDirection::Vertical => "VERTICAL"@,
            LefRoutingDirection::Horizontal => "HORIZONTAL"@,
            LefRoutingDirection::Diag45 => "DIAG45"@,
            LefRoutingDirection::Diag135 => "DIAG135"@,
        }
    }

    proof fn lemma_keyword_injective(a: Self, b: Self) {
        reveal_strlit("VERTICAL");
        reveal_strlit("HORIZONTAL");
        reveal_strlit("DIAG45");
        reveal_strlit("DIAG135");
        assert("VERTICAL"@.len() == 8);
        assert("HORIZONTAL"@.len() == 10);
        assert("DIAG45"@.len() == 6);
        assert("DIAG135"@.len() == 7);
    }
}

impl LefRoutingDirection {
    /// Reads a routing direction: `Err` for any text that is not one of its keywords.
    pub fn from_str(input: &str) -> (res: Result<Self, ()>)
        ensures
            res == parse_result::<Self>(input@),
    {
        let res = if str_eq(input, "VERTICAL") {
            Ok(LefRoutingDirection::Vertical)
        } else if str_eq(input, "HORIZONTAL") {
            Ok(LefRoutingDirection::Horizontal)
        } else if str_eq(input, "DIAG45") {
            Ok(LefRoutingDirection::Diag45)
        } else if str_eq(input, "DIAG135") {
            Ok(LefRoutingDirection::Diag135)
        } else {
            Err(())
        };
        proof {
            if let Ok(v) = res {
                lemma_parse_round_trip(v);
            }
        }
        res
    }

    /// Writes the value as its keyword.
    pub fn to_string(&self) -> (res: String)
        ensures
            res@ == self.keyword(),
    {
        match self {
            LefRoutingDirection::Vertical => "VERTICAL".to_owned(),
            LefRoutingDirection::Horizontal => "HORIZONTAL".to_owned(),
            LefRoutingDirection::Diag45 => "DIAG45".to_owned(),
            LefRoutingDirection::Diag135 => "DIAG135".to_owned(),
        }
    }
}

/// Type of the signal.
#[derive(Copy, Clone, Debug, PartialEq, Eq, Structural)]
pub enum LefSignalUse {
    /// Data signal.
    Signal,
    /// Analog signal.
    Analog,
    /// Power supply.
    Power,
    /// Ground.
    Ground,
    /// Clock signal.
    Clock,
}

impl LefKeyword for LefSignalUse {
    open spec fn keyword(self) -> Seq<char> {
        match self {
            LefSignalUse::Signal => "SIGNAL"@,
            LefSignalUse::Analog => "ANALOG"@,
            LefSignalUse::Power => "POWER"@,
            LefSignalUse::Ground => "GROUND"@,
            LefSignalUse::Clock => "CLOCK"@,
        }
    }

    proof fn lemma_keyword_injective(a: Self, b: Self) {
        reveal_strlit("SIGNAL");
        reveal_strlit("ANALOG");
        reveal_strlit("POWER");
        reveal_strlit("GROUND");
        reveal_strlit("CLOCK");
        assert("SIGNAL"@.len() == 6 && "SIGNAL"@[0] == 'S');
        assert("ANALOG"@.len() == 6 && "ANALOG"@[0] == 'A');
        assert("POWER"@.len() == 5 && "POWER"@[0] == 'P');
        assert("GROUND"@.len() == 6 && "GROUND"@[0] == 'G');
        assert("CLOCK"@.len() == 5 && "CLOCK"@[0] == 'C');
    }
}

impl LefSignalUse {
    /// Reads a signal use: `Err` for any text that is not one of its keywords.
    pub fn from_str(input: &str) -> (res: Result<Self, ()>)
        ensures
            res == parse_result::<Self>(input@),
    {
        let res = if str_eq(input, "SIGNAL") {
            Ok(LefSignalUse::Signal)
        } else if str_eq(input, "ANALOG") {
            Ok(LefSignalUse::Analog)
        } else if str_eq(input, "POWER") {
            Ok(LefSignalUse::Power)
        } else if str_eq(input, "GROUND") {
            Ok(LefSignalUse::Ground)
        } else if str_eq(input, "CLOCK") {
            Ok(LefSignalUse::Clock)
        } else {
            Err(())
        };
        proof {
            if let Ok(v) = res {
                lemma_parse_round_trip(v);
            }
        }
        res
    }

    /// Writes the value as its keyword.
    pub fn to_string(&self) -> (res: String)
        ensures
            res@ == self.keyword(),
    {
        match self {
            LefSignalUse::Signal => "SIGNAL".to_owned(),
            LefSignalUse::Analog => "ANALOG".to_owned(),
            LefSignalUse::Power => "POWER".to_owned(),
            LefSignalUse::Ground => "GROUND".to_owned(),
            LefSignalUse::Clock => "CLOCK".to_owned(),
        }
    }
}

/// Class of a pin port.
#[derive(Copy, Clone, Debug, PartialEq, Eq, Structural)]
pub enum LefPortClass {
    /// No particular class: the keyword `NONE`.
    NoClass,
    /// The port faces the core area.
    Core,
    /// The port connects to a bump.
    Bump,
}

impl LefKeyword for LefPortClass {
    open spec fn keyword(self) -> Seq<char> {
        match self {
            LefPortClass::NoClass => "NONE"@,
            LefPortClass::Core => "CORE"@,
            LefPortClass::Bump => "BUMP"@,
        }
    }

    proof fn lemma_keyword_injective(a: Self, b: Self) {
        reveal_strlit("NONE");
        reveal_strlit("CORE");
        reveal_strlit("BUMP");
        assert("NONE"@.len() == 4 && "NONE"@[0] == 'N');
        assert("CORE"@.len() == 4 && "CORE"@[0] == 'C');
        assert("BUMP"@.len() == 4 && "BUMP"@[0] == 'B');
    }
}

impl LefPortClass {
    /// Reads a port class: `Err` for any text that is not one of its keywords.
    pub fn from_str(input: &str) -> (res: Result<Self, ()>)
        ensures
            res == parse_result::<Self>(input@),
    {
        let res = if str_eq(input, "NONE") {
            Ok(LefPortClass::NoClass)
        } else if str_eq(input, "CORE") {
            Ok(LefPortClass::Core)
        } else if str_eq(input, "BUMP") {
            Ok(LefPortClass::Bump)
        } else {
            Err(())
        };
        proof {
            if let Ok(v) = res {
                lemma_parse_round_trip(v);
            }
        }
        res
    }

    /// Writes the value as its keyword.
    pub fn to_string(&self) -> (res: String)
        ensures
            res@ == self.keyword(),
    {
        match self {
            LefPortClass::NoClass => "NONE".to_owned(),
            LefPortClass::Core => "CORE".to_owned(),
            LefPortClass::Bump => "BUMP".to_owned(),
        }
    }
}

/// Type of the pin shape.
#[derive(Copy, Clone, Debug, PartialEq, Eq, Structural)]
pub enum LefPinShape {
    /// Pin that connects by abutment of neighbouring cells.
    Abutment,
    /// Pin that forms a ring around the cell.
    Ring,
    /// Pin that crosses the cell.
    Feedthru,
}

impl LefKeyword for LefPinShape {
    open spec fn keyword(self) -> Seq<char> {
        match self {
            LefPinShape::Abutment => "ABUTMENT"@,
            LefPinShape::Ring => "RING"@,
            LefPinShape::Feedthru => "FEEDTHRU"@,
        }
    }

    proof fn lemma_keyword_injective(a: Self, b: Self) {
        reveal_strlit("ABUTMENT");
        reveal_strlit("RING");
        reveal_strlit("FEEDTHRU");
        assert("ABUTMENT"@.len() == 8 && "ABUTMENT"@[0] == 'A');
        assert("RING"@.len() == 4 && "RING"@[0] == 'R');
        assert("FEEDTHRU"@.len() == 8 && "FEEDTHRU"@[0] == 'F');
    }
}

impl LefPinShape {
    /// Reads a pin shape: `Err` for any text that is not one of its keywords.
    pub fn from_str(input: &str) -> (res: Result<Self, ()>)
        ensures
            res == parse_result::<Self>(input@),
    {
        let res = if str_eq(input, "ABUTMENT") {
            Ok(LefPinShape::Abutment)
        } else if str_eq(input, "RING") {
            Ok(LefPinShape::Ring)
        } else if str_eq(input, "FEEDTHRU") {
            Ok(LefPinShape::Feedthru)
        } else {
            Err(())
        };
        proof {
            if let Ok(v) = res {
                lemma_parse_round_trip(v);
            }
        }
        res
    }

    /// Writes the value as its keyword.
    pub fn to_string(&self) -> (res: String)
        ensures
            res@ == self.keyword(),
    {
        match self {
            LefPinShape::Abutment => "ABUTMENT".to_owned(),
            LefPinShape::Ring => "RING".to_owned(),
            LefPinShape::Feedthru => "FEEDTHRU".to_owned(),
        }
    }
}

/// Specify the type of a site: either IO site (PAD) or core site (CORE).
#[derive(Copy, Clone, Debug, PartialEq, Eq, Structural)]
pub enum LefSiteClass {
    /// A core site.
    CORE,
    /// An IO site.
    PAD,
}

impl Default for LefSiteClass {
    fn default() -> (res: Self)
        ensures
            res == LefSiteClass::CORE,
    {
        LefSiteClass::CORE
    }
}

impl LefKeyword for LefSiteClass {
    open spec fn keyword(self) -> Seq<char> {
        match self {
            LefSiteClass::CORE => "CORE"@,
            LefSiteClass::PAD => "PAD"@,
        }
    }

    proof fn lemma_keyword_injective(a: Self, b: Self) {
        reveal_strlit("CORE");
        reveal_strlit("PAD");
        assert("CORE"@.len() == 4);
        assert("PAD"@.len() == 3);
    }
}

impl LefSiteClass {
    /// Reads a site class: `Err` for any text that is not one of its keywords.
    pub fn from_str(input: &str) -> (res: Result<Self, ()>)
        ensures
            res == parse_result::<Self>(input@),
    {
        let res = if str_eq(input, "CORE") {
            Ok(LefSiteClass::CORE)
        } else if str_eq(input, "PAD") {
            Ok(LefSiteClass::PAD)
        } else {
            Err(())
        };
        proof {
            if let Ok(v) = res {
                lemma_parse_round_trip(v);
            }
        }
        res
    }

    /// Writes the value as its keyword.
    pub fn to_string(&self) -> (res: String)
        ensures
            res@ == self.keyword(),
    {
        match self {
            LefSiteClass::CORE => "CORE".to_owned(),
            LefSiteClass::PAD => "PAD".to_owned(),
        }
    }
}

/// Signal direction of a pin.
#[derive(Copy, Clone, Debug, PartialEq, Eq, Structural)]
pub enum LefPinDirection {
    /// INPUT
    Input,
    /// OUTPUT. Is TRISTATE when the boolean flag is set.
    Output(bool),
    /// INOUT: both input and output.
    Inout,
    /// FEEDTHRU: the pin crosses the cell. Direct electrical connection.
    Feedthru,
}

impl LefKeyword for LefPinDirection {
    open spec fn keyword(self) -> Seq<char> {
        match self {
            LefPinDirection::Input => "INPUT"@,
            LefPinDirection::Output(false) => "OUTPUT"@,
            LefPinDirection::Output(true) => "OUTPUT TRISTATE"@,
            LefPinDirection::Inout => "INOUT"@,
            LefPinDirection::Feedthru => "FEEDTHRU"@,
        }
    }

    proof fn lemma_keyword_injective(a: Self, b: Self) {
        reveal_strlit("INPUT");
        reveal_strlit("OUTPUT");
        reveal_strlit("OUTPUT TRISTATE");
        reveal_strlit("INOUT");
        reveal_strlit("FEEDTHRU");
        assert("INPUT"@.len() == 5 && "INPUT"@[2] == 'P');
        assert("OUTPUT"@.len() == 6 && "OUTPUT"@[2] == 'T');
        assert("OUTPUT TRISTATE"@.len() == 15 && "OUTPUT TRISTATE"@[2] == 'T');
        assert("INOUT"@.len() == 5 && "INOUT"@[2] == 'O');
        assert("FEEDTHRU"@.len() == 8 && "FEEDTHRU"@[2] == 'E');
    }
}

impl LefPinDirection {
    /// Reads a pin direction, in its one-word or two-word form: `Err` for
    /// any text that is not one of its keywords.
    pub fn from_str(input: &str) -> (res: Result<Self, ()>)
        ensures
            res == parse_result::<Self>(input@),
    {
        let res = if str_eq(input, "INPUT") {
            Ok(LefPinDirection::Input)
        } else if str_eq(input, "OUTPUT") {
            Ok(LefPinDirection::Output(false))
        } else if str_eq(input, "OUTPUT TRISTATE") {
            Ok(LefPinDirection::Output(true))
        } else if str_eq(input, "INOUT") {
            Ok(LefPinDirection::Inout)
        } else if str_eq(input, "FEEDTHRU") {
            Ok(LefPinDirection::Feedthru)
        } else {
            Err(())
        };
        proof {
            if let Ok(v) = res {
                lemma_parse_round_trip(v);
            }
        }
        res
    }

    /// Writes the value as its keyword.
    pub fn to_string(&self) -> (res: String)
        ensures
            res@ == self.keyword(),
    {
        match self {
            LefPinDirection::Input => "INPUT".to_owned(),
            LefPinDirection::Output(false) => "OUTPUT".to_owned(),
            LefPinDirection::Output(true) => "OUTPUT TRISTATE".to_owned(),
            LefPinDirection::Inout => "INOUT".to_owned(),
            LefPinDirection::Feedthru => "FEEDTHRU".to_owned(),
        }
    }
}

} // verus!
