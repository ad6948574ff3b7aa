//! Macro classes and their subclasses.
use vstd::prelude::*;
use crate::keyword::{lemma_parse_round_trip, parse_result, LefKeyword};
use crate::text::str_eq;
use vstd::string::StringExecFns;

verus! {

/// Subclass of the BLOCK macro class.
#[derive(Copy, Clone, Debug, PartialEq, Eq, Structural)]
pub enum LefMacroClassBlockType {
    /// A block which may only contain a SIZE statement for size estimation.
    /// A blackbox block is missing the implementation of the sub-block.
    BLACKBOX,
    /// A cell with partial implementation of the sub-block.
    SOFT,
}

impl LefKeyword for LefMacroClassBlockType {
    open spec fn keyword(self) -> Seq<char> {
        match self {
            LefMacroClassBlockType::BLACKBOX => "BLACKBOX"@,
            LefMacroClassBlockType::SOFT => "SOFT"@,
        }
    }

    proof fn lemma_keyword_injective(a: Self, b: Self) {
        reveal_strlit("BLACKBOX");
        reveal_strlit("SOFT");
        assert("BLACKBOX"@.len() == 8);
        assert("SOFT"@.len() == 4);
    }
}

impl LefMacroClassBlockType {
    /// Reads a BLOCK subclass: `Err` for any text that is not one of its keywords.
    pub fn from_str(input: &str) -> (res: Result<Self, ()>)
        ensures
            res == parse_result::<Self>(input@),
    {
        let res = if str_eq(input, "BLACKBOX") {
            Ok(LefMacroClassBlockType::BLACKBOX)
        } else if str_eq(input, "SOFT") {
            Ok(LefMacroClassBlockType::SOFT)
        } else {
            Err(())
        };
        proof {
            if let Ok(v) = res {
                lemma_parse_round_trip(v);
            }
        }
        res
    }

    /// Writes the value as its keyword.
    pub fn to_string(&self) -> (res: String)
        ensures
            res@ == self.keyword(),
    {
        match self {
            LefMacroClassBlockType::BLACKBOX => "BLACKBOX".to_owned(),
            LefMacroClassBlockType::SOFT => "SOFT".to_owned(),
        }
    }
}

/// Subclass of the PAD macro class.
#[derive(Copy, Clone, Debug, PartialEq, Eq, Structural)]
pub enum LefMacroClassPadType {
    /// Input pad.
    INPUT,
    /// Output pad.
    OUTPUT,
    /// Inout pad.
    INOUT,
    /// Power pad.
    POWER,
    /// Spacer in the pad ring.
    SPACER,
    /// Area for I/O drivers without connection to a bump. They need routing to a
    /// CLASS COVER BUMP macro for proper connection with the IC package.
    AREAIO,
}

impl LefKeyword for LefMacroClassPadType {
    open spec fn keyword(self) -> Seq<char> {
        match self {
            LefMacroClassPadType::INPUT => "INPUT"@,
            LefMacroClassPadType::OUTPUT => "OUTPUT"@,
            LefMacroClassPadType::INOUT => "INOUT"@,
            LefMacroClassPadType::POWER => "POWER"@,
            LefMacroClassPadType::SPACER => "SPACER"@,
            LefMacroClassPadType::AREAIO => "AREAIO"@,
        }
    }

    proof fn lemma_keyword_injective(a: Self, b: Self) {
        reveal_strlit("INPUT");
        reveal_strlit("OUTPUT");
        reveal_strlit("INOUT");
        reveal_strlit("POWER");
        reveal_strlit("SPACER");
        reveal_strlit("AREAIO");
        assert("INPUT"@.len() == 5 && "INPUT"@[2] == 'P');
        assert("OUTPUT"@.len() == 6 && "OUTPUT"@[2] == 'T');
        assert("INOUT"@.len() == 5 && "INOUT"@[2] == 'O');
        assert("POWER"@.len() == 5 && "POWER"@[2] == 'W');
        assert("SPACER"@.len() == 6 && "SPACER"@[2] == 'A');
        assert("AREAIO"@.len() == 6 && "AREAIO"@[2] == 'E');
    }
}

impl LefMacroClassPadType {
    /// Reads a PAD subclass: `Err` for any text that is not one of its keywords.
    pub fn from_str(input: &str) -> (res: Result<Self, ()>)
        ensures
            res == parse_result::<Self>(input@),
    {
        let res = if str_eq(input, "INPUT") {
            Ok(LefMacroClassPadType::INPUT)
        } else if str_eq(input, "OUTPUT") {
            Ok(LefMacroClassPadType::OUTPUT)
        } else if str_eq(input, "INOUT") {
            Ok(LefMacroClassPadType::INOUT)
        } else if str_eq(input, "POWER") {
            Ok(LefMacroClassPadType::POWER)
        } else if str_eq(input, "SPACER") {
            Ok(LefMacroClassPadType::SPACER)
        } else if str_eq(input, "AREAIO") {
            Ok(LefMacroClassPadType::AREAIO)
        } else {
            Err(())
        };
        proof {
            if let Ok(v) = res {
                lemma_parse_round_trip(v);
            }
        }
        res
    }

    /// Writes the value as its keyword.
    pub fn to_string(&self) -> (res: String)
        ensures
            res@ == self.keyword(),
    {
        match self {
            LefMacroClassPadType::INPUT => "INPUT".to_owned(),
            LefMacroClassPadType::OUTPUT => "OUTPUT".to_owned(),
            LefMacroClassPadType::INOUT => "INOUT".to_owned(),
            LefMacroClassPadType::POWER => "POWER".to_owned(),
            LefMacroClassPadType::SPACER => "SPACER".to_owned(),
            LefMacroClassPadType::AREAIO => "AREAIO".to_owned(),
        }
    }
}

/// Subclass of the CORE macro class.
#[derive(Copy, Clone, Debug, PartialEq, Eq, Structural)]
pub enum LefMacroClassCoreType {
    /// Connect to another cell.
    FEEDTHRU,
    /// Logical one.
    TIEHIGH,
    /// Logical zero.
    TIELOW,
    /// Spacer/fill cell.
    SPACER,
    /// Antenna diode.
    ANTENNACELL,
    /// Well-tap cell.
    WELLTAP,
}

impl LefKeyword for LefMacroClassCoreType {
    open spec fn keyword(self) -> Seq<char> {
        match self {
            LefMacroClassCoreType::FEEDTHRU => "FEEDTHRU"@,
            LefMacroClassCoreType::TIEHIGH => "TIEHIGH"@,
            LefMacroClassCoreType::TIELOW => "TIELOW"@,
            LefMacroClassCoreType::SPACER => "SPACER"@,
            LefMacroClassCoreType::ANTENNACELL => "ANTENNACELL"@,
            LefMacroClassCoreType::WELLTAP => "WELLTAP"@,
        }
    }

    proof fn lemma_keyword_injective(a: Self, b: Self) {
        reveal_strlit("FEEDTHRU");
        reveal_strlit("TIEHIGH");
        reveal_strlit("TIELOW");
        reveal_strlit("SPACER");
        reveal_strlit("ANTENNACELL");
        reveal_strlit("WELLTAP");
        assert("FEEDTHRU"@.len() == 8 && "FEEDTHRU"@[0] == 'F');
        assert("TIEHIGH"@.len() == 7 && "TIEHIGH"@[0] == 'T');
        assert("TIELOW"@.len() == 6 && "TIELOW"@[0] == 'T');
        assert("SPACER"@.len() == 6 && "SPACER"@[0] == 'S');
        assert("ANTENNACELL"@.len() == 11 && "ANTENNACELL"@[0] == 'A');
        assert("WELLTAP"@.len() == 7 && "WELLTAP"@[0] == 'W');
    }
}

impl LefMacroClassCoreType {
    /// Reads a CORE subclass: `Err` for any text that is not one of its keywords.
    pub fn from_str(input: &str) -> (res: Result<Self, ()>)
        ensures
            res == parse_result::<Self>(input@),
    {
        let res = if str_eq(input, "FEEDTHRU") {
            Ok(LefMacroClassCoreType::FEEDTHRU)
        } else if str_eq(input, "TIEHIGH") {
            Ok(LefMacroClassCoreType::TIEHIGH)
        } else if str_eq(input, "TIELOW") {
            Ok(LefMacroClassCoreType::TIELOW)
        } else if str_eq(input, "SPACER") {
            Ok(LefMacroClassCoreType::SPACER)
        } else if str_eq(input, "ANTENNACELL") {
            Ok(LefMacroClassCoreType::ANTENNACELL)
        } else if str_eq(input, "WELLTAP") {
            Ok(LefMacroClassCoreType::WELLTAP)
        } else {
            Err(())
        };
        proof {
            if let Ok(v) = res {
                lemma_parse_round_trip(v);
            }
        }
        res
    }

    /// Writes the value as its keyword.
    pub fn to_string(&self) -> (res: String)
        ensures
            res@ == self.keyword(),
    {
        match self {
            LefMacroClassCoreType::FEEDTHRU => "FEEDTHRU".to_owned(),
            LefMacroClassCoreType::TIEHIGH => "TIEHIGH".to_owned(),
            LefMacroClassCoreType::TIELOW => "TIELOW".to_owned(),
            LefMacroClassCoreType::SPACER => "SPACER".to_owned(),
            LefMacroClassCoreType::ANTENNACELL => "ANTENNACELL".to_owned(),
            LefMacroClassCoreType::WELLTAP => "WELLTAP".to_owned(),
        }
    }
}

/// Subclass of the ENDCAP macro class.
#[derive(Copy, Clone, Debug, PartialEq, Eq, Structural)]
pub enum LefMacroClassEndcapType {
    /// Start of the row (left).
    PRE,
    /// End of the row (right).
    POST,
    /// I/O corner cell on top left.
    TOPLEFT,
    /// I/O corner cell on top right.
    TOPRIGHT,
    /// I/O corner cell on bottom left.
    BOTTOMLEFT,
    /// I/O corner cell on bottom right.
    BOTTOMRIGHT,
}

impl LefKeyword for LefMacroClassEndcapType {
    open spec fn keyword(self) -> Seq<char> {
        match self {
            LefMacroClassEndcapType::PRE => "PRE"@,
            LefMacroClassEndcapType::POST => "POST"@,
            LefMacroClassEndcapType::TOPLEFT => "TOPLEFT"@,
            LefMacroClassEndcapType::TOPRIGHT => "TOPRIGHT"@,
            LefMacroClassEndcapType::BOTTOMLEFT => "BOTTOMLEFT"@,
            LefMacroClassEndcapType::BOTTOMRIGHT => "BOTTOMRIGHT"@,
        }
    }

    proof fn lemma_keyword_injective(a: Self, b: Self) {
        reveal_strlit("PRE");
        reveal_strlit("POST");
        reveal_strlit("TOPLEFT");
        reveal_strlit("TOPRIGHT");
        reveal_strlit("BOTTOMLEFT");
        reveal_strlit("BOTTOMRIGHT");
        assert("PRE"@.len() == 3);
        assert("POST"@.len() == 4);
        assert("TOPLEFT"@.len() == 7);
        assert("TOPRIGHT"@.len() == 8);
        assert("BOTTOMLEFT"@.len() == 10);
        assert("BOTTOMRIGHT"@.len() == 11);
    }
}

impl LefMacroClassEndcapType {
    /// Reads an ENDCAP subclass: `Err` for any text that is not one of its keywords.
    pub fn from_str(input: &str) -> (res: Result<Self, ()>)
        ensures
            res == parse_result::<Self>(input@),
    {
        let res = if str_eq(input, "PRE") {
            Ok(LefMacroClassEndcapType::PRE)
        } else if str_eq(input, "POST") {
            Ok(LefMacroClassEndcapType::POST)
        } else if str_eq(input, "TOPLEFT") {
            Ok(LefMacroClassEndcapType::TOPLEFT)
        } else if str_eq(input, "TOPRIGHT") {
            Ok(LefMacroClassEndcapType::TOPRIGHT)
        } else if str_eq(input, "BOTTOMLEFT") {
            Ok(LefMacroClassEndcapType::BOTTOMLEFT)
        } else if str_eq(input, "BOTTOMRIGHT") {
            Ok(LefMacroClassEndcapType::BOTTOMRIGHT)
        } else {
            Err(())
        };
        proof {
            if let Ok(v) = res {
                lemma_parse_round_trip(v);
            }
        }
        res
    }

    /// Writes the value as its keyword.
    pub fn to_string(&self) -> (res: String)
        ensures
            res@ == self.keyword(),
    {
        match self {
            LefMacroClassEndcapType::PRE => "PRE".to_owned(),
            LefMacroClassEndcapType::POST => "POST".to_owned(),
            LefMacroClassEndcapType::TOPLEFT => "TOPLEFT".to_owned(),
            LefMacroClassEndcapType::TOPRIGHT => "TOPRIGHT".to_owned(),
            LefMacroClassEndcapType::BOTTOMLEFT => "BOTTOMLEFT".to_owned(),
            LefMacroClassEndcapType::BOTTOMRIGHT => "BOTTOMRIGHT".to_owned(),
        }
    }
}

/// Class of a macro: a base class, for most of them with an optional subclass.
/// The keyword of a class with a subclass is the two words with one space between them.
#[derive(Copy, Clone, Debug, PartialEq, Eq, Structural)]
pub enum LefMacroClass {
    /// Macro with fixed position.
    /// Commonly used for power routing. COVER does not contain active devices.
    /// A COVER class can have the sub-class BUMP (the flag is then set). Typically BUMP
    /// cells have geometries only on the topmost 'bump' layer.
    COVER(bool),
    /// Big macro with internal power mesh.
    RING,
    /// Predefined macro.
    BLOCK(Option<LefMacroClassBlockType>),
    /// I/O pad.
    PAD(Option<LefMacroClassPadType>),
    /// Standard-cell macro used inside the core area.
    CORE(Option<LefMacroClassCoreType>),
    /// Start or end of core rows. Typically used to connect to the power grid.
    ENDCAP(Option<LefMacroClassEndcapType>),
}

impl LefKeyword for LefMacroClass {
    open spec fn keyword(self) -> Seq<char> {
        match self {
            LefMacroClass::COVER(false) => "COVER"@,
            LefMacroClass::COVER(true) => "COVER BUMP"@,
            LefMacroClass::RING => "RING"@,
            LefMacroClass::BLOCK(None) => "BLOCK"@,
            LefMacroClass::BLOCK(Some(LefMacroClassBlockType::BLACKBOX)) => "BLOCK BLACKBOX"@,
            LefMacroClass::BLOCK(Some(LefMacroClassBlockType::SOFT)) => "BLOCK SOFT"@,
            LefMacroClass::PAD(None) => "PAD"@,
            LefMacroClass::PAD(Some(LefMacroClassPadType::INPUT)) => "PAD INPUT"@,
            LefMacroClass::PAD(Some(LefMacroClassPadType::OUTPUT)) => "PAD OUTPUT"@,
            LefMacroClass::PAD(Some(LefMacroClassPadType::INOUT)) => "PAD INOUT"@,
            LefMacroClass::PAD(Some(LefMacroClassPadType::POWER)) => "PAD POWER"@,
            LefMacroClass::PAD(Some(LefMacroClassPadType::SPACER)) => "PAD SPACER"@,
            LefMacroClass::PAD(Some(LefMacroClassPadType::AREAIO)) => "PAD AREAIO"@,
            LefMacroClass::CORE(None) => "CORE"@,
            LefMacroClass::CORE(Some(LefMacroClassCoreType::FEEDTHRU)) => "CORE FEEDTHRU"@,
            LefMacroClass::CORE(Some(LefMacroClassCoreType::TIEHIGH)) => "CORE TIEHIGH"@,
            LefMacroClass::CORE(Some(LefMacroClassCoreType::TIELOW)) => "CORE TIELOW"@,
            LefMacroClass::CORE(Some(LefMacroClassCoreType::SPACER)) => "CORE SPACER"@,
            LefMacroClass::CORE(Some(LefMacroClassCoreType::ANTENNACELL)) => "CORE ANTENNACELL"@,
            LefMacroClass::CORE(Some(LefMacroClassCoreType::WELLTAP)) => "CORE WELLTAP"@,
            LefMacroClass::ENDCAP(None) => "ENDCAP"@,
            LefMacroClass::ENDCAP(Some(LefMacroClassEndcapType::PRE)) => "ENDCAP PRE"@,
            LefMacroClass::ENDCAP(Some(LefMacroClassEndcapType::POST)) => "ENDCAP POST"@,
            LefMacroClass::ENDCAP(Some(LefMacroClassEndcapType::TOPLEFT)) => "ENDCAP TOPLEFT"@,
            LefMacroClass::ENDCAP(Some(LefMacroClassEndcapType::TOPRIGHT)) => "ENDCAP TOPRIGHT"@,
            LefMacroClass::ENDCAP(Some(LefMacroClassEndcapType::BOTTOMLEFT)) => {
                "ENDCAP BOTTOMLEFT"@
            },
            LefMacroClass::ENDCAP(Some(LefMacroClassEndcapType::BOTTOMRIGHT)) => {
                "ENDCAP BOTTOMRIGHT"@
            },
        }
    }

    proof fn lemma_keyword_injective(a: Self, b: Self) {
        reveal_strlit("COVER");
        reveal_strlit("COVER BUMP");
        reveal_strlit("RING");
        reveal_strlit("BLOCK");
        reveal_strlit("BLOCK BLACKBOX");
        reveal_strlit("BLOCK SOFT");
        reveal_strlit("PAD");
        reveal_strlit("PAD INPUT");
        reveal_strlit("PAD OUTPUT");
        reveal_strlit("PAD INOUT");
        reveal_strlit("PAD POWER");
        reveal_strlit("PAD SPACER");
        reveal_strlit("PAD AREAIO");
        reveal_strlit("CORE");
        reveal_strlit("CORE FEEDTHRU");
        reveal_strlit("CORE TIEHIGH");
        reveal_strlit("CORE TIELOW");
        reveal_strlit("CORE SPACER");
        reveal_strlit("CORE ANTENNACELL");
        reveal_strlit("CORE WELLTAP");
        reveal_strlit("ENDCAP");
        reveal_strlit("ENDCAP PRE");
        reveal_strlit("ENDCAP POST");
        reveal_strlit("ENDCAP TOPLEFT");
        reveal_strlit("ENDCAP TOPRIGHT");
        reveal_strlit("ENDCAP BOTTOMLEFT");
        reveal_strlit("ENDCAP BOTTOMRIGHT");
        assert("COVER"@.len() == 5 && "COVER"@[0] == 'C');
        assert("COVER BUMP"@.len() == 10 && "COVER BUMP"@[0] == 'C' && "COVER BUMP"@[6] == 'B');
        assert("RING"@.len() == 4 && "RING"@[0] == 'R');
        assert("BLOCK"@.len() == 5 && "BLOCK"@[0] == 'B');
        assert("BLOCK BLACKBOX"@.len() == 14
            && "BLOCK BLACKBOX"@[0] == 'B'
            && "BLOCK BLACKBOX"@[6] == 'B');
        assert("BLOCK SOFT"@.len() == 10 && "BLOCK SOFT"@[0] == 'B' && "BLOCK SOFT"@[6] == 'S');
        assert("PAD"@.len() == 3 && "PAD"@[0] == 'P');
        assert("PAD INPUT"@.len() == 9 && "PAD INPUT"@[0] == 'P' && "PAD INPUT"@[6] == 'P');
        assert("PAD OUTPUT"@.len() == 10 && "PAD OUTPUT"@[0] == 'P' && "PAD OUTPUT"@[6] == 'T');
        assert("PAD INOUT"@.len() == 9 && "PAD INOUT"@[0] == 'P' && "PAD INOUT"@[6] == 'O');
        assert("PAD POWER"@.len() == 9 && "PAD POWER"@[0] == 'P' && "PAD POWER"@[6] == 'W');
        assert("PAD SPACER"@.len() == 10 && "PAD SPACER"@[0] == 'P' && "PAD SPACER"@[6] == 'A');
        assert("PAD AREAIO"@.len() == 10 && "PAD AREAIO"@[0] == 'P' && "PAD AREAIO"@[6] == 'E');
        assert("CORE"@.len() == 4 && "CORE"@[0] == 'C');
        assert("CORE FEEDTHRU"@.len() == 13
            && "CORE FEEDTHRU"@[0] == 'C'
            && "CORE FEEDTHRU"@[6] == 'E');
        assert("CORE TIEHIGH"@.len() == 12
            && "CORE TIEHIGH"@[0] == 'C'
            && "CORE TIEHIGH"@[6] == 'I');
        assert("CORE TIELOW"@.len() == 11 && "CORE TIELOW"@[0] == 'C' && "CORE TIELOW"@[6] == 'I');
        assert("CORE SPACER"@.len() == 11 && "CORE SPACER"@[0] == 'C' && "CORE SPACER"@[6] == 'P');
        assert("CORE ANTENNACELL"@.len() == 16
            && "CORE ANTENNACELL"@[0] == 'C'
            && "CORE ANTENNACELL"@[6] == 'N');
        assert("CORE WELLTAP"@.len() == 12
            && "CORE WELLTAP"@[0] == 'C'
            && "CORE WELLTAP"@[6] == 'E');
        assert("ENDCAP"@.len() == 6 && "ENDCAP"@[0] == 'E');
        assert("ENDCAP PRE"@.len() == 10 && "ENDCAP PRE"@[0] == 'E' && "ENDCAP PRE"@[6] == ' ');
        assert("ENDCAP POST"@.len() == 11 && "ENDCAP POST"@[0] == 'E' && "ENDCAP POST"@[6] == ' ');
        assert("ENDCAP TOPLEFT"@.len() == 14
            && "ENDCAP TOPLEFT"@[0] == 'E'
            && "ENDCAP TOPLEFT"@[6] == ' ');
        assert("ENDCAP TOPRIGHT"@.len() == 15
            && "ENDCAP TOPRIGHT"@[0] == 'E'
            && "ENDCAP TOPRIGHT"@[6] == ' ');
        assert("ENDCAP BOTTOMLEFT"@.len() == 17
            && "ENDCAP BOTTOMLEFT"@[0] == 'E'
            && "ENDCAP BOTTOMLEFT"@[6] == ' ');
        assert("ENDCAP BOTTOMRIGHT"@.len() == 18
            && "ENDCAP BOTTOMRIGHT"@[0] == 'E'
            && "ENDCAP BOTTOMRIGHT"@[6] == ' ');
    }
}

impl LefMacroClass {
    /// Reads a macro class, with or without its subclass: `Err` for any
    /// text that is not one of its keywords.
    pub fn from_str(input: &str) -> (res: Result<Self, ()>)
        ensures
            res == parse_result::<Self>(input@),
    {
        let res = if str_eq(input, "COVER") {
            Ok(LefMacroClass::COVER(false))
        } else if str_eq(input, "COVER BUMP") {
            Ok(LefMacroClass::COVER(true))
        } else if str_eq(input, "RING") {
            Ok(LefMacroClass::RING)
        } else if str_eq(input, "BLOCK") {
            Ok(LefMacroClass::BLOCK(None))
        } else if str_eq(input, "BLOCK BLACKBOX") {
            Ok(LefMacroClass::BLOCK(Some(LefMacroClassBlockType::BLACKBOX)))
        } else if str_eq(input, "BLOCK SOFT") {
            Ok(LefMacroClass::BLOCK(Some(LefMacroClassBlockType::SOFT)))
        } else if str_eq(input, "PAD") {
            Ok(LefMacroClass::PAD(None))
        } else if str_eq(input, "PAD INPUT") {
            Ok(LefMacroClass::PAD(Some(LefMacroClassPadType::INPUT)))
        } else if str_eq(input, "PAD OUTPUT") {
            Ok(LefMacroClass::PAD(Some(LefMacroClassPadType::OUTPUT)))
        } else if str_eq(input, "PAD INOUT") {
            Ok(LefMacroClass::PAD(Some(LefMacroClassPadType::INOUT)))
        } else if str_eq(input, "PAD POWER") {
            Ok(LefMacroClass::PAD(Some(LefMacroClassPadType::POWER)))
        } else if str_eq(input, "PAD SPACER") {
            Ok(LefMacroClass::PAD(Some(LefMacroClassPadType::SPACER)))
        } else if str_eq(input, "PAD AREAIO") {
            Ok(LefMacroClass::PAD(Some(LefMacroClassPadType::AREAIO)))
        } else if str_eq(input, "CORE") {
            Ok(LefMacroClass::CORE(None))
        } else if str_eq(input, "CORE FEEDTHRU") {
            Ok(LefMacroClass::CORE(Some(LefMacroClassCoreType::FEEDTHRU)))
        } else if str_eq(input, "CORE TIEHIGH") {
            Ok(LefMacroClass::CORE(Some(LefMacroClassCoreType::TIEHIGH)))
        } else if str_eq(input, "CORE TIELOW") {
            Ok(LefMacroClass::CORE(Some(LefMacroClassCoreType::TIELOW)))
        } else if str_eq(input, "CORE SPACER") {
            Ok(LefMacroClass::CORE(Some(LefMacroClassCoreType::SPACER)))
        } else if str_eq(input, "CORE ANTENNACELL") {
            Ok(LefMacroClass::CORE(Some(LefMacroClassCoreType::ANTENNACELL)))
        } else if str_eq(input, "CORE WELLTAP") {
            Ok(LefMacroClass::CORE(Some(LefMacroClassCoreType::WELLTAP)))
        } else if str_eq(input, "ENDCAP") {
            Ok(LefMacroClass::ENDCAP(None))
        } else if str_eq(input, "ENDCAP PRE") {
            Ok(LefMacroClass::ENDCAP(Some(LefMacroClassEndcapType::PRE)))
        } else if str_eq(input, "ENDCAP POST") {
            Ok(LefMacroClass::ENDCAP(Some(LefMacroClassEndcapType::POST)))
        } else if str_eq(input, "ENDCAP TOPLEFT") {
            Ok(LefMacroClass::ENDCAP(Some(LefMacroClassEndcapType::TOPLEFT)))
        } else if str_eq(input, "ENDCAP TOPRIGHT") {
            Ok(LefMacroClass::ENDCAP(Some(LefMacroClassEndcapType::TOPRIGHT)))
        } else if str_eq(input, "ENDCAP BOTTOMLEFT") {
            Ok(LefMacroClass::ENDCAP(Some(LefMacroClassEndcapType::BOTTOMLEFT)))
        } else if str_eq(input, "ENDCAP BOTTOMRIGHT") {
            Ok(LefMacroClass::ENDCAP(Some(LefMacroClassEndcapType::BOTTOMRIGHT)))
        } else {
            Err(())
        };
        proof {
            if let Ok(v) = res {
                lemma_parse_round_trip(v);
            }
        }
        res
    }

    /// Writes the class as its keyword: the base class, and after one
    /// space the subclass where the class has one.
    pub fn to_string(&self) -> (res: String)
        ensures
            res@ == self.keyword(),
    {
        let mut res = match self {
            LefMacroClass::COVER(_) => "COVER".to_owned(),
            LefMacroClass::RING => "RING".to_owned(),
            LefMacroClass::BLOCK(_) => "BLOCK".to_owned(),
            LefMacroClass::PAD(_) => "PAD".to_owned(),
            LefMacroClass::CORE(_) => "CORE".to_owned(),
            LefMacroClass::ENDCAP(_) => "ENDCAP".to_owned(),
        };
        let subclass = match self {
            LefMacroClass::COVER(true) => Some("BUMP".to_owned()),
            LefMacroClass::BLOCK(Some(subclass)) => Some(subclass.to_string()),
            LefMacroClass::PAD(Some(subclass)) => Some(subclass.to_string()),
            LefMacroClass::CORE(Some(subclass)) => Some(subclass.to_string()),
            LefMacroClass::ENDCAP(Some(subclass)) => Some(subclass.to_string()),
            _ => None,
        };
        if let Some(subclass) = subclass {
            res.append(" ");
            res.append(subclass.as_str());
        }
        proof {
            reveal_strlit(" ");
            assert(" "@ =~= seq![' ']);
            Self::lemma_keyword_composition(*self);
        }
        res
    }
}

impl LefMacroClass {
    /// The keyword of the base class, without any subclass.
    pub open spec fn base_keyword(self) -> Seq<char> {
        match self {
            LefMacroClass::COVER(_) => "COVER"@,
            LefMacroClass::RING => "RING"@,
            LefMacroClass::BLOCK(_) => "BLOCK"@,
            LefMacroClass::PAD(_) => "PAD"@,
            LefMacroClass::CORE(_) => "CORE"@,
            LefMacroClass::ENDCAP(_) => "ENDCAP"@,
        }
    }

    /// The keyword of the subclass, where the class has one.
    pub open spec fn subclass_keyword(self) -> Option<Seq<char>> {
        match self {
            LefMacroClass::COVER(true) => Some("BUMP"@),
            LefMacroClass::BLOCK(Some(subclass)) => Some(subclass.keyword()),
            LefMacroClass::PAD(Some(subclass)) => Some(subclass.keyword()),
            LefMacroClass::CORE(Some(subclass)) => Some(subclass.keyword()),
            LefMacroClass::ENDCAP(Some(subclass)) => Some(subclass.keyword()),
            _ => None,
        }
    }

    /// The keyword of a class is the keyword of its base class, followed by
    /// one space and the keyword of the subclass where it has one.
    pub proof fn lemma_keyword_composition(class: LefMacroClass)
        ensures
            class.keyword() == match class.subclass_keyword() {
                Some(subclass) => class.base_keyword() + seq![' '] + subclass,
                None => class.base_keyword(),
            },
    {
        match class {
            LefMacroClass::COVER(true) => {
                reveal_strlit("COVER");
                reveal_strlit("BUMP");
                reveal_strlit("COVER BUMP");
                assert("COVER BUMP"@ =~= "COVER"@ + seq![' '] + "BUMP"@);
            },
            LefMacroClass::BLOCK(Some(LefMacroClassBlockType::BLACKBOX)) => {
                reveal_strlit("BLOCK");
                reveal_strlit("BLACKBOX");
                reveal_strlit("BLOCK BLACKBOX");
                assert("BLOCK BLACKBOX"@ =~= "BLOCK"@ + seq![' '] + "BLACKBOX"@);
            },
            LefMacroClass::BLOCK(Some(LefMacroClassBlockType::SOFT)) => {
                reveal_strlit("BLOCK");
                reveal_strlit("SOFT");
                reveal_strlit("BLOCK SOFT");
                assert("BLOCK SOFT"@ =~= "BLOCK"@ + seq![' '] + "SOFT"@);
            },
            LefMacroClass::PAD(Some(LefMacroClassPadType::INPUT)) => {
                reveal_strlit("PAD");
                reveal_strlit("INPUT");
                reveal_strlit("PAD INPUT");
                assert("PAD INPUT"@ =~= "PAD"@ + seq![' '] + "INPUT"@);
            },
            LefMacroClass::PAD(Some(LefMacroClassPadType::OUTPUT)) => {
                reveal_strlit("PAD");
                reveal_strlit("OUTPUT");
                reveal_strlit("PAD OUTPUT");
                assert("PAD OUTPUT"@ =~= "PAD"@ + seq![' '] + "OUTPUT"@);
            },
            LefMacroClass::PAD(Some(LefMacroClassPadType::INOUT)) => {
                reveal_strlit("PAD");
                reveal_strlit("INOUT");
                reveal_strlit("PAD INOUT");
                assert("PAD INOUT"@ =~= "PAD"@ + seq![' '] + "INOUT"@);
            },
            LefMacroClass::PAD(Some(LefMacroClassPadType::POWER)) => {
                reveal_strlit("PAD");
                reveal_strlit("POWER");
                reveal_strlit("PAD POWER");
                assert("PAD POWER"@ =~= "PAD"@ + seq![' '] + "POWER"@);
            },
            LefMacroClass::PAD(Some(LefMacroClassPadType::SPACER)) => {
                reveal_strlit("PAD");
                reveal_strlit("SPACER");
                reveal_strlit("PAD SPACER");
                assert("PAD SPACER"@ =~= "PAD"@ + seq![' '] + "SPACER"@);
            },
            LefMacroClass::PAD(Some(LefMacroClassPadType::AREAIO)) => {
                reveal_strlit("PAD");
                reveal_strlit("AREAIO");
                reveal_strlit("PAD AREAIO");
                assert("PAD AREAIO"@ =~= "PAD"@ + seq![' '] + "AREAIO"@);
            },
            LefMacroClass::CORE(Some(LefMacroClassCoreType::FEEDTHRU)) => {
                reveal_strlit("CORE");
                reveal_strlit("FEEDTHRU");
                reveal_strlit("CORE FEEDTHRU");
                assert("CORE FEEDTHRU"@ =~= "CORE"@ + seq![' '] + "FEEDTHRU"@);
            },
            LefMacroClass::CORE(Some(LefMacroClassCoreType::TIEHIGH)) => {
                reveal_strlit("CORE");
                reveal_strlit("TIEHIGH");
                reveal_strlit("CORE TIEHIGH");
                assert("CORE TIEHIGH"@ =~= "CORE"@ + seq![' '] + "TIEHIGH"@);
            },
            LefMacroClass::CORE(Some(LefMacroClassCoreType::TIELOW)) => {
                reveal_strlit("CORE");
                reveal_strlit("TIELOW");
                reveal_strlit("CORE TIELOW");
                assert("CORE TIELOW"@ =~= "CORE"@ + seq![' '] + "TIELOW"@);
            },
            LefMacroClass::CORE(Some(LefMacroClassCoreType::SPACER)) => {
                reveal_strlit("CORE");
                reveal_strlit("SPACER");
                reveal_strlit("CORE SPACER");
                assert("CORE SPACER"@ =~= "CORE"@ + seq![' '] + "SPACER"@);
            },
            LefMacroClass::CORE(Some(LefMacroClassCoreType::ANTENNACELL)) => {
                reveal_strlit("CORE");
                reveal_strlit("ANTENNACELL");
                reveal_strlit("CORE ANTENNACELL");
                assert("CORE ANTENNACELL"@ =~= "CORE"@ + seq![' '] + "ANTENNACELL"@);
            },
            LefMacroClass::CORE(Some(LefMacroClassCoreType::WELLTAP)) => {
                reveal_strlit("CORE");
                reveal_strlit("WELLTAP");
                reveal_strlit("CORE WELLTAP");
                assert("CORE WELLTAP"@ =~= "CORE"@ + seq![' '] + "WELLTAP"@);
            },
            LefMacroClass::ENDCAP(Some(LefMacroClassEndcapType::PRE)) => {
                reveal_strlit("ENDCAP");
                reveal_strlit("PRE");
                reveal_strlit("ENDCAP PRE");
                assert("ENDCAP PRE"@ =~= "ENDCAP"@ + seq![' '] + "PRE"@);
            },
            LefMacroClass::ENDCAP(Some(LefMacroClassEndcapType::POST)) => {
                reveal_strlit("ENDCAP");
                reveal_strlit("POST");
                reveal_strlit("ENDCAP POST");
                assert("ENDCAP POST"@ =~= "ENDCAP"@ + seq![' '] + "POST"@);
            },
            LefMacroClass::ENDCAP(Some(LefMacroClassEndcapType::TOPLEFT)) => {
                reveal_strlit("ENDCAP");
                reveal_strlit("TOPLEFT");
                reveal_strlit("ENDCAP TOPLEFT");
                assert("ENDCAP TOPLEFT"@ =~= "ENDCAP"@ + seq![' '] + "TOPLEFT"@);
            },
            LefMacroClass::ENDCAP(Some(LefMacroClassEndcapType::TOPRIGHT)) => {
                reveal_strlit("ENDCAP");
                reveal_strlit("TOPRIGHT");
                reveal_strlit("ENDCAP TOPRIGHT");
                assert("ENDCAP TOPRIGHT"@ =~= "ENDCAP"@ + seq![' '] + "TOPRIGHT"@);
            },
            LefMacroClass::ENDCAP(Some(LefMacroClassEndcapType::BOTTOMLEFT)) => {
                reveal_strlit("ENDCAP");
                reveal_strlit("BOTTOMLEFT");
                reveal_strlit("ENDCAP BOTTOMLEFT");
                assert("ENDCAP BOTTOMLEFT"@ =~= "ENDCAP"@ + seq![' '] + "BOTTOMLEFT"@);
            },
            LefMacroClass::ENDCAP(Some(LefMacroClassEndcapType::BOTTOMRIGHT)) => {
                reveal_strlit("ENDCAP");
                reveal_strlit("BOTTOMRIGHT");
                reveal_strlit("ENDCAP BOTTOMRIGHT");
                assert("ENDCAP BOTTOMRIGHT"@ =~= "ENDCAP"@ + seq![' '] + "BOTTOMRIGHT"@);
            },
            _ => {},
        }
    }
}

} // verus!
