//! Orientations and symmetries of placeable objects.
use vstd::prelude::*;
use crate::keyword::{parse_result, lemma_parse_round_trip, LefKeyword};
use crate::text::str_eq;
use vstd::string::StringExecFns;

verus! {

/// Orientation, consists of rotation and mirroring.
#[derive(Copy, Clone, Debug, PartialEq, Eq, Hash, Structural)]
pub enum LefOrient {
    /// North.
    N,
    /// South.
    S,
    /// East.
    E,
    /// West.
    W,
    /// Flipped North.
    FN,
    /// Flipped South.
    FS,
    /// Flipped East.
    FE,
    /// Flipped West.
    FW,
}

impl Default for LefOrient {
    fn default() -> (res: Self)
        ensures
            res == LefOrient::N,
    {
        LefOrient::N
    }
}

impl DeepView for LefOrient {
    type V = LefOrient;

    open spec fn deep_view(&self) -> LefOrient {
        *self
    }
}

impl LefKeyword for LefOrient {
    open spec fn keyword(self) -> Seq<char> {
        match self {
            LefOrient::N => "N"@,
            LefOrient::S => "S"@,
            LefOrient::E => "E"@,
            LefOrient::W => "W"@,
            LefOrient::FN => "FN"@,
            LefOrient::FS => "FS"@,
            LefOrient::FE => "FE"@,
            LefOrient::FW => "FW"@,
        }
    }

    proof fn lemma_keyword_injective(a: Self, b: Self) {
        reveal_strlit("N");
        reveal_strlit("S");
        reveal_strlit("E");
        reveal_strlit("W");
        reveal_strlit("FN");
        reveal_strlit("FS");
        reveal_strlit("FE");
        reveal_strlit("FW");
        assert("N"@.len() == 1 && "N"@[0] == 'N');
        assert("S"@.len() == 1 && "S"@[0] == 'S');
        assert("E"@.len() == 1 && "E"@[0] == 'E');
        assert("W"@.len() == 1 && "W"@[0] == 'W');
        assert("FN"@.len() == 2 && "FN"@[0] == 'F' && "FN"@[1] == 'N');
        assert("FS"@.len() == 2 && "FS"@[0] == 'F' && "FS"@[1] == 'S');
        assert("FE"@.len() == 2 && "FE"@[0] == 'F' && "FE"@[1] == 'E');
        assert("FW"@.len() == 2 && "FW"@[0] == 'F' && "FW"@[1] == 'W');
    }
}

impl LefOrient {
    /// The rotation without mirroring, and whether the orientation is mirrored.
    pub open spec fn spec_decomposed(&self) -> (Self, bool) {
        match self {
            LefOrient::FN => (LefOrient::N, true),
            LefOrient::FS => (LefOrient::S, true),
            LefOrient::FE => (LefOrient::E, true),
            LefOrient::FW => (LefOrient::W, true),
            other => (*other, false),
        }
    }

    /// The orientation mirrored about the y-axis.
    pub open spec fn spec_flipped(&self) -> Self {
        match self {
            LefOrient::N => LefOrient::FN,
            LefOrient::S => LefOrient::FS,
            LefOrient::E => LefOrient::FE,
            LefOrient::W => LefOrient::FW,
            LefOrient::FN => LefOrient::N,
            LefOrient::FS => LefOrient::S,
            LefOrient::FE => LefOrient::E,
            LefOrient::FW => LefOrient::W,
        }
    }

    /// Decompose into a non-flipped orientation and a flag telling whether the
    /// orientation is flipped. Flipping is applied after rotation and happens
    /// about the y-axis (switching left and right).
    ///
    /// Returns `(orientation, is_flipped)`.
    #[verifier::when_used_as_spec(spec_decomposed)]
    pub fn decomposed(&self) -> (res: (Self, bool))
        ensures
            res == self.spec_decomposed(),
    {
        match self {
            LefOrient::FN => (LefOrient::N, true),
            LefOrient::FS => (LefOrient::S, true),
            LefOrient::FE => (LefOrient::E, true),
            LefOrient::FW => (LefOrient::W, true),
            other => (*other, false),
        }
    }

    /// Returns the flipped orientation: `N` becomes `FN`, `FN` becomes `N`.
    #[verifier::when_used_as_spec(spec_flipped)]
    pub fn flipped(&self) -> (res: Self)
        ensures
            res == self.spec_flipped(),
    {
        match self {
            LefOrient::N => LefOrient::FN,
            LefOrient::S => LefOrient::FS,
            LefOrient::E => LefOrient::FE,
            LefOrient::W => LefOrient::FW,
            LefOrient::FN => LefOrient::N,
            LefOrient::FS => LefOrient::S,
            LefOrient::FE => LefOrient::E,
            LefOrient::FW => LefOrient::W,
        }
    }

    /// Flipping keeps the rotation and inverts the mirror flag.
    pub proof fn lemma_flip_decomposition(o: LefOrient)
        ensures
            o.flipped().decomposed().0 == o.decomposed().0,
            o.flipped().decomposed().1 == !o.decomposed().1,
    {
    }

    /// Reads an orientation keyword.
    pub fn from_str(input: &str) -> (res: Result<Self, ()>)
        ensures
            res == parse_result::<Self>(input@),
    {
        let res = if str_eq(input, "N") {
            Ok(LefOrient::N)
        } else if str_eq(input, "S") {
            Ok(LefOrient::S)
        } else if str_eq(input, "E") {
            Ok(LefOrient::E)
        } else if str_eq(input, "W") {
            Ok(LefOrient::W)
        } else if str_eq(input, "FN") {
            Ok(LefOrient::FN)
        } else if str_eq(input, "FS") {
            Ok(LefOrient::FS)
        } else if str_eq(input, "FE") {
            Ok(LefOrient::FE)
        } else if str_eq(input, "FW") {
            Ok(LefOrient::FW)
        } else {
            Err(())
        };
        proof {
            if let Ok(v) = res {
                lemma_parse_round_trip(v);
            }
        }
        res
    }

    /// Writes the orientation as its keyword.
    pub fn to_string(&self) -> (res: String)
        ensures
            res@ == self.keyword(),
    {
        match self {
            LefOrient::N => "N".to_owned(),
            LefOrient::S => "S".to_owned(),
            LefOrient::E => "E".to_owned(),
            LefOrient::W => "W".to_owned(),
            LefOrient::FN => "FN".to_owned(),
            LefOrient::FS => "FS".to_owned(),
            LefOrient::FE => "FE".to_owned(),
            LefOrient::FW => "FW".to_owned(),
        }
    }
}

/// Macro orientations that can be used by the placer.
#[derive(Copy, Clone, Debug, PartialEq, Eq, Structural)]
pub struct LefSymmetry {
    /// Mirroring macro at x-axis.
    pub x: bool,
    /// Mirroring macro at y-axis.
    pub y: bool,
    /// Rotating by 90 degrees. Intended for pad cells only.
    pub r90: bool,
}

impl Default for LefSymmetry {
    fn default() -> (res: Self)
        ensures
            res == (LefSymmetry { x: false, y: false, r90: false }),
    {
        LefSymmetry { x: false, y: false, r90: false }
    }
}

impl LefSymmetry {
    /// The field-wise disjunction of two symmetry definitions.
    pub open spec fn spec_union(self, other: Self) -> Self {
        LefSymmetry { x: self.x || other.x, y: self.y || other.y, r90: self.r90 || other.r90 }
    }

    /// The symmetry that a single keyword stands for.
    pub open spec fn parse(text: Seq<char>) -> Result<Self, ()> {
        if text == "X"@ {
            Ok(LefSymmetry { x: true, y: false, r90: false })
        } else if text == "Y"@ {
            Ok(LefSymmetry { x: false, y: true, r90: false })
        } else if text == "R90"@ {
            Ok(LefSymmetry { x: false, y: false, r90: true })
        } else {
            Err(())
        }
    }

    /// The keywords of the symmetries that are set, in the order `X`, `Y`,
    /// `R90`, written one after the other.
    pub open spec fn text(self) -> Seq<char> {
        (if self.x {
            "X"@
        } else {
            Seq::empty()
        }) + (if self.y {
            "Y"@
        } else {
            Seq::empty()
        }) + (if self.r90 {
            "R90"@
        } else {
            Seq::empty()
        })
    }

    /// Create a new symmetry definition.
    pub fn new(x: bool, y: bool, r90: bool) -> (res: Self)
        ensures
            res == (LefSymmetry { x, y, r90 }),
    {
        Self { x, y, r90 }
    }

    /// Mirror symmetry at x-axis.
    pub fn x() -> (res: Self)
        ensures
            res == (LefSymmetry { x: true, y: false, r90: false }),
    {
        Self::new(true, false, false)
    }

    /// Mirror symmetry at y-axis.
    pub fn y() -> (res: Self)
        ensures
            res == (LefSymmetry { x: false, y: true, r90: false }),
    {
        Self::new(false, true, false)
    }

    /// Rotation by 90 degrees.
    pub fn r90() -> (res: Self)
        ensures
            res == (LefSymmetry { x: false, y: false, r90: true }),
    {
        Self::new(false, false, true)
    }

    /// Take the union of both symmetry definitions.
    #[verifier::when_used_as_spec(spec_union)]
    pub fn union(self, other: Self) -> (res: Self)
        ensures
            res == self.spec_union(other),
    {
        Self { x: self.x || other.x, y: self.y || other.y, r90: self.r90 || other.r90 }
    }

    /// The union of two symmetries does not depend on their order.
    pub proof fn lemma_union_commutative(a: LefSymmetry, b: LefSymmetry)
        ensures
            a.union(b) == b.union(a),
    {
    }

    /// The union of a symmetry with itself is that symmetry.
    pub proof fn lemma_union_idempotent(a: LefSymmetry)
        ensures
            a.union(a) == a,
    {
    }

    /// Reads one symmetry keyword: `X`, `Y` or `R90`.
    pub fn from_str(input: &str) -> (res: Result<Self, ()>)
        ensures
            res == Self::parse(input@),
    {
        if str_eq(input, "X") {
            Ok(Self::x())
        } else if str_eq(input, "Y") {
            Ok(Self::y())
        } else if str_eq(input, "R90") {
            Ok(Self::r90())
        } else {
            Err(())
        }
    }

    /// Writes the symmetries that are set.
    pub fn to_string(&self) -> (res: String)
        ensures
            res@ == self.text(),
    {
        let mut res = String::new();
        if self.x {
            res.append("X");
        }
        if self.y {
            res.append("Y");
        }
        if self.r90 {
            res.append("R90");
        }
        assert(res@ =~= self.text());
        res
    }
}

} // verus!
