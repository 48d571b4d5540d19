//! The standard drag curves and the lookup of a drag coefficient by Mach
//! number.

use vstd::prelude::*;
use crate::curve::{interpolate, lemma_boundary_clamping, value_at, well_formed, CURVE_LIMIT};
use crate::tables::{
    G1_TABLE, G2_TABLE, G5_TABLE, G6_TABLE, G7_TABLE, G8_TABLE, GI_TABLE, GS_TABLE,
};
use crate::error::Error;
use crate::units::Numeric;
use vstd::string::StrSliceExecFns;

verus! {

/// The family of standard reference projectiles a ballistic coefficient is
/// stated against.  Each one owns a fixed drag curve.
#[derive(Clone, Copy, Debug, PartialEq, Eq, Structural)]
pub enum DragTable {
    G1,
    G2,
    G5,
    G6,
    G7,
    G8,
    GI,
    GS,
}

/// The family that a text names: `G1`, `G2`, `G5`, `G6`, `G7`, `G8`, `GI`
/// or `GS`, each letter in either case.
pub open spec fn kind_named(text: Seq<char>) -> Option<DragTable> {
    if text.len() == 2 && (text[0] == 'G' || text[0] == 'g') {
        let c = text[1];
        if c == '1' {
            Some(DragTable::G1)
        } else if c == '2' {
            Some(DragTable::G2)
        } else if c == '5' {
            Some(DragTable::G5)
        } else if c == '6' {
            Some(DragTable::G6)
        } else if c == '7' {
            Some(DragTable::G7)
        } else if c == '8' {
            Some(DragTable::G8)
        } else if c == 'I' || c == 'i' {
            Some(DragTable::GI)
        } else if c == 'S' || c == 's' {
            Some(DragTable::GS)
        } else {
            None
        }
    } else {
        None
    }
}

impl DragTable {
    /// Reads the name of a family.  Fails, with the text, on any other text.
    pub fn from_str(s: &str) -> (r: Result<DragTable, Error>)
        ensures
            match r {
                Ok(kind) => kind_named(s@) == Some(kind),
                Err(e) => kind_named(s@) is None && (e matches Error::InvalidBcKind(text) && text@
                    == s@),
            },
    {
        if s.unicode_len() != 2 {
            return Err(Error::InvalidBcKind(s.to_owned()));
        }
        let g = s.get_char(0);
        let c = s.get_char(1);
        if g != 'G' && g != 'g' {
            return Err(Error::InvalidBcKind(s.to_owned()));
        }
        if c == '1' {
            Ok(DragTable::G1)
        } else if c == '2' {
            Ok(DragTable::G2)
        } else if c == '5' {
            Ok(DragTable::G5)
        } else if c == '6' {
            Ok(DragTable::G6)
        } else if c == '7' {
            Ok(DragTable::G7)
        } else if c == '8' {
            Ok(DragTable::G8)
        } else if c == 'I' || c == 'i' {
            Ok(DragTable::GI)
        } else if c == 'S' || c == 's' {
            Ok(DragTable::GS)
        } else {
            Err(Error::InvalidBcKind(s.to_owned()))
        }
    }

    /// The breakpoints of this family's drag curve.
    pub open spec fn breakpoints(self) -> Seq<(i64, i64)> {
        match self {
            DragTable::G1 => G1_TABLE@,
            DragTable::G2 => G2_TABLE@,
            DragTable::G5 => G5_TABLE@,
            DragTable::G6 => G6_TABLE@,
            DragTable::G7 => G7_TABLE@,
            DragTable::G8 => G8_TABLE@,
            DragTable::GI => GI_TABLE@,
            DragTable::GS => GS_TABLE@,
        }
    }

    /// Every standard curve is well formed.
    pub proof fn lemma_well_formed(self)
        ensures
            well_formed(self.breakpoints()),
    {
        match self {
            DragTable::G1 => lemma_g1_well_formed(),
            DragTable::G2 => lemma_g2_well_formed(),
            DragTable::G5 => lemma_g5_well_formed(),
            DragTable::G6 => lemma_g6_well_formed(),
            DragTable::G7 => lemma_g7_well_formed(),
            DragTable::G8 => lemma_g8_well_formed(),
            DragTable::GI => lemma_gi_well_formed(),
            DragTable::GS => lemma_gs_well_formed(),
        }
    }

    /// The drag coefficient of this family's reference projectile at `mach`.
    /// Mach numbers outside the curve are given the nearest boundary
    /// coefficient.
    pub fn coefficient(self, mach: Numeric) -> (cd: Numeric)
        ensures
            cd.millionths == value_at(self.breakpoints(), mach.millionths as int),
            0 <= cd.millionths <= CURVE_LIMIT,
            mach.millionths <= self.breakpoints()[0].0 ==> cd.millionths
                == self.breakpoints()[0].1,
            mach.millionths >= self.breakpoints()[self.breakpoints().len() - 1].0
                ==> cd.millionths == self.breakpoints()[self.breakpoints().len() - 1].1,
    {
        proof {
            self.lemma_well_formed();
            lemma_boundary_clamping(self.breakpoints(), mach.millionths as int);
        }
        let m = mach.millionths;
        let cd = match self {
            DragTable::G1 => interpolate(&G1_TABLE, m),
            DragTable::G2 => interpolate(&G2_TABLE, m),
            DragTable::G5 => interpolate(&G5_TABLE, m),
            DragTable::G6 => interpolate(&G6_TABLE, m),
            DragTable::G7 => interpolate(&G7_TABLE, m),
            DragTable::G8 => interpolate(&G8_TABLE, m),
            DragTable::GI => interpolate(&GI_TABLE, m),
            DragTable::GS => interpolate(&GS_TABLE, m),
        };
        Numeric { millionths: cd }
    }
}

proof fn lemma_g1_well_formed()
    ensures
        well_formed(G1_TABLE@),
{
}

proof fn lemma_g2_well_formed()
    ensures
        well_formed(G2_TABLE@),
{
}

proof fn lemma_g5_well_formed()
    ensures
        well_formed(G5_TABLE@),
{
}

proof fn lemma_g6_well_formed()
    ensures
        well_formed(G6_TABLE@),
{
}

proof fn lemma_g7_well_formed()
    ensures
        well_formed(G7_TABLE@),
{
}

proof fn lemma_g8_well_formed()
    ensures
        well_formed(G8_TABLE@),
{
}

proof fn lemma_gi_well_formed()
    ensures
        well_formed(GI_TABLE@),
{
}

proof fn lemma_gs_well_formed()
    ensures
        well_formed(GS_TABLE@),
{
}

} // verus!
