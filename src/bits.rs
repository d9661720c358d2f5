use vstd::prelude::*;

verus! {

/// Target word size of the assembled code.
#[allow(non_camel_case_types)]
#[derive(Clone, Copy, Debug, PartialEq, Eq, Structural)]
pub enum BitsMode {
    BITS16,
    BITS32,
    BITS64,
}

/// The digits that name a word size inside a `[bits N]` directive.
pub open spec fn mode_text(m: BitsMode) -> Seq<char> {
    match m {
        BitsMode::BITS16 => seq!['1', '6'],
        BitsMode::BITS32 => seq!['3', '2'],
        BitsMode::BITS64 => seq!['6', '4'],
    }
}

impl Default for BitsMode {
    fn default() -> (r: Self)
        ensures
            r == BitsMode::BITS64,
    {
        BitsMode::BITS64
    }
}

impl BitsMode {
    /// Canonical directive text of this mode.
    pub fn bits_mode_str(&self) -> (r: &'static str)
        ensures
            r@ == mode_text(*self),
    {
        match self {
            BitsMode::BITS16 => {
                proof {
                    reveal_strlit("16");
                }
                "16"
            },
            BitsMode::BITS32 => {
                proof {
                    reveal_strlit("32");
                }
                "32"
            },
            BitsMode::BITS64 => {
                proof {
                    reveal_strlit("64");
                }
                "64"
            },
        }
    }
}

} // verus!
