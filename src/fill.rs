use vstd::prelude::*;

verus! {

/// The backend's code for the plain non-zero winding rule.
pub const FILL_WINDING: u32 = 0;
/// The backend's code for the plain even-odd rule.
pub const FILL_EVEN_ODD: u32 = 1;
/// The backend's code for the inverse non-zero winding rule.
pub const FILL_INVERSE_WINDING: u32 = 2;
/// The backend's code for the inverse even-odd rule.
pub const FILL_INVERSE_EVEN_ODD: u32 = 3;

/// How the inside of a path is decided: by winding number or by parity,
/// optionally inverted.
#[derive(Clone, Copy, PartialEq, Eq, Structural, Debug)]
pub enum PathFillType {
    Winding { inverse: bool },
    EvenOdd { inverse: bool },
}

/// The backend code of a fill rule.
pub open spec fn fill_code(f: PathFillType) -> u32 {
    match f {
        PathFillType::Winding { inverse } => if inverse { FILL_INVERSE_WINDING } else { FILL_WINDING },
        PathFillType::EvenOdd { inverse } => if inverse { FILL_INVERSE_EVEN_ODD } else { FILL_EVEN_ODD },
    }
}

impl PathFillType {
    /// Non-zero winding.
    pub fn winding() -> (f: PathFillType)
        ensures
            f == (PathFillType::Winding { inverse: false }),
    {
        PathFillType::Winding { inverse: false }
    }

    /// Inverse non-zero winding.
    pub fn inverse_winding() -> (f: PathFillType)
        ensures
            f == (PathFillType::Winding { inverse: true }),
    {
        PathFillType::Winding { inverse: true }
    }

    /// Even-odd.
    pub fn even_odd() -> (f: PathFillType)
        ensures
            f == (PathFillType::EvenOdd { inverse: false }),
    {
        PathFillType::EvenOdd { inverse: false }
    }

    /// Inverse even-odd.
    pub fn inverse_even_odd() -> (f: PathFillType)
        ensures
            f == (PathFillType::EvenOdd { inverse: true }),
    {
        PathFillType::EvenOdd { inverse: true }
    }

    /// The backend code of this fill rule.
    pub fn to_native(self) -> (code: u32)
        ensures
            code == fill_code(self),
            code <= FILL_INVERSE_EVEN_ODD,
    {
        match self {
            PathFillType::Winding { inverse: false } => FILL_WINDING,
            PathFillType::Winding { inverse: true } => FILL_INVERSE_WINDING,
            PathFillType::EvenOdd { inverse: false } => FILL_EVEN_ODD,
            PathFillType::EvenOdd { inverse: true } => FILL_INVERSE_EVEN_ODD,
        }
    }

    /// The fill rule with backend code `code`, or `None` for a code the
    /// backend does not define.
    pub fn from_native(code: u32) -> (f: Option<PathFillType>)
        ensures
            code <= FILL_INVERSE_EVEN_ODD <==> f.is_some(),
            f matches Some(x) ==> fill_code(x) == code,
    {
        if code == FILL_WINDING {
            Some(PathFillType::Winding { inverse: false })
        } else if code == FILL_INVERSE_WINDING {
            Some(PathFillType::Winding { inverse: true })
        } else if code == FILL_EVEN_ODD {
            Some(PathFillType::EvenOdd { inverse: false })
        } else if code == FILL_INVERSE_EVEN_ODD {
            Some(PathFillType::EvenOdd { inverse: true })
        } else {
            None
        }
    }
}

/// Distinct fill rules have distinct backend codes, so a rule survives the
/// trip to the backend and back.
pub proof fn lemma_fill_code_injective(f: PathFillType, g: PathFillType)
    ensures
        fill_code(f) == fill_code(g) <==> f == g,
{
}

} // verus!
