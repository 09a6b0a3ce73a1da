//! A thin wrapper over `u32` for C-style status codes: the code `0` means
//! success, and any non-zero code means failure, the value itself being the
//! failure's discriminant. The wrapper classifies itself as ok or error,
//! renders itself as `E` followed by the decimal digits of the code, and
//! supports an explicit early-return propagation protocol: a code splits into
//! either a continue outcome (code `0`, no payload) or a break outcome
//! carrying a non-zero residual, from which the enclosing function rebuilds
//! the same failing code unchanged.

use core::convert::Infallible;
use core::ops::ControlFlow;
use vstd::prelude::*;

verus! {

/// A C-style status code: `0` on success, any non-zero value on failure.
///
/// Two codes are equal exactly when their wrapped integers are equal, and the
/// type is plainly copyable: it owns nothing but the one integer.
#[derive(Clone, Copy, PartialEq, Eq, Structural)]
#[must_use]
pub struct ErrCode(pub u32);

impl ErrCode {
    /// Success is exactly the code `0`.
    pub open spec fn spec_is_ok(self) -> bool {
        self.0 == 0
    }

    /// Failure is exactly a non-zero code.
    pub open spec fn spec_is_err(self) -> bool {
        self.0 != 0
    }

    /// Returns true iff the wrapped integer is exactly `0`.
    pub fn is_ok(&self) -> (r: bool)
        ensures
            r == self.spec_is_ok(),
    {
        self.0 == 0
    }

    /// Returns true iff the wrapped integer is non-zero.
    pub fn is_err(&self) -> (r: bool)
        ensures
            r == self.spec_is_err(),
    {
        self.0 != 0
    }
}

/// Every code is classified success or failure: the two classifications are
/// exact complements, with no overlap and no gap.
pub proof fn lemma_classification_complementary(c: ErrCode)
    ensures
        c.spec_is_ok() <==> !c.spec_is_err(),
{
}

/// The failure payload extracted while a failing code is propagated upward:
/// it wraps a non-zero code, so rebuilding a status code from it always
/// yields a failure, with no further check needed. Only [`ErrCode::branch`]
/// produces residuals, which keeps the wrapped code non-zero.
pub struct ErrCodeResidual(u32);

impl ErrCodeResidual {
    /// The code being propagated.
    pub closed spec fn code(self) -> u32 {
        self.0
    }

    /// The residual invariant: only failing (non-zero) codes are propagated.
    pub open spec fn wf(self) -> bool {
        self.code() != 0
    }
}

impl ErrCode {
    /// The continue outcome of propagation carries no payload, and building a
    /// success code from it always yields the code `0`.
    pub fn from_output(_output: ()) -> (r: Self)
        ensures
            r.0 == 0,
    {
        ErrCode(0)
    }

    /// Splits a code into one of two control-flow outcomes: continue with no
    /// payload iff the code is `0`, break with a residual carrying the same
    /// non-zero code iff it is not.
    pub fn branch(self) -> (cf: ControlFlow<ErrCodeResidual, ()>)
        ensures
            self.spec_is_ok() <==> cf == ControlFlow::<ErrCodeResidual, ()>::Continue(()),
            self.spec_is_err() <==> (cf matches ControlFlow::Break(res) && res.code() == self.0
                && res.wf()),
    {
        if self.0 != 0 {
            ControlFlow::Break(ErrCodeResidual(self.0))
        } else {
            ControlFlow::Continue(())
        }
    }

    /// Rebuilds the status code that a residual is propagating: the numeric
    /// code comes back unchanged.
    pub fn from_residual(residual: ErrCodeResidual) -> (r: Self)
        ensures
            r.0 == residual.code(),
    {
        ErrCode(residual.0)
    }

    /// Rebuilds a status code from the residual of a generic two-variant
    /// result whose error payload is a status code and whose success payload
    /// is uninhabited: the error comes back as-is. A success residual can
    /// never be constructed, so it is ruled out rather than recovered from.
    pub fn from_result_residual(residual: Result<Infallible, ErrCode>) -> (r: Self)
        requires
            residual is Err,
        ensures
            residual matches Err(e) && r == e,
    {
        match residual {
            Err(err) => err,
            Ok(_) => vstd::pervasive::unreached(),
        }
    }
}

impl From<u32> for ErrCode {
    /// Wrapping a raw integer is total and stores the integer unchanged.
    fn from(val: u32) -> (r: Self)
        ensures
            r.0 == val,
    {
        ErrCode(val)
    }
}

impl vstd::std_specs::convert::FromSpecImpl<u32> for ErrCode {
    open spec fn obeys_from_spec() -> bool {
        true
    }

    open spec fn from_spec(val: u32) -> Self {
        ErrCode(val)
    }
}

/// Propagation is code-preserving: any outcome that `branch` may hand out
/// for a failing code is a break outcome, and any code that `from_residual`
/// may rebuild from its residual equals the original code unchanged; a
/// success code never breaks, so execution continues past it.
pub proof fn lemma_propagation_preserves_code(
    c: ErrCode,
    cf: ControlFlow<ErrCodeResidual, ()>,
    rebuilt: ErrCode,
)
    requires
        c.spec_is_ok() <==> cf == ControlFlow::<ErrCodeResidual, ()>::Continue(()),
        c.spec_is_err() <==> (cf matches ControlFlow::Break(res) && res.code() == c.0),
        cf matches ControlFlow::Break(res) ==> rebuilt.0 == res.code(),
    ensures
        c.spec_is_err() ==> (cf matches ControlFlow::Break(_)) && rebuilt == c,
        c.spec_is_ok() ==> cf == ControlFlow::<ErrCodeResidual, ()>::Continue(()),
{
}

/// The character for a single decimal digit.
pub open spec fn digit_char(d: nat) -> char {
    if d == 0 {
        '0'
    } else if d == 1 {
        '1'
    } else if d == 2 {
        '2'
    } else if d == 3 {
        '3'
    } else if d == 4 {
        '4'
    } else if d == 5 {
        '5'
    } else if d == 6 {
        '6'
    } else if d == 7 {
        '7'
    } else if d == 8 {
        '8'
    } else {
        '9'
    }
}

/// The base-10 digits of `n`, most significant first, with no leading zeros:
/// `0` is the one-digit sequence `"0"`, and every larger number starts with a
/// non-zero digit.
pub open spec fn dec_digits(n: nat) -> Seq<char>
    decreases n,
{
    if n < 10 {
        seq![digit_char(n)]
    } else {
        dec_digits(n / 10).push(digit_char(n % 10))
    }
}

/// The debug rendering of a code: the capital letter `E` immediately followed
/// by the decimal digits of the wrapped integer.
pub open spec fn debug_chars(n: nat) -> Seq<char> {
    seq!['E'] + dec_digits(n)
}

/// The decimal rendering never starts with a superfluous zero: only the
/// number `0` itself renders with a leading `'0'`.
pub proof fn lemma_dec_digits_no_leading_zero(n: nat)
    ensures
        dec_digits(n).len() >= 1,
        n != 0 ==> dec_digits(n)[0] != '0',
    decreases n,
{
    if n >= 10 {
        lemma_dec_digits_no_leading_zero(n / 10);
    }
}

/// The one-character string for a single decimal digit.
fn digit_str(d: u32) -> (r: &'static str)
    requires
        d < 10,
    ensures
        r@ == seq![digit_char(d as nat)],
{
    proof {
        reveal_strlit("0");
        reveal_strlit("1");
        reveal_strlit("2");
        reveal_strlit("3");
        reveal_strlit("4");
        reveal_strlit("5");
        reveal_strlit("6");
        reveal_strlit("7");
        reveal_strlit("8");
        reveal_strlit("9");
    }
    if d == 0 {
        "0"
    } else if d == 1 {
        "1"
    } else if d == 2 {
        "2"
    } else if d == 3 {
        "3"
    } else if d == 4 {
        "4"
    } else if d == 5 {
        "5"
    } else if d == 6 {
        "6"
    } else if d == 7 {
        "7"
    } else if d == 8 {
        "8"
    } else {
        "9"
    }
}

/// The base-10 rendering of `n`, most significant digit first.
fn decimal_digits(n: u32) -> (r: String)
    ensures
        r@ == dec_digits(n as nat),
    decreases n,
{
    if n < 10 {
        String::from_str(digit_str(n))
    } else {
        let prefix = decimal_digits(n / 10);
        prefix.concat(digit_str(n % 10))
    }
}

impl ErrCode {
    /// The debug text of a code: `E` followed by the decimal digits of the
    /// wrapped integer, e.g. the code `123` renders as `E123`.
    pub fn debug_text(&self) -> (r: String)
        ensures
            r@ == debug_chars(self.0 as nat),
    {
        proof {
            reveal_strlit("E");
        }
        String::from_str("E").concat(decimal_digits(self.0).as_str())
    }

    /// Treats a failure as fatal: the caller must already have established
    /// success, so nothing happens. The fatal diagnostic that a failing code
    /// would abort with is [`ErrCode::unwrap_diagnostic`]; aborting itself
    /// cannot happen here, since verified code never panics.
    pub fn unwrap(&self)
        requires
            self.spec_is_ok(),
    {
    }

    /// Like [`ErrCode::unwrap`], with a caller-supplied explanation for the
    /// fatal diagnostic of a failing code, [`ErrCode::expect_diagnostic`].
    #[allow(unused_variables)]
    pub fn expect(&self, msg: &str)
        requires
            self.spec_is_ok(),
    {
    }

    /// The fatal diagnostic for unwrapping a failing code: a fixed prefix
    /// followed by the debug text of the code.
    pub fn unwrap_diagnostic(&self) -> (r: String)
        ensures
            r@ == "Error: "@ + debug_chars(self.0 as nat),
    {
        String::from_str("Error: ").concat(self.debug_text().as_str())
    }

    /// The fatal diagnostic for expecting success of a failing code: the
    /// bracketed debug text of the code, followed by the caller's message,
    /// in that order.
    pub fn expect_diagnostic(&self, msg: &str) -> (r: String)
        ensures
            r@ == "["@ + debug_chars(self.0 as nat) + "] "@ + msg@,
    {
        String::from_str("[").concat(self.debug_text().as_str()).concat("] ").concat(msg)
    }
}

} // verus!
