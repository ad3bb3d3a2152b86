//! The one error of the transport.
use vstd::prelude::*;

verus! {

/// The error of a failed call: `status` is absent for failures before or
/// during transport, present for a non-success response or an unusable body.
#[derive(Debug, Clone)]
pub struct SDKError {
    pub status: Option<u16>,
    pub body: String,
}

/// The decimal digits of `n`, without leading zeros.
pub open spec fn decimal(n: nat) -> Seq<char>
    decreases n,
{
    let digit = seq!['0', '1', '2', '3', '4', '5', '6', '7', '8', '9'][(n % 10) as int];
    if n < 10 {
        seq![digit]
    } else {
        decimal(n / 10).push(digit)
    }
}

/// Relies on `Display for u16`, which writes the number in decimal.
#[verifier::external_body]
fn decimal_text(n: u16) -> (r: String)
    ensures
        r@ == decimal(n as nat),
{
    n.to_string()
}

/// The text that describes an error.
pub open spec fn error_text(status: Option<u16>, body: Seq<char>) -> Seq<char> {
    match status {
        Some(code) => "rigby api error: status "@ + decimal(code as nat) + ": "@ + body,
        None => "rigby api error: "@ + body,
    }
}

impl SDKError {
    /// Describes the error: its status code where it has one, then its body.
    pub fn message(&self) -> (r: String)
        ensures
            r@ == error_text(self.status, self.body@),
    {
        match self.status {
            Some(code) => {
                let mut r = String::from_str("rigby api error: status ");
                let digits = decimal_text(code);
                r.append(digits.as_str());
                r.append(": ");
                r.append(self.body.as_str());
                r
            },
            None => {
                let mut r = String::from_str("rigby api error: ");
                r.append(self.body.as_str());
                r
            },
        }
    }
}

} // verus!
