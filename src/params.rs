//! Parameters of dispatcher commands.
use vstd::prelude::*;
use vstd::string::*;

verus! {

/// Selects the window that a dispatcher command acts on.
#[derive(Debug, Clone, PartialEq, Eq)]
pub enum Window {
    ClassRegex(String),
    TitleRegex(String),
    /// A process id; the compositor knows no process zero.
    Pid(u32),
    Address(String),
    Floating,
    Tiled,
}

/// The character of the decimal digit `d`.
pub open spec fn digit_char(d: nat) -> char {
    if d == 0 { '0' }
    else if d == 1 { '1' }
    else if d == 2 { '2' }
    else if d == 3 { '3' }
    else if d == 4 { '4' }
    else if d == 5 { '5' }
    else if d == 6 { '6' }
    else if d == 7 { '7' }
    else if d == 8 { '8' }
    else { '9' }
}

/// `n` in decimal, without sign or leading zeros.
pub open spec fn decimal_spec(n: nat) -> Seq<char>
    decreases n,
{
    if n < 10 {
        seq![digit_char(n)]
    } else {
        decimal_spec(n / 10).push(digit_char(n % 10))
    }
}

/// Relies on `u32::to_string` (its `Display`): the decimal digits of `n`.
#[verifier::external_body]
fn decimal(n: u32) -> (r: String)
    ensures
        r@ == decimal_spec(n as nat),
{
    n.to_string()
}

impl Window {
    /// The selector's text as the compositor reads it.
    pub open spec fn text_spec(&self) -> Seq<char> {
        match self {
            Window::ClassRegex(c) => c@,
            Window::TitleRegex(t) => "title:"@ + t@,
            Window::Pid(p) => "pid:"@ + decimal_spec(*p as nat),
            Window::Address(a) => "address:"@ + a@,
            Window::Floating => "floating"@,
            Window::Tiled => "tiled"@,
        }
    }

    /// Renders the selector as the compositor reads it.
    pub fn to_text(&self) -> (r: String)
        ensures
            r@ == self.text_spec(),
    {
        match self {
            Window::ClassRegex(c) => c.clone(),
            Window::TitleRegex(t) => String::from_str("title:").concat(t.as_str()),
            Window::Pid(p) => {
                let digits = decimal(*p);
                String::from_str("pid:").concat(digits.as_str())
            },
            Window::Address(a) => String::from_str("address:").concat(a.as_str()),
            Window::Floating => String::from_str("floating"),
            Window::Tiled => String::from_str("tiled"),
        }
    }
}

} // verus!
