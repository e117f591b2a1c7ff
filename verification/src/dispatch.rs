//! Static versus dynamic invocation of a small formatting capability,
//! `Fancy`, on plain integers. One free function is generic over the
//! capability and resolves per call site; the other takes a dynamic
//! capability value and resolves through one match, fixed when the value is
//! made. Both must render the same text for the same underlying number.

use vstd::prelude::*;
use vstd::string::StringExecFns;

verus! {

/// The character for one decimal digit.
pub open spec fn digit_char(d: nat) -> char {
    if d == 0 {
        '0'
    } else if d == 1 {
        '1'
    } else if d == 2 {
        '2'
    } else if d == 3 {
        '3'
    } else if d == 4 {
        '4'
    } else if d == 5 {
        '5'
    } else if d == 6 {
        '6'
    } else if d == 7 {
        '7'
    } else if d == 8 {
        '8'
    } else {
        '9'
    }
}

/// The decimal rendering of `n`: most significant digit first, no sign, no
/// leading zero except for the number zero itself.
pub open spec fn decimal_rep(n: nat) -> Seq<char>
    decreases n,
{
    if n < 10 {
        seq![digit_char(n)]
    } else {
        decimal_rep(n / 10).push(digit_char(n % 10))
    }
}

fn digit_str(d: u64) -> (s: &'static str)
    requires
        d < 10,
    ensures
        s@ == seq![digit_char(d as nat)],
{
    proof {
        reveal_strlit("0");
        reveal_strlit("1");
        reveal_strlit("2");
        reveal_strlit("3");
        reveal_strlit("4");
        reveal_strlit("5");
        reveal_strlit("6");
        reveal_strlit("7");
        reveal_strlit("8");
        reveal_strlit("9");
    }
    let s: &'static str = if d == 0 {
        "0"
    } else if d == 1 {
        "1"
    } else if d == 2 {
        "2"
    } else if d == 3 {
        "3"
    } else if d == 4 {
        "4"
    } else if d == 5 {
        "5"
    } else if d == 6 {
        "6"
    } else if d == 7 {
        "7"
    } else if d == 8 {
        "8"
    } else {
        "9"
    };
    proof {
        assert(s@ =~= seq![digit_char(d as nat)]);
    }
    s
}

/// Renders `n` in decimal.
pub fn decimal_string(n: u64) -> (s: String)
    ensures
        s@ == decimal_rep(n as nat),
    decreases n,
{
    if n < 10 {
        String::from_str(digit_str(n))
    } else {
        let mut s = decimal_string(n / 10);
        s.append(digit_str(n % 10));
        proof {
            assert(s@ =~= decimal_rep(n as nat));
        }
        s
    }
}

/// The formatting capability: a plain textual rendering, and a fancier
/// adorned one. Each implementing kind fixes its own adornment.
pub trait Fancy: Sized {
    /// The plain textual rendering, as the contracts speak of it.
    spec fn text_spec(&self) -> Seq<char>;

    /// The adorned rendering, as the contracts speak of it.
    spec fn fancy_spec(&self) -> Seq<char>;

    fn text(&self) -> (s: String)
        ensures
            s@ == self.text_spec(),
    ;

    fn fancy(&self) -> (s: String)
        ensures
            s@ == self.fancy_spec(),
    ;
}

impl Fancy for u8 {
    open spec fn text_spec(&self) -> Seq<char> {
        decimal_rep(*self as nat)
    }

    open spec fn fancy_spec(&self) -> Seq<char> {
        "[u8] "@ + decimal_rep(*self as nat) + " [u8]"@
    }

    fn text(&self) -> (s: String) {
        decimal_string(*self as u64)
    }

    fn fancy(&self) -> (s: String) {
        let mut s = String::from_str("[u8] ");
        let digits = decimal_string(*self as u64);
        s.append(digits.as_str());
        s.append(" [u8]");
        proof {
            assert(s@ =~= self.fancy_spec());
        }
        s
    }
}

impl Fancy for u16 {
    open spec fn text_spec(&self) -> Seq<char> {
        decimal_rep(*self as nat)
    }

    open spec fn fancy_spec(&self) -> Seq<char> {
        "[u16] "@ + decimal_rep(*self as nat) + " [u16]"@
    }

    fn text(&self) -> (s: String) {
        decimal_string(*self as u64)
    }

    fn fancy(&self) -> (s: String) {
        let mut s = String::from_str("[u16] ");
        let digits = decimal_string(*self as u64);
        s.append(digits.as_str());
        s.append(" [u16]");
        proof {
            assert(s@ =~= self.fancy_spec());
        }
        s
    }
}

/// A dynamic capability value: one of the known numeric kinds, used only
/// through `Fancy`. Which concrete rendering runs is fixed when the value is
/// made, uniformly for every call site.
#[derive(Clone, Copy)]
pub enum FancyValue {
    Byte(u8),
    Wide(u16),
}

impl Fancy for FancyValue {
    open spec fn text_spec(&self) -> Seq<char> {
        match self {
            FancyValue::Byte(n) => n.text_spec(),
            FancyValue::Wide(n) => n.text_spec(),
        }
    }

    open spec fn fancy_spec(&self) -> Seq<char> {
        match self {
            FancyValue::Byte(n) => n.fancy_spec(),
            FancyValue::Wide(n) => n.fancy_spec(),
        }
    }

    fn text(&self) -> (s: String) {
        match self {
            FancyValue::Byte(n) => n.text(),
            FancyValue::Wide(n) => n.text(),
        }
    }

    fn fancy(&self) -> (s: String) {
        match self {
            FancyValue::Byte(n) => n.fancy(),
            FancyValue::Wide(n) => n.fancy(),
        }
    }
}

/// The statically dispatched line: the concrete `Fancy` implementation is
/// resolved per call site, at compile time.
pub fn static_fancy_line<T: Fancy>(thing: T) -> (line: String)
    ensures
        line@ == "Static Print Fancy: "@ + thing.text_spec(),
{
    let mut line = String::from_str("Static Print Fancy: ");
    let text = thing.text();
    line.append(text.as_str());
    proof {
        assert(line@ =~= "Static Print Fancy: "@ + thing.text_spec());
    }
    line
}

/// The dynamically dispatched line: the concrete rendering is resolved
/// through the capability value, not at the call site.
pub fn dynamic_fancy_line(thing: &FancyValue) -> (line: String)
    ensures
        line@ == "Dynamic Print Fancy: "@ + thing.text_spec(),
{
    let mut line = String::from_str("Dynamic Print Fancy: ");
    let text = thing.text();
    line.append(text.as_str());
    proof {
        assert(line@ =~= "Dynamic Print Fancy: "@ + thing.text_spec());
    }
    line
}

/// Static and dynamic invocation agree: the capability value renders, both
/// plainly and adorned, exactly what the underlying number of its kind
/// renders, so the two dispatch styles produce identical text for the same
/// value and kind.
pub proof fn lemma_dispatch_agreement(value: FancyValue)
    ensures
        value matches FancyValue::Byte(n) ==> value.text_spec() == n.text_spec()
            && value.fancy_spec() == n.fancy_spec(),
        value matches FancyValue::Wide(n) ==> value.text_spec() == n.text_spec()
            && value.fancy_spec() == n.fancy_spec(),
{
}

} // verus!
