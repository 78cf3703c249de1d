//! Named constants of an assembly source: a label bound to a constant
//! expression tree, with the source span it was written at.

use vstd::prelude::*;

verus! {

/// A source span: where a constant expression starts and ends.
#[derive(Clone, Copy, Debug, PartialEq, Eq, PartialOrd, Ord, Hash, Structural)]
pub struct Position {
    pub line: u32,
    pub col: u32,
    pub line_end: u32,
    pub col_end: u32,
}

impl Position {
    /// Glues the start of one span onto the end of another.
    pub fn from_positions(start: Position, end: Position) -> (r: Position)
        ensures
            r.line == start.line,
            r.col == start.col,
            r.line_end == end.line_end,
            r.col_end == end.col_end,
    {
        Position { line: start.line, col: start.col, line_end: end.line_end, col_end: end.col_end }
    }
}

/// A constant expression tree.
#[derive(Debug, PartialEq, Eq, PartialOrd, Ord, Hash)]
pub enum MpConstValue {
    Value(u64),
    Const(String),
    Minus(Box<MpConstValueLoc>),
    Mult(Box<MpConstValueLoc>, Box<MpConstValueLoc>),
    Sum(Box<MpConstValueLoc>, Box<MpConstValueLoc>),
    Sub(Box<MpConstValueLoc>, Box<MpConstValueLoc>),
    Div(Box<MpConstValueLoc>, Box<MpConstValueLoc>),
    Mod(Box<MpConstValueLoc>, Box<MpConstValueLoc>),
    And(Box<MpConstValueLoc>, Box<MpConstValueLoc>),
    Or(Box<MpConstValueLoc>, Box<MpConstValueLoc>),
    Xor(Box<MpConstValueLoc>, Box<MpConstValueLoc>),
    Neg(Box<MpConstValueLoc>),
    Shl(Box<MpConstValueLoc>, Box<MpConstValueLoc>),
    Shr(Box<MpConstValueLoc>, Box<MpConstValueLoc>),
}

/// A constant expression with the span it was written at.
#[derive(Debug, PartialEq, Eq, PartialOrd, Ord, Hash)]
pub struct MpConstValueLoc(pub MpConstValue, pub Position);

/// A named constant: a label bound to a located expression.
#[derive(Debug, PartialEq)]
pub struct MpConst {
    label: String,
    value: MpConstValueLoc,
    line: u32,
    col: u32,
    line_end: u32,
    col_end: u32,
}

impl MpConst {
    /// The constant's name, at the specification level.
    pub closed spec fn spec_label(self) -> Seq<char> {
        self.label@
    }

    /// The constant's expression, at the specification level.
    pub closed spec fn spec_value(self) -> MpConstValueLoc {
        self.value
    }

    /// The span of the definition, at the specification level.
    pub closed spec fn spec_span(self) -> (u32, u32, u32, u32) {
        (self.line, self.col, self.line_end, self.col_end)
    }

    /// Binds a label to a located constant expression.
    pub fn new(
        label: String,
        value: MpConstValueLoc,
        line: u32,
        col: u32,
        line_end: u32,
        col_end: u32,
    ) -> (r: MpConst)
        ensures
            r.spec_label() == label@,
            r.spec_value() == value,
            r.spec_span() == (line, col, line_end, col_end),
    {
        MpConst { label, value, line, col, line_end, col_end }
    }

    /// The constant's name.
    pub fn label(&self) -> (r: &str)
        ensures
            r@ == self.spec_label(),
    {
        self.label.as_str()
    }

    /// The constant's expression.
    pub fn value(&self) -> (r: &MpConstValueLoc)
        ensures
            *r == self.spec_value(),
    {
        &self.value
    }

    /// The line the definition starts on.
    pub fn line(&self) -> (r: u32)
        ensures
            r == self.spec_span().0,
    {
        self.line
    }

    /// The column the definition starts at.
    pub fn col(&self) -> (r: u32)
        ensures
            r == self.spec_span().1,
    {
        self.col
    }

    /// The line the definition ends on.
    pub fn line_end(&self) -> (r: u32)
        ensures
            r == self.spec_span().2,
    {
        self.line_end
    }

    /// The column the definition ends at.
    pub fn col_end(&self) -> (r: u32)
        ensures
            r == self.spec_span().3,
    {
        self.col_end
    }
}

} // verus!

verus! {

use vstd::string::StringExecFns;

/// The decimal digit character for `d < 10`.
pub open spec fn digit_char(d: u64) -> char {
    ((48 + d) as u8) as char
}

/// The decimal rendering of an unsigned value, most significant digit
/// first.
pub open spec fn dec_digits(x: u64) -> Seq<char>
    decreases x,
{
    if x < 10 {
        seq![digit_char(x)]
    } else {
        dec_digits(x / 10) + seq![digit_char(x % 10)]
    }
}

/// The textual form of a constant expression, operators spaced as they are
/// printed.
pub open spec fn render_spec(v: MpConstValue) -> Seq<char>
    decreases v,
{
    match v {
        MpConstValue::Value(x) => dec_digits(x),
        MpConstValue::Const(s) => s@,
        MpConstValue::Minus(x) => seq!['-'] + render_spec(x.0),
        MpConstValue::Mult(x, y) => render_spec(x.0) + seq![' ', '*', ' '] + render_spec(y.0),
        MpConstValue::Sum(x, y) => render_spec(x.0) + seq![' ', '+', ' '] + render_spec(y.0),
        MpConstValue::Sub(x, y) => render_spec(x.0) + seq![' ', '-', ' '] + render_spec(y.0),
        MpConstValue::Div(x, y) => render_spec(x.0) + seq![' ', '/', ' '] + render_spec(y.0),
        MpConstValue::Mod(x, y) => render_spec(x.0) + seq![' ', '%', ' '] + render_spec(y.0),
        MpConstValue::And(x, y) => render_spec(x.0) + seq![' ', '&', ' '] + render_spec(y.0),
        MpConstValue::Or(x, y) => render_spec(x.0) + seq![' ', '|', ' '] + render_spec(y.0),
        MpConstValue::Xor(x, y) => render_spec(x.0) + seq![' ', '^', ' '] + render_spec(y.0),
        MpConstValue::Neg(x) => seq!['~'] + render_spec(x.0),
        MpConstValue::Shl(x, y) => render_spec(x.0) + seq![' ', '<', '<', ' '] + render_spec(y.0),
        MpConstValue::Shr(x, y) => render_spec(x.0) + seq![' ', '>', '>', ' '] + render_spec(y.0),
    }
}

/// One decimal digit as a string slice.
fn digit_str(d: u64) -> (r: &'static str)
    requires
        d < 10,
    ensures
        r@ == seq![digit_char(d)],
{
    if d == 0 {
        proof {
            reveal_strlit("0");
        }
        let r = "0";
        proof {
            assert(r@ =~= seq![digit_char(0)]);
        }
        r
    } else if d == 1 {
        proof {
            reveal_strlit("1");
        }
        let r = "1";
        proof {
            assert(r@ =~= seq![digit_char(1)]);
        }
        r
    } else if d == 2 {
        proof {
            reveal_strlit("2");
        }
        let r = "2";
        proof {
            assert(r@ =~= seq![digit_char(2)]);
        }
        r
    } else if d == 3 {
        proof {
            reveal_strlit("3");
        }
        let r = "3";
        proof {
            assert(r@ =~= seq![digit_char(3)]);
        }
        r
    } else if d == 4 {
        proof {
            reveal_strlit("4");
        }
        let r = "4";
        proof {
            assert(r@ =~= seq![digit_char(4)]);
        }
        r
    } else if d == 5 {
        proof {
            reveal_strlit("5");
        }
        let r = "5";
        proof {
            assert(r@ =~= seq![digit_char(5)]);
        }
        r
    } else if d == 6 {
        proof {
            reveal_strlit("6");
        }
        let r = "6";
        proof {
            assert(r@ =~= seq![digit_char(6)]);
        }
        r
    } else if d == 7 {
        proof {
            reveal_strlit("7");
        }
        let r = "7";
        proof {
            assert(r@ =~= seq![digit_char(7)]);
        }
        r
    } else if d == 8 {
        proof {
            reveal_strlit("8");
        }
        let r = "8";
        proof {
            assert(r@ =~= seq![digit_char(8)]);
        }
        r
    } else {
        proof {
            reveal_strlit("9");
        }
        let r = "9";
        proof {
            assert(r@ =~= seq![digit_char(9)]);
        }
        r
    }
}

/// Renders an unsigned value in decimal.
fn render_u64(x: u64) -> (r: String)
    ensures
        r@ == dec_digits(x),
    decreases x,
{
    if x < 10 {
        String::from_str(digit_str(x))
    } else {
        let mut s = render_u64(x / 10);
        s.append(digit_str(x % 10));
        s
    }
}

impl MpConstValue {
    /// Renders the expression as assembly text, operators spaced.
    pub fn render(&self) -> (r: String)
        ensures
            r@ == render_spec(*self),
        decreases *self,
    {
        match self {
            MpConstValue::Value(x) => render_u64(*x),
            MpConstValue::Const(s) => s.clone(),
            MpConstValue::Minus(x) => {
                proof {
                    reveal_strlit("-");
                }
                let mut s = String::from_str("-");
                proof {
                    assert(s@ =~= seq!['-']);
                }
                s.append(x.0.render().as_str());
                s
            },
            MpConstValue::Mult(x, y) => {
                let r = join3(x.0.render(), " * ", y.0.render());
                proof {
                    reveal_strlit(" * ");
                    assert(" * "@ =~= seq![' ', '*', ' ']);
                }
                r
            },
            MpConstValue::Sum(x, y) => {
                let r = join3(x.0.render(), " + ", y.0.render());
                proof {
                    reveal_strlit(" + ");
                    assert(" + "@ =~= seq![' ', '+', ' ']);
                }
                r
            },
            MpConstValue::Sub(x, y) => {
                let r = join3(x.0.render(), " - ", y.0.render());
                proof {
                    reveal_strlit(" - ");
                    assert(" - "@ =~= seq![' ', '-', ' ']);
                }
                r
            },
            MpConstValue::Div(x, y) => {
                let r = join3(x.0.render(), " / ", y.0.render());
                proof {
                    reveal_strlit(" / ");
                    assert(" / "@ =~= seq![' ', '/', ' ']);
                }
                r
            },
            MpConstValue::Mod(x, y) => {
                let r = join3(x.0.render(), " % ", y.0.render());
                proof {
                    reveal_strlit(" % ");
                    assert(" % "@ =~= seq![' ', '%', ' ']);
                }
                r
            },
            MpConstValue::And(x, y) => {
                let r = join3(x.0.render(), " & ", y.0.render());
                proof {
                    reveal_strlit(" & ");
                    assert(" & "@ =~= seq![' ', '&', ' ']);
                }
                r
            },
            MpConstValue::Or(x, y) => {
                let r = join3(x.0.render(), " | ", y.0.render());
                proof {
                    reveal_strlit(" | ");
                    assert(" | "@ =~= seq![' ', '|', ' ']);
                }
                r
            },
            MpConstValue::Xor(x, y) => {
                let r = join3(x.0.render(), " ^ ", y.0.render());
                proof {
                    reveal_strlit(" ^ ");
                    assert(" ^ "@ =~= seq![' ', '^', ' ']);
                }
                r
            },
            MpConstValue::Neg(x) => {
                proof {
                    reveal_strlit("~");
                }
                let mut s = String::from_str("~");
                proof {
                    assert(s@ =~= seq!['~']);
                }
                s.append(x.0.render().as_str());
                s
            },
            MpConstValue::Shl(x, y) => {
                let r = join3(x.0.render(), " << ", y.0.render());
                proof {
                    reveal_strlit(" << ");
                    assert(" << "@ =~= seq![' ', '<', '<', ' ']);
                }
                r
            },
            MpConstValue::Shr(x, y) => {
                let r = join3(x.0.render(), " >> ", y.0.render());
                proof {
                    reveal_strlit(" >> ");
                    assert(" >> "@ =~= seq![' ', '>', '>', ' ']);
                }
                r
            },
        }
    }
}

/// Joins two rendered parts around a spaced operator.
fn join3(a: String, op: &str, b: String) -> (r: String)
    ensures
        r@ == a@ + op@ + b@,
{
    let mut s = a;
    s.append(op);
    s.append(b.as_str());
    s
}

} // verus!
