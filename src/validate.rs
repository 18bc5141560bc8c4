use vstd::prelude::*;
use vstd::string::{StrSliceExecFns, StringExecFns};
use crate::problem::{ProblemDetail, ProblemView, STATUS_BAD_REQUEST, STATUS_INTERNAL_ERROR};

verus! {

/// A variable's value as sent by a client or reported by the daemon.
pub enum Value {
    Number(i64),
    Text(String),
}

pub enum ValueView {
    Number(i64),
    Text(Seq<char>),
}

impl View for Value {
    type V = ValueView;

    open spec fn view(&self) -> ValueView {
        match self {
            Value::Number(n) => ValueView::Number(*n),
            Value::Text(s) => ValueView::Text(s@),
        }
    }
}

impl Value {
    pub fn is_numeric(&self) -> (r: bool)
        ensures
            r == (self@ is Number),
    {
        match self {
            Value::Number(_) => true,
            Value::Text(_) => false,
        }
    }

    pub fn is_text(&self) -> (r: bool)
        ensures
            r == (self@ is Text),
    {
        !self.is_numeric()
    }
}

/// The declared write contract of one writable variable.
pub enum VarDetail {
    Number,
    String { max_len: usize },
    Enum { options: Vec<Value> },
    Range { min: Value, max: Value },
}

/// Why a proposed value breaks its variable's write contract.
#[derive(Debug, Clone, Copy, PartialEq, Eq, Structural)]
pub enum RejectKind {
    NotNumber,
    NotText,
    Empty,
    TooLong,
    InvalidOption,
    OutOfRange,
    RangeNotNumber,
    MalformedBounds,
}

/// Unicode `White_Space`, the characters that trimming removes.
pub open spec fn is_white(c: char) -> bool {
    let u = c as u32;
    (0x09 <= u && u <= 0x0d) || u == 0x20 || u == 0x85 || u == 0xa0 || u == 0x1680 || (0x2000
        <= u && u <= 0x200a) || u == 0x2028 || u == 0x2029 || u == 0x202f || u == 0x205f || u
        == 0x3000
}

/// Nothing is left of `s` once leading and trailing whitespace is trimmed.
pub open spec fn blank(s: Seq<char>) -> bool {
    forall|i: int| 0 <= i < s.len() ==> is_white(#[trigger] s[i])
}

pub open spec fn values_view(s: Seq<Value>) -> Seq<ValueView> {
    s.map_values(|v: Value| v@)
}

/// The validator's verdict on `value` for a variable declared with `detail`.
pub open spec fn check_value(detail: VarDetail, value: ValueView) -> Result<(), RejectKind> {
    match detail {
        VarDetail::Number => if value is Number {
            Ok(())
        } else {
            Err(RejectKind::NotNumber)
        },
        VarDetail::String { max_len } => match value {
            ValueView::Text(s) => if blank(s) {
                Err(RejectKind::Empty)
            } else if s.len() > max_len {
                Err(RejectKind::TooLong)
            } else {
                Ok(())
            },
            ValueView::Number(_) => Err(RejectKind::NotText),
        },
        VarDetail::Enum { options } => if values_view(options@).contains(value) {
            Ok(())
        } else {
            Err(RejectKind::InvalidOption)
        },
        VarDetail::Range { min, max } => match value {
            ValueView::Number(v) => match (min, max) {
                (Value::Number(lo), Value::Number(hi)) => if lo <= v && v <= hi {
                    Ok(())
                } else {
                    Err(RejectKind::OutOfRange)
                },
                _ => Err(RejectKind::MalformedBounds),
            },
            ValueView::Text(_) => Err(RejectKind::RangeNotNumber),
        },
    }
}

fn is_white_char(c: char) -> (r: bool)
    ensures
        r == is_white(c),
{
    let u = c as u32;
    (0x09 <= u && u <= 0x0d) || u == 0x20 || u == 0x85 || u == 0xa0 || u == 0x1680 || (0x2000
        <= u && u <= 0x200a) || u == 0x2028 || u == 0x2029 || u == 0x202f || u == 0x205f || u
        == 0x3000
}

pub fn is_blank(s: &str) -> (r: bool)
    ensures
        r == blank(s@),
{
    let n = s.unicode_len();
    let mut i: usize = 0;
    while i < n
        invariant
            n == s@.len(),
            i <= n,
            forall|j: int| 0 <= j < i ==> is_white(#[trigger] s@[j]),
        decreases n - i,
    {
        if !is_white_char(s.get_char(i)) {
            return false;
        }
        i = i + 1;
    }
    true
}

pub fn same_value(a: &Value, b: &Value) -> (r: bool)
    ensures
        r == (a@ == b@),
{
    match (a, b) {
        (Value::Number(x), Value::Number(y)) => *x == *y,
        (Value::Text(x), Value::Text(y)) => *x == *y,
        _ => false,
    }
}

pub fn is_option(options: &Vec<Value>, value: &Value) -> (r: bool)
    ensures
        r == values_view(options@).contains(value@),
{
    let mut i: usize = 0;
    while i < options.len()
        invariant
            i <= options@.len(),
            forall|j: int| 0 <= j < i ==> values_view(options@)[j] != value@,
        decreases options@.len() - i,
    {
        if same_value(&options[i], value) {
            assert(values_view(options@)[i as int] == value@);
            return true;
        }
        i = i + 1;
    }
    assert(!values_view(options@).contains(value@)) by {
        if values_view(options@).contains(value@) {
            let k = choose|k: int| 0 <= k < values_view(options@).len() && values_view(options@)[k] == value@;
            assert(values_view(options@)[k] != value@);
        }
    }
    false
}

/// Accepts or rejects a proposed value against its variable's declared contract.
pub fn validate_value(detail: &VarDetail, value: &Value) -> (r: Result<(), RejectKind>)
    ensures
        r == check_value(*detail, value@),
{
    match detail {
        VarDetail::Number => if value.is_numeric() {
            Ok(())
        } else {
            Err(RejectKind::NotNumber)
        },
        VarDetail::String { max_len } => match value {
            Value::Text(s) => if is_blank(s.as_str()) {
                Err(RejectKind::Empty)
            } else if s.as_str().unicode_len() > *max_len {
                Err(RejectKind::TooLong)
            } else {
                Ok(())
            },
            Value::Number(_) => Err(RejectKind::NotText),
        },
        VarDetail::Enum { options } => if is_option(options, value) {
            Ok(())
        } else {
            Err(RejectKind::InvalidOption)
        },
        VarDetail::Range { min, max } => match value {
            Value::Number(v) => match (min, max) {
                (Value::Number(lo), Value::Number(hi)) => if *lo <= *v && *v <= *hi {
                    Ok(())
                } else {
                    Err(RejectKind::OutOfRange)
                },
                _ => Err(RejectKind::MalformedBounds),
            },
            Value::Text(_) => Err(RejectKind::RangeNotNumber),
        },
    }
}

pub open spec fn digit_char(d: int) -> char {
    if d == 0 { '0' } else if d == 1 { '1' } else if d == 2 { '2' } else if d == 3 { '3' }
    else if d == 4 { '4' } else if d == 5 { '5' } else if d == 6 { '6' } else if d == 7 { '7' }
    else if d == 8 { '8' } else { '9' }
}

pub open spec fn digits_of(n: nat) -> Seq<char>
    decreases n,
{
    if n < 10 {
        seq![digit_char(n as int)]
    } else {
        digits_of(n / 10).push(digit_char((n % 10) as int))
    }
}

/// Decimal notation of an integer, with a leading `-` when negative.
pub open spec fn decimal_of(n: int) -> Seq<char> {
    if n < 0 {
        seq!['-'] + digits_of((-n) as nat)
    } else {
        digits_of(n as nat)
    }
}

/// Relies on `i128::to_string` (through `Display`): plain decimal notation.
#[verifier::external_body]
fn decimal(n: i128) -> (r: String)
    ensures
        r@ == decimal_of(n as int),
{
    n.to_string()
}

/// How a value reads in a message: a number in decimal, a text as it is.
pub open spec fn value_text(v: ValueView) -> Seq<char> {
    match v {
        ValueView::Number(n) => decimal_of(n as int),
        ValueView::Text(s) => s,
    }
}

pub fn render_value(v: &Value) -> (r: String)
    ensures
        r@ == value_text(v@),
{
    match v {
        Value::Number(n) => decimal(*n as i128),
        Value::Text(s) => s.clone(),
    }
}

/// The options quoted and separated by `, `.
pub open spec fn joined(s: Seq<ValueView>) -> Seq<char>
    decreases s.len(),
{
    if s.len() == 0 {
        Seq::empty()
    } else if s.len() == 1 {
        "\""@ + value_text(s[0]) + "\""@
    } else {
        joined(s.drop_last()) + ", \""@ + value_text(s.last()) + "\""@
    }
}

pub open spec fn option_list(s: Seq<ValueView>) -> Seq<char> {
    "["@ + joined(s) + "]"@
}

pub fn render_options(options: &Vec<Value>) -> (r: String)
    ensures
        r@ == option_list(values_view(options@)),
{
    let mut out = String::from_str("[");
    let mut i: usize = 0;
    while i < options.len()
        invariant
            i <= options@.len(),
            out@ == "["@ + joined(values_view(options@).take(i as int)),
        decreases options@.len() - i,
    {
        let ghost before = values_view(options@).take(i as int);
        let ghost after = values_view(options@).take(i + 1);
        assert(after.drop_last() == before);
        assert(after.last() == options@[i as int]@);
        if i == 0 {
            out.append("\"");
        } else {
            out.append(", \"");
        }
        out.append(render_value(&options[i]).as_str());
        out.append("\"");
        proof {
            if i == 0 {
                assert(before.len() == 0);
                assert(out@ == "["@ + ("\""@ + value_text(after[0]) + "\""@));
            }
        }
        i = i + 1;
    }
    assert(values_view(options@).take(options@.len() as int) == values_view(options@));
    out.append("]");
    out
}

/// The API problem reported for a rejected write of `variable`.
pub open spec fn rejection_problem(variable: Seq<char>, detail: VarDetail, kind: RejectKind) -> ProblemView {
    match kind {
        RejectKind::NotNumber => (
            "Invalid value type"@,
            STATUS_BAD_REQUEST,
            Some("'"@ + variable + "' expects a numeric type, but the provided value is not a number."@),
        ),
        RejectKind::NotText => (
            "Invalid value type"@,
            STATUS_BAD_REQUEST,
            Some("'"@ + variable + "' expects a string type, but the provided value is not a string."@),
        ),
        RejectKind::Empty => (
            "Empty value"@,
            STATUS_BAD_REQUEST,
            Some("Value cannot be empty or consist of only whitespaces."@),
        ),
        RejectKind::TooLong => (
            "Out of range"@,
            STATUS_BAD_REQUEST,
            Some("Maximum allowed string length is "@ + decimal_of(
                match detail {
                    VarDetail::String { max_len } => max_len as int,
                    _ => 0,
                },
            ) + "."@),
        ),
        RejectKind::InvalidOption => (
            "Invalid option"@,
            STATUS_BAD_REQUEST,
            Some("'"@ + variable + "' is an enum type, allowed options: "@ + option_list(
                match detail {
                    VarDetail::Enum { options } => values_view(options@),
                    _ => Seq::empty(),
                },
            )),
        ),
        RejectKind::OutOfRange => (
            "Out of range"@,
            STATUS_BAD_REQUEST,
            Some("'"@ + variable + "' is not within the acceptable range ["@ + bound_text(detail, true) + ", "@
                + bound_text(detail, false) + "]"@),
        ),
        RejectKind::RangeNotNumber => (
            "Invalid value type"@,
            STATUS_BAD_REQUEST,
            Some("'"@ + variable + "' expects a numeric value between "@ + bound_text(detail, true) + " and "@
                + bound_text(detail, false) + ", but the provided value is not a number."@),
        ),
        RejectKind::MalformedBounds => (
            "Malformed driver response"@,
            STATUS_INTERNAL_ERROR,
            Some("Cannot process request since the reported min-max values by ups device are not number."@),
        ),
    }
}

/// A bound of a range constraint as a message shows it.
pub open spec fn bound_text(detail: VarDetail, lower: bool) -> Seq<char> {
    match detail {
        VarDetail::Range { min, max } => if lower { value_text(min@) } else { value_text(max@) },
        _ => Seq::empty(),
    }
}

fn range_bound(detail: &VarDetail, lower: bool) -> (r: String)
    ensures
        r@ == bound_text(*detail, lower),
{
    match detail {
        VarDetail::Range { min, max } => if lower { render_value(min) } else { render_value(max) },
        _ => String::new(),
    }
}

pub fn rejection(variable: &str, detail: &VarDetail, kind: RejectKind) -> (p: ProblemDetail)
    ensures
        p@ == rejection_problem(variable@, *detail, kind),
{
    match kind {
        RejectKind::NotNumber => {
            let mut d = String::from_str("'");
            d.append(variable);
            d.append("' expects a numeric type, but the provided value is not a number.");
            ProblemDetail::new("Invalid value type", STATUS_BAD_REQUEST).with_detail(d)
        },
        RejectKind::NotText => {
            let mut d = String::from_str("'");
            d.append(variable);
            d.append("' expects a string type, but the provided value is not a string.");
            ProblemDetail::new("Invalid value type", STATUS_BAD_REQUEST).with_detail(d)
        },
        RejectKind::Empty => ProblemDetail::new("Empty value", STATUS_BAD_REQUEST).with_detail(
            String::from_str("Value cannot be empty or consist of only whitespaces."),
        ),
        RejectKind::TooLong => {
            let limit: usize = match detail {
                VarDetail::String { max_len } => *max_len,
                _ => 0,
            };
            let mut d = String::from_str("Maximum allowed string length is ");
            d.append(decimal(limit as i128).as_str());
            d.append(".");
            ProblemDetail::new("Out of range", STATUS_BAD_REQUEST).with_detail(d)
        },
        RejectKind::InvalidOption => {
            let listed = match detail {
                VarDetail::Enum { options } => render_options(options),
                _ => {
                    let empty: Vec<Value> = Vec::new();
                    proof {
                        assert(values_view(empty@) =~= Seq::<ValueView>::empty());
                    }
                    render_options(&empty)
                },
            };
            let mut d = String::from_str("'");
            d.append(variable);
            d.append("' is an enum type, allowed options: ");
            d.append(listed.as_str());
            ProblemDetail::new("Invalid option", STATUS_BAD_REQUEST).with_detail(d)
        },
        RejectKind::OutOfRange => {
            let mut d = String::from_str("'");
            d.append(variable);
            d.append("' is not within the acceptable range [");
            d.append(range_bound(detail, true).as_str());
            d.append(", ");
            d.append(range_bound(detail, false).as_str());
            d.append("]");
            ProblemDetail::new("Out of range", STATUS_BAD_REQUEST).with_detail(d)
        },
        RejectKind::RangeNotNumber => {
            let mut d = String::from_str("'");
            d.append(variable);
            d.append("' expects a numeric value between ");
            d.append(range_bound(detail, true).as_str());
            d.append(" and ");
            d.append(range_bound(detail, false).as_str());
            d.append(", but the provided value is not a number.");
            ProblemDetail::new("Invalid value type", STATUS_BAD_REQUEST).with_detail(d)
        },
        RejectKind::MalformedBounds => ProblemDetail::new(
            "Malformed driver response",
            STATUS_INTERNAL_ERROR,
        ).with_detail(
            String::from_str(
                "Cannot process request since the reported min-max values by ups device are not number.",
            ),
        ),
    }
}

} // verus!
