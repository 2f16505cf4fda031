use std::collections::HashMap;
use vstd::prelude::*;
use vstd::std_specs::hash::group_hash_axioms;

verus! {

broadcast use group_hash_axioms;

/// The catalog of diagnostics that an ill-formed program can raise.
///
/// `InternalErr` is the one exception: it reports a failure of an earlier
/// phase (or of this crate itself), never a user error.
#[derive(Debug, Clone, Copy, PartialEq, Eq, Structural)]
pub enum Msg {
    // scanning
    InvalidNumber,
    InvalidChar,
    DoubleToken,
    UnexpectedChar,
    // parsing
    VarDefEmpty,
    ExpectExpr,
    ExpectTypeName,
    ExpectVarName,
    ParserExpect,
    // typechecking and interpretation
    AltBranch,
    DupArgs,
    FuncDefScope,
    ReturnScope,
    AssignRetype,
    VarUndefined,
    AssignUndefined,
    ConstScope,
    InitType,
    LoopReq,
    TypeConvert,
    ConvertAirty,
    FuncAirty,
    ParamType,
    ReturnType,
    NoReturn,
    FuncUndefined,
    TypeEval,
    AccessUninit,
    ExpectType,
    TypeMatch,
    ReturnDiverge,
    RedeclareVar,
    RedeclareFunc,
    RedeclareConst,
    // runtime conditions that stop interpretation cleanly
    DivByZero,
    StepLimit,
    FloatUnsupported,
    // errors that are NOT user errors
    InternalErr,
}

impl Msg {
    /// The message template for this diagnostic, with `{}` holes for its
    /// arguments.
    pub fn msg(&self) -> (r: &'static str)
        ensures
            r@ == self.template(),
    {
        match self {
            Msg::InvalidNumber => "invalid number: '{}'",
            Msg::InvalidChar => "invalid character",
            Msg::DoubleToken => "character '{}' is invalid, maybe you meant to follow with '{}'?",
            Msg::UnexpectedChar => "unexpected character '{}'",
            Msg::VarDefEmpty => "variable definitions must contain either a type or expression.",
            Msg::ExpectExpr => "expected an expression",
            Msg::ExpectTypeName => "expected a type name (int, float, bool, or char)",
            Msg::ExpectVarName => "expected a variable name",
            Msg::ParserExpect => "expected '{}'",
            Msg::AltBranch => "some branches do not have a return value",
            Msg::DupArgs => "function arguments must have unique names",
            Msg::FuncDefScope => "functions must be declared in the global scope",
            Msg::ConstScope => "constants must be declared in global scope",
            Msg::ReturnScope => "must be inside a function",
            Msg::LoopReq => "must be inside a while block",
            Msg::AssignRetype => "'{}' previously defined with type '{}', cannot assign a new value with type '{}'",
            Msg::VarUndefined => "undefined variable",
            Msg::FuncUndefined => "undefined function",
            Msg::AssignUndefined => "assignment to undefined variable",
            Msg::InitType => "initial value and type declaration do not match",
            Msg::TypeConvert => "invalid type conversion",
            Msg::ConvertAirty => "type conversions take a single argument",
            Msg::FuncAirty => "'{}' defined with {} parameters, but called with {}",
            Msg::ParamType => "parameter '{}' defined with type '{}', but called with type '{}'",
            Msg::ReturnType => "'{}' defined with return type '{}', but returned type '{}'",
            Msg::NoReturn => "function did not return a value",
            Msg::TypeEval => "type names cannot be used as values",
            Msg::AccessUninit => "cannot read uninitialized variable, {}",
            Msg::ExpectType => "expected types: {}",
            Msg::TypeMatch => "differing argument types",
            Msg::ReturnDiverge => "multiple return types",
            Msg::RedeclareVar => "'{}' is previously declared as a variable",
            Msg::RedeclareConst => "'{}' is previously declared as a constant",
            Msg::RedeclareFunc => "'{}' is previously declared as a function",
            Msg::DivByZero => "division by zero",
            Msg::StepLimit => "evaluation step limit exceeded",
            Msg::FloatUnsupported => "float arithmetic is not supported by this interpreter",
            Msg::InternalErr => "This is an internal error! {}",
        }
    }

    pub open spec fn template(self) -> Seq<char> {
        match self {
            Msg::InvalidNumber => "invalid number: '{}'"@,
            Msg::InvalidChar => "invalid character"@,
            Msg::DoubleToken => "character '{}' is invalid, maybe you meant to follow with '{}'?"@,
            Msg::UnexpectedChar => "unexpected character '{}'"@,
            Msg::VarDefEmpty => "variable definitions must contain either a type or expression."@,
            Msg::ExpectExpr => "expected an expression"@,
            Msg::ExpectTypeName => "expected a type name (int, float, bool, or char)"@,
            Msg::ExpectVarName => "expected a variable name"@,
            Msg::ParserExpect => "expected '{}'"@,
            Msg::AltBranch => "some branches do not have a return value"@,
            Msg::DupArgs => "function arguments must have unique names"@,
            Msg::FuncDefScope => "functions must be declared in the global scope"@,
            Msg::ConstScope => "constants must be declared in global scope"@,
            Msg::ReturnScope => "must be inside a function"@,
            Msg::LoopReq => "must be inside a while block"@,
            Msg::AssignRetype => "'{}' previously defined with type '{}', cannot assign a new value with type '{}'"@,
            Msg::VarUndefined => "undefined variable"@,
            Msg::FuncUndefined => "undefined function"@,
            Msg::AssignUndefined => "assignment to undefined variable"@,
            Msg::InitType => "initial value and type declaration do not match"@,
            Msg::TypeConvert => "invalid type conversion"@,
            Msg::ConvertAirty => "type conversions take a single argument"@,
            Msg::FuncAirty => "'{}' defined with {} parameters, but called with {}"@,
            Msg::ParamType => "parameter '{}' defined with type '{}', but called with type '{}'"@,
            Msg::ReturnType => "'{}' defined with return type '{}', but returned type '{}'"@,
            Msg::NoReturn => "function did not return a value"@,
            Msg::TypeEval => "type names cannot be used as values"@,
            Msg::AccessUninit => "cannot read uninitialized variable, {}"@,
            Msg::ExpectType => "expected types: {}"@,
            Msg::TypeMatch => "differing argument types"@,
            Msg::ReturnDiverge => "multiple return types"@,
            Msg::RedeclareVar => "'{}' is previously declared as a variable"@,
            Msg::RedeclareConst => "'{}' is previously declared as a constant"@,
            Msg::RedeclareFunc => "'{}' is previously declared as a function"@,
            Msg::DivByZero => "division by zero"@,
            Msg::StepLimit => "evaluation step limit exceeded"@,
            Msg::FloatUnsupported => "float arithmetic is not supported by this interpreter"@,
            Msg::InternalErr => "This is an internal error! {}"@,
        }
    }
}

/// A diagnostic as the passes raise it: a message kind, the identifier of
/// the offending node, and the arguments that fill the template's holes.
#[derive(Debug)]
pub struct Diagnostic {
    pub kind: Msg,
    pub id: usize,
    pub args: Vec<String>,
}

/// The specification-level form of a [`Diagnostic`].
pub ghost struct SpecDiagnostic {
    pub kind: Msg,
    pub id: usize,
    pub args: Seq<Seq<char>>,
}

impl View for Diagnostic {
    type V = SpecDiagnostic;

    open spec fn view(&self) -> SpecDiagnostic {
        SpecDiagnostic {
            kind: self.kind,
            id: self.id,
            args: self.args@.map(|i: int, s: String| s@),
        }
    }
}

/// The rendering of a message template with `{}` holes filled, in order,
/// with the given arguments.
pub uninterp spec fn curly_of(template: Seq<char>, args: Seq<Seq<char>>) -> Seq<char>;

/// Relies on dynfmt's `SimpleCurlyFormat`: filling the holes of a template
/// is a function of the template and the arguments alone.  A template that
/// the formatter refuses renders as the empty string.
#[verifier::external_body]
fn curly_format(template: &str, args: &Vec<String>) -> (r: String)
    ensures
        r@ == curly_of(template@, args@.map(|i: int, s: String| s@)),
{
    match <dynfmt::SimpleCurlyFormat as dynfmt::Format>::format(
        &dynfmt::SimpleCurlyFormat,
        template,
        args.as_slice(),
    ) {
        Ok(rendered) => rendered.into_owned(),
        Err(_) => String::new(),
    }
}

/// The decimal digit for one value below ten.
pub open spec fn spec_digit(d: nat) -> char {
    if d == 0 {
        '0'
    } else if d == 1 {
        '1'
    } else if d == 2 {
        '2'
    } else if d == 3 {
        '3'
    } else if d == 4 {
        '4'
    } else if d == 5 {
        '5'
    } else if d == 6 {
        '6'
    } else if d == 7 {
        '7'
    } else if d == 8 {
        '8'
    } else {
        '9'
    }
}

/// The decimal rendering of a number, most significant digit first.
pub open spec fn decimal_of(n: nat) -> Seq<char>
    decreases n,
{
    if n < 10 {
        seq![spec_digit(n)]
    } else {
        decimal_of(n / 10).push(spec_digit(n % 10))
    }
}

/// The characters of a stack of digits, least significant first.
pub open spec fn digits_view(ds: Seq<usize>) -> Seq<char> {
    ds.map(|i: int, d: usize| spec_digit(d as nat))
}

/// One decimal digit as text.
fn digit_str(d: usize) -> (r: &'static str)
    requires
        d < 10,
    ensures
        r@ == seq![spec_digit(d as nat)],
{
    proof {
        reveal_strlit("0");
        reveal_strlit("1");
        reveal_strlit("2");
        reveal_strlit("3");
        reveal_strlit("4");
        reveal_strlit("5");
        reveal_strlit("6");
        reveal_strlit("7");
        reveal_strlit("8");
        reveal_strlit("9");
    }
    match d {
        0 => {
            proof {
                assert("0"@ =~= seq![spec_digit(d as nat)]);
            }
            "0"
        },
        1 => {
            proof {
                assert("1"@ =~= seq![spec_digit(d as nat)]);
            }
            "1"
        },
        2 => {
            proof {
                assert("2"@ =~= seq![spec_digit(d as nat)]);
            }
            "2"
        },
        3 => {
            proof {
                assert("3"@ =~= seq![spec_digit(d as nat)]);
            }
            "3"
        },
        4 => {
            proof {
                assert("4"@ =~= seq![spec_digit(d as nat)]);
            }
            "4"
        },
        5 => {
            proof {
                assert("5"@ =~= seq![spec_digit(d as nat)]);
            }
            "5"
        },
        6 => {
            proof {
                assert("6"@ =~= seq![spec_digit(d as nat)]);
            }
            "6"
        },
        7 => {
            proof {
                assert("7"@ =~= seq![spec_digit(d as nat)]);
            }
            "7"
        },
        8 => {
            proof {
                assert("8"@ =~= seq![spec_digit(d as nat)]);
            }
            "8"
        },
        _ => {
            proof {
                assert("9"@ =~= seq![spec_digit(d as nat)]);
            }
            "9"
        },
    }
}

/// Render a number in decimal.
pub(crate) fn usize_string(n: usize) -> (r: String)
    ensures
        r@ == decimal_of(n as nat),
{
    let mut digits: Vec<usize> = Vec::new();
    let mut cur: usize = n;
    proof {
        assert(digits_view(digits@).reverse() =~= Seq::<char>::empty());
        assert(decimal_of(n as nat) =~= decimal_of(cur as nat) + digits_view(digits@).reverse());
    }
    while cur >= 10
        invariant
            decimal_of(n as nat) =~= decimal_of(cur as nat) + digits_view(digits@).reverse(),
            forall|k: int| 0 <= k < digits@.len() ==> #[trigger] digits@[k] < 10,
        decreases cur,
    {
        let ghost digits_pre = digits@;
        let ghost cur_pre = cur;
        let d = cur % 10;
        digits.push(d);
        cur = cur / 10;
        proof {
            assert(decimal_of(cur_pre as nat) == decimal_of((cur_pre / 10) as nat).push(
                spec_digit((cur_pre % 10) as nat),
            ));
            assert(digits_view(digits@) =~= digits_view(digits_pre).push(
                spec_digit(d as nat),
            ));
            assert(digits_view(digits@).reverse() =~= seq![spec_digit(d as nat)] + digits_view(
                digits_pre,
            ).reverse());
            assert(decimal_of(n as nat) =~= decimal_of(cur as nat) + digits_view(
                digits@,
            ).reverse());
        }
    }
    let mut r: String = digit_str(cur).to_owned();
    proof {
        assert(r@ + digits_view(digits@).reverse() =~= decimal_of(n as nat));
    }
    while digits.len() > 0
        invariant
            r@ + digits_view(digits@).reverse() =~= decimal_of(n as nat),
            forall|k: int| 0 <= k < digits@.len() ==> #[trigger] digits@[k] < 10,
        decreases digits@.len(),
    {
        let ghost digits_pre = digits@;
        let ghost r_pre = r@;
        let d = digits.pop().unwrap();
        r.append(digit_str(d));
        proof {
            assert(digits_pre == digits@.push(d));
            assert(digits_view(digits_pre) =~= digits_view(digits@).push(spec_digit(d as nat)));
            assert(digits_view(digits_pre).reverse() =~= seq![spec_digit(d as nat)]
                + digits_view(digits@).reverse());
            assert(r@ =~= r_pre + seq![spec_digit(d as nat)]);
            assert(r@ + digits_view(digits@).reverse() =~= decimal_of(n as nat));
        }
    }
    proof {
        assert(digits_view(digits@).reverse() =~= Seq::<char>::empty());
        assert(r@ =~= decimal_of(n as nat));
    }
    r
}

/// A label surrounded by the ANSI escape codes for red text.
pub open spec fn red_wrap(s: Seq<char>) -> Seq<char> {
    "\x1b[31m"@ + s + "\x1b[0m"@
}

/// An error, pointing at source-code indices.
#[derive(Debug)]
pub struct WabbitError {
    /// error text
    pub label: String,
    /// source code indices
    pub range: (usize, usize),
}

impl Clone for WabbitError {
    fn clone(&self) -> (r: Self)
        ensures
            r == *self,
    {
        WabbitError { label: self.label.clone(), range: self.range }
    }
}

impl WabbitError {
    pub closed spec fn spec_range(&self) -> (usize, usize) {
        self.range
    }

    /// Build an error whose label is painted red.
    pub fn new(label: &str, range: (usize, usize)) -> (r: Self)
        ensures
            r.label@ == red_wrap(label@),
            r.spec_range() == range,
    {
        let mut painted = "\x1b[31m".to_owned();
        painted.append(label);
        painted.append("\x1b[0m");
        WabbitError { label: painted, range }
    }

    /// The source-code range this error points at.
    pub fn range(&self) -> (r: (usize, usize))
        ensures
            r == self.spec_range(),
    {
        self.range
    }
}

/// The range that the map assigns to a node identifier.  An identifier the
/// map does not know resolves to the placeholder range `(0, 0)`: the
/// diagnostic itself is always surfaced with its full label, only its
/// source position degrades.
pub open spec fn spec_range_of(ranges: Map<usize, (usize, usize)>, id: usize) -> (usize, usize) {
    if ranges.contains_key(id) {
        ranges[id]
    } else {
        (0, 0)
    }
}

/// The label that a diagnostic renders to: its template filled with its
/// arguments, painted red.
pub open spec fn spec_label_of(d: SpecDiagnostic) -> Seq<char> {
    red_wrap(curly_of(d.kind.template(), d.args))
}

impl Diagnostic {
    /// Render this diagnostic to a user-facing error, resolving the node
    /// identifier through the externally supplied range map.  An identifier
    /// the map does not know renders at the placeholder range `(0, 0)`; the
    /// error and its label are reported either way, never dropped.
    pub fn to_error(&self, ranges: &HashMap<usize, (usize, usize)>) -> (r: WabbitError)
        ensures
            r.label@ == spec_label_of(self@),
            r.spec_range() == spec_range_of(ranges@, self.id),
    {
        let rendered = curly_format(self.kind.msg(), &self.args);
        let range: (usize, usize) = match ranges.get(&self.id) {
            Some(r) => *r,
            None => (0, 0),
        };
        WabbitError::new(rendered.as_str(), range)
    }
}

/// A report of one or more errors against the source text they arose in.
#[derive(Debug)]
pub struct WabbitErrorReporter {
    /// vector of errors
    errors: Vec<WabbitError>,
    /// path to the source file
    path: String,
    /// raw source code
    source: String,
    /// stage at which the errors occurred
    title: String,
}

impl WabbitErrorReporter {
    pub fn new(errors: Vec<WabbitError>, path: String, source: String, title: &str) -> (r: Self)
        ensures
            r.errors() == errors@,
            r.path()@ == path@,
            r.source()@ == source@,
            r.title()@ == title@,
    {
        WabbitErrorReporter { errors, path, source, title: title.to_owned() }
    }

    pub closed spec fn errors(&self) -> Seq<WabbitError> {
        self.errors@
    }

    pub closed spec fn path(&self) -> String {
        self.path
    }

    pub closed spec fn source(&self) -> String {
        self.source
    }

    pub closed spec fn title(&self) -> String {
        self.title
    }

    /// The recorded errors.
    pub fn borrow_errors(&self) -> (r: &Vec<WabbitError>)
        ensures
            r@ == self.errors(),
    {
        &self.errors
    }

    /// The recorded source path.
    pub fn borrow_path(&self) -> (r: &String)
        ensures
            r == self.path(),
    {
        &self.path
    }

    /// The recorded source text.
    pub fn borrow_source(&self) -> (r: &String)
        ensures
            r == self.source(),
    {
        &self.source
    }

    /// The recorded stage title.
    pub fn borrow_title(&self) -> (r: &String)
        ensures
            r == self.title(),
    {
        &self.title
    }
}

} // verus!
