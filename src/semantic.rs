use vstd::prelude::*;
use vstd::std_specs::cmp::{PartialOrdIs, PartialOrdSpec};

verus! {

/// Visual severity attached to a rendered value.
#[derive(Debug, Clone, Copy, PartialEq, Eq, Structural)]
pub enum SemanticType {
    Neutral,
    Info,
    Error,
    Warning,
    Success,
}

/// Class name for a severity: `prefix-info`, `prefix-error`, ...; nothing for `Neutral`.
pub open spec fn class_of(prefix: Seq<char>, t: SemanticType) -> Seq<char> {
    match t {
        SemanticType::Neutral => Seq::empty(),
        SemanticType::Info => prefix + "-info"@,
        SemanticType::Error => prefix + "-error"@,
        SemanticType::Warning => prefix + "-warning"@,
        SemanticType::Success => prefix + "-success"@,
    }
}

pub trait SemanticClass {
    spec fn prefix() -> Seq<char>;

    fn error() -> (r: &'static str)
        ensures
            r@ == class_of(Self::prefix(), SemanticType::Error),
    ;

    fn info() -> (r: &'static str)
        ensures
            r@ == class_of(Self::prefix(), SemanticType::Info),
    ;

    fn success() -> (r: &'static str)
        ensures
            r@ == class_of(Self::prefix(), SemanticType::Success),
    ;

    fn warning() -> (r: &'static str)
        ensures
            r@ == class_of(Self::prefix(), SemanticType::Warning),
    ;

    fn from_type(value: SemanticType) -> (r: &'static str)
        ensures
            r@ == class_of(Self::prefix(), value),
    ;
}

/// Severity for a value measured against two thresholds: below `from` is
/// `Success`, from `from` up to `to` is `Warning`, at or above `to` is `Error`.
pub open spec fn range_type(at_from: bool, at_to: bool) -> SemanticType {
    if at_from && at_to {
        SemanticType::Error
    } else if at_from || at_to {
        SemanticType::Warning
    } else {
        SemanticType::Success
    }
}

/// The same thresholds read the other way round: a low value is the bad one.
pub open spec fn inverted_type(t: SemanticType) -> SemanticType {
    match t {
        SemanticType::Success => SemanticType::Error,
        SemanticType::Error => SemanticType::Success,
        other => other,
    }
}

/// The word a severity is written as; nothing for `Neutral`.
pub open spec fn label_of(t: SemanticType) -> Seq<char> {
    match t {
        SemanticType::Neutral => Seq::empty(),
        SemanticType::Info => "Info"@,
        SemanticType::Error => "Error"@,
        SemanticType::Warning => "Warning"@,
        SemanticType::Success => "Success"@,
    }
}

impl SemanticType {
    pub fn label(self) -> (r: &'static str)
        ensures
            r@ == label_of(self),
    {
        match self {
            SemanticType::Neutral => {
                proof {
                    reveal_strlit("");
                }
                ""
            },
            SemanticType::Info => {
                proof {
                    reveal_strlit("Info");
                }
                "Info"
            },
            SemanticType::Error => {
                proof {
                    reveal_strlit("Error");
                }
                "Error"
            },
            SemanticType::Warning => {
                proof {
                    reveal_strlit("Warning");
                }
                "Warning"
            },
            SemanticType::Success => {
                proof {
                    reveal_strlit("Success");
                }
                "Success"
            },
        }
    }

    pub fn as_badge(self) -> (r: &'static str)
        ensures
            r@ == class_of("badge"@, self),
    {
        BadgeStyle::from_type(self)
    }

    pub fn as_text(self) -> (r: &'static str)
        ensures
            r@ == class_of("text"@, self),
    {
        TextStyle::from_type(self)
    }

    pub fn as_fill(self) -> (r: &'static str)
        ensures
            r@ == class_of("fill"@, self),
    {
        FillStyle::from_type(self)
    }

    pub fn as_progress(self) -> (r: &'static str)
        ensures
            r@ == class_of("progress"@, self),
    {
        ProgressStyle::from_type(self)
    }

    pub fn as_alert(self) -> (r: &'static str)
        ensures
            r@ == class_of("alert"@, self),
    {
        AlertStyle::from_type(self)
    }

    pub fn as_input(self) -> (r: &'static str)
        ensures
            r@ == class_of("input"@, self),
    {
        InputStyle::from_type(self)
    }

    pub fn as_select(self) -> (r: &'static str)
        ensures
            r@ == class_of("select"@, self),
    {
        SelectStyle::from_type(self)
    }

    pub fn from_range<T: PartialOrd>(value: T, from: T, to: T) -> (r: SemanticType)
        ensures
            T::obeys_partial_cmp_spec() ==> r == range_type(value.is_ge(&from), value.is_ge(&to)),
    {
        let at_from = value >= from;
        let at_to = value >= to;
        if at_from && at_to {
            SemanticType::Error
        } else if at_from || at_to {
            SemanticType::Warning
        } else {
            SemanticType::Success
        }
    }

    pub fn from_range_inverted<T: PartialOrd>(value: T, from: T, to: T) -> (r: SemanticType)
        ensures
            T::obeys_partial_cmp_spec() ==> r == inverted_type(
                range_type(value.is_ge(&from), value.is_ge(&to)),
            ),
    {
        let at_from = value >= from;
        let at_to = value >= to;
        if at_from && at_to {
            SemanticType::Success
        } else if at_from || at_to {
            SemanticType::Warning
        } else {
            SemanticType::Error
        }
    }
}

pub struct TextStyle;

impl SemanticClass for TextStyle {
    open spec fn prefix() -> Seq<char> {
        "text"@
    }

    fn error() -> (r: &'static str) {
        proof {
            reveal_strlit("text-error");
            reveal_strlit("text");
            reveal_strlit("-error");
        }
        "text-error"
    }

    fn info() -> (r: &'static str) {
        proof {
            reveal_strlit("text-info");
            reveal_strlit("text");
            reveal_strlit("-info");
        }
        "text-info"
    }

    fn success() -> (r: &'static str) {
        proof {
            reveal_strlit("text-success");
            reveal_strlit("text");
            reveal_strlit("-success");
        }
        "text-success"
    }

    fn warning() -> (r: &'static str) {
        proof {
            reveal_strlit("text-warning");
            reveal_strlit("text");
            reveal_strlit("-warning");
        }
        "text-warning"
    }

    fn from_type(value: SemanticType) -> (r: &'static str) {
        match value {
            SemanticType::Neutral => {
                proof {
                    reveal_strlit("");
                }
                ""
            },
            SemanticType::Info => Self::info(),
            SemanticType::Error => Self::error(),
            SemanticType::Warning => Self::warning(),
            SemanticType::Success => Self::success(),
        }
    }
}

pub struct BadgeStyle;

impl SemanticClass for BadgeStyle {
    open spec fn prefix() -> Seq<char> {
        "badge"@
    }

    fn error() -> (r: &'static str) {
        proof {
            reveal_strlit("badge-error");
            reveal_strlit("badge");
            reveal_strlit("-error");
        }
        "badge-error"
    }

    fn info() -> (r: &'static str) {
        proof {
            reveal_strlit("badge-info");
            reveal_strlit("badge");
            reveal_strlit("-info");
        }
        "badge-info"
    }

    fn success() -> (r: &'static str) {
        proof {
            reveal_strlit("badge-success");
            reveal_strlit("badge");
            reveal_strlit("-success");
        }
        "badge-success"
    }

    fn warning() -> (r: &'static str) {
        proof {
            reveal_strlit("badge-warning");
            reveal_strlit("badge");
            reveal_strlit("-warning");
        }
        "badge-warning"
    }

    fn from_type(value: SemanticType) -> (r: &'static str) {
        match value {
            SemanticType::Neutral => {
                proof {
                    reveal_strlit("");
                }
                ""
            },
            SemanticType::Info => Self::info(),
            SemanticType::Error => Self::error(),
            SemanticType::Warning => Self::warning(),
            SemanticType::Success => Self::success(),
        }
    }
}

pub struct FillStyle;

impl SemanticClass for FillStyle {
    open spec fn prefix() -> Seq<char> {
        "fill"@
    }

    fn error() -> (r: &'static str) {
        proof {
            reveal_strlit("fill-error");
            reveal_strlit("fill");
            reveal_strlit("-error");
        }
        "fill-error"
    }

    fn info() -> (r: &'static str) {
        proof {
            reveal_strlit("fill-info");
            reveal_strlit("fill");
            reveal_strlit("-info");
        }
        "fill-info"
    }

    fn success() -> (r: &'static str) {
        proof {
            reveal_strlit("fill-success");
            reveal_strlit("fill");
            reveal_strlit("-success");
        }
        "fill-success"
    }

    fn warning() -> (r: &'static str) {
        proof {
            reveal_strlit("fill-warning");
            reveal_strlit("fill");
            reveal_strlit("-warning");
        }
        "fill-warning"
    }

    fn from_type(value: SemanticType) -> (r: &'static str) {
        match value {
            SemanticType::Neutral => {
                proof {
                    reveal_strlit("");
                }
                ""
            },
            SemanticType::Info => Self::info(),
            SemanticType::Error => Self::error(),
            SemanticType::Warning => Self::warning(),
            SemanticType::Success => Self::success(),
        }
    }
}

pub struct ProgressStyle;

impl SemanticClass for ProgressStyle {
    open spec fn prefix() -> Seq<char> {
        "progress"@
    }

    fn error() -> (r: &'static str) {
        proof {
            reveal_strlit("progress-error");
            reveal_strlit("progress");
            reveal_strlit("-error");
        }
        "progress-error"
    }

    fn info() -> (r: &'static str) {
        proof {
            reveal_strlit("progress-info");
            reveal_strlit("progress");
            reveal_strlit("-info");
        }
        "progress-info"
    }

    fn success() -> (r: &'static str) {
        proof {
            reveal_strlit("progress-success");
            reveal_strlit("progress");
            reveal_strlit("-success");
        }
        "progress-success"
    }

    fn warning() -> (r: &'static str) {
        proof {
            reveal_strlit("progress-warning");
            reveal_strlit("progress");
            reveal_strlit("-warning");
        }
        "progress-warning"
    }

    fn from_type(value: SemanticType) -> (r: &'static str) {
        match value {
            SemanticType::Neutral => {
                proof {
                    reveal_strlit("");
                }
                ""
            },
            SemanticType::Info => Self::info(),
            SemanticType::Error => Self::error(),
            SemanticType::Warning => Self::warning(),
            SemanticType::Success => Self::success(),
        }
    }
}

pub struct AlertStyle;

impl SemanticClass for AlertStyle {
    open spec fn prefix() -> Seq<char> {
        "alert"@
    }

    fn error() -> (r: &'static str) {
        proof {
            reveal_strlit("alert-error");
            reveal_strlit("alert");
            reveal_strlit("-error");
        }
        "alert-error"
    }

    fn info() -> (r: &'static str) {
        proof {
            reveal_strlit("alert-info");
            reveal_strlit("alert");
            reveal_strlit("-info");
        }
        "alert-info"
    }

    fn success() -> (r: &'static str) {
        proof {
            reveal_strlit("alert-success");
            reveal_strlit("alert");
            reveal_strlit("-success");
        }
        "alert-success"
    }

    fn warning() -> (r: &'static str) {
        proof {
            reveal_strlit("alert-warning");
            reveal_strlit("alert");
            reveal_strlit("-warning");
        }
        "alert-warning"
    }

    fn from_type(value: SemanticType) -> (r: &'static str) {
        match value {
            SemanticType::Neutral => {
                proof {
                    reveal_strlit("");
                }
                ""
            },
            SemanticType::Info => Self::info(),
            SemanticType::Error => Self::error(),
            SemanticType::Warning => Self::warning(),
            SemanticType::Success => Self::success(),
        }
    }
}

pub struct InputStyle;

impl SemanticClass for InputStyle {
    open spec fn prefix() -> Seq<char> {
        "input"@
    }

    fn error() -> (r: &'static str) {
        proof {
            reveal_strlit("input-error");
            reveal_strlit("input");
            reveal_strlit("-error");
        }
        "input-error"
    }

    fn info() -> (r: &'static str) {
        proof {
            reveal_strlit("input-info");
            reveal_strlit("input");
            reveal_strlit("-info");
        }
        "input-info"
    }

    fn success() -> (r: &'static str) {
        proof {
            reveal_strlit("input-success");
            reveal_strlit("input");
            reveal_strlit("-success");
        }
        "input-success"
    }

    fn warning() -> (r: &'static str) {
        proof {
            reveal_strlit("input-warning");
            reveal_strlit("input");
            reveal_strlit("-warning");
        }
        "input-warning"
    }

    fn from_type(value: SemanticType) -> (r: &'static str) {
        match value {
            SemanticType::Neutral => {
                proof {
                    reveal_strlit("");
                }
                ""
            },
            SemanticType::Info => Self::info(),
            SemanticType::Error => Self::error(),
            SemanticType::Warning => Self::warning(),
            SemanticType::Success => Self::success(),
        }
    }
}

pub struct SelectStyle;

impl SemanticClass for SelectStyle {
    open spec fn prefix() -> Seq<char> {
        "select"@
    }

    fn error() -> (r: &'static str) {
        proof {
            reveal_strlit("select-error");
            reveal_strlit("select");
            reveal_strlit("-error");
        }
        "select-error"
    }

    fn info() -> (r: &'static str) {
        proof {
            reveal_strlit("select-info");
            reveal_strlit("select");
            reveal_strlit("-info");
        }
        "select-info"
    }

    fn success() -> (r: &'static str) {
        proof {
            reveal_strlit("select-success");
            reveal_strlit("select");
            reveal_strlit("-success");
        }
        "select-success"
    }

    fn warning() -> (r: &'static str) {
        proof {
            reveal_strlit("select-warning");
            reveal_strlit("select");
            reveal_strlit("-warning");
        }
        "select-warning"
    }

    fn from_type(value: SemanticType) -> (r: &'static str) {
        match value {
            SemanticType::Neutral => {
                proof {
                    reveal_strlit("");
                }
                ""
            },
            SemanticType::Info => Self::info(),
            SemanticType::Error => Self::error(),
            SemanticType::Warning => Self::warning(),
            SemanticType::Success => Self::success(),
        }
    }
}

} // verus!
