//! Typed coercion of input strings, formatting of output values, and the
//! required/optional resolution of an input from its environment value.
use vstd::prelude::*;

use crate::decimal::{
    decimal_text, i32_parse_message, i64_parse_message, lemma_decimal_text_value,
    u32_parse_message, u64_parse_message, format_signed, format_unsigned, int_text_in, parse_i32, parse_i64, parse_u32,
    parse_u64,
};
use crate::sealed::Scalar;
use crate::text::{ascii_lower, lowercase, lowered, same_text, trim, trimmed};

verus! {

/// Failure to read a typed input.
#[derive(Debug, PartialEq, Eq)]
pub enum IoError {
    /// A required input had no usable value; holds the input's name.
    MissingRequired(String),
    /// A value could not be coerced to the requested type; holds a message.
    ParseError(String),
}

/// Failure to read a variable from the environment.
#[derive(Debug, Clone, Copy, PartialEq, Eq)]
pub enum VarError {
    /// The variable is not set.
    NotPresent,
    /// The variable is set but its value is not valid Unicode.
    NotUnicode,
}

impl IoError {
    /// The human-readable description of the error.
    pub fn to_string(&self) -> (r: String)
        ensures
            r@ == match self {
                IoError::MissingRequired(name) => "required input '"@ + name@ + "' is missing"@,
                IoError::ParseError(msg) => "parse error: "@ + msg@,
            },
    {
        match self {
            IoError::MissingRequired(name) => {
                let mut r = String::from_str("required input '");
                r.append(name.as_str());
                r.append("' is missing");
                r
            },
            IoError::ParseError(msg) => {
                let mut r = String::from_str("parse error: ");
                r.append(msg.as_str());
                r
            },
        }
    }
}

/// A type that can be parsed from an input string.
pub trait FromInput: Sized + DeepView {
    /// The value that the text `s` denotes, or `None` where `s` is not valid text for the type.
    spec fn parse_spec(s: Seq<char>) -> Option<<Self as DeepView>::V>;

    /// The message of the parse error for the text `s`, where `s` does not parse.
    spec fn error_spec(s: Seq<char>) -> Seq<char>;

    fn from_input(s: &str) -> (r: Result<Self, IoError>)
        ensures
            match r {
                Ok(v) => Self::parse_spec(s@) == Some(v.deep_view()),
                Err(e) => Self::parse_spec(s@) is None && (e matches IoError::ParseError(m) && m@
                    == Self::error_spec(s@)),
            },
    ;
}

/// The boolean that a lowercased text denotes.
pub open spec fn bool_of_lowered(l: Seq<char>) -> Option<bool> {
    if l == "true"@ || l == "1"@ || l == "yes"@ {
        Some(true)
    } else if l == "false"@ || l == "0"@ || l == "no"@ || l.len() == 0 {
        Some(false)
    } else {
        None
    }
}

/// Decides a boolean from text that is already lowercased.
pub fn bool_from_lowered(l: &str) -> (r: Option<bool>)
    ensures
        r == bool_of_lowered(l@),
{
    if same_text(l, "true") || same_text(l, "1") || same_text(l, "yes") {
        Some(true)
    } else if same_text(l, "false") || same_text(l, "0") || same_text(l, "no") || l.is_empty() {
        Some(false)
    } else {
        None
    }
}

pub open spec fn as_i32(v: Option<int>) -> Option<i32> {
    match v {
        Some(x) => Some(x as i32),
        None => None,
    }
}

pub open spec fn as_i64(v: Option<int>) -> Option<i64> {
    match v {
        Some(x) => Some(x as i64),
        None => None,
    }
}

pub open spec fn as_u32(v: Option<int>) -> Option<u32> {
    match v {
        Some(x) => Some(x as u32),
        None => None,
    }
}

pub open spec fn as_u64(v: Option<int>) -> Option<u64> {
    match v {
        Some(x) => Some(x as u64),
        None => None,
    }
}

impl FromInput for String {
    open spec fn parse_spec(s: Seq<char>) -> Option<Seq<char>> {
        Some(s)
    }

    /// Every text parses as a text.
    open spec fn error_spec(s: Seq<char>) -> Seq<char> {
        Seq::empty()
    }

    fn from_input(s: &str) -> (r: Result<String, IoError>) {
        Ok(String::from_str(s))
    }
}

impl FromInput for bool {
    open spec fn parse_spec(s: Seq<char>) -> Option<bool> {
        bool_of_lowered(lowered(s))
    }

    open spec fn error_spec(s: Seq<char>) -> Seq<char> {
        "Cannot parse '"@ + s + "' as bool"@
    }

    fn from_input(s: &str) -> (r: Result<bool, IoError>) {
        let l = lowercase(s);
        match bool_from_lowered(l.as_str()) {
            Some(b) => Ok(b),
            None => {
                let mut msg = String::from_str("Cannot parse '");
                msg.append(s);
                msg.append("' as bool");
                Err(IoError::ParseError(msg))
            },
        }
    }
}

impl FromInput for i32 {
    open spec fn parse_spec(s: Seq<char>) -> Option<i32> {
        as_i32(int_text_in(s, true, i32::MIN as int, i32::MAX as int))
    }

    open spec fn error_spec(s: Seq<char>) -> Seq<char> {
        i32_parse_message(s)
    }

    fn from_input(s: &str) -> (r: Result<i32, IoError>) {
        match parse_i32(s) {
            Ok(v) => Ok(v),
            Err(msg) => Err(IoError::ParseError(msg)),
        }
    }
}

impl FromInput for u32 {
    open spec fn parse_spec(s: Seq<char>) -> Option<u32> {
        as_u32(int_text_in(s, false, 0, u32::MAX as int))
    }

    open spec fn error_spec(s: Seq<char>) -> Seq<char> {
        u32_parse_message(s)
    }

    fn from_input(s: &str) -> (r: Result<u32, IoError>) {
        match parse_u32(s) {
            Ok(v) => Ok(v),
            Err(msg) => Err(IoError::ParseError(msg)),
        }
    }
}

impl FromInput for i64 {
    open spec fn parse_spec(s: Seq<char>) -> Option<i64> {
        as_i64(int_text_in(s, true, i64::MIN as int, i64::MAX as int))
    }

    open spec fn error_spec(s: Seq<char>) -> Seq<char> {
        i64_parse_message(s)
    }

    fn from_input(s: &str) -> (r: Result<i64, IoError>) {
        match parse_i64(s) {
            Ok(v) => Ok(v),
            Err(msg) => Err(IoError::ParseError(msg)),
        }
    }
}

impl FromInput for u64 {
    open spec fn parse_spec(s: Seq<char>) -> Option<u64> {
        as_u64(int_text_in(s, false, 0, u64::MAX as int))
    }

    open spec fn error_spec(s: Seq<char>) -> Seq<char> {
        u64_parse_message(s)
    }

    fn from_input(s: &str) -> (r: Result<u64, IoError>) {
        match parse_u64(s) {
            Ok(v) => Ok(v),
            Err(msg) => Err(IoError::ParseError(msg)),
        }
    }
}

/// An empty text is an absent value; any other text is parsed as `T`.
impl<T: FromInput> FromInput for Option<T> {
    open spec fn parse_spec(s: Seq<char>) -> Option<Option<<T as DeepView>::V>> {
        if s.len() == 0 {
            Some(None)
        } else {
            match T::parse_spec(s) {
                Some(v) => Some(Some(v)),
                None => None,
            }
        }
    }

    open spec fn error_spec(s: Seq<char>) -> Seq<char> {
        T::error_spec(s)
    }

    fn from_input(s: &str) -> (r: Result<Option<T>, IoError>) {
        if s.is_empty() {
            Ok(None)
        } else {
            match T::from_input(s) {
                Ok(v) => Ok(Some(v)),
                Err(e) => Err(e),
            }
        }
    }
}

/// A type whose values can be written as output strings.
pub trait ToOutput: DeepView {
    /// The text written for a value with the view `v`.
    spec fn output_spec(v: <Self as DeepView>::V) -> Seq<char>;

    fn to_output(&self) -> (r: String)
        ensures
            r@ == Self::output_spec(self.deep_view()),
    ;
}

/// The text written for a boolean.
pub open spec fn bool_text(b: bool) -> Seq<char> {
    if b {
        "true"@
    } else {
        "false"@
    }
}

impl ToOutput for String {
    open spec fn output_spec(v: Seq<char>) -> Seq<char> {
        v
    }

    fn to_output(&self) -> (r: String) {
        self.clone()
    }
}

impl<'a> ToOutput for &'a str {
    open spec fn output_spec(v: Seq<char>) -> Seq<char> {
        v
    }

    fn to_output(&self) -> (r: String) {
        String::from_str(*self)
    }
}

impl ToOutput for bool {
    open spec fn output_spec(v: bool) -> Seq<char> {
        bool_text(v)
    }

    fn to_output(&self) -> (r: String) {
        if *self {
            String::from_str("true")
        } else {
            String::from_str("false")
        }
    }
}

impl ToOutput for i32 {
    open spec fn output_spec(v: i32) -> Seq<char> {
        decimal_text(v as int)
    }

    fn to_output(&self) -> (r: String) {
        format_signed(*self as i64)
    }
}

impl ToOutput for u32 {
    open spec fn output_spec(v: u32) -> Seq<char> {
        decimal_text(v as int)
    }

    fn to_output(&self) -> (r: String) {
        format_unsigned(*self as u64)
    }
}

impl ToOutput for i64 {
    open spec fn output_spec(v: i64) -> Seq<char> {
        decimal_text(v as int)
    }

    fn to_output(&self) -> (r: String) {
        format_signed(*self)
    }
}

impl ToOutput for u64 {
    open spec fn output_spec(v: u64) -> Seq<char> {
        decimal_text(v as int)
    }

    fn to_output(&self) -> (r: String) {
        format_unsigned(*self)
    }
}

/// An absent value is written as the empty text; a present one as `T` writes it.
impl<T: ToOutput> ToOutput for Option<T> {
    open spec fn output_spec(v: Option<<T as DeepView>::V>) -> Seq<char> {
        match v {
            Some(x) => T::output_spec(x),
            None => Seq::empty(),
        }
    }

    fn to_output(&self) -> (r: String) {
        match self {
            Some(v) => v.to_output(),
            None => String::new(),
        }
    }
}

/// A scalar type whose inputs are required unless wrapped in `Option`: text,
/// booleans, and 32- and 64-bit signed and unsigned integers, and no others.
pub trait RequiredInput: FromInput + Scalar {

}

impl RequiredInput for String {

}

impl RequiredInput for bool {

}

impl RequiredInput for i32 {

}

impl RequiredInput for u32 {

}

impl RequiredInput for i64 {

}

impl RequiredInput for u64 {

}

/// An environment value that counts as no value: empty after trimming.
pub open spec fn is_blank(s: Seq<char>) -> bool {
    trimmed(s).len() == 0
}

/// What is owed for an input that is not set or blank: a required one is
/// missing, an optional one is absent.
pub open spec fn absent_outcome<T>(
    name: Seq<char>,
    required: bool,
    r: Result<Option<T>, IoError>,
) -> bool {
    if required {
        r matches Err(IoError::MissingRequired(n)) && n@ == name
    } else {
        r matches Ok(None)
    }
}

/// What is owed for a set value `value` whose trimmed form is blank or not.
pub open spec fn value_outcome<T: FromInput>(
    name: Seq<char>,
    value: Seq<char>,
    blank: bool,
    required: bool,
    r: Result<Option<T>, IoError>,
) -> bool {
    if blank {
        absent_outcome(name, required, r)
    } else {
        match T::parse_spec(value) {
            Some(v) => r matches Ok(Some(x)) && x.deep_view() == v,
            None => r matches Err(IoError::ParseError(m)) && m@ == T::error_spec(value),
        }
    }
}

/// What resolving the input `name` as `T` gives from the environment value `raw`.
pub open spec fn resolved<T: FromInput>(
    name: Seq<char>,
    raw: Result<String, VarError>,
    required: bool,
    r: Result<Option<T>, IoError>,
) -> bool {
    match raw {
        Err(VarError::NotUnicode) => r matches Err(IoError::ParseError(m)) && m@ == name,
        Err(VarError::NotPresent) => absent_outcome(name, required, r),
        Ok(s) => value_outcome(name, s@, is_blank(s@), required, r),
    }
}

/// Applies the presence rule and then the parser to `value`, the set value of
/// the input `name`, given `trimmed`, that value without surrounding white space.
pub fn resolve_value<T: FromInput>(name: &str, value: &str, trimmed: &str, required: bool) -> (r:
    Result<Option<T>, IoError>)
    ensures
        value_outcome(name@, value@, trimmed@.len() == 0, required, r),
{
    if trimmed.is_empty() {
        if required {
            Err(IoError::MissingRequired(String::from_str(name)))
        } else {
            Ok(None)
        }
    } else {
        match T::from_input(value) {
            Ok(v) => Ok(Some(v)),
            Err(e) => Err(e),
        }
    }
}

/// Resolves the input `name` from its environment value `raw`: a value that
/// is not valid Unicode is a parse error; one that is not set or is blank is
/// missing where `required`, else absent; any other is parsed as `T`.
pub fn resolve<T: FromInput>(name: &str, raw: &Result<String, VarError>, required: bool) -> (r:
    Result<Option<T>, IoError>)
    ensures
        resolved(name@, *raw, required, r),
{
    match raw {
        Err(VarError::NotUnicode) => Err(IoError::ParseError(String::from_str(name))),
        Err(VarError::NotPresent) => {
            if required {
                Err(IoError::MissingRequired(String::from_str(name)))
            } else {
                Ok(None)
            }
        },
        Ok(value) => resolve_value(name, value.as_str(), trim(value.as_str()), required),
    }
}

/// A required result seen as a result that may hold no value.
pub open spec fn as_optional<T>(r: Result<T, IoError>) -> Result<Option<T>, IoError> {
    match r {
        Ok(v) => Ok(Some(v)),
        Err(e) => Err(e),
    }
}

/// A type that can be read from the environment value of an input.
pub trait FromInputEnv: Sized {
    /// Whether `r` is what reading the input `name` from `raw` gives.
    spec fn env_spec(name: Seq<char>, raw: Result<String, VarError>, r: Result<Self, IoError>) -> bool;

    fn from_input_env(name: &str, raw: &Result<String, VarError>) -> (r: Result<Self, IoError>)
        ensures
            Self::env_spec(name@, *raw, r),
    ;
}

/// A scalar input is required.
impl<T: RequiredInput> FromInputEnv for T {
    open spec fn env_spec(name: Seq<char>, raw: Result<String, VarError>, r: Result<T, IoError>) -> bool {
        resolved::<T>(name, raw, true, as_optional(r))
    }

    fn from_input_env(name: &str, raw: &Result<String, VarError>) -> (r: Result<T, IoError>) {
        match resolve::<T>(name, raw, true) {
            Ok(Some(v)) => Ok(v),
            Ok(None) => {
                proof {
                    assert(false);
                }
                Err(IoError::MissingRequired(String::from_str(name)))
            },
            Err(e) => Err(e),
        }
    }
}

/// An `Option` input is optional.
impl<T: FromInput> FromInputEnv for Option<T> {
    open spec fn env_spec(
        name: Seq<char>,
        raw: Result<String, VarError>,
        r: Result<Option<T>, IoError>,
    ) -> bool {
        resolved::<T>(name, raw, false, r)
    }

    fn from_input_env(name: &str, raw: &Result<String, VarError>) -> (r: Result<Option<T>, IoError>) {
        resolve::<T>(name, raw, false)
    }
}

/// Formatting an `i32` and parsing the text back gives the same value.
pub proof fn lemma_round_trip_i32(v: i32)
    ensures
        <i32 as FromInput>::parse_spec(<i32 as ToOutput>::output_spec(v)) == Some(v),
{
    lemma_decimal_text_value(v as int);
}

/// Formatting a `u32` and parsing the text back gives the same value.
pub proof fn lemma_round_trip_u32(v: u32)
    ensures
        <u32 as FromInput>::parse_spec(<u32 as ToOutput>::output_spec(v)) == Some(v),
{
    lemma_decimal_text_value(v as int);
}

/// Formatting an `i64` and parsing the text back gives the same value.
pub proof fn lemma_round_trip_i64(v: i64)
    ensures
        <i64 as FromInput>::parse_spec(<i64 as ToOutput>::output_spec(v)) == Some(v),
{
    lemma_decimal_text_value(v as int);
}

/// Formatting a `u64` and parsing the text back gives the same value.
pub proof fn lemma_round_trip_u64(v: u64)
    ensures
        <u64 as FromInput>::parse_spec(<u64 as ToOutput>::output_spec(v)) == Some(v),
{
    lemma_decimal_text_value(v as int);
}

/// Formatting a text and parsing it back gives the same text.
pub proof fn lemma_round_trip_string(v: Seq<char>)
    ensures
        <String as FromInput>::parse_spec(<String as ToOutput>::output_spec(v)) == Some(v),
{
}

/// Formatting a boolean writes `true` or `false`, which parse back to it.
pub proof fn lemma_round_trip_bool(b: bool)
    ensures
        <bool as FromInput>::parse_spec(<bool as ToOutput>::output_spec(b)) == Some(b),
{
    reveal_strlit("true");
    reveal_strlit("false");
    reveal_strlit("1");
    reveal_strlit("yes");
    assert(ascii_lower("true"@) =~= "true"@);
    assert(ascii_lower("false"@) =~= "false"@);
}

/// Every accepted boolean spelling is normalised by one pass: formatting its
/// value and parsing that text gives the same value again.
pub proof fn lemma_bool_normalises(s: Seq<char>)
    requires
        <bool as FromInput>::parse_spec(s) is Some,
    ensures
        <bool as FromInput>::parse_spec(
            <bool as ToOutput>::output_spec(<bool as FromInput>::parse_spec(s).unwrap()),
        ) == <bool as FromInput>::parse_spec(s),
{
    lemma_round_trip_bool(<bool as FromInput>::parse_spec(s).unwrap());
}

/// A required input whose variable is not set is missing.
pub proof fn lemma_required_not_set<T: FromInput>(name: Seq<char>)
    ensures
        forall|r: Result<Option<T>, IoError>|
            resolved::<T>(name, Err(VarError::NotPresent), true, r) <==> (r matches Err(
                IoError::MissingRequired(n),
            ) && n@ == name),
{
}

/// A required input whose variable holds only white space is missing.
pub proof fn lemma_required_blank<T: FromInput>(name: Seq<char>, value: String)
    requires
        trimmed(value@) == Seq::<char>::empty(),
    ensures
        forall|r: Result<Option<T>, IoError>|
            resolved::<T>(name, Ok(value), true, r) <==> (r matches Err(
                IoError::MissingRequired(n),
            ) && n@ == name),
{
}

/// An optional input whose variable is not set, or holds only white space,
/// resolves to no value and no error.
pub proof fn lemma_optional_absent<T: FromInput>(name: Seq<char>, raw: Result<String, VarError>)
    requires
        raw matches Err(VarError::NotPresent) || (raw matches Ok(s) && trimmed(s@)
            == Seq::<char>::empty()),
    ensures
        forall|r: Result<Option<T>, IoError>| resolved::<T>(name, raw, false, r) <==> r matches Ok(None),
{
}

/// Whether two resolution results agree: the same variant, with values and
/// texts that have the same views.
pub open spec fn same_outcome<T: DeepView>(a: Result<Option<T>, IoError>, b: Result<Option<T>, IoError>) -> bool {
    match (a, b) {
        (Ok(None), Ok(None)) => true,
        (Ok(Some(x)), Ok(Some(y))) => x.deep_view() == y.deep_view(),
        (Err(IoError::MissingRequired(m)), Err(IoError::MissingRequired(n))) => m@ == n@,
        (Err(IoError::ParseError(m)), Err(IoError::ParseError(n))) => m@ == n@,
        _ => false,
    }
}

/// A result with a missing input read as an absent one.
pub open spec fn missing_as_absent<T>(r: Result<Option<T>, IoError>) -> Result<Option<T>, IoError> {
    match r {
        Err(IoError::MissingRequired(_)) => Ok(None),
        _ => r,
    }
}

/// Resolving the same input from the same environment value twice gives the
/// same result.
pub proof fn lemma_resolve_repeatable<T: FromInput>(
    name: Seq<char>,
    raw: Result<String, VarError>,
    required: bool,
    a: Result<Option<T>, IoError>,
    b: Result<Option<T>, IoError>,
)
    requires
        resolved(name, raw, required, a),
        resolved(name, raw, required, b),
    ensures
        same_outcome(a, b),
{
}

/// Reading an input as optional gives what reading it as required gives,
/// with a missing input read as absent.
pub proof fn lemma_optional_is_required_or_absent<T: FromInput>(
    name: Seq<char>,
    raw: Result<String, VarError>,
    req: Result<Option<T>, IoError>,
    opt: Result<Option<T>, IoError>,
)
    requires
        resolved(name, raw, true, req),
        resolved(name, raw, false, opt),
    ensures
        same_outcome(opt, missing_as_absent(req)),
{
}

} // verus!
