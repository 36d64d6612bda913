//! Values of a SQL program at run time, typed dynamically, and the text that a
//! SQL logic test expects of them.
//!
//! A [`SqlValue`] is not computed with: it is made from a typed value just
//! before that value is shown. A [`SqlRow`] is a row of them, and is shown
//! against a format string that holds one code for each column: `I` for an
//! integer, `T` for text, and any other character, by convention `R`, for a real
//! number.
use crate::casts::to_int32::{cast_to_i32_d, cast_to_i32_f, cast_to_i32_s, integer_of_text};
use crate::decimal::{decimal_text, decimal_to_string};
use crate::float::{
    double_fixed3, double_to_fixed3, double_trunc, float_fixed3, float_to_fixed3, float_trunc,
};
use crate::integer::saturate;
use crate::text::{
    bool_text, bool_to_string, chars_of, int_text, int_to_string, null_string, null_text,
};
use dbsp::algebra::{F32, F64};
use rust_decimal::Decimal;
use vstd::prelude::*;

verus! {

/// A value of any of the types that a result can have, nullable or not.
#[derive(Debug)]
pub enum SqlValue {
    Int(i32),
    Long(i64),
    Str(String),
    Flt(F32),
    Dbl(F64),
    Bool(bool),
    Decimal(Decimal),
    OptInt(Option<i32>),
    OptLong(Option<i64>),
    OptStr(Option<String>),
    OptFlt(Option<F32>),
    OptDbl(Option<F64>),
    OptBool(Option<bool>),
    OptDecimal(Option<Decimal>),
}

impl From<i32> for SqlValue {
    fn from(value: i32) -> (result: SqlValue) {
        SqlValue::Int(value)
    }
}

impl vstd::std_specs::convert::FromSpecImpl<i32> for SqlValue {
    open spec fn obeys_from_spec() -> bool {
        true
    }

    open spec fn from_spec(value: i32) -> SqlValue {
        SqlValue::Int(value)
    }
}

impl From<i64> for SqlValue {
    fn from(value: i64) -> (result: SqlValue) {
        SqlValue::Long(value)
    }
}

impl vstd::std_specs::convert::FromSpecImpl<i64> for SqlValue {
    open spec fn obeys_from_spec() -> bool {
        true
    }

    open spec fn from_spec(value: i64) -> SqlValue {
        SqlValue::Long(value)
    }
}

impl From<bool> for SqlValue {
    fn from(value: bool) -> (result: SqlValue) {
        SqlValue::Bool(value)
    }
}

impl vstd::std_specs::convert::FromSpecImpl<bool> for SqlValue {
    open spec fn obeys_from_spec() -> bool {
        true
    }

    open spec fn from_spec(value: bool) -> SqlValue {
        SqlValue::Bool(value)
    }
}

impl From<F32> for SqlValue {
    fn from(value: F32) -> (result: SqlValue) {
        SqlValue::Flt(value)
    }
}

impl vstd::std_specs::convert::FromSpecImpl<F32> for SqlValue {
    open spec fn obeys_from_spec() -> bool {
        true
    }

    open spec fn from_spec(value: F32) -> SqlValue {
        SqlValue::Flt(value)
    }
}

impl From<F64> for SqlValue {
    fn from(value: F64) -> (result: SqlValue) {
        SqlValue::Dbl(value)
    }
}

impl vstd::std_specs::convert::FromSpecImpl<F64> for SqlValue {
    open spec fn obeys_from_spec() -> bool {
        true
    }

    open spec fn from_spec(value: F64) -> SqlValue {
        SqlValue::Dbl(value)
    }
}

impl From<String> for SqlValue {
    fn from(value: String) -> (result: SqlValue) {
        SqlValue::Str(value)
    }
}

impl vstd::std_specs::convert::FromSpecImpl<String> for SqlValue {
    open spec fn obeys_from_spec() -> bool {
        true
    }

    open spec fn from_spec(value: String) -> SqlValue {
        SqlValue::Str(value)
    }
}

impl From<Decimal> for SqlValue {
    fn from(value: Decimal) -> (result: SqlValue) {
        SqlValue::Decimal(value)
    }
}

impl vstd::std_specs::convert::FromSpecImpl<Decimal> for SqlValue {
    open spec fn obeys_from_spec() -> bool {
        true
    }

    open spec fn from_spec(value: Decimal) -> SqlValue {
        SqlValue::Decimal(value)
    }
}

impl From<Option<i32>> for SqlValue {
    fn from(value: Option<i32>) -> (result: SqlValue) {
        SqlValue::OptInt(value)
    }
}

impl vstd::std_specs::convert::FromSpecImpl<Option<i32>> for SqlValue {
    open spec fn obeys_from_spec() -> bool {
        true
    }

    open spec fn from_spec(value: Option<i32>) -> SqlValue {
        SqlValue::OptInt(value)
    }
}

impl From<Option<i64>> for SqlValue {
    fn from(value: Option<i64>) -> (result: SqlValue) {
        SqlValue::OptLong(value)
    }
}

impl vstd::std_specs::convert::FromSpecImpl<Option<i64>> for SqlValue {
    open spec fn obeys_from_spec() -> bool {
        true
    }

    open spec fn from_spec(value: Option<i64>) -> SqlValue {
        SqlValue::OptLong(value)
    }
}

impl From<Option<bool>> for SqlValue {
    fn from(value: Option<bool>) -> (result: SqlValue) {
        SqlValue::OptBool(value)
    }
}

impl vstd::std_specs::convert::FromSpecImpl<Option<bool>> for SqlValue {
    open spec fn obeys_from_spec() -> bool {
        true
    }

    open spec fn from_spec(value: Option<bool>) -> SqlValue {
        SqlValue::OptBool(value)
    }
}

impl From<Option<F32>> for SqlValue {
    fn from(value: Option<F32>) -> (result: SqlValue) {
        SqlValue::OptFlt(value)
    }
}

impl vstd::std_specs::convert::FromSpecImpl<Option<F32>> for SqlValue {
    open spec fn obeys_from_spec() -> bool {
        true
    }

    open spec fn from_spec(value: Option<F32>) -> SqlValue {
        SqlValue::OptFlt(value)
    }
}

impl From<Option<F64>> for SqlValue {
    fn from(value: Option<F64>) -> (result: SqlValue) {
        SqlValue::OptDbl(value)
    }
}

impl vstd::std_specs::convert::FromSpecImpl<Option<F64>> for SqlValue {
    open spec fn obeys_from_spec() -> bool {
        true
    }

    open spec fn from_spec(value: Option<F64>) -> SqlValue {
        SqlValue::OptDbl(value)
    }
}

impl From<Option<String>> for SqlValue {
    fn from(value: Option<String>) -> (result: SqlValue) {
        SqlValue::OptStr(value)
    }
}

impl vstd::std_specs::convert::FromSpecImpl<Option<String>> for SqlValue {
    open spec fn obeys_from_spec() -> bool {
        true
    }

    open spec fn from_spec(value: Option<String>) -> SqlValue {
        SqlValue::OptStr(value)
    }
}

impl From<Option<Decimal>> for SqlValue {
    fn from(value: Option<Decimal>) -> (result: SqlValue) {
        SqlValue::OptDecimal(value)
    }
}

impl vstd::std_specs::convert::FromSpecImpl<Option<Decimal>> for SqlValue {
    open spec fn obeys_from_spec() -> bool {
        true
    }

    open spec fn from_spec(value: Option<Decimal>) -> SqlValue {
        SqlValue::OptDecimal(value)
    }
}

/// The text shown for an empty string.
pub open spec fn empty_text() -> Seq<char> {
    seq!['(', 'e', 'm', 'p', 't', 'y', ')']
}

/// Whether a character is printable ASCII: from the space to the tilde.
pub open spec fn is_printable(c: char) -> bool {
    ' ' <= c && c <= '~'
}

/// A character as it is shown: itself where it is printable, else `@`.
pub open spec fn shown_char(c: char) -> char {
    if is_printable(c) {
        c
    } else {
        '@'
    }
}

/// A string as it is shown: `(empty)` for the empty string, else the string with
/// `@` in place of each character that is not printable.
pub open spec fn slt_translate(s: Seq<char>) -> Seq<char> {
    if s.len() == 0 {
        empty_text()
    } else {
        s.map_values(|c: char| shown_char(c))
    }
}

/// What is shown of a string is never empty and is printable throughout, and a
/// string that is itself so is shown as it is.
pub proof fn lemma_shown_text_is_printable(s: Seq<char>)
    ensures
        slt_translate(s).len() > 0,
        forall|i: int|
            0 <= i < slt_translate(s).len() ==> is_printable(#[trigger] slt_translate(s)[i]),
        s.len() > 0 && (forall|i: int| 0 <= i < s.len() ==> is_printable(#[trigger] s[i]))
            ==> slt_translate(s) == s,
{
    if s.len() > 0 && (forall|i: int| 0 <= i < s.len() ==> is_printable(#[trigger] s[i])) {
        assert(slt_translate(s) =~= s);
    }
}

/// Turns a string into the text that a SQL logic test expects of it: `(empty)`
/// for the empty string, else the string with `@` in place of each character
/// that is not printable ASCII.
pub fn slt_translate_string(s: &String) -> (result: String)
    ensures
        result@ == slt_translate(s@),
{
    let chars = chars_of(s.as_str());
    if chars.len() == 0 {
        proof {
            reveal_strlit("(empty)");
        }
        let result = "(empty)".to_owned();
        assert(result@ =~= empty_text());
        return result;
    }
    let mut result = String::new();
    let mut i: usize = 0;
    while i < chars.len()
        invariant
            i <= chars.len(),
            result@ =~= chars@.subrange(0, i as int).map_values(|c: char| shown_char(c)),
        decreases chars.len() - i,
    {
        let c = chars[i];
        let shown = if c < ' ' || c > '~' {
            '@'
        } else {
            c
        };
        result.push(shown);
        i += 1;
    }
    assert(chars@.subrange(0, i as int) =~= chars@);
    result
}

impl SqlValue {
    /// Whether the value is SQL's null.
    pub open spec fn is_null(&self) -> bool {
        match self {
            SqlValue::OptInt(None)
            | SqlValue::OptLong(None)
            | SqlValue::OptStr(None)
            | SqlValue::OptFlt(None)
            | SqlValue::OptDbl(None)
            | SqlValue::OptBool(None)
            | SqlValue::OptDecimal(None) => true,
            _ => false,
        }
    }
}

/// The text of a string under a format code: the string as it is shown under
/// `T`, and under `I` the integer that it writes, zero where it writes none.
pub open spec fn string_slt_text(s: Seq<char>, code: char) -> Seq<char> {
    if code == 'I' {
        int_text(integer_of_text(s) as int)
    } else {
        slt_translate(s)
    }
}

/// The text of a double under a format code: under `I` its integer part,
/// brought into the range of 32 bits, and under any other code the value with
/// exactly three digits after the point.
pub open spec fn double_slt_text(x: F64, code: char) -> Seq<char> {
    if code == 'I' {
        int_text(saturate(double_trunc(x), i32::MIN as int, i32::MAX as int))
    } else {
        double_fixed3(x)
    }
}

/// The text of a single-precision value under a format code: under `I` its
/// integer part, brought into the range of 32 bits, and under any other code
/// the value with exactly three digits after the point.
pub open spec fn float_slt_text(x: F32, code: char) -> Seq<char> {
    if code == 'I' {
        int_text(saturate(float_trunc(x), i32::MIN as int, i32::MAX as int))
    } else {
        float_fixed3(x)
    }
}

/// What a SQL logic test expects to see of a value.
pub trait SqlLogicTestFormat {
    /// Whether the value can be shown under the format code.
    spec fn slt_renders(&self, code: char) -> bool;

    /// The text of the value under the format code.
    spec fn slt_text(&self, code: char) -> Seq<char>;

    /// Shows the value under the format code `arg`: `I` for an integer, `T` for
    /// text, anything else for a real number.
    fn format_slt(&self, arg: &char) -> (result: String)
        requires
            self.slt_renders(*arg),
        ensures
            result@ == self.slt_text(*arg),
    ;
}

impl SqlLogicTestFormat for SqlValue {
    /// Null and every number and boolean can be shown under any code, a string
    /// under `T` and `I` only.
    open spec fn slt_renders(&self, code: char) -> bool {
        match self {
            SqlValue::Str(_) | SqlValue::OptStr(Some(_)) => code == 'T' || code == 'I',
            _ => true,
        }
    }

    /// Null is `NULL`. An integer or a decimal is its digits and a boolean is
    /// `true` or `false`, whatever the code. A floating-point value and a
    /// string go by the code.
    open spec fn slt_text(&self, code: char) -> Seq<char> {
        match self {
            SqlValue::Int(x) | SqlValue::OptInt(Some(x)) => int_text(*x as int),
            SqlValue::Long(x) | SqlValue::OptLong(Some(x)) => int_text(*x as int),
            SqlValue::Decimal(x) | SqlValue::OptDecimal(Some(x)) => decimal_text(*x),
            SqlValue::Flt(x) | SqlValue::OptFlt(Some(x)) => float_slt_text(*x, code),
            SqlValue::Dbl(x) | SqlValue::OptDbl(Some(x)) => double_slt_text(*x, code),
            SqlValue::Str(x) | SqlValue::OptStr(Some(x)) => string_slt_text(x@, code),
            SqlValue::Bool(x) | SqlValue::OptBool(Some(x)) => bool_text(*x),
            _ => null_text(),
        }
    }

    fn format_slt(&self, arg: &char) -> (result: String) {
        match self {
            SqlValue::Int(x) | SqlValue::OptInt(Some(x)) => int_to_string(*x as i128),
            SqlValue::Long(x) | SqlValue::OptLong(Some(x)) => int_to_string(*x as i128),
            SqlValue::Decimal(x) | SqlValue::OptDecimal(Some(x)) => decimal_to_string(x),
            SqlValue::Flt(x) | SqlValue::OptFlt(Some(x)) => {
                if *arg == 'I' {
                    int_to_string(cast_to_i32_f(*x) as i128)
                } else {
                    float_to_fixed3(*x)
                }
            },
            SqlValue::Dbl(x) | SqlValue::OptDbl(Some(x)) => {
                if *arg == 'I' {
                    int_to_string(cast_to_i32_d(*x) as i128)
                } else {
                    double_to_fixed3(*x)
                }
            },
            SqlValue::Str(x) | SqlValue::OptStr(Some(x)) => {
                if *arg == 'I' {
                    int_to_string(cast_to_i32_s(x.clone()) as i128)
                } else {
                    slt_translate_string(x)
                }
            },
            SqlValue::Bool(x) | SqlValue::OptBool(Some(x)) => bool_to_string(*x),
            _ => null_string(),
        }
    }
}

impl SqlValue {
    /// Whether the value can be shown under the format code.
    pub fn renders(&self, code: char) -> (renders: bool)
        ensures
            renders == self.slt_renders(code),
    {
        match self {
            SqlValue::Str(_) | SqlValue::OptStr(Some(_)) => code == 'T' || code == 'I',
            _ => true,
        }
    }
}

/// Null is shown as `NULL` under every format code.
pub proof fn lemma_null_is_shown_as_null(value: SqlValue, code: char)
    requires
        value.is_null(),
    ensures
        value.slt_renders(code),
        value.slt_text(code) == null_text(),
{
}

/// A row of values, in the order of its columns.
pub struct SqlRow {
    values: Vec<SqlValue>,
}

impl View for SqlRow {
    type V = Seq<SqlValue>;

    closed spec fn view(&self) -> Seq<SqlValue> {
        self.values@
    }
}

/// What can be shown as a row.
pub trait ToSqlRow {
    fn to_row(&self) -> SqlRow;
}

impl SqlRow {
    /// The row without columns.
    pub fn new() -> (row: SqlRow)
        ensures
            row@ == Seq::<SqlValue>::empty(),
    {
        SqlRow { values: Vec::new() }
    }

    /// Adds a column at the end of the row.
    pub fn push(&mut self, value: SqlValue)
        ensures
            final(self)@ == old(self)@.push(value),
    {
        self.values.push(value)
    }

    /// Whether `format` holds one code for each column of the row, under which
    /// that column can be shown.
    pub open spec fn fits(&self, format: Seq<char>) -> bool {
        &&& format.len() == self@.len()
        &&& forall|i: int| 0 <= i < self@.len() ==> (#[trigger] self@[i]).slt_renders(format[i])
    }

    /// Whether `format` holds one code for each column of the row, under which
    /// that column can be shown.
    pub fn fits_format(&self, format: &String) -> (fits: bool)
        ensures
            fits == self.fits(format@),
    {
        let codes = chars_of(format.as_str());
        if codes.len() != self.values.len() {
            return false;
        }
        let mut i: usize = 0;
        while i < self.values.len()
            invariant
                i <= self.values.len(),
                codes@ == format@,
                codes@.len() == self@.len(),
                forall|j: int| 0 <= j < i ==> (#[trigger] self@[j]).slt_renders(format@[j]),
            decreases self.values.len() - i,
        {
            if !self.values[i].renders(codes[i]) {
                return false;
            }
            i += 1;
        }
        true
    }

    /// Shows the row as a SQL logic test expects it: one string for each
    /// column, under the code that `format` holds for that column.
    pub fn to_slt_strings(self, format: &String) -> (result: Vec<String>)
        requires
            self.fits(format@),
        ensures
            result@.len() == self@.len(),
            forall|i: int|
                0 <= i < self@.len() ==> (#[trigger] result@[i])@ == self@[i].slt_text(format@[i]),
    {
        let codes = chars_of(format.as_str());
        let mut result: Vec<String> = Vec::new();
        let mut i: usize = 0;
        while i < self.values.len()
            invariant
                i <= self.values.len(),
                codes@ == format@,
                self.fits(format@),
                result@.len() == i,
                forall|j: int|
                    0 <= j < i ==> (#[trigger] result@[j])@ == self@[j].slt_text(format@[j]),
            decreases self.values.len() - i,
        {
            let text = self.values[i].format_slt(&codes[i]);
            result.push(text);
            i += 1;
        }
        result
    }
}

impl Default for SqlRow {
    fn default() -> (row: SqlRow)
        ensures
            row@ == Seq::<SqlValue>::empty(),
    {
        SqlRow { values: Vec::new() }
    }
}

} // verus!
