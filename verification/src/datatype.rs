//! The canonical name of a column type.

use vstd::prelude::*;
use vstd::string::*;
use crate::analyzer::SQLAnalyzer;
use crate::ast::{
    CharLengthUnits,
    CharacterLength,
    DataType,
    DataTypeView,
    ExactNumberInfo,
    TimezoneInfo,
};
use crate::text::{decimal, push_decimal};

verus! {

/// A keyword followed by a number in parentheses.
pub open spec fn with_number(keyword: Seq<char>, n: nat) -> Seq<char> {
    keyword + seq!['('] + decimal(n) + seq![')']
}

/// A keyword, followed by a number in parentheses if one is given.
pub open spec fn with_optional_number(keyword: Seq<char>, n: Option<u64>) -> Seq<char> {
    match n {
        Some(n) => with_number(keyword, n as nat),
        None => keyword,
    }
}

/// What follows the number of a length: a space and the unit, where one is written.
pub open spec fn unit_suffix(unit: Option<CharLengthUnits>) -> Seq<char> {
    match unit {
        Some(CharLengthUnits::Characters) => " CHARACTERS"@,
        Some(CharLengthUnits::Octets) => " OCTETS"@,
        None => Seq::empty(),
    }
}

/// The length of a character type as it is written: the number and its unit, or
/// `MAX`.
pub open spec fn length_text(length: CharacterLength) -> Seq<char> {
    match length {
        CharacterLength::IntegerLength { length, unit } => decimal(length as nat) + unit_suffix(unit),
        CharacterLength::Max => "MAX"@,
    }
}

/// A keyword, followed by a length in parentheses if one is given.
pub open spec fn with_optional_length(keyword: Seq<char>, length: Option<CharacterLength>) -> Seq<
    char,
> {
    match length {
        Some(length) => keyword + seq!['('] + length_text(length) + seq![')'],
        None => keyword,
    }
}

/// The display width of an integer type: the one written, or the type's default.
pub open spec fn width_or(n: Option<u64>, default: u64) -> nat {
    match n {
        Some(n) => n as nat,
        None => default as nat,
    }
}

/// The precision of an exact number type, ten where none is written.
pub open spec fn precision_of(info: ExactNumberInfo) -> nat {
    match info {
        ExactNumberInfo::Unspecified => 10,
        ExactNumberInfo::Precision(p) => p as nat,
        ExactNumberInfo::PrecisionAndScale(p, _) => p as nat,
    }
}

/// The scale of an exact number type, zero where none is written.
pub open spec fn scale_of(info: ExactNumberInfo) -> nat {
    match info {
        ExactNumberInfo::Unspecified => 0,
        ExactNumberInfo::Precision(_) => 0,
        ExactNumberInfo::PrecisionAndScale(_, s) => s as nat,
    }
}

/// What follows a time type that knows of time zones, whether it is written out
/// or in its short form.
pub open spec fn zone_suffix(tz: TimezoneInfo) -> Seq<char> {
    if tz is Tz || tz is WithTimeZone {
        " WITH TIME ZONE"@
    } else {
        Seq::empty()
    }
}

/// The canonical name of a type.
pub open spec fn canonical_type(t: DataTypeView) -> Seq<char> {
    match t {
        DataTypeView::Char(length) => with_optional_length("CHAR"@, length),
        DataTypeView::Varchar(length) => with_optional_length("VARCHAR"@, length),
        DataTypeView::Text => "TEXT"@,
        DataTypeView::Int(n) => with_number("INT"@, width_or(n, 11)),
        DataTypeView::BigInt(n) => with_number("BIGINT"@, width_or(n, 20)),
        DataTypeView::SmallInt(n) => with_number("SMALLINT"@, width_or(n, 6)),
        DataTypeView::Float(n) => with_number("FLOAT"@, width_or(n, 24)),
        DataTypeView::Double => "DOUBLE"@,
        DataTypeView::Decimal(info) => "DECIMAL"@ + seq!['('] + decimal(precision_of(info)) + seq![
            ',',
        ] + decimal(scale_of(info)) + seq![')'],
        DataTypeView::Boolean => "BOOLEAN"@,
        DataTypeView::Date => "DATE"@,
        DataTypeView::Time(n, tz) => with_optional_number("TIME"@, n) + zone_suffix(tz),
        DataTypeView::Timestamp(n, tz) => with_optional_number("TIMESTAMP"@, n) + zone_suffix(tz),
        DataTypeView::Datetime(n) => with_optional_number("DATETIME"@, n),
        DataTypeView::JSON => "JSON"@,
        DataTypeView::Uuid => "UUID"@,
        DataTypeView::Other => "UNKNOWN"@,
    }
}

fn numbered(keyword: &str, n: u64) -> (r: String)
    ensures
        r@ == with_number(keyword@, n as nat),
{
    let mut out = keyword.to_owned();
    out.push('(');
    push_decimal(&mut out, n);
    out.push(')');
    assert(out@ =~= with_number(keyword@, n as nat));
    out
}

fn optionally_numbered(keyword: &str, n: &Option<u64>) -> (r: String)
    ensures
        r@ == with_optional_number(keyword@, *n),
{
    match n {
        Some(n) => numbered(keyword, *n),
        None => keyword.to_owned(),
    }
}

fn push_length(out: &mut String, length: &CharacterLength)
    ensures
        final(out)@ == old(out)@ + length_text(*length),
{
    match length {
        CharacterLength::IntegerLength { length, unit } => {
            push_decimal(out, *length);
            match unit {
                Some(CharLengthUnits::Characters) => {
                    out.append(" CHARACTERS");
                },
                Some(CharLengthUnits::Octets) => {
                    out.append(" OCTETS");
                },
                None => {},
            }
            assert(out@ =~= old(out)@ + (decimal(*length as nat) + unit_suffix(*unit)));
        },
        CharacterLength::Max => {
            out.append("MAX");
        },
    }
}

fn optionally_sized(keyword: &str, length: &Option<CharacterLength>) -> (r: String)
    ensures
        r@ == with_optional_length(keyword@, *length),
{
    match length {
        Some(length) => {
            let mut out = keyword.to_owned();
            out.push('(');
            push_length(&mut out, length);
            out.push(')');
            assert(out@ =~= keyword@ + seq!['('] + length_text(*length) + seq![')']);
            out
        },
        None => keyword.to_owned(),
    }
}

fn width(n: &Option<u64>, default: u64) -> (r: u64)
    ensures
        r as nat == width_or(*n, default),
{
    match n {
        Some(n) => *n,
        None => default,
    }
}

fn zoned(out: String, tz: &TimezoneInfo) -> (r: String)
    ensures
        r@ == out@ + zone_suffix(*tz),
{
    match tz {
        TimezoneInfo::Tz | TimezoneInfo::WithTimeZone => {
            let mut out = out;
            out.append(" WITH TIME ZONE");
            out
        },
        _ => {
            assert(out@ =~= out@ + Seq::<char>::empty());
            out
        },
    }
}

impl SQLAnalyzer {
    /// The canonical name of a column type: an upper-case keyword, with a number or a
    /// length in parentheses where the type carries one, and `UNKNOWN` for a type
    /// that the model does not tell apart.
    pub fn data_type_to_string(&self, data_type: &DataType) -> (r: String)
        ensures
            r@ == canonical_type(data_type.deep_view()),
    {
        match data_type {
            DataType::Char(length) => optionally_sized("CHAR", length),
            DataType::Varchar(length) => optionally_sized("VARCHAR", length),
            DataType::Text => "TEXT".to_owned(),
            DataType::Int(n) => numbered("INT", width(n, 11)),
            DataType::BigInt(n) => numbered("BIGINT", width(n, 20)),
            DataType::SmallInt(n) => numbered("SMALLINT", width(n, 6)),
            DataType::Float(n) => numbered("FLOAT", width(n, 24)),
            DataType::Double => "DOUBLE".to_owned(),
            DataType::Decimal(info) => {
                let (precision, scale): (u64, u64) = match info {
                    ExactNumberInfo::Unspecified => (10, 0),
                    ExactNumberInfo::Precision(p) => (*p, 0),
                    ExactNumberInfo::PrecisionAndScale(p, s) => (*p, *s),
                };
                let mut out = "DECIMAL".to_owned();
                out.push('(');
                push_decimal(&mut out, precision);
                out.push(',');
                push_decimal(&mut out, scale);
                out.push(')');
                assert(out@ =~= canonical_type(data_type.deep_view()));
                out
            },
            DataType::Boolean => "BOOLEAN".to_owned(),
            DataType::Date => "DATE".to_owned(),
            DataType::Time(n, tz) => zoned(optionally_numbered("TIME", n), tz),
            DataType::Timestamp(n, tz) => zoned(optionally_numbered("TIMESTAMP", n), tz),
            DataType::Datetime(n) => optionally_numbered("DATETIME", n),
            DataType::JSON => "JSON".to_owned(),
            DataType::Uuid => "UUID".to_owned(),
            DataType::Other => "UNKNOWN".to_owned(),
        }
    }
}

} // verus!
