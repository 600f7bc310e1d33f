use sql_schema::analyzer::SQLAnalyzer;
use sql_schema::ast::{CharLengthUnits, CharacterLength, DataType, ExactNumberInfo, TimezoneInfo};

fn length(length: u64, unit: Option<CharLengthUnits>) -> Option<CharacterLength> {
    Some(CharacterLength::IntegerLength { length, unit })
}

fn name(t: DataType) -> String {
    SQLAnalyzer::new().data_type_to_string(&t)
}

#[test]
fn character_types_show_their_length() {
    assert_eq!(name(DataType::Char(None)), "CHAR");
    assert_eq!(name(DataType::Char(length(5, None))), "CHAR(5)");
    assert_eq!(name(DataType::Char(length(5, Some(CharLengthUnits::Octets)))), "CHAR(5 OCTETS)");
    assert_eq!(name(DataType::Varchar(None)), "VARCHAR");
    assert_eq!(name(DataType::Varchar(length(255, None))), "VARCHAR(255)");
    assert_eq!(
        name(DataType::Varchar(length(10, Some(CharLengthUnits::Characters)))),
        "VARCHAR(10 CHARACTERS)"
    );
    assert_eq!(name(DataType::Varchar(length(0, None))), "VARCHAR(0)");
    assert_eq!(name(DataType::Varchar(Some(CharacterLength::Max))), "VARCHAR(MAX)");
    assert_eq!(name(DataType::Char(Some(CharacterLength::Max))), "CHAR(MAX)");
}

#[test]
fn fixed_keywords() {
    assert_eq!(name(DataType::Text), "TEXT");
    assert_eq!(name(DataType::Double), "DOUBLE");
    assert_eq!(name(DataType::Boolean), "BOOLEAN");
    assert_eq!(name(DataType::Date), "DATE");
    assert_eq!(name(DataType::JSON), "JSON");
    assert_eq!(name(DataType::Uuid), "UUID");
}

#[test]
fn integer_types_default_their_width() {
    assert_eq!(name(DataType::Int(None)), "INT(11)");
    assert_eq!(name(DataType::BigInt(None)), "BIGINT(20)");
    assert_eq!(name(DataType::SmallInt(None)), "SMALLINT(6)");
    assert_eq!(name(DataType::Float(None)), "FLOAT(24)");
}

#[test]
fn integer_types_show_a_given_width() {
    assert_eq!(name(DataType::Int(Some(5))), "INT(5)");
    assert_eq!(name(DataType::Int(Some(0))), "INT(0)");
    assert_eq!(name(DataType::BigInt(Some(100))), "BIGINT(100)");
    assert_eq!(name(DataType::SmallInt(Some(3))), "SMALLINT(3)");
    assert_eq!(name(DataType::Float(Some(53))), "FLOAT(53)");
    assert_eq!(name(DataType::Int(Some(u64::MAX))), "INT(18446744073709551615)");
    assert_eq!(name(DataType::Int(Some(1000000007))), "INT(1000000007)");
}

#[test]
fn decimal_defaults_precision_and_scale() {
    assert_eq!(name(DataType::Decimal(ExactNumberInfo::Unspecified)), "DECIMAL(10,0)");
    assert_eq!(name(DataType::Decimal(ExactNumberInfo::Precision(12))), "DECIMAL(12,0)");
    assert_eq!(name(DataType::Decimal(ExactNumberInfo::PrecisionAndScale(12, 4))), "DECIMAL(12,4)");
}

#[test]
fn time_types_show_precision_and_zone() {
    assert_eq!(name(DataType::Time(None, TimezoneInfo::Unspecified)), "TIME");
    assert_eq!(name(DataType::Time(Some(3), TimezoneInfo::Unspecified)), "TIME(3)");
    assert_eq!(name(DataType::Time(None, TimezoneInfo::Tz)), "TIME WITH TIME ZONE");
    assert_eq!(name(DataType::Time(Some(6), TimezoneInfo::Tz)), "TIME(6) WITH TIME ZONE");
    assert_eq!(name(DataType::Timestamp(None, TimezoneInfo::Unspecified)), "TIMESTAMP");
    assert_eq!(name(DataType::Timestamp(Some(2), TimezoneInfo::Tz)), "TIMESTAMP(2) WITH TIME ZONE");
    assert_eq!(name(DataType::Timestamp(None, TimezoneInfo::WithTimeZone)), "TIMESTAMP WITH TIME ZONE");
    assert_eq!(
        name(DataType::Timestamp(Some(3), TimezoneInfo::WithTimeZone)),
        "TIMESTAMP(3) WITH TIME ZONE"
    );
    assert_eq!(name(DataType::Time(None, TimezoneInfo::WithTimeZone)), "TIME WITH TIME ZONE");
    assert_eq!(name(DataType::Time(Some(2), TimezoneInfo::WithoutTimeZone)), "TIME(2)");
    assert_eq!(name(DataType::Timestamp(Some(1), TimezoneInfo::WithoutTimeZone)), "TIMESTAMP(1)");
}

#[test]
fn datetime_shows_precision() {
    assert_eq!(name(DataType::Datetime(None)), "DATETIME");
    assert_eq!(name(DataType::Datetime(Some(6))), "DATETIME(6)");
}

#[test]
fn other_types_are_unknown() {
    assert_eq!(name(DataType::Other), "UNKNOWN");
}

#[test]
fn normalizer_gives_the_same_text_twice() {
    let analyzer = SQLAnalyzer::new();
    let all = vec![
        DataType::Char(length(5, Some(CharLengthUnits::Characters))),
        DataType::Varchar(None),
        DataType::Text,
        DataType::Int(Some(7)),
        DataType::BigInt(None),
        DataType::SmallInt(None),
        DataType::Float(Some(3)),
        DataType::Double,
        DataType::Decimal(ExactNumberInfo::PrecisionAndScale(8, 2)),
        DataType::Boolean,
        DataType::Date,
        DataType::Time(Some(3), TimezoneInfo::Tz),
        DataType::Timestamp(None, TimezoneInfo::Unspecified),
        DataType::Datetime(Some(1)),
        DataType::JSON,
        DataType::Uuid,
        DataType::Other,
    ];
    for t in &all {
        assert_eq!(analyzer.data_type_to_string(t), analyzer.data_type_to_string(&t.clone()));
    }
}

#[test]
fn names_hold_no_lower_case_letter() {
    let all = vec![
        DataType::Char(length(12, Some(CharLengthUnits::Characters))),
        DataType::Varchar(Some(CharacterLength::Max)),
        DataType::Varchar(length(7, Some(CharLengthUnits::Octets))),
        DataType::Decimal(ExactNumberInfo::PrecisionAndScale(8, 2)),
        DataType::Timestamp(Some(6), TimezoneInfo::WithTimeZone),
        DataType::Time(None, TimezoneInfo::Tz),
        DataType::Other,
    ];
    for t in &all {
        let text = name(*t);
        assert!(!text.is_empty());
        assert!(text.chars().all(|c| {
            c.is_ascii_uppercase() || c.is_ascii_digit() || c == '(' || c == ')' || c == ',' || c == ' '
        }));
    }
}
