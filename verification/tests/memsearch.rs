use svc_storage::memsearch::{
    filter_for_operator, read_field, search_records, DataField, FieldValue, IdsState, JsonValue,
    NumberParse, PreparedFilter, SearchError, SearchRecord, SearchValue,
};
use svc_storage::search::{ComparisonOperator, PredicateOperator};

/// The place of a float in the order of `f64` values, as the search keys
/// numbers.
fn key(x: f64) -> i64 {
    if x == 0.0 {
        return 0;
    }
    let bits = x.to_bits();
    let magnitude = (bits & 0x7FFF_FFFF_FFFF_FFFF) as i64;
    if bits >> 63 == 1 {
        -magnitude
    } else {
        magnitude
    }
}

fn number(text: &str) -> JsonValue {
    JsonValue::Number {
        text: text.to_string(),
        key: key(text.parse::<f64>().unwrap()),
    }
}

fn text(s: &str) -> JsonValue {
    JsonValue::Text(s.to_string())
}

fn value(s: &str) -> SearchValue {
    SearchValue {
        text: s.to_string(),
        number: match s.parse::<f64>() {
            Ok(x) if x.is_nan() => NumberParse::Unordered,
            Ok(x) => NumberParse::Ordered(key(x)),
            Err(e) => NumberParse::Invalid(e.to_string()),
        },
    }
}

fn values(list: &[&str]) -> Vec<SearchValue> {
    list.iter().map(|s| value(s)).collect()
}

fn record(position: usize, id: &str, fields: Vec<(&str, JsonValue)>) -> SearchRecord {
    SearchRecord {
        position,
        id: text(id),
        data: fields
            .into_iter()
            .map(|(name, value)| DataField {
                name: name.to_string(),
                value,
            })
            .collect(),
        ids: vec![],
        ids_state: IdsState::Absent,
    }
}

fn sample_records() -> Vec<SearchRecord> {
    vec![
        record(
            0,
            "a",
            vec![
                ("name", text("Alpha Port")),
                ("count", number("3")),
                ("when", text("2023-01-01T00:00:00Z")),
                ("note", JsonValue::Null),
            ],
        ),
        record(
            1,
            "b",
            vec![
                ("name", text("beta port")),
                ("count", number("10")),
                ("when", text("2023-06-01T12:00:00+02:00")),
                ("note", text("x")),
            ],
        ),
        record(
            2,
            "c",
            vec![
                ("name", text("Gamma")),
                ("count", number("-2.5")),
                ("when", text("not a date")),
            ],
        ),
    ]
}

fn run(field: &str, vals: &[&str], op: PredicateOperator) -> Result<Vec<usize>, String> {
    let records = sample_records();
    let mut filtered = vec![];
    filter_for_operator(field, &values(vals), &records, &mut filtered, op)?;
    Ok(filtered.iter().map(|r| r.position).collect())
}

#[test]
fn read_field_uses_id_data_and_ids() {
    let mut r = record(0, "abc", vec![("name", text("x"))]);
    assert!(matches!(read_field(&r, "id"), Ok(JsonValue::Text(s)) if s == "abc"));
    assert!(matches!(read_field(&r, "name"), Ok(JsonValue::Text(s)) if s == "x"));
    assert!(matches!(read_field(&r, "missing"), Ok(JsonValue::Null)));

    r.ids = vec![
        FieldValue {
            field: "vertiport_id".to_string(),
            value: "v1".to_string(),
        },
        FieldValue {
            field: "vertiport_id".to_string(),
            value: "v2".to_string(),
        },
    ];
    r.ids_state = IdsState::Listed;
    // the first identifier of that name is read where the data has no value
    assert!(matches!(read_field(&r, "vertiport_id"), Ok(JsonValue::Text(s)) if s == "v1"));
    assert!(matches!(read_field(&r, "missing"), Ok(JsonValue::Null)));

    r.ids_state = IdsState::Malformed {
        debug: "Number(3)".to_string(),
        error: "invalid type".to_string(),
    };
    assert_eq!(
        read_field(&r, "missing").unwrap_err(),
        "Could not convert [Number(3)] to Ids from json value: invalid type"
    );
    // a value in the data is read without looking at the identifiers
    assert!(matches!(read_field(&r, "name"), Ok(JsonValue::Text(s)) if s == "x"));
}

#[test]
fn equality_and_membership_compare_texts() {
    assert_eq!(run("name", &["Gamma"], PredicateOperator::Equals), Ok(vec![2]));
    assert_eq!(run("name", &["Gamma"], PredicateOperator::NotEquals), Ok(vec![0, 1]));
    // numbers compare by their JSON text
    assert_eq!(run("count", &["10"], PredicateOperator::Equals), Ok(vec![1]));
    assert_eq!(run("count", &["10.0"], PredicateOperator::Equals), Ok(vec![]));
    // a missing value reads as null
    assert_eq!(run("note", &["null"], PredicateOperator::Equals), Ok(vec![0, 2]));
    assert_eq!(run("id", &["a", "c"], PredicateOperator::In), Ok(vec![0, 2]));
    assert_eq!(run("id", &["a", "c"], PredicateOperator::NotIn), Ok(vec![1]));
    assert_eq!(run("id", &[], PredicateOperator::In), Ok(vec![]));
    assert_eq!(run("id", &[], PredicateOperator::NotIn), Ok(vec![0, 1, 2]));
}

#[test]
fn single_value_conditions_need_exactly_one_value() {
    let expected = Err(
        "Error in advanced search parameters. Expecting a single value, but got [2] values"
            .to_string(),
    );
    assert_eq!(run("name", &["a", "b"], PredicateOperator::Equals), expected);
    assert_eq!(run("name", &["a", "b"], PredicateOperator::Like), expected);
    assert_eq!(run("count", &["1", "2"], PredicateOperator::Greater), expected);
    assert_eq!(
        run("name", &[], PredicateOperator::Ilike),
        Err(
            "Error in advanced search parameters. Expecting a single value, but got [0] values"
                .to_string()
        )
    );
}

#[test]
fn null_checks_split_records() {
    assert_eq!(run("note", &[], PredicateOperator::IsNull), Ok(vec![0, 2]));
    assert_eq!(run("note", &[], PredicateOperator::IsNotNull), Ok(vec![1]));
}

#[test]
fn patterns_match_substrings() {
    assert_eq!(run("name", &["port"], PredicateOperator::Like), Ok(vec![1]));
    assert_eq!(run("name", &["Port"], PredicateOperator::Like), Ok(vec![0]));
    assert_eq!(run("name", &["PORT"], PredicateOperator::Ilike), Ok(vec![0, 1]));
    assert_eq!(run("name", &[""], PredicateOperator::Like), Ok(vec![0, 1, 2]));
    assert_eq!(run("count", &["0"], PredicateOperator::Like), Ok(vec![1]));
}

#[test]
fn numbers_compare_as_numbers() {
    assert_eq!(run("count", &["3"], PredicateOperator::Greater), Ok(vec![1]));
    assert_eq!(run("count", &["3"], PredicateOperator::GreaterOrEqual), Ok(vec![0, 1]));
    assert_eq!(run("count", &["3"], PredicateOperator::Less), Ok(vec![2]));
    assert_eq!(run("count", &["3.0"], PredicateOperator::LessOrEqual), Ok(vec![0, 2]));
    assert_eq!(run("count", &["-0"], PredicateOperator::Less), Ok(vec![2]));
    assert_eq!(run("count", &["inf"], PredicateOperator::Less), Ok(vec![0, 1, 2]));
    assert_eq!(run("count", &["NaN"], PredicateOperator::Less), Ok(vec![]));
    assert_eq!(run("count", &["NaN"], PredicateOperator::GreaterOrEqual), Ok(vec![]));
    assert_eq!(
        run("count", &["abc"], PredicateOperator::Greater),
        Err("Could not convert search_value [abc] to f64: invalid float literal".to_string())
    );
}

#[test]
fn dates_compare_as_instants() {
    // 2023-06-01T12:00:00+02:00 is 10:00 UTC
    assert_eq!(
        run("when", &["2023-06-01T10:00:00Z"], PredicateOperator::GreaterOrEqual),
        Ok(vec![1])
    );
    assert_eq!(
        run("when", &["2023-06-01T10:00:00Z"], PredicateOperator::Greater),
        Ok(vec![])
    );
    assert_eq!(
        run("when", &["2023-06-01T10:00:00Z"], PredicateOperator::Less),
        Ok(vec![0])
    );
    let err = run("when", &["tomorrow"], PredicateOperator::Less).unwrap_err();
    assert!(err.starts_with("Could not convert search_value [tomorrow] to date: "));
}

#[test]
fn ordering_needs_a_number_or_a_string() {
    assert_eq!(
        run("note", &["1"], PredicateOperator::Greater),
        Err("Could not convert provided value to string.".to_string())
    );
    let records = vec![record(0, "a", vec![("flag", JsonValue::Other("true".to_string()))])];
    let mut filtered = vec![];
    assert_eq!(
        filter_for_operator(
            "flag",
            &values(&["1"]),
            &records,
            &mut filtered,
            PredicateOperator::Less
        ),
        Err("Could not convert provided value to string.".to_string())
    );
}

#[test]
fn ranges_take_two_bounds() {
    assert_eq!(run("count", &["0", "10"], PredicateOperator::Between), Ok(vec![0, 1]));
    assert_eq!(run("count", &["-3", "3", "ignored"], PredicateOperator::Between), Ok(vec![0, 2]));
    assert_eq!(
        run(
            "when",
            &["2022-12-31T00:00:00Z", "2023-06-01T10:00:00Z"],
            PredicateOperator::Between
        ),
        Ok(vec![0, 1])
    );
    assert_eq!(
        run("count", &[], PredicateOperator::Between),
        Err("Error in advanced search parameters. Between operator is expecting 2 values but got zero.".to_string())
    );
    assert_eq!(
        run("count", &["1"], PredicateOperator::Between),
        Err("Error in advanced search parameters. Between operator is expecting 2 values but got only one.".to_string())
    );
    assert_eq!(
        run("count", &["x", "1"], PredicateOperator::Between),
        Err("Could not convert search_value min [x] to f64: invalid float literal".to_string())
    );
    assert_eq!(
        run("count", &["1", "y"], PredicateOperator::Between),
        Err("Could not convert search_value max [y] to f64: invalid float literal".to_string())
    );
    // an unreadable upper date is reported with the lower bound's text
    let err = run("when", &["2022-12-31T00:00:00Z", "later"], PredicateOperator::Between)
        .unwrap_err();
    assert!(err.starts_with("Could not convert search_value max [2022-12-31T00:00:00Z] to date: "));
}

#[test]
fn geometric_conditions_keep_nothing() {
    assert_eq!(run("name", &["POINT Z(1,2,3)"], PredicateOperator::GeoIntersect), Ok(vec![]));
    assert_eq!(run("name", &[], PredicateOperator::GeoWithin), Ok(vec![]));
    assert_eq!(run("name", &["a", "b"], PredicateOperator::GeoDisjoint), Ok(vec![]));
}

#[test]
fn an_error_keeps_what_was_appended_before_it() {
    let records = sample_records();
    let mut filtered = vec![record(9, "z", vec![])];
    // the first record's note is null, which no ordering condition reads
    let r = filter_for_operator(
        "note",
        &values(&["x"]),
        &records,
        &mut filtered,
        PredicateOperator::GreaterOrEqual,
    );
    assert_eq!(r, Err("Could not convert provided value to string.".to_string()));
    assert_eq!(filtered.iter().map(|r| r.position).collect::<Vec<_>>(), vec![9]);

    let mut filtered = vec![];
    let r = filter_for_operator(
        "name",
        &values(&["m"]),
        &records,
        &mut filtered,
        PredicateOperator::Like,
    );
    assert_eq!(r, Ok(()));
    assert_eq!(filtered.iter().map(|r| r.position).collect::<Vec<_>>(), vec![2]);
}

fn prepared(field: &str, vals: &[&str], op: PredicateOperator, join: Option<i32>) -> PreparedFilter {
    PreparedFilter {
        search_field: field.to_string(),
        search_value: values(vals),
        predicate_operator: op.value(),
        comparison_operator: join,
    }
}

fn positions(r: Result<Vec<SearchRecord>, SearchError>) -> Result<Vec<usize>, SearchError> {
    r.map(|v| v.iter().map(|r| r.position).collect())
}

#[test]
fn search_without_conditions_returns_everything() {
    let records = sample_records();
    assert_eq!(positions(search_records(&records, &vec![])), Ok(vec![0, 1, 2]));
}

#[test]
fn search_combines_conditions_in_order() {
    let records = sample_records();
    let and = Some(ComparisonOperator::And.value());
    let or = Some(ComparisonOperator::Or.value());

    // AND narrows what was collected
    let filters = vec![
        prepared("count", &["0"], PredicateOperator::Greater, None),
        prepared("name", &["port"], PredicateOperator::Ilike, and),
    ];
    assert_eq!(positions(search_records(&records, &filters)), Ok(vec![0, 1]));

    // OR appends what it keeps of all records, repeats included
    let filters = vec![
        prepared("id", &["a"], PredicateOperator::Equals, None),
        prepared("count", &["5"], PredicateOperator::Greater, or),
        prepared("id", &["a"], PredicateOperator::Equals, or),
    ];
    assert_eq!(positions(search_records(&records, &filters)), Ok(vec![0, 1, 0]));

    // an AND first starts from nothing collected
    let filters = vec![prepared("id", &["a"], PredicateOperator::Equals, and)];
    assert_eq!(positions(search_records(&records, &filters)), Ok(vec![]));
}

#[test]
fn search_reports_unknown_operators_and_failing_conditions() {
    let records = sample_records();
    let mut bad = prepared("id", &["a"], PredicateOperator::Equals, None);
    bad.predicate_operator = 99;
    assert_eq!(
        positions(search_records(&records, &vec![bad])),
        Err(SearchError::UnknownPredicateOperator(99))
    );

    let bad = prepared("id", &["a"], PredicateOperator::Equals, Some(7));
    assert_eq!(
        positions(search_records(&records, &vec![bad])),
        Err(SearchError::UnknownComparisonOperator(7))
    );

    let filters = vec![
        prepared("id", &["a"], PredicateOperator::Equals, None),
        prepared("id", &["a", "b"], PredicateOperator::Equals, None),
    ];
    assert_eq!(
        positions(search_records(&records, &filters)),
        Err(SearchError::Filter(
            "Could not get filtered values for provided filter: Error in advanced search parameters. Expecting a single value, but got [2] values".to_string()
        ))
    );
}

#[test]
fn null_search_returns_the_records_whose_field_is_null() {
    let records = sample_records();
    let filters = vec![prepared("note", &[], PredicateOperator::IsNull, None)];
    assert_eq!(positions(search_records(&records, &filters)), Ok(vec![0, 2]));
    let filters = vec![prepared(
        "note",
        &[],
        PredicateOperator::IsNull,
        Some(ComparisonOperator::Or.value()),
    )];
    assert_eq!(positions(search_records(&records, &filters)), Ok(vec![0, 2]));
}
