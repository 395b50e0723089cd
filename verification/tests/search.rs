use svc_storage::search::{
    AdvancedSearchFilter, ComparisonOperator, PredicateOperator, SortOrder,
};
// Test all of search, and, or options for predicate operator; equals
#[test]
fn test_search_equals() {
    let filter =
        AdvancedSearchFilter::search_equals(String::from("equals"), String::from("test"))
            .and_equals(String::from("and_equals"), String::from("test"))
            .or_equals(String::from("or_equals"), String::from("test"));

    assert_eq!(filter.filters.len(), 3);

    let filter_option1 = &filter.filters[0];
    assert_eq!(filter_option1.search_field, "equals");
    assert_eq!(filter_option1.search_value, vec!["test"]);
    assert_eq!(
        filter.filters[0].predicate_operator,
        PredicateOperator::Equals as i32
    );

    let filter_option2 = &filter.filters[1];
    assert_eq!(filter_option2.search_field, "and_equals");
    assert_eq!(filter_option2.search_value, vec!["test"]);
    assert_eq!(
        filter_option2.predicate_operator,
        PredicateOperator::Equals as i32
    );
    assert_eq!(
        filter_option2.comparison_operator,
        Some(ComparisonOperator::And as i32)
    );

    let filter_option3 = &filter.filters[2];
    assert_eq!(filter_option3.search_field, "or_equals");
    assert_eq!(filter_option3.search_value, vec!["test"]);
    assert_eq!(
        filter_option3.predicate_operator,
        PredicateOperator::Equals as i32
    );
    assert_eq!(
        filter_option3.comparison_operator,
        Some(ComparisonOperator::Or as i32)
    );
}

// Test all of search, and, or options for predicate operator; not_equals
#[test]
fn test_search_not_equals() {
    let filter = AdvancedSearchFilter::search_not_equals(
        String::from("not_equals"),
        String::from("test"),
    )
    .and_not_equals(String::from("and_not_equals"), String::from("test"))
    .or_not_equals(String::from("or_not_equals"), String::from("test"));

    assert_eq!(filter.filters.len(), 3);

    let filter_option1 = &filter.filters[0];
    assert_eq!(filter_option1.search_field, "not_equals");
    assert_eq!(filter_option1.search_value, vec!["test"]);
    assert_eq!(
        filter.filters[0].predicate_operator,
        PredicateOperator::NotEquals as i32
    );

    let filter_option2 = &filter.filters[1];
    assert_eq!(filter_option2.search_field, "and_not_equals");
    assert_eq!(filter_option2.search_value, vec!["test"]);
    assert_eq!(
        filter_option2.predicate_operator,
        PredicateOperator::NotEquals as i32
    );
    assert_eq!(
        filter_option2.comparison_operator,
        Some(ComparisonOperator::And as i32)
    );

    let filter_option3 = &filter.filters[2];
    assert_eq!(filter_option3.search_field, "or_not_equals");
    assert_eq!(filter_option3.search_value, vec!["test"]);
    assert_eq!(
        filter_option3.predicate_operator,
        PredicateOperator::NotEquals as i32
    );
    assert_eq!(
        filter_option3.comparison_operator,
        Some(ComparisonOperator::Or as i32)
    );
}

// Test all of search, and, or options for predicate operator; in
#[test]
fn test_search_in() {
    let filter =
        AdvancedSearchFilter::search_in(String::from("in"), vec![String::from("test")])
            .and_in(String::from("and_in"), vec![String::from("test")])
            .or_in(String::from("or_in"), vec![String::from("test")]);

    assert_eq!(filter.filters.len(), 3);

    let filter_option1 = &filter.filters[0];
    assert_eq!(filter_option1.search_field, "in");
    assert_eq!(filter_option1.search_value, vec!["test"]);
    assert_eq!(
        filter.filters[0].predicate_operator,
        PredicateOperator::In as i32
    );

    let filter_option2 = &filter.filters[1];
    assert_eq!(filter_option2.search_field, "and_in");
    assert_eq!(filter_option2.search_value, vec!["test"]);
    assert_eq!(
        filter_option2.predicate_operator,
        PredicateOperator::In as i32
    );
    assert_eq!(
        filter_option2.comparison_operator,
        Some(ComparisonOperator::And as i32)
    );

    let filter_option3 = &filter.filters[2];
    assert_eq!(filter_option3.search_field, "or_in");
    assert_eq!(filter_option3.search_value, vec!["test"]);
    assert_eq!(
        filter_option3.predicate_operator,
        PredicateOperator::In as i32
    );
    assert_eq!(
        filter_option3.comparison_operator,
        Some(ComparisonOperator::Or as i32)
    );
}

// Test all of search, and, or options for predicate operator; not_in
#[test]
fn test_search_not_in() {
    let filter =
        AdvancedSearchFilter::search_not_in(String::from("not_in"), vec![String::from("test")])
            .and_not_in(String::from("and_not_in"), vec![String::from("test")])
            .or_not_in(String::from("or_not_in"), vec![String::from("test")]);

    assert_eq!(filter.filters.len(), 3);

    let filter_option1 = &filter.filters[0];
    assert_eq!(filter_option1.search_field, "not_in");
    assert_eq!(filter_option1.search_value, vec!["test"]);
    assert_eq!(
        filter.filters[0].predicate_operator,
        PredicateOperator::NotIn as i32
    );

    let filter_option2 = &filter.filters[1];
    assert_eq!(filter_option2.search_field, "and_not_in");
    assert_eq!(filter_option2.search_value, vec!["test"]);
    assert_eq!(
        filter_option2.predicate_operator,
        PredicateOperator::NotIn as i32
    );
    assert_eq!(
        filter_option2.comparison_operator,
        Some(ComparisonOperator::And as i32)
    );

    let filter_option3 = &filter.filters[2];
    assert_eq!(filter_option3.search_field, "or_not_in");
    assert_eq!(filter_option3.search_value, vec!["test"]);
    assert_eq!(
        filter_option3.predicate_operator,
        PredicateOperator::NotIn as i32
    );
    assert_eq!(
        filter_option3.comparison_operator,
        Some(ComparisonOperator::Or as i32)
    );
}

// Test all of search, and, or options for predicate operator; between
#[test]
fn test_search_between() {
    let filter = AdvancedSearchFilter::search_between(
        String::from("between"),
        1.to_string(),
        10.to_string(),
    )
    .and_between(String::from("and_between"), 1.to_string(), 5.to_string())
    .or_between(String::from("or_between"), 7.to_string(), 5.to_string());

    assert_eq!(filter.filters.len(), 3);

    let filter_option1 = &filter.filters[0];
    assert_eq!(filter_option1.search_field, "between");
    assert_eq!(filter_option1.search_value, vec!["1", "10"]);
    assert_eq!(
        filter.filters[0].predicate_operator,
        PredicateOperator::Between as i32
    );

    let filter_option2 = &filter.filters[1];
    assert_eq!(filter_option2.search_field, "and_between");
    assert_eq!(filter_option2.search_value, vec!["1", "5"]);
    assert_eq!(
        filter_option2.predicate_operator,
        PredicateOperator::Between as i32
    );
    assert_eq!(
        filter_option2.comparison_operator,
        Some(ComparisonOperator::And as i32)
    );

    let filter_option3 = &filter.filters[2];
    assert_eq!(filter_option3.search_field, "or_between");
    assert_eq!(filter_option3.search_value, vec!["7", "5"]);
    assert_eq!(
        filter_option3.predicate_operator,
        PredicateOperator::Between as i32
    );
    assert_eq!(
        filter_option3.comparison_operator,
        Some(ComparisonOperator::Or as i32)
    );
}

// Test all of search, and, or options for predicate operator; is_null
#[test]
fn test_search_is_null() {
    let filter = AdvancedSearchFilter::search_is_null(String::from("is_null"))
        .and_is_null(String::from("and_is_null"))
        .or_is_null(String::from("or_is_null"));

    assert_eq!(filter.filters.len(), 3);

    let expected_values: Vec<String> = vec![];

    let filter_option1 = &filter.filters[0];
    assert_eq!(filter_option1.search_field, "is_null");
    assert_eq!(filter_option1.search_value, expected_values);
    assert_eq!(
        filter.filters[0].predicate_operator,
        PredicateOperator::IsNull as i32
    );

    let filter_option2 = &filter.filters[1];
    assert_eq!(filter_option2.search_field, "and_is_null");
    assert_eq!(filter_option2.search_value, expected_values);
    assert_eq!(
        filter_option2.predicate_operator,
        PredicateOperator::IsNull as i32
    );
    assert_eq!(
        filter_option2.comparison_operator,
        Some(ComparisonOperator::And as i32)
    );

    let filter_option3 = &filter.filters[2];
    assert_eq!(filter_option3.search_field, "or_is_null");
    assert_eq!(filter_option3.search_value, expected_values);
    assert_eq!(
        filter_option3.predicate_operator,
        PredicateOperator::IsNull as i32
    );
    assert_eq!(
        filter_option3.comparison_operator,
        Some(ComparisonOperator::Or as i32)
    );
}

// Test all of search, and, or options for predicate operator; is_not_null
#[test]
fn test_search_is_not_null() {
    let filter = AdvancedSearchFilter::search_is_not_null(String::from("is_not_null"))
        .and_is_not_null(String::from("and_is_not_null"))
        .or_is_not_null(String::from("or_is_not_null"));

    assert_eq!(filter.filters.len(), 3);

    let expected_values: Vec<String> = vec![];

    let filter_option1 = &filter.filters[0];
    assert_eq!(filter_option1.search_field, "is_not_null");
    assert_eq!(filter_option1.search_value, expected_values);
    assert_eq!(
        filter.filters[0].predicate_operator,
        PredicateOperator::IsNotNull as i32
    );

    let filter_option2 = &filter.filters[1];
    assert_eq!(filter_option2.search_field, "and_is_not_null");
    assert_eq!(filter_option2.search_value, expected_values);
    assert_eq!(
        filter_option2.predicate_operator,
        PredicateOperator::IsNotNull as i32
    );
    assert_eq!(
        filter_option2.comparison_operator,
        Some(ComparisonOperator::And as i32)
    );

    let filter_option3 = &filter.filters[2];
    assert_eq!(filter_option3.search_field, "or_is_not_null");
    assert_eq!(filter_option3.search_value, expected_values);
    assert_eq!(
        filter_option3.predicate_operator,
        PredicateOperator::IsNotNull as i32
    );
    assert_eq!(
        filter_option3.comparison_operator,
        Some(ComparisonOperator::Or as i32)
    );
}

// Test all of search, and, or options for predicate operator; ilike
#[test]
fn test_search_ilike() {
    let filter =
        AdvancedSearchFilter::search_ilike(String::from("ilike"), String::from("test1"))
            .and_ilike(String::from("and_ilike"), String::from("test2"))
            .or_ilike(String::from("or_ilike"), String::from("test3"));

    assert_eq!(filter.filters.len(), 3);

    let filter_option1 = &filter.filters[0];
    assert_eq!(filter_option1.search_field, "ilike");
    assert_eq!(filter_option1.search_value, vec!["test1"]);
    assert_eq!(
        filter.filters[0].predicate_operator,
        PredicateOperator::Ilike as i32
    );

    let filter_option2 = &filter.filters[1];
    assert_eq!(filter_option2.search_field, "and_ilike");
    assert_eq!(filter_option2.search_value, vec!["test2"]);
    assert_eq!(
        filter_option2.predicate_operator,
        PredicateOperator::Ilike as i32
    );
    assert_eq!(
        filter_option2.comparison_operator,
        Some(ComparisonOperator::And as i32)
    );

    let filter_option3 = &filter.filters[2];
    assert_eq!(filter_option3.search_field, "or_ilike");
    assert_eq!(filter_option3.search_value, vec!["test3"]);
    assert_eq!(
        filter_option3.predicate_operator,
        PredicateOperator::Ilike as i32
    );
    assert_eq!(
        filter_option3.comparison_operator,
        Some(ComparisonOperator::Or as i32)
    );
}

// Test all of search, and, or options for predicate operator; like
#[test]
fn test_search_like() {
    let filter = AdvancedSearchFilter::search_like(String::from("like"), String::from("test1"))
        .and_like(String::from("and_like"), String::from("test2"))
        .or_like(String::from("or_like"), String::from("test3"));

    assert_eq!(filter.filters.len(), 3);

    let filter_option1 = &filter.filters[0];
    assert_eq!(filter_option1.search_field, "like");
    assert_eq!(filter_option1.search_value, vec!["test1"]);
    assert_eq!(
        filter.filters[0].predicate_operator,
        PredicateOperator::Like as i32
    );

    let filter_option2 = &filter.filters[1];
    assert_eq!(filter_option2.search_field, "and_like");
    assert_eq!(filter_option2.search_value, vec!["test2"]);
    assert_eq!(
        filter_option2.predicate_operator,
        PredicateOperator::Like as i32
    );
    assert_eq!(
        filter_option2.comparison_operator,
        Some(ComparisonOperator::And as i32)
    );

    let filter_option3 = &filter.filters[2];
    assert_eq!(filter_option3.search_field, "or_like");
    assert_eq!(filter_option3.search_value, vec!["test3"]);
    assert_eq!(
        filter_option3.predicate_operator,
        PredicateOperator::Like as i32
    );
    assert_eq!(
        filter_option3.comparison_operator,
        Some(ComparisonOperator::Or as i32)
    );
}

// Test all of search, and, or options for predicate operator; greater
#[test]
fn test_search_greater() {
    let filter =
        AdvancedSearchFilter::search_greater(String::from("greater"), String::from("1"))
            .and_greater(String::from("and_greater"), String::from("2"))
            .or_greater(String::from("or_greater"), String::from("3"));

    assert_eq!(filter.filters.len(), 3);

    let filter_option1 = &filter.filters[0];
    assert_eq!(filter_option1.search_field, "greater");
    assert_eq!(filter_option1.search_value, vec!["1"]);
    assert_eq!(
        filter.filters[0].predicate_operator,
        PredicateOperator::Greater as i32
    );

    let filter_option2 = &filter.filters[1];
    assert_eq!(filter_option2.search_field, "and_greater");
    assert_eq!(filter_option2.search_value, vec!["2"]);
    assert_eq!(
        filter_option2.predicate_operator,
        PredicateOperator::Greater as i32
    );
    assert_eq!(
        filter_option2.comparison_operator,
        Some(ComparisonOperator::And as i32)
    );

    let filter_option3 = &filter.filters[2];
    assert_eq!(filter_option3.search_field, "or_greater");
    assert_eq!(filter_option3.search_value, vec!["3"]);
    assert_eq!(
        filter_option3.predicate_operator,
        PredicateOperator::Greater as i32
    );
    assert_eq!(
        filter_option3.comparison_operator,
        Some(ComparisonOperator::Or as i32)
    );
}

// Test all of search, and, or options for predicate operator; greater_or_equal
#[test]
fn test_search_greater_or_equal() {
    let filter = AdvancedSearchFilter::search_greater_or_equal(
        String::from("greater_or_equal"),
        String::from("1"),
    )
    .and_greater_or_equal(String::from("and_greater_or_equal"), String::from("2"))
    .or_greater_or_equal(String::from("or_greater_or_equal"), String::from("3"));

    assert_eq!(filter.filters.len(), 3);

    let filter_option1 = &filter.filters[0];
    assert_eq!(filter_option1.search_field, "greater_or_equal");
    assert_eq!(filter_option1.search_value, vec!["1"]);
    assert_eq!(
        filter.filters[0].predicate_operator,
        PredicateOperator::GreaterOrEqual as i32
    );

    let filter_option2 = &filter.filters[1];
    assert_eq!(filter_option2.search_field, "and_greater_or_equal");
    assert_eq!(filter_option2.search_value, vec!["2"]);
    assert_eq!(
        filter_option2.predicate_operator,
        PredicateOperator::GreaterOrEqual as i32
    );
    assert_eq!(
        filter_option2.comparison_operator,
        Some(ComparisonOperator::And as i32)
    );

    let filter_option3 = &filter.filters[2];
    assert_eq!(filter_option3.search_field, "or_greater_or_equal");
    assert_eq!(filter_option3.search_value, vec!["3"]);
    assert_eq!(
        filter_option3.predicate_operator,
        PredicateOperator::GreaterOrEqual as i32
    );
    assert_eq!(
        filter_option3.comparison_operator,
        Some(ComparisonOperator::Or as i32)
    );
}

// Test all of search, and, or options for predicate operator; less
#[test]
fn test_search_less() {
    let filter = AdvancedSearchFilter::search_less(String::from("less"), String::from("1"))
        .and_less(String::from("and_less"), String::from("2"))
        .or_less(String::from("or_less"), String::from("3"));

    assert_eq!(filter.filters.len(), 3);

    let filter_option1 = &filter.filters[0];
    assert_eq!(filter_option1.search_field, "less");
    assert_eq!(filter_option1.search_value, vec!["1"]);
    assert_eq!(
        filter.filters[0].predicate_operator,
        PredicateOperator::Less as i32
    );

    let filter_option2 = &filter.filters[1];
    assert_eq!(filter_option2.search_field, "and_less");
    assert_eq!(filter_option2.search_value, vec!["2"]);
    assert_eq!(
        filter_option2.predicate_operator,
        PredicateOperator::Less as i32
    );
    assert_eq!(
        filter_option2.comparison_operator,
        Some(ComparisonOperator::And as i32)
    );

    let filter_option3 = &filter.filters[2];
    assert_eq!(filter_option3.search_field, "or_less");
    assert_eq!(filter_option3.search_value, vec!["3"]);
    assert_eq!(
        filter_option3.predicate_operator,
        PredicateOperator::Less as i32
    );
    assert_eq!(
        filter_option3.comparison_operator,
        Some(ComparisonOperator::Or as i32)
    );
}

// Test all of search, and, or options for predicate operator; less_or_equal
#[test]
fn test_search_less_or_equal() {
    let filter = AdvancedSearchFilter::search_less_or_equal(
        String::from("less_or_equal"),
        String::from("1"),
    )
    .and_less_or_equal(String::from("and_less_or_equal"), String::from("2"))
    .or_less_or_equal(String::from("or_less_or_equal"), String::from("3"));

    assert_eq!(filter.filters.len(), 3);

    let filter_option1 = &filter.filters[0];
    assert_eq!(filter_option1.search_field, "less_or_equal");
    assert_eq!(filter_option1.search_value, vec!["1"]);
    assert_eq!(
        filter.filters[0].predicate_operator,
        PredicateOperator::LessOrEqual as i32
    );

    let filter_option2 = &filter.filters[1];
    assert_eq!(filter_option2.search_field, "and_less_or_equal");
    assert_eq!(filter_option2.search_value, vec!["2"]);
    assert_eq!(
        filter_option2.predicate_operator,
        PredicateOperator::LessOrEqual as i32
    );
    assert_eq!(
        filter_option2.comparison_operator,
        Some(ComparisonOperator::And as i32)
    );

    let filter_option3 = &filter.filters[2];
    assert_eq!(filter_option3.search_field, "or_less_or_equal");
    assert_eq!(filter_option3.search_value, vec!["3"]);
    assert_eq!(
        filter_option3.predicate_operator,
        PredicateOperator::LessOrEqual as i32
    );
    assert_eq!(
        filter_option3.comparison_operator,
        Some(ComparisonOperator::Or as i32)
    );
}

// Test all of search, and, or options for predicate operator; geo_intersect
#[test]
fn test_search_geo_intersect() {
    let filter = AdvancedSearchFilter::search_geo_intersect(
        String::from("geo_intersect"),
        String::from("POINT Z(1,2,3)"),
    )
    .and_geo_intersect(
        String::from("and_geo_intersect"),
        String::from("POINT Z(4,5,6)"),
    )
    .or_geo_intersect(
        String::from("or_geo_intersect"),
        String::from("POINT Z(7,8,9)"),
    );

    assert_eq!(filter.filters.len(), 3);

    let filter_option1 = &filter.filters[0];
    assert_eq!(filter_option1.search_field, "geo_intersect");
    assert_eq!(filter_option1.search_value, vec!["POINT Z(1,2,3)"]);
    assert_eq!(
        filter.filters[0].predicate_operator,
        PredicateOperator::GeoIntersect as i32
    );

    let filter_option2 = &filter.filters[1];
    assert_eq!(filter_option2.search_field, "and_geo_intersect");
    assert_eq!(filter_option2.search_value, vec!["POINT Z(4,5,6)"]);
    assert_eq!(
        filter_option2.predicate_operator,
        PredicateOperator::GeoIntersect as i32
    );
    assert_eq!(
        filter_option2.comparison_operator,
        Some(ComparisonOperator::And as i32)
    );

    let filter_option3 = &filter.filters[2];
    assert_eq!(filter_option3.search_field, "or_geo_intersect");
    assert_eq!(filter_option3.search_value, vec!["POINT Z(7,8,9)"]);
    assert_eq!(
        filter_option3.predicate_operator,
        PredicateOperator::GeoIntersect as i32
    );
    assert_eq!(
        filter_option3.comparison_operator,
        Some(ComparisonOperator::Or as i32)
    );
}

// Test all of search, and, or options for predicate operator; geo_within
#[test]
fn test_search_geo_within() {
    let filter = AdvancedSearchFilter::search_geo_within(
        String::from("geo_within"),
        String::from("POINT Z(1,2,3)"),
    )
    .and_geo_within(
        String::from("and_geo_within"),
        String::from("POINT Z(4,5,6)"),
    )
    .or_geo_within(
        String::from("or_geo_within"),
        String::from("POINT Z(7,8,9)"),
    );

    assert_eq!(filter.filters.len(), 3);

    let filter_option1 = &filter.filters[0];
    assert_eq!(filter_option1.search_field, "geo_within");
    assert_eq!(filter_option1.search_value, vec!["POINT Z(1,2,3)"]);
    assert_eq!(
        filter.filters[0].predicate_operator,
        PredicateOperator::GeoWithin as i32
    );

    let filter_option2 = &filter.filters[1];
    assert_eq!(filter_option2.search_field, "and_geo_within");
    assert_eq!(filter_option2.search_value, vec!["POINT Z(4,5,6)"]);
    assert_eq!(
        filter_option2.predicate_operator,
        PredicateOperator::GeoWithin as i32
    );
    assert_eq!(
        filter_option2.comparison_operator,
        Some(ComparisonOperator::And as i32)
    );

    let filter_option3 = &filter.filters[2];
    assert_eq!(filter_option3.search_field, "or_geo_within");
    assert_eq!(filter_option3.search_value, vec!["POINT Z(7,8,9)"]);
    assert_eq!(
        filter_option3.predicate_operator,
        PredicateOperator::GeoWithin as i32
    );
    assert_eq!(
        filter_option3.comparison_operator,
        Some(ComparisonOperator::Or as i32)
    );
}

// Test all of search, and, or options for predicate operator; geo_disjoint
#[test]
fn test_search_geo_disjoint() {
    let filter = AdvancedSearchFilter::search_geo_disjoint(
        String::from("geo_disjoint"),
        String::from("POINT Z(1,2,3)"),
    )
    .and_geo_disjoint(
        String::from("and_geo_disjoint"),
        String::from("POINT Z(4,5,6)"),
    )
    .or_geo_disjoint(
        String::from("or_geo_disjoint"),
        String::from("POINT Z(7,8,9)"),
    );

    assert_eq!(filter.filters.len(), 3);

    let filter_option1 = &filter.filters[0];
    assert_eq!(filter_option1.search_field, "geo_disjoint");
    assert_eq!(filter_option1.search_value, vec!["POINT Z(1,2,3)"]);
    assert_eq!(
        filter.filters[0].predicate_operator,
        PredicateOperator::GeoDisjoint as i32
    );

    let filter_option2 = &filter.filters[1];
    assert_eq!(filter_option2.search_field, "and_geo_disjoint");
    assert_eq!(filter_option2.search_value, vec!["POINT Z(4,5,6)"]);
    assert_eq!(
        filter_option2.predicate_operator,
        PredicateOperator::GeoDisjoint as i32
    );
    assert_eq!(
        filter_option2.comparison_operator,
        Some(ComparisonOperator::And as i32)
    );

    let filter_option3 = &filter.filters[2];
    assert_eq!(filter_option3.search_field, "or_geo_disjoint");
    assert_eq!(filter_option3.search_value, vec!["POINT Z(7,8,9)"]);
    assert_eq!(
        filter_option3.predicate_operator,
        PredicateOperator::GeoDisjoint as i32
    );
    assert_eq!(
        filter_option3.comparison_operator,
        Some(ComparisonOperator::Or as i32)
    );
}

#[test]
fn test_predicate_operator_as_str_name() {
    assert_eq!(PredicateOperator::Equals.as_str_name(), "EQUALS");
    assert_eq!(PredicateOperator::NotEquals.as_str_name(), "NOT_EQUALS");
    assert_eq!(PredicateOperator::In.as_str_name(), "IN");
    assert_eq!(PredicateOperator::NotIn.as_str_name(), "NOT_IN");
    assert_eq!(PredicateOperator::Between.as_str_name(), "BETWEEN");
    assert_eq!(PredicateOperator::IsNull.as_str_name(), "IS_NULL");
    assert_eq!(PredicateOperator::IsNotNull.as_str_name(), "IS_NOT_NULL");
    assert_eq!(PredicateOperator::Ilike.as_str_name(), "ILIKE");
    assert_eq!(PredicateOperator::Like.as_str_name(), "LIKE");
    assert_eq!(PredicateOperator::Greater.as_str_name(), "GREATER");
    assert_eq!(
        PredicateOperator::GreaterOrEqual.as_str_name(),
        "GREATER_OR_EQUAL"
    );
    assert_eq!(PredicateOperator::Less.as_str_name(), "LESS");
    assert_eq!(
        PredicateOperator::LessOrEqual.as_str_name(),
        "LESS_OR_EQUAL"
    );
    assert_eq!(
        PredicateOperator::GeoIntersect.as_str_name(),
        "GEO_INTERSECT"
    );
    assert_eq!(PredicateOperator::GeoWithin.as_str_name(), "GEO_WITHIN");
    assert_eq!(PredicateOperator::GeoDisjoint.as_str_name(), "GEO_DISJOINT");
}

#[test]
fn test_predicate_operator_from_str_name() {
    assert_eq!(
        PredicateOperator::from_str_name("EQUALS"),
        Some(PredicateOperator::Equals)
    );
    assert_eq!(
        PredicateOperator::from_str_name("NOT_EQUALS"),
        Some(PredicateOperator::NotEquals)
    );
    assert_eq!(
        PredicateOperator::from_str_name("IN"),
        Some(PredicateOperator::In)
    );
    assert_eq!(
        PredicateOperator::from_str_name("NOT_IN"),
        Some(PredicateOperator::NotIn)
    );
    assert_eq!(
        PredicateOperator::from_str_name("BETWEEN"),
        Some(PredicateOperator::Between)
    );
    assert_eq!(
        PredicateOperator::from_str_name("IS_NULL"),
        Some(PredicateOperator::IsNull)
    );
    assert_eq!(
        PredicateOperator::from_str_name("IS_NOT_NULL"),
        Some(PredicateOperator::IsNotNull)
    );
    assert_eq!(
        PredicateOperator::from_str_name("ILIKE"),
        Some(PredicateOperator::Ilike)
    );
    assert_eq!(
        PredicateOperator::from_str_name("LIKE"),
        Some(PredicateOperator::Like)
    );
    assert_eq!(
        PredicateOperator::from_str_name("GREATER"),
        Some(PredicateOperator::Greater)
    );
    assert_eq!(
        PredicateOperator::from_str_name("GREATER_OR_EQUAL"),
        Some(PredicateOperator::GreaterOrEqual)
    );
    assert_eq!(
        PredicateOperator::from_str_name("LESS"),
        Some(PredicateOperator::Less)
    );
    assert_eq!(
        PredicateOperator::from_str_name("LESS_OR_EQUAL"),
        Some(PredicateOperator::LessOrEqual)
    );
    assert_eq!(
        PredicateOperator::from_str_name("GEO_INTERSECT"),
        Some(PredicateOperator::GeoIntersect)
    );
    assert_eq!(
        PredicateOperator::from_str_name("GEO_WITHIN"),
        Some(PredicateOperator::GeoWithin)
    );
    assert_eq!(
        PredicateOperator::from_str_name("GEO_DISJOINT"),
        Some(PredicateOperator::GeoDisjoint)
    );

    assert_eq!(PredicateOperator::from_str_name("INVALID"), None);
}

#[test]
fn test_comparison_operator_as_str_name() {
    assert_eq!(ComparisonOperator::And.as_str_name(), "AND");
    assert_eq!(ComparisonOperator::Or.as_str_name(), "OR");
}

#[test]
fn test_comparison_operator_from_str_name() {
    assert_eq!(
        ComparisonOperator::from_str_name("AND"),
        Some(ComparisonOperator::And)
    );
    assert_eq!(
        ComparisonOperator::from_str_name("OR"),
        Some(ComparisonOperator::Or)
    );
    assert_eq!(ComparisonOperator::from_str_name("INVALID"), None);
}

#[test]
fn test_sort_order_as_str_name() {
    assert_eq!(SortOrder::Asc.as_str_name(), "ASC");
    assert_eq!(SortOrder::Desc.as_str_name(), "DESC");
}

#[test]
fn test_sort_order_from_str_name() {
    assert_eq!(SortOrder::from_str_name("ASC"), Some(SortOrder::Asc));
    assert_eq!(SortOrder::from_str_name("DESC"), Some(SortOrder::Desc));
    assert_eq!(SortOrder::from_str_name("INVALID"), None);
}
