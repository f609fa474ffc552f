use d365_odata::query::{ProductType, QueryOptions};

#[test]
fn test_query_options_empty() {
    let options = QueryOptions::default();
    assert_eq!(options.to_query_string(&ProductType::Dataverse), "");
}

#[test]
fn test_query_options_full() {
    let options = QueryOptions {
        select: Some(vec!["name".to_string(), "email".to_string()]),
        filter: Some("status eq 'active'".to_string()),
        top: Some(10),
        skip: None,
        orderby: Some("name asc".to_string()),
        expand: None,
        cross_company: false,
        count: false,
    };

    let query = options.to_query_string(&ProductType::Dataverse);
    assert!(query.contains("$select=name,email"));
    assert!(query.contains("$filter=status eq 'active'"));
    assert!(query.contains("$top=10"));
    assert!(query.contains("$orderby=name asc"));
}

#[test]
fn test_cross_company_finops_only() {
    let options = QueryOptions {
        cross_company: true,
        ..Default::default()
    };

    // Should include cross-company for F&O
    let query = options.to_query_string(&ProductType::Finops);
    assert!(query.contains("cross-company=true"));

    // Should NOT include cross-company for Dataverse
    let query = options.to_query_string(&ProductType::Dataverse);
    assert!(!query.contains("cross-company"));
}

#[test]
fn full_query_is_exact() {
    let options = QueryOptions {
        select: Some(vec!["name".to_string(), "email".to_string()]),
        filter: Some("status eq 'active'".to_string()),
        top: Some(10),
        skip: Some(20),
        orderby: Some("name asc".to_string()),
        expand: Some(vec!["owner".to_string(), "parent".to_string()]),
        cross_company: true,
        count: true,
    };
    assert_eq!(
        options.to_query_string(&ProductType::Finops),
        "?$select=name,email&$filter=status eq 'active'&$top=10&$skip=20&$orderby=name asc&$expand=owner,parent&$count=true&cross-company=true"
    );
    assert_eq!(
        options.to_query_string(&ProductType::Dataverse),
        "?$select=name,email&$filter=status eq 'active'&$top=10&$skip=20&$orderby=name asc&$expand=owner,parent&$count=true"
    );
}

#[test]
fn numbers_are_written_in_decimal() {
    let options = QueryOptions { top: Some(0), skip: Some(1234567890), ..Default::default() };
    assert_eq!(options.to_query_string(&ProductType::Dataverse), "?$top=0&$skip=1234567890");
}

#[test]
fn empty_options_contribute_nothing() {
    let options = QueryOptions {
        select: Some(vec![]),
        filter: Some(String::new()),
        orderby: Some(String::new()),
        expand: Some(vec![]),
        ..Default::default()
    };
    assert_eq!(options.to_query_string(&ProductType::Finops), "");
}

#[test]
fn filter_is_not_encoded() {
    let options = QueryOptions {
        filter: Some("name eq 'a&b' and x gt 1".to_string()),
        ..Default::default()
    };
    assert_eq!(
        options.to_query_string(&ProductType::Dataverse),
        "?$filter=name eq 'a&b' and x gt 1"
    );
}
