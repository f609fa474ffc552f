use d365_odata::args::{
    flag_arg, format_key, list_arg, name_list, number_arg, page_limit, text_arg, ArgValue,
    QueryArgs, DEFAULT_TOP, MAX_TOP,
};
use d365_odata::query::ProductType;
use d365_odata::tools::{tool_named, ToolKind};

fn text(s: &str) -> Option<ArgValue> {
    Some(ArgValue::Text(s.to_string()))
}

#[test]
fn numbers_come_as_numbers_or_numeric_strings() {
    assert_eq!(number_arg(&Some(ArgValue::Integer(25))), Some(25));
    assert_eq!(number_arg(&Some(ArgValue::Integer(0))), Some(0));
    assert_eq!(number_arg(&Some(ArgValue::Integer(-1))), Some(usize::MAX));
    assert_eq!(number_arg(&text("25")), Some(25));
    assert_eq!(number_arg(&text("+7")), Some(7));
    assert_eq!(number_arg(&text("")), None);
    assert_eq!(number_arg(&text("12a")), None);
    assert_eq!(number_arg(&text("-3")), None);
    assert_eq!(number_arg(&text(" 3")), None);
    assert_eq!(number_arg(&text("99999999999999999999999")), None);
    assert_eq!(number_arg(&Some(ArgValue::Flag(true))), None);
    assert_eq!(number_arg(&Some(ArgValue::Other)), None);
    assert_eq!(number_arg(&None), None);
}

#[test]
fn flags_come_as_booleans_or_the_text_true() {
    assert!(flag_arg(&Some(ArgValue::Flag(true))));
    assert!(!flag_arg(&Some(ArgValue::Flag(false))));
    assert!(flag_arg(&text("true")));
    assert!(!flag_arg(&text("True")));
    assert!(!flag_arg(&text("true ")));
    assert!(!flag_arg(&text("false")));
    assert!(!flag_arg(&text("")));
    assert!(!flag_arg(&Some(ArgValue::Integer(1))));
    assert!(!flag_arg(&Some(ArgValue::Other)));
    assert!(!flag_arg(&None));
}

#[test]
fn lists_are_split_at_commas_and_trimmed() {
    assert_eq!(name_list("Name, Id ,Status"), vec!["Name", "Id", "Status"]);
    assert_eq!(name_list("single"), vec!["single"]);
    assert_eq!(name_list(""), vec![""]);
    assert_eq!(name_list("a,,b,"), vec!["a", "", "b", ""]);
    assert_eq!(name_list(" \t a b \u{a0},\r\nc"), vec!["a b", "c"]);
    assert_eq!(list_arg(&text("x, y")), Some(vec!["x".to_string(), "y".to_string()]));
    assert_eq!(list_arg(&Some(ArgValue::Integer(3))), None);
    assert_eq!(list_arg(&None), None);
    assert_eq!(text_arg(&text("a eq 1")), Some("a eq 1".to_string()));
    assert_eq!(text_arg(&Some(ArgValue::Flag(true))), None);
    assert_eq!(text_arg(&None), None);
}

#[test]
fn page_size_has_a_default_and_a_ceiling() {
    assert_eq!(DEFAULT_TOP, 50);
    assert_eq!(MAX_TOP, 1000);
    assert_eq!(page_limit(None), 50);
    assert_eq!(page_limit(Some(0)), 0);
    assert_eq!(page_limit(Some(999)), 999);
    assert_eq!(page_limit(Some(1000)), 1000);
    assert_eq!(page_limit(Some(1001)), 1000);
    assert_eq!(page_limit(Some(usize::MAX)), 1000);
}

#[test]
fn identifiers_with_hyphens_are_quoted() {
    assert_eq!(
        format_key("00000000-0000-0000-0000-000000000001"),
        "'00000000-0000-0000-0000-000000000001'"
    );
    assert_eq!(format_key("'a-b'"), "'a-b'");
    assert_eq!(format_key("'a-b"), "'a-b");
    assert_eq!(format_key("a-b'"), "'a-b''");
    assert_eq!(format_key("42"), "42");
    assert_eq!(format_key("-"), "'-'");
    assert_eq!(format_key(""), "");
}

#[test]
fn arguments_become_query_options() {
    let args = QueryArgs {
        select: text("Name, Id"),
        filter: text("Status ne 'Closed'"),
        orderby: text("Name asc"),
        top: text("5000"),
        skip: Some(ArgValue::Integer(10)),
        expand: text("Lines"),
        cross_company: text("true"),
        count: Some(ArgValue::Flag(true)),
    };
    let options = args.to_options();
    assert_eq!(options.select, Some(vec!["Name".to_string(), "Id".to_string()]));
    assert_eq!(options.filter, Some("Status ne 'Closed'".to_string()));
    assert_eq!(options.orderby, Some("Name asc".to_string()));
    assert_eq!(options.top, Some(1000));
    assert_eq!(options.skip, Some(10));
    assert_eq!(options.expand, Some(vec!["Lines".to_string()]));
    assert!(options.cross_company);
    assert!(options.count);
    assert_eq!(
        options.to_query_string(&ProductType::Finops),
        "?$select=Name,Id&$filter=Status ne 'Closed'&$top=1000&$skip=10&$orderby=Name asc&$expand=Lines&$count=true&cross-company=true"
    );
}

#[test]
fn missing_arguments_leave_only_the_default_page_size() {
    let args = QueryArgs {
        select: None,
        filter: None,
        orderby: None,
        top: None,
        skip: None,
        expand: None,
        cross_company: None,
        count: None,
    };
    let options = args.to_options();
    assert_eq!(options.top, Some(50));
    assert_eq!(options.to_query_string(&ProductType::Dataverse), "?$top=50");
}

#[test]
fn tools_are_found_by_name() {
    assert_eq!(tool_named("list_entities"), Some(ToolKind::ListEntities));
    assert_eq!(tool_named("query_entity"), Some(ToolKind::QueryEntity));
    assert_eq!(tool_named("get_entity_schema"), Some(ToolKind::GetEntitySchema));
    assert_eq!(tool_named("get_record"), Some(ToolKind::GetRecord));
    assert_eq!(tool_named("get_environment_info"), Some(ToolKind::GetEnvironmentInfo));
    assert_eq!(tool_named("get_metadata"), Some(ToolKind::GetMetadata));
    assert_eq!(tool_named("refresh_metadata"), Some(ToolKind::RefreshMetadata));
    assert_eq!(tool_named("Get_Metadata"), None);
    assert_eq!(tool_named("get_metadata "), None);
    assert_eq!(tool_named(""), None);
}
