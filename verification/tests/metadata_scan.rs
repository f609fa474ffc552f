use d365_odata::error::ODataError;
use d365_odata::metadata::{extract_entity_sets_from_metadata, parse_entity};

const CONTACT: &str = "<EntityType Name=\"Contact\">\n  <Key>\n    <PropertyRef Name=\"contactid\"/>\n  </Key>\n  <Property Name=\"fullname\" Type=\"Edm.String\"/>\n  <NavigationProperty Name=\"parentaccount\" Type=\"Microsoft.Dynamics.CRM.account\"/>\n</EntityType>\n";

#[test]
fn contact_schema_is_extracted() {
    let (properties, navigation, keys) = parse_entity(CONTACT, "Contact").unwrap();
    assert_eq!(keys, vec!["contactid".to_string()]);
    assert_eq!(properties, vec!["fullname: String".to_string()]);
    assert_eq!(navigation, vec!["parentaccount -> account".to_string()]);
}

#[test]
fn absent_entity_is_not_found() {
    match parse_entity(CONTACT, "Invoice") {
        Err(ODataError::NotFound(message)) => {
            assert_eq!(message, "Entity 'Invoice' not found in metadata");
        }
        other => panic!("unexpected result: {:?}", other),
    }
}

#[test]
fn empty_document_is_not_found() {
    assert!(matches!(parse_entity("", "Contact"), Err(ODataError::NotFound(_))));
}

#[test]
fn collection_targets_are_bracketed() {
    let doc = "<EntityType Name=\"account\">\r\n<Property Name=\"tags\" Type=\"Collection(Edm.String)\" />\r\n<Property Name=\"untyped\" />\r\n<NavigationProperty Name=\"contacts\" Type=\"Collection(Microsoft.Dynamics.CRM.contact)\" Partner=\"parent\" />\r\n<NavigationProperty Name=\"loose\" />\r\n</EntityType>";
    let (properties, navigation, keys) = parse_entity(doc, "account").unwrap();
    assert_eq!(properties, vec!["tags: Collection(String)".to_string(), "untyped".to_string()]);
    assert_eq!(navigation, vec!["contacts -> [contact]".to_string(), "loose".to_string()]);
    assert!(keys.is_empty());
}

#[test]
fn prefix_match_finds_suffixed_type() {
    let doc = "<EntityType Name=\"CustomersV3Type\">\n<Property Name=\"Id\" Type=\"Edm.Int32\"/>\n</EntityType>";
    let (properties, _, _) = parse_entity(doc, "CustomersV3").unwrap();
    assert_eq!(properties, vec!["Id: Int32".to_string()]);
    let (properties, _, _) = parse_entity(doc, "CustomersV3TypeExtra").unwrap();
    assert_eq!(properties, vec!["Id: Int32".to_string()]);
}

#[test]
fn empty_block_is_given_up_and_scan_goes_on() {
    let doc = "<EntityType Name=\"Order\">\n<Key>\n<PropertyRef Name=\"a\"/>\n</Key>\n</EntityType>\n<EntityType Name=\"Order\">\n<Key>\n<PropertyRef Name=\"b\"/>\n</Key>\n<Property Name=\"total\" Type=\"Edm.Decimal\"/>\n</EntityType>\n<EntityType Name=\"Order\">\n<Property Name=\"late\" Type=\"Edm.String\"/>\n</EntityType>";
    let (properties, navigation, keys) = parse_entity(doc, "Order").unwrap();
    assert_eq!(properties, vec!["total: Decimal".to_string()]);
    assert!(navigation.is_empty());
    assert_eq!(keys, vec!["a".to_string(), "b".to_string()]);
}

#[test]
fn other_entities_are_skipped() {
    let doc = "<EntityType Name=\"Lead\">\n<Property Name=\"topic\" Type=\"Edm.String\"/>\n</EntityType>\n<EntityType Name=\"Contact\">\n<Property Name=\"fullname\" Type=\"Edm.String\"/>\n</EntityType>";
    let (properties, _, _) = parse_entity(doc, "Contact").unwrap();
    assert_eq!(properties, vec!["fullname: String".to_string()]);
}

#[test]
fn entity_sets_in_document_order() {
    let doc = "<EntityContainer Name=\"System\">\n  <EntitySet Name=\"accounts\" EntityType=\"mscrm.account\" />\n  <Singleton Name=\"me\" />\n  <EntitySet Name=\"contacts\" EntityType=\"mscrm.contact\" />\r\n  <EntitySet Name=\"broken\n</EntityContainer>";
    assert_eq!(
        extract_entity_sets_from_metadata(doc),
        vec!["accounts".to_string(), "contacts".to_string()]
    );
}

#[test]
fn no_entity_sets_gives_empty_list() {
    assert!(extract_entity_sets_from_metadata("<Schema>\n</Schema>").is_empty());
    assert!(extract_entity_sets_from_metadata("").is_empty());
}

#[test]
fn the_scan_goes_by_lines() {
    let one_line = "<EntityType Name=\"Contact\"><Key><PropertyRef Name=\"contactid\"/></Key><Property Name=\"fullname\" Type=\"Edm.String\"/><NavigationProperty Name=\"parentaccount\" Type=\"Microsoft.Dynamics.CRM.account\"/></EntityType>";
    assert!(matches!(parse_entity(one_line, "Contact"), Err(ODataError::NotFound(_))));
    let indented = "\t<EntityType Name=\"Contact\">  \r\n\t\t<Key>\r\n\t\t\t<PropertyRef Name=\"contactid\"/>\r\n\t\t</Key>\r\n\t\t<Property Name=\"fullname\" Type=\"Edm.String\"/>\r\n\t</EntityType>\r\n\t<EntityType Name=\"Other\">\r\n\t\t<Property Name=\"late\" Type=\"Edm.String\"/>\r\n\t</EntityType>";
    let (properties, navigation, keys) = parse_entity(indented, "Contact").unwrap();
    assert_eq!(properties, vec!["fullname: String".to_string()]);
    assert!(navigation.is_empty());
    assert_eq!(keys, vec!["contactid".to_string()]);
}

#[test]
fn key_fields_outside_a_key_span_are_ignored() {
    let doc = "<EntityType Name=\"A\">\n<PropertyRef Name=\"stray\"/>\n<Key>\n<PropertyRef Name=\"id\"/>\n<PropertyRef Alias=\"x\"/>\n</Key>\n<PropertyRef Name=\"after\"/>\n<Property Name=\"p\"/>\n</EntityType>";
    let (properties, _, keys) = parse_entity(doc, "A").unwrap();
    assert_eq!(properties, vec!["p".to_string()]);
    assert_eq!(keys, vec!["id".to_string()]);
}
