use albion_market::lang_table::LangTable;
use albion_market::localization::{
    descriptions_table, get_item_localizations, localizations_after_descriptions,
    localizations_after_names, names_table, AfterNames,
};
use albion_market::models::{LocalizedDescription, LocalizedName};
use albion_market::routes::DbRequest;
use albion_market::status::{QueryFailure, Status};

fn name(lang: &str, text: &str) -> LocalizedName {
    LocalizedName {
        item_unique_name: "T4_BAG".to_string(),
        lang: lang.to_string(),
        name: text.to_string(),
    }
}

fn description(lang: &str, text: &str) -> LocalizedDescription {
    LocalizedDescription {
        item_unique_name: "T4_BAG".to_string(),
        lang: lang.to_string(),
        description: text.to_string(),
    }
}

#[test]
fn table_insert_get_and_overwrite() {
    let mut t = LangTable::new();
    assert_eq!(t.len(), 0);
    t.insert("EN-US".to_string(), "Bag".to_string());
    t.insert("DE-DE".to_string(), "Tasche".to_string());
    assert_eq!(t.len(), 2);
    assert_eq!(t.get(&"EN-US".to_string()), Some(&"Bag".to_string()));
    t.insert("EN-US".to_string(), "Adept's Bag".to_string());
    assert_eq!(t.len(), 2);
    assert_eq!(t.get(&"EN-US".to_string()), Some(&"Adept's Bag".to_string()));
    assert_eq!(t.get(&"FR-FR".to_string()), None);
}

#[test]
fn table_from_pairs_last_wins() {
    let t = LangTable::from_pairs(vec![
        ("A".to_string(), "1".to_string()),
        ("B".to_string(), "2".to_string()),
        ("A".to_string(), "3".to_string()),
    ]);
    assert_eq!(t.len(), 2);
    assert_eq!(t.get(&"A".to_string()), Some(&"3".to_string()));
    assert_eq!(t.get(&"B".to_string()), Some(&"2".to_string()));
    assert_eq!(
        t.entries(),
        &vec![("A".to_string(), "3".to_string()), ("B".to_string(), "2".to_string())]
    );
}

#[test]
fn names_table_keeps_last_row_per_language() {
    let rows = vec![name("EN-US", "Bag"), name("DE-DE", "Tasche"), name("EN-US", "Satchel")];
    let t = names_table(&rows);
    assert_eq!(t.len(), 2);
    assert_eq!(t.get(&"EN-US".to_string()), Some(&"Satchel".to_string()));
    assert_eq!(t.get(&"DE-DE".to_string()), Some(&"Tasche".to_string()));
}

#[test]
fn descriptions_table_from_rows() {
    let rows = vec![description("FR-FR", "Un sac"), description("EN-US", "A bag")];
    let t = descriptions_table(&rows);
    assert_eq!(t.len(), 2);
    assert_eq!(t.get(&"FR-FR".to_string()), Some(&"Un sac".to_string()));
    assert_eq!(descriptions_table(&vec![]).len(), 0);
}

#[test]
fn localizations_start_with_names() {
    assert_eq!(
        get_item_localizations("T4_BAG".to_string()),
        DbRequest::LocalizedNames { unique_name: "T4_BAG".to_string() }
    );
}

#[test]
fn localizations_names_failure_is_not_found() {
    match localizations_after_names("T4_BAG".to_string(), Err(QueryFailure)) {
        AfterNames::Respond(s) => assert_eq!(s, Status::NotFound),
        AfterNames::FetchDescriptions { .. } => panic!("a failed read must not go on"),
    }
}

#[test]
fn localizations_full_flow() {
    let after = localizations_after_names(
        "T4_BAG".to_string(),
        Ok(vec![name("EN-US", "Bag"), name("DE-DE", "Tasche")]),
    );
    let state = match after {
        AfterNames::FetchDescriptions { state, request } => {
            assert_eq!(
                request,
                DbRequest::LocalizedDescriptions { unique_name: "T4_BAG".to_string() }
            );
            state
        }
        AfterNames::Respond(_) => panic!("names were read"),
    };
    let l = localizations_after_descriptions(state, Ok(vec![description("EN-US", "A bag")]))
        .unwrap();
    assert_eq!(l.unique_name, "T4_BAG");
    assert_eq!(l.names.len(), 2);
    assert_eq!(l.names.get(&"DE-DE".to_string()), Some(&"Tasche".to_string()));
    assert_eq!(l.descriptions.len(), 1);
    assert_eq!(l.descriptions.get(&"EN-US".to_string()), Some(&"A bag".to_string()));
}

#[test]
fn localizations_descriptions_failure_is_not_found() {
    let state = match localizations_after_names("X".to_string(), Ok(vec![])) {
        AfterNames::FetchDescriptions { state, .. } => state,
        AfterNames::Respond(_) => panic!("names were read"),
    };
    let r = localizations_after_descriptions(state, Err(QueryFailure));
    assert_eq!(r.err(), Some(Status::NotFound));
}
