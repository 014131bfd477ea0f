use pihole_api::lists::List;
use pihole_api::statements::{list_statement, ListOperation};

#[test]
fn get_statements() {
    assert_eq!(
        list_statement(List::White, ListOperation::Get),
        "SELECT domain FROM whitelist WHERE enabled = 1"
    );
    assert_eq!(
        list_statement(List::Regex, ListOperation::Get),
        "SELECT domain FROM regex WHERE enabled = 1"
    );
}

#[test]
fn contains_statement() {
    assert_eq!(
        list_statement(List::Black, ListOperation::Contains),
        "SELECT EXISTS(SELECT 1 FROM blacklist WHERE enabled = 1 AND domain = ?1) AS found"
    );
}

#[test]
fn add_statement() {
    assert_eq!(
        list_statement(List::White, ListOperation::Add),
        "INSERT INTO whitelist (domain, enabled) SELECT ?1, 1 \
         WHERE NOT EXISTS (SELECT 1 FROM whitelist WHERE enabled = 1 AND domain = ?1)"
    );
}

#[test]
fn remove_statement() {
    assert_eq!(
        list_statement(List::Regex, ListOperation::Remove),
        "DELETE FROM regex WHERE enabled = 1 AND domain = ?1"
    );
}
