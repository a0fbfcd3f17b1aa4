use sql_builder::condition_list::{ConditionList, Connective, Term};
use sql_builder::where_clause::WhereCond;
use sql_builder::SqlBuilder;

#[test]
fn test_list_first_term_is_bare() {
    let mut list = ConditionList::new();
    assert!(list.is_empty());
    assert_eq!(list.build().unwrap(), "");
    list.and(WhereCond::equal("id"));
    assert_eq!(list.to_sql(), "id = ?");
    let mut other = ConditionList::new();
    other.or(WhereCond::equal("id"));
    assert_eq!(other.to_sql(), "id = ?");
    assert_eq!(other.len(), 1);
}

#[test]
fn test_list_of_one_connective() {
    let mut list = ConditionList::new();
    list.and(WhereCond::equal("id"))
        .and(WhereCond::greater_than("age"))
        .and(WhereCond::is_null("gone"));
    assert_eq!(list.build().unwrap(), "id = ? AND age > ? AND gone IS NULL");
    let mut list = ConditionList::new();
    list.or(WhereCond::equal("id"))
        .or(WhereCond::in_("kind", 2))
        .or(WhereCond::like("name"));
    assert_eq!(list.build().unwrap(), "id = ? OR kind IN (?, ?) OR name LIKE ?");
}

#[test]
fn test_list_mixed_connectives_are_written_word_for_word() {
    let mut list = ConditionList::new();
    list.and(WhereCond::equal("a"))
        .or(WhereCond::greater_than("b"))
        .and(WhereCond::less_than("c"));
    assert_eq!(list.to_sql(), "a = ? OR b > ? AND c < ?");
    let mut list = ConditionList::new();
    list.or(WhereCond::equal("a"))
        .and(WhereCond::equal("b"))
        .or(WhereCond::equal("c"));
    assert_eq!(list.to_sql(), "a = ? AND b = ? OR c = ?");
}

#[test]
fn test_list_groups_always_get_parentheses() {
    let mut inner = ConditionList::new();
    inner.and(WhereCond::equal("b")).and(WhereCond::equal("c"));
    let mut list = ConditionList::new();
    list.and(WhereCond::equal("a")).and_group(inner);
    assert_eq!(list.to_sql(), "a = ? AND (b = ? AND c = ?)");

    let mut inner = ConditionList::new();
    inner.or(WhereCond::equal("b")).or(WhereCond::equal("c"));
    let mut list = ConditionList::new();
    list.or(WhereCond::equal("a")).or_group(inner);
    assert_eq!(list.to_sql(), "a = ? OR (b = ? OR c = ?)");

    let mut single = ConditionList::new();
    single.and(WhereCond::equal("x"));
    let mut list = ConditionList::new();
    list.and_group(single).or_group(ConditionList::new());
    assert_eq!(list.to_sql(), "(x = ?) OR ()");
}

#[test]
fn test_list_nested_groups() {
    let mut deepest = ConditionList::new();
    deepest.or(WhereCond::equal("d")).or(WhereCond::equal("e"));
    let mut middle = ConditionList::new();
    middle.and(WhereCond::equal("c")).and_group(deepest);
    let mut list = ConditionList::new();
    list.and(WhereCond::equal("a"))
        .or(WhereCond::equal("b"))
        .or_group(middle)
        .and(WhereCond::raw_condition("1 = 1"));
    assert_eq!(
        list.to_sql(),
        "a = ? OR b = ? OR (c = ? AND (d = ? OR e = ?)) AND 1 = 1"
    );
    assert_eq!(list.len(), 4);
    assert_eq!(list.build(), list.build());
}

#[test]
fn test_list_push() {
    let mut list = ConditionList::new();
    list.push(Connective::Or, Term::Condition(WhereCond::equal("a")))
        .push(Connective::And, Term::Group(ConditionList::new()))
        .push(Connective::Or, Term::Condition(WhereCond::not_between("b")));
    assert_eq!(list.to_sql(), "a = ? AND () OR b NOT BETWEEN ? AND ?");
}
