use sql_builder::where_clause::{WhereClause, WhereCond};
use sql_builder::SqlBuilder;

#[test]
fn test_basic() {
    let where_clause = WhereClause::condition(WhereCond::equal("id"))
        .and(WhereClause::condition(WhereCond::equal("name")))
        .or(WhereClause::condition(WhereCond::equal("email")));

    assert_eq!(where_clause.build().unwrap(), "id = ? AND name = ? OR email = ?");
}

#[test]
fn test_and() {
    let where_clause = WhereClause::condition(WhereCond::equal("id"))
        .and_equal("name")
        .and_equal("email");

    assert_eq!(where_clause.build().unwrap(), "id = ? AND name = ? AND email = ?");
}

#[test]
fn test_or() {
    let where_clause = WhereClause::condition(WhereCond::equal("id"))
        .or_equal("name")
        .or_equal("email");

    assert_eq!(where_clause.build().unwrap(), "id = ? OR name = ? OR email = ?");
}

#[test]
fn test_or_and() {
    let where_clause = WhereClause::condition(WhereCond::equal("id"))
        .or_equal("name")
        .and_equal("email");
    assert_eq!(where_clause.build().unwrap(), "(id = ? OR name = ?) AND email = ?");
}

#[test]
fn test_and_or() {
    let where_clause = WhereClause::condition(WhereCond::equal("id"))
        .and_equal("name")
        .or_equal("email");

    assert_eq!(where_clause.build().unwrap(), "id = ? AND name = ? OR email = ?");
}

#[test]
fn test_nest_or() {
    let where_clause = WhereClause::condition(WhereCond::equal("id"))
        .or_equal("name")
        .or(WhereClause::condition(WhereCond::equal("email")).or_equal("phone"));

    assert_eq!(
        where_clause.build().unwrap(),
        "id = ? OR name = ? OR email = ? OR phone = ?"
    );
}

#[test]
fn test_nest_and() {
    let where_clause = WhereClause::condition(WhereCond::equal("id"))
        .and_equal("name")
        .and(WhereClause::condition(WhereCond::equal("email")).and_equal("phone"));

    assert_eq!(
        where_clause.build().unwrap(),
        "id = ? AND name = ? AND email = ? AND phone = ?"
    );
}

#[test]
fn test_nest_and_in_or() {
    let where_clause = WhereClause::condition(WhereCond::equal("id"))
        .and_equal("name")
        .and(WhereClause::condition(WhereCond::equal("email")).or_equal("phone"));

    assert_eq!(
        where_clause.build().unwrap(),
        "id = ? AND name = ? AND (email = ? OR phone = ?)"
    );
}

#[test]
fn test_nest_or_in_and() {
    let where_clause = WhereClause::condition(WhereCond::equal("id"))
        .or_equal("name")
        .or(WhereClause::condition(WhereCond::equal("email")).and_equal("phone"));

    assert_eq!(
        where_clause.build().unwrap(),
        "id = ? OR name = ? OR email = ? AND phone = ?"
    );
}

#[test]
fn test_every_operator_as_a_leaf() {
    let cases: Vec<(WhereCond, &str)> = vec![
        (WhereCond::equal("a"), "a = ?"),
        (WhereCond::not_equal("a"), "a != ?"),
        (WhereCond::greater_than("a"), "a > ?"),
        (WhereCond::greater_than_or_equal("a"), "a >= ?"),
        (WhereCond::less_than("a"), "a < ?"),
        (WhereCond::less_than_or_equal("a"), "a <= ?"),
        (WhereCond::between("a"), "a BETWEEN ? AND ?"),
        (WhereCond::not_between("a"), "a NOT BETWEEN ? AND ?"),
        (WhereCond::in_("a", 3), "a IN (?, ?, ?)"),
        (WhereCond::not_in("a", 2), "a NOT IN (?, ?)"),
        (WhereCond::like("a"), "a LIKE ?"),
        (WhereCond::not_like("a"), "a NOT LIKE ?"),
        (WhereCond::is_null("a"), "a IS NULL"),
        (WhereCond::is_not_null("a"), "a IS NOT NULL"),
        (WhereCond::raw_condition("a = b + 1"), "a = b + 1"),
    ];
    for (cond, expected) in cases {
        assert_eq!(cond.build().unwrap(), expected);
        assert_eq!(cond.to_sql(), expected);
        assert_eq!(WhereClause::condition(cond).to_sql(), expected);
    }
}

#[test]
fn test_membership_list_boundaries() {
    assert_eq!(WhereCond::in_("id", 0).to_sql(), "id IN ()");
    assert_eq!(WhereCond::in_("id", 1).to_sql(), "id IN (?)");
    assert_eq!(WhereCond::in_("id", 2).to_sql(), "id IN (?, ?)");
    assert_eq!(WhereCond::not_in("id", 0).to_sql(), "id NOT IN ()");
    assert_eq!(WhereCond::not_in("id", 1).to_sql(), "id NOT IN (?)");
    for count in 0..20usize {
        let text = WhereCond::in_("id", count).to_sql();
        let list = &text["id IN (".len()..text.len() - 1];
        let expected = if count == 0 { 0 } else { 3 * count - 2 };
        assert_eq!(list.len(), expected);
        assert_eq!(list.matches('?').count(), count);
    }
}

#[test]
fn test_leaves_with_values() {
    let between = WhereCond::Between("age", "18".to_string(), "30".to_string());
    assert_eq!(between.to_sql(), "age BETWEEN 18 AND 30");
    let among = WhereCond::In(
        "name",
        vec!["'a'".to_string(), "'b'".to_string(), "'c'".to_string()],
    );
    assert_eq!(among.to_sql(), "name IN ('a', 'b', 'c')");
    let none = WhereCond::NotIn("name", vec![]);
    assert_eq!(none.to_sql(), "name NOT IN ()");
    let like = WhereCond::Like("name", "'%x%'".to_string());
    assert_eq!(like.to_sql(), "name LIKE '%x%'");
}

#[test]
fn test_tree_constructors_match_leaf_constructors() {
    assert_eq!(WhereClause::equal("a").to_sql(), "a = ?");
    assert_eq!(WhereClause::not_equal("a").to_sql(), "a != ?");
    assert_eq!(WhereClause::greater_than("a").to_sql(), "a > ?");
    assert_eq!(WhereClause::greater_than_or_equal("a").to_sql(), "a >= ?");
    assert_eq!(WhereClause::less_than("a").to_sql(), "a < ?");
    assert_eq!(WhereClause::less_than_or_equal("a").to_sql(), "a <= ?");
    assert_eq!(WhereClause::between("a").to_sql(), "a BETWEEN ? AND ?");
    assert_eq!(WhereClause::not_between("a").to_sql(), "a NOT BETWEEN ? AND ?");
    assert_eq!(WhereClause::in_("a", 2).to_sql(), "a IN (?, ?)");
    assert_eq!(WhereClause::not_in("a", 2).to_sql(), "a NOT IN (?, ?)");
    assert_eq!(WhereClause::like("a").to_sql(), "a LIKE ?");
    assert_eq!(WhereClause::not_like("a").to_sql(), "a NOT LIKE ?");
    assert_eq!(WhereClause::is_null("a").to_sql(), "a IS NULL");
    assert_eq!(WhereClause::is_not_null("a").to_sql(), "a IS NOT NULL");
    assert_eq!(WhereClause::raw_condition("1 = 1").to_sql(), "1 = 1");
}

#[test]
fn test_and_sugar() {
    let base = || WhereClause::equal("x").or_equal("y");
    assert_eq!(base().and_not_equal("a").to_sql(), "(x = ? OR y = ?) AND a != ?");
    assert_eq!(base().and_greater_than("a").to_sql(), "(x = ? OR y = ?) AND a > ?");
    assert_eq!(
        base().and_greater_than_or_equal("a").to_sql(),
        "(x = ? OR y = ?) AND a >= ?"
    );
    assert_eq!(base().and_less_than("a").to_sql(), "(x = ? OR y = ?) AND a < ?");
    assert_eq!(
        base().and_less_than_or_equal("a").to_sql(),
        "(x = ? OR y = ?) AND a <= ?"
    );
    assert_eq!(
        base().and_between("a").to_sql(),
        "(x = ? OR y = ?) AND a BETWEEN ? AND ?"
    );
    assert_eq!(
        base().and_not_between("a").to_sql(),
        "(x = ? OR y = ?) AND a NOT BETWEEN ? AND ?"
    );
    assert_eq!(base().and_in("a", 2).to_sql(), "(x = ? OR y = ?) AND a IN (?, ?)");
    assert_eq!(base().and_not_in("a", 1).to_sql(), "(x = ? OR y = ?) AND a NOT IN (?)");
    assert_eq!(base().and_like("a").to_sql(), "(x = ? OR y = ?) AND a LIKE ?");
    assert_eq!(base().and_not_like("a").to_sql(), "(x = ? OR y = ?) AND a NOT LIKE ?");
    assert_eq!(base().and_is_null("a").to_sql(), "(x = ? OR y = ?) AND a IS NULL");
    assert_eq!(
        base().and_is_not_null("a").to_sql(),
        "(x = ? OR y = ?) AND a IS NOT NULL"
    );
    assert_eq!(base().and_raw_condition("1 = 1").to_sql(), "(x = ? OR y = ?) AND 1 = 1");
}

#[test]
fn test_or_sugar() {
    let base = || WhereClause::equal("x").and_equal("y");
    assert_eq!(base().or_not_equal("a").to_sql(), "x = ? AND y = ? OR a != ?");
    assert_eq!(base().or_greater_than("a").to_sql(), "x = ? AND y = ? OR a > ?");
    assert_eq!(
        base().or_greater_than_or_equal("a").to_sql(),
        "x = ? AND y = ? OR a >= ?"
    );
    assert_eq!(base().or_less_than("a").to_sql(), "x = ? AND y = ? OR a < ?");
    assert_eq!(
        base().or_less_than_or_equal("a").to_sql(),
        "x = ? AND y = ? OR a <= ?"
    );
    assert_eq!(base().or_between("a").to_sql(), "x = ? AND y = ? OR a BETWEEN ? AND ?");
    assert_eq!(
        base().or_not_between("a").to_sql(),
        "x = ? AND y = ? OR a NOT BETWEEN ? AND ?"
    );
    assert_eq!(base().or_in("a", 2).to_sql(), "x = ? AND y = ? OR a IN (?, ?)");
    assert_eq!(base().or_not_in("a", 0).to_sql(), "x = ? AND y = ? OR a NOT IN ()");
    assert_eq!(base().or_like("a").to_sql(), "x = ? AND y = ? OR a LIKE ?");
    assert_eq!(base().or_not_like("a").to_sql(), "x = ? AND y = ? OR a NOT LIKE ?");
    assert_eq!(base().or_is_null("a").to_sql(), "x = ? AND y = ? OR a IS NULL");
    assert_eq!(base().or_is_not_null("a").to_sql(), "x = ? AND y = ? OR a IS NOT NULL");
    assert_eq!(base().or_raw_condition("1 = 1").to_sql(), "x = ? AND y = ? OR 1 = 1");
}

#[test]
fn test_precedence_matrix() {
    let a = || WhereClause::raw_condition("A");
    let b = || WhereClause::raw_condition("B");
    let c = || WhereClause::raw_condition("C");
    assert_eq!(a().and(b()).or(c()).to_sql(), "A AND B OR C");
    assert_eq!(a().or(b().and(c())).to_sql(), "A OR B AND C");
    assert_eq!(a().or(b()).and(c()).to_sql(), "(A OR B) AND C");
    assert_eq!(a().and(b().or(c())).to_sql(), "A AND (B OR C)");
    assert_eq!(a().or(b()).or(c()).to_sql(), "A OR B OR C");
    assert_eq!(a().and(b()).and(c()).to_sql(), "A AND B AND C");
    assert_eq!(a().or(b().or(c())).to_sql(), "A OR B OR C");
    assert_eq!(a().and(b().and(c())).to_sql(), "A AND B AND C");
    assert_eq!(
        a().or(b()).and(b().or(c())).to_sql(),
        "(A OR B) AND (B OR C)"
    );
}

#[test]
fn test_rendering_twice_gives_the_same_text() {
    let tree = WhereClause::equal("id")
        .or_in("kind", 3)
        .and_between("age")
        .or_is_null("gone");
    let first = tree.build().unwrap();
    let second = tree.build().unwrap();
    assert_eq!(first, second);
    assert_eq!(first, "(id = ? OR kind IN (?, ?, ?)) AND age BETWEEN ? AND ? OR gone IS NULL");
}

#[test]
fn test_clone_renders_alike() {
    let tree = WhereClause::equal("id").or_not_in("kind", 2).and_like("name");
    let copy = tree.clone();
    assert_eq!(copy.to_sql(), tree.to_sql());
    assert_eq!(copy.to_sql(), "(id = ? OR kind NOT IN (?, ?)) AND name LIKE ?");
    assert!(!copy.is_or());
    assert!(WhereClause::equal("a").or_equal("b").is_or());
}

#[test]
fn test_equals_with_values() {
    let tree = WhereClause::equals("id", 1).and_equals("name", "test");
    assert_eq!(tree.build().unwrap(), "id = 1 AND name = 'test'");
    let tree = WhereClause::equals("id", 1)
        .or_equals("name", "x")
        .and_equals("age", 18);
    assert_eq!(tree.build().unwrap(), "(id = 1 OR name = 'x') AND age = 18");
    let tree = WhereClause::equals("gone", None::<i32>).or_equals("open", true);
    assert_eq!(tree.to_sql(), "gone = NULL OR open = TRUE");
    assert_eq!(WhereCond::equals("n", -5i64).to_sql(), "n = -5");
}
