use yaqb::query_builder::debug::DebugQueryBuilder;
use yaqb::types::{Integer, VarChar};
use yaqb::{Error, QueryBuilder};

#[test]
fn new_builder_is_empty() {
    let builder = DebugQueryBuilder::new();
    assert_eq!(builder.sql, "");
    assert!(builder.binds.is_empty());
    assert!(builder.bind_types.is_empty());
}

#[test]
fn push_sql_appends_text() {
    let mut builder = DebugQueryBuilder::new();
    builder.push_sql("SELECT ");
    builder.push_sql("1");
    assert_eq!(builder.sql, "SELECT 1");
    assert!(builder.binds.is_empty());
}

#[test]
fn push_identifier_quotes_the_name() {
    let mut builder = DebugQueryBuilder::new();
    assert!(builder.push_identifier("users").is_ok());
    assert_eq!(builder.sql, "\"users\"");
}

#[test]
fn push_identifier_doubles_quotes_inside_the_name() {
    let mut builder = DebugQueryBuilder::new();
    assert!(builder.push_identifier("we\"ird\"\"").is_ok());
    assert_eq!(builder.sql, "\"we\"\"ird\"\"\"\"\"");
}

#[test]
fn push_identifier_rejects_nul_and_appends_nothing() {
    let mut builder = DebugQueryBuilder::new();
    builder.push_sql("a");
    let result = builder.push_identifier("bad\0name");
    assert!(matches!(result, Err(Error::InvalidCString)));
    assert_eq!(builder.sql, "a");
}

#[test]
fn placeholders_are_one_indexed_and_increase() {
    let mut builder = DebugQueryBuilder::new();
    builder.push_bound_value::<Integer>(Some(vec![0, 0, 0, 1]));
    builder.push_sql(", ");
    builder.push_bound_value::<VarChar>(None);
    builder.push_sql(", ");
    builder.push_bound_value::<Integer>(Some(vec![0, 0, 0, 3]));
    assert_eq!(builder.sql, "$1, $2, $3");
    assert_eq!(builder.binds, vec![Some(vec![0, 0, 0, 1]), None, Some(vec![0, 0, 0, 3])]);
    assert_eq!(builder.bind_types, vec![23, 1043, 23]);
}

#[test]
fn placeholders_with_several_digits() {
    let mut builder = DebugQueryBuilder::new();
    for i in 0..120u8 {
        if i != 0 {
            builder.push_sql(",");
        }
        builder.push_bound_value::<Integer>(Some(vec![0, 0, 0, i]));
    }
    assert!(builder.sql.starts_with("$1,$2,$3,$4,$5,$6,$7,$8,$9,$10,$11,"));
    assert!(builder.sql.ends_with(",$99,$100,$101,$102,$103,$104,$105,$106,$107,$108,$109,$110,$111,$112,$113,$114,$115,$116,$117,$118,$119,$120"));
    assert_eq!(builder.binds.len(), 120);
    assert_eq!(builder.binds[119], Some(vec![0, 0, 0, 119]));
}
