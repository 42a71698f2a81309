use yaqb::expression::count::{count, count_star};
use yaqb::expression::max::max;
use yaqb::query_builder::debug::DebugQueryBuilder;
use yaqb::query_source::joins::JoinDsl;
use std::collections::VecDeque;
use yaqb::expression::bound::Bound;
use yaqb::expression::grouped::Grouped;
use yaqb::expression::sql_literal::SqlLiteral;
use yaqb::persistable::{Insertable, InsertableColumns};
use yaqb::query_source::InnerJoinSource;
use yaqb::row::{DbRows, Row, Rows};
use yaqb::types::{
    BigInt, BigSerial, Double, Float, FromSqlResult, FromSqlRow, Integer, Many, NativeSqlType, Nullable, Serial,
    SmallInt, SmallSerial, Text, VarChar,
};
use yaqb::{
    update, AppearsIn, AsChangeset, AsExpression, AsQuery, Binds, Col, Column, ColumnDef, Connection, CountDsl,
    Cursor, DbResult, DecodeError, Driver, Error, Expression, ExpressionMethods, FilterDsl,
    JoinDef, Queriable, QueryFragment, QuerySource, SelectDsl, Star, Table, TableDef,
};

// The schema: users(id serial, name varchar, hair_color nullable varchar) and
// posts(id serial, user_id integer, title varchar, body nullable text).

#[derive(Clone, Copy)]
struct Users;

struct UserIdDef;

struct UserNameDef;

struct HairColorDef;

#[derive(Clone, Copy)]
struct Posts;

struct PostIdDef;

struct PostUserIdDef;

struct PostTitleDef;

struct PostBodyDef;

type UserId = Col<UserIdDef>;
type UserName = Col<UserNameDef>;
type HairColor = Col<HairColorDef>;
type PostId = Col<PostIdDef>;
type PostUserId = Col<PostUserIdDef>;
type PostTitle = Col<PostTitleDef>;
type PostBody = Col<PostBodyDef>;

impl TableDef for Users {
    const NAME: &'static str = "users";
    type SqlType = (Serial, VarChar, Nullable<VarChar>);
    type PrimaryKey = UserId;
    type AllColumns = (UserId, UserName, HairColor);
}

impl ColumnDef for UserIdDef {
    type Table = Users;
    type SqlType = Serial;
    const NAME: &'static str = "id";
}

impl ColumnDef for UserNameDef {
    type Table = Users;
    type SqlType = VarChar;
    const NAME: &'static str = "name";
}

impl ColumnDef for HairColorDef {
    type Table = Users;
    type SqlType = Nullable<VarChar>;
    const NAME: &'static str = "hair_color";
}

impl TableDef for Posts {
    const NAME: &'static str = "posts";
    type SqlType = (Serial, Integer, VarChar, Nullable<Text>);
    type PrimaryKey = PostId;
    type AllColumns = (PostId, PostUserId, PostTitle, PostBody);
}

impl ColumnDef for PostIdDef {
    type Table = Posts;
    type SqlType = Serial;
    const NAME: &'static str = "id";
}

impl ColumnDef for PostUserIdDef {
    type Table = Posts;
    type SqlType = Integer;
    const NAME: &'static str = "user_id";
}

impl ColumnDef for PostTitleDef {
    type Table = Posts;
    type SqlType = VarChar;
    const NAME: &'static str = "title";
}

impl ColumnDef for PostBodyDef {
    type Table = Posts;
    type SqlType = Nullable<Text>;
    const NAME: &'static str = "body";
}

// posts.user_id = users.id, in both directions.

impl JoinDef<Users> for Posts {
    type Predicate = yaqb::expression::predicates::Eq<PostUserId, UserId>;
}

impl JoinDef<Posts> for Users {
    type Predicate = yaqb::expression::predicates::Eq<UserId, PostUserId>;
}

type PostsUsers = InnerJoinSource<Posts, Users>;

impl AppearsIn<PostsUsers> for UserIdDef {}

impl AppearsIn<PostsUsers> for UserNameDef {}

impl AppearsIn<PostsUsers> for HairColorDef {}

impl AppearsIn<PostsUsers> for PostIdDef {}

impl AppearsIn<PostsUsers> for PostUserIdDef {}

impl AppearsIn<PostsUsers> for PostTitleDef {}

impl AppearsIn<PostsUsers> for PostBodyDef {}

type UsersPosts = InnerJoinSource<Users, Posts>;

impl AppearsIn<UsersPosts> for UserIdDef {}

impl AppearsIn<UsersPosts> for UserNameDef {}

impl AppearsIn<UsersPosts> for HairColorDef {}

impl AppearsIn<UsersPosts> for PostIdDef {}

impl AppearsIn<UsersPosts> for PostUserIdDef {}

impl AppearsIn<UsersPosts> for PostTitleDef {}

impl AppearsIn<UsersPosts> for PostBodyDef {}

fn user_id() -> UserId {
    Col::new()
}

fn user_name() -> UserName {
    Col::new()
}

fn hair_color() -> HairColor {
    Col::new()
}

fn post_user_id() -> PostUserId {
    Col::new()
}

fn post_title() -> PostTitle {
    Col::new()
}

fn users_star() -> Star<Users> {
    Star::new()
}

fn render<T: QueryFragment>(fragment: &T) -> DebugQueryBuilder {
    let mut builder = DebugQueryBuilder::new();
    fragment.to_sql(&mut builder).unwrap();
    builder
}

fn render_expression<T: Expression>(expression: &T) -> DebugQueryBuilder {
    let mut builder = DebugQueryBuilder::new();
    expression.to_sql(&mut builder).unwrap();
    builder
}

#[test]
fn test_debug_count_output() {
    let mut query_builder = DebugQueryBuilder::new();
    let command = Users.count();
    command.to_sql(&mut query_builder).unwrap();
    assert!(query_builder.sql.starts_with("SELECT COUNT(*) FROM"));
}

#[test]
fn count_renders_whole_statement() {
    let builder = render(&Users.count());
    assert_eq!(builder.sql, "SELECT COUNT(*) FROM \"users\" WHERE $1");
    assert_eq!(builder.binds, vec![Some(vec![1u8])]);
    assert_eq!(builder.bind_types, vec![16]);
}

#[test]
fn table_as_query_selects_all_columns() {
    let builder = render(&Users.as_query());
    assert_eq!(
        builder.sql,
        "SELECT \"users\".\"id\", \"users\".\"name\", \"users\".\"hair_color\" FROM \"users\" WHERE $1"
    );
}

#[test]
fn filter_renders_predicate_with_bind() {
    let builder = render(&Users.filter(user_id().eq(1)));
    assert_eq!(
        builder.sql,
        "SELECT \"users\".\"id\", \"users\".\"name\", \"users\".\"hair_color\" FROM \"users\" WHERE \"users\".\"id\" = $1"
    );
    assert_eq!(builder.binds, vec![Some(vec![0, 0, 0, 1])]);
    assert_eq!(builder.bind_types, vec![23]);
}

#[test]
fn filtering_twice_keeps_only_the_second_predicate() {
    let statement = Users.select(users_star()).filter(user_id().eq(1)).filter(user_name().eq("Sean"));
    let builder = render(&statement);
    assert_eq!(builder.sql, "SELECT \"users\".* FROM \"users\" WHERE \"users\".\"name\" = $1");
    assert_eq!(builder.binds, vec![Some(b"Sean".to_vec())]);
    assert_eq!(builder.bind_types, vec![1043]);
    assert!(!builder.sql.contains("\"id\""));
}

#[test]
fn select_replaces_selection_and_keeps_predicate() {
    let statement = Users.filter(user_id().eq(7)).select(user_name());
    let builder = render(&statement);
    assert_eq!(builder.sql, "SELECT \"users\".\"name\" FROM \"users\" WHERE \"users\".\"id\" = $1");
    assert_eq!(builder.binds, vec![Some(vec![0, 0, 0, 7])]);
}

#[test]
fn select_max_of_column() {
    let builder = render(&Users.select(max(user_name())));
    assert_eq!(builder.sql, "SELECT MAX(\"users\".\"name\") FROM \"users\" WHERE $1");
}

#[test]
fn select_count_of_column() {
    let builder = render(&Users.select(count(user_id())));
    assert_eq!(builder.sql, "SELECT COUNT(\"users\".\"id\") FROM \"users\" WHERE $1");
    let star = render_expression(&count_star());
    assert_eq!(star.sql, "COUNT(*)");
}

#[test]
fn comparison_operators_render_infix() {
    assert_eq!(render_expression(&user_id().ne(1)).sql, "\"users\".\"id\" != $1");
    assert_eq!(render_expression(&user_id().gt(1)).sql, "\"users\".\"id\" > $1");
    assert_eq!(render_expression(&user_id().ge(1)).sql, "\"users\".\"id\" >= $1");
    assert_eq!(render_expression(&user_id().lt(1)).sql, "\"users\".\"id\" < $1");
    assert_eq!(render_expression(&user_id().le(1)).sql, "\"users\".\"id\" <= $1");
    assert_eq!(render_expression(&post_user_id().eq(7)).sql, "\"posts\".\"user_id\" = $1");
}

#[test]
fn between_binds_both_ends_in_order() {
    let builder = render_expression(&post_user_id().between(2..5));
    assert_eq!(builder.sql, "\"posts\".\"user_id\" BETWEEN $1 AND $2");
    assert_eq!(builder.binds, vec![Some(vec![0, 0, 0, 2]), Some(vec![0, 0, 0, 5])]);
    let builder = render_expression(&post_user_id().not_between(2..5));
    assert_eq!(builder.sql, "\"posts\".\"user_id\" NOT BETWEEN $1 AND $2");
}

#[test]
fn and_or_like_compose() {
    let predicate = user_id().eq(1).and(user_name().like("S%"));
    let builder = render_expression(&predicate);
    assert_eq!(builder.sql, "\"users\".\"id\" = $1 AND \"users\".\"name\" LIKE $2");
    assert_eq!(builder.binds, vec![Some(vec![0, 0, 0, 1]), Some(b"S%".to_vec())]);
    let predicate = user_id().eq(1).or(user_name().not_like("S%"));
    let builder = render_expression(&predicate);
    assert_eq!(builder.sql, "(\"users\".\"id\" = $1 OR \"users\".\"name\" NOT LIKE $2)");
}

#[test]
fn nullable_column_compares_to_null_and_value() {
    let builder = render_expression(&hair_color().eq(None::<String>));
    assert_eq!(builder.sql, "\"users\".\"hair_color\" = $1");
    assert_eq!(builder.binds, vec![None]);
    assert_eq!(builder.bind_types, vec![1043]);
    let builder = render_expression(&hair_color().eq(Some("black".to_string())));
    assert_eq!(builder.binds, vec![Some(b"black".to_vec())]);
}

#[test]
fn desc_renders_after_expression() {
    assert_eq!(render_expression(&user_name().desc()).sql, "\"users\".\"name\" DESC");
}

#[test]
fn inner_join_from_clause() {
    let source = Posts.inner_join(Users);
    let mut builder = DebugQueryBuilder::new();
    source.from_clause(&mut builder).unwrap();
    assert_eq!(
        builder.sql,
        "\"posts\" INNER JOIN \"users\" ON \"posts\".\"user_id\" = \"users\".\"id\""
    );
}

#[test]
fn left_outer_join_from_clause() {
    let source = Users.left_outer_join(Posts);
    let mut builder = DebugQueryBuilder::new();
    source.from_clause(&mut builder).unwrap();
    assert_eq!(
        builder.sql,
        "\"users\" LEFT OUTER JOIN \"posts\" ON \"users\".\"id\" = \"posts\".\"user_id\""
    );
}

#[test]
fn select_single_column_from_join_renders() {
    let source = Posts.inner_join(Users);
    let builder = render(&source.select(user_name()));
    assert_eq!(
        builder.sql,
        "SELECT \"users\".\"name\" FROM \"posts\" INNER JOIN \"users\" ON \"posts\".\"user_id\" = \"users\".\"id\" WHERE $1"
    );
    let builder = render(&source.select(post_title()));
    assert!(builder.sql.starts_with("SELECT \"posts\".\"title\" FROM \"posts\" INNER JOIN"));
}

#[test]
fn join_as_query_selects_both_sides() {
    let builder = render(&Posts.inner_join(Users).as_query());
    assert!(builder.sql.starts_with(
        "SELECT \"posts\".\"id\", \"posts\".\"user_id\", \"posts\".\"title\", \"posts\".\"body\", \"users\".\"id\", \"users\".\"name\", \"users\".\"hair_color\" FROM \"posts\" INNER JOIN \"users\""
    ));
}

#[test]
fn filter_on_join_replaces_where() {
    let builder = render(&Posts.inner_join(Users).select(user_name()).filter(user_id().eq(2)));
    assert!(builder.sql.ends_with(" WHERE \"users\".\"id\" = $1"));
    assert_eq!(builder.binds, vec![Some(vec![0, 0, 0, 2])]);
}

#[test]
fn update_single_column_of_whole_table() {
    let command = update(Users).set(user_name().eq("Jim"));
    let builder = render(&command);
    assert_eq!(builder.sql, "UPDATE \"users\" SET \"name\" = $1");
    assert_eq!(builder.binds, vec![Some(b"Jim".to_vec())]);
}

#[test]
fn update_single_row_binds_value_then_key() {
    let command = update(Users.filter(user_id().eq(1))).set(user_name().eq("Jim"));
    let builder = render(&command);
    assert_eq!(builder.sql, "UPDATE \"users\" SET \"name\" = $1 WHERE \"users\".\"id\" = $2");
    assert_eq!(builder.binds, vec![Some(b"Jim".to_vec()), Some(vec![0, 0, 0, 1])]);
    assert_eq!(builder.bind_types, vec![1043, 23]);
}

#[test]
fn update_multiple_columns() {
    let command = update(Users.filter(user_id().eq(1)))
        .set((user_name().eq("Jim"), hair_color().eq(Some("black"))));
    let builder = render(&command);
    assert_eq!(
        builder.sql,
        "UPDATE \"users\" SET \"name\" = $1, \"hair_color\" = $2 WHERE \"users\".\"id\" = $3"
    );
    assert_eq!(
        builder.binds,
        vec![Some(b"Jim".to_vec()), Some(b"black".to_vec()), Some(vec![0, 0, 0, 1])]
    );
}

#[test]
fn rendering_stops_at_invalid_identifier() {
    struct Broken;
    impl TableDef for Broken {
        const NAME: &'static str = "ta\0ble";
        type SqlType = Integer;
        type PrimaryKey = Col<BrokenId>;
        type AllColumns = Col<BrokenId>;
    }
    struct BrokenId;
    impl ColumnDef for BrokenId {
        type Table = Broken;
        type SqlType = Integer;
        const NAME: &'static str = "id";
    }
    let mut builder = DebugQueryBuilder::new();
    let result = max(Col::<BrokenId>::new()).to_sql(&mut builder);
    assert!(matches!(result, Err(Error::InvalidCString)));
    assert_eq!(builder.sql, "MAX(");
    let mut builder = DebugQueryBuilder::new();
    let result = Broken.as_query().to_sql(&mut builder);
    assert!(matches!(result, Err(Error::InvalidCString)));
    assert_eq!(builder.sql, "SELECT ");
}

#[test]
fn table_and_column_names() {
    assert_eq!(<Users as Table>::name(), "users");
    assert_eq!(<UserName as Column>::name(), "name");
    let mut builder = DebugQueryBuilder::new();
    Users.primary_key().to_sql(&mut builder).unwrap();
    assert_eq!(builder.sql, "\"users\".\"id\"");
}

#[test]
fn sql_literal_renders_as_it_stands() {
    let literal = SqlLiteral::<Integer>::new("1 + 1".to_string());
    assert_eq!(render_expression(&literal).sql, "1 + 1");
    assert_eq!(render_expression(&max(literal)).sql, "MAX(1 + 1)");
}

// Records, and a driver that answers from a script.

#[derive(PartialEq, Eq, Debug, Clone)]
struct User {
    id: i32,
    name: String,
    hair_color: Option<String>,
}

impl User {
    fn new(id: i32, name: &str) -> Self {
        User { id: id, name: name.to_string(), hair_color: None }
    }

    fn with_hair_color(id: i32, name: &str, hair_color: &str) -> Self {
        User { id: id, name: name.to_string(), hair_color: Some(hair_color.to_string()) }
    }
}

impl<ST> Queriable<ST> for User
where
    ST: NativeSqlType,
    (i32, String, Option<String>): FromSqlRow<ST>,
{
    type Row = (i32, String, Option<String>);

    fn build(row: Self::Row) -> Self {
        let (id, name, hair_color) = row;
        User { id: id, name: name, hair_color: hair_color }
    }
}

#[derive(PartialEq, Eq, Debug)]
struct Post {
    id: i32,
    user_id: i32,
    title: String,
    body: Option<String>,
}

impl Post {
    fn new(id: i32, user_id: i32, title: &str, body: Option<&str>) -> Self {
        Post { id: id, user_id: user_id, title: title.to_string(), body: body.map(|s| s.to_string()) }
    }
}

impl<ST> Queriable<ST> for Post
where
    ST: NativeSqlType,
    (i32, i32, String, Option<String>): FromSqlRow<ST>,
{
    type Row = (i32, i32, String, Option<String>);

    fn build(row: Self::Row) -> Self {
        let (id, user_id, title, body) = row;
        Post { id: id, user_id: user_id, title: title, body: body }
    }
}

#[derive(Debug, PartialEq, Eq)]
struct NewUser {
    name: String,
    hair_color: Option<String>,
}

impl NewUser {
    fn new(name: &str, hair_color: Option<&str>) -> Self {
        NewUser { name: name.to_string(), hair_color: hair_color.map(|s| s.to_string()) }
    }
}

impl<'a> Insertable<Users> for &'a NewUser {
    type Columns = (UserName, HairColor);
    type Values = Grouped<(Bound<VarChar, &'a String>, Bound<Nullable<VarChar>, &'a Option<String>>)>;

    fn columns() -> Self::Columns {
        (Col::new(), Col::new())
    }

    fn values(self) -> Self::Values {
        Grouped((
            AsExpression::<VarChar>::as_expression(&self.name),
            AsExpression::<Nullable<VarChar>>::as_expression(&self.hair_color),
        ))
    }
}

struct Scripted {
    statements: Vec<(String, Binds, Option<Vec<u32>>)>,
    answers: VecDeque<Result<DbResult, String>>,
}

impl Scripted {
    fn answering(answers: Vec<Result<DbResult, String>>) -> Connection<Scripted> {
        Connection::new(Scripted { statements: Vec::new(), answers: answers.into_iter().collect() })
    }
}

impl Driver for Scripted {
    fn execute(&mut self, sql: &str, binds: &Binds, bind_types: &Option<Vec<u32>>) -> Result<DbResult, String> {
        self.statements.push((sql.to_string(), binds.clone(), bind_types.clone()));
        self.answers.pop_front().unwrap_or(Ok(DbResult::new(0, Vec::new())))
    }

    fn last_error_message(&self) -> String {
        String::new()
    }
}

fn int4(v: i32) -> Option<Vec<u8>> {
    Some(v.to_be_bytes().to_vec())
}

fn int8(v: i64) -> Option<Vec<u8>> {
    Some(v.to_be_bytes().to_vec())
}

fn text(v: &str) -> Option<Vec<u8>> {
    Some(v.as_bytes().to_vec())
}

fn rows(rows: Vec<Vec<Option<Vec<u8>>>>) -> Result<DbResult, String> {
    Ok(DbResult::new(rows.len(), rows))
}

fn sean_and_tess() -> Result<DbResult, String> {
    rows(vec![vec![int4(1), text("Sean"), None], vec![int4(2), text("Tess"), None]])
}

fn statement(connection: &Connection<Scripted>, index: usize) -> &(String, Binds, Option<Vec<u32>>) {
    &connection.driver().statements[index]
}

fn collect<ST: NativeSqlType, T: Queriable<ST>>(mut cursor: Cursor<ST, T>) -> Vec<T> {
    let mut records = Vec::new();
    while let Some(record) = cursor.next() {
        records.push(record.unwrap());
    }
    records
}

#[test]
fn db_result_cells() {
    let result = DbResult::new(5, vec![vec![int4(1), None], vec![text("x"), text("")]]);
    assert_eq!(result.rows_affected(), 5);
    assert_eq!(result.num_rows(), 2);
    assert_eq!(result.num_columns(0), 2);
    assert_eq!(result.num_columns(2), 0);
    assert_eq!(result.get(0, 0), Some(&[0u8, 0, 0, 1][..]));
    assert_eq!(result.get(0, 1), None);
    assert_eq!(result.get(1, 1), Some(&[][..]));
    assert_eq!(result.get(1, 2), None);
    assert_eq!(result.get(2, 0), None);
    assert!(result.is_null(0, 1));
    assert!(!result.is_null(1, 1));
    assert!(result.is_null(1, 2));
    assert!(result.is_null(7, 0));
}

#[test]
fn row_is_read_left_to_right() {
    let result = DbResult::new(0, vec![vec![int4(1), None, text("x")], vec![]]);
    let mut rows = DbRows::new(result);
    {
        let mut row = rows.next().unwrap();
        assert!(!row.next_is_null());
        assert_eq!(row.take(), Some(&[0u8, 0, 0, 1][..]));
        assert!(row.next_is_null());
        assert_eq!(row.take(), None);
        assert!(!row.next_is_null());
        assert_eq!(row.take(), Some(&b"x"[..]));
        assert!(row.next_is_null());
        assert_eq!(row.take(), None);
        assert_eq!(row.take(), None);
    }
    {
        let mut row = rows.next().unwrap();
        assert_eq!(row.take(), None);
    }
    assert!(rows.next().is_none());
    assert!(rows.next().is_none());
}

#[test]
fn cursor_decodes_records_in_order_and_ends() {
    let result = sean_and_tess().unwrap();
    let mut cursor: Cursor<(Serial, VarChar, Nullable<VarChar>), User> = Cursor::new(result);
    assert_eq!(cursor.next(), Some(Ok(User::new(1, "Sean"))));
    assert_eq!(cursor.next(), Some(Ok(User::new(2, "Tess"))));
    assert_eq!(cursor.next(), None);
    assert_eq!(cursor.next(), None);
}

#[test]
fn cursor_stops_at_the_first_bad_row() {
    let result = DbResult::new(
        0,
        vec![
            vec![int4(1), text("Sean"), None],
            vec![int4(2), None, None],
            vec![int4(3), text("Jim"), text("black")],
        ],
    );
    let mut cursor: Cursor<(Serial, VarChar, Nullable<VarChar>), User> = Cursor::new(result);
    assert_eq!(cursor.row_index(), 0);
    assert_eq!(cursor.next(), Some(Ok(User::new(1, "Sean"))));
    assert_eq!(cursor.row_index(), 1);
    assert!(!cursor.is_stopped());
    assert_eq!(cursor.next(), Some(Err(DecodeError::UnexpectedNull)));
    assert!(cursor.is_stopped());
    assert_eq!(cursor.row_index(), 2);
    assert_eq!(cursor.next(), None);
    assert_eq!(cursor.next(), None);
    assert_eq!(cursor.row_index(), 2);
}

#[test]
fn cursor_reports_the_leftmost_bad_cell() {
    let bad_rows = vec![
        (vec![Some(vec![1, 2]), text("x"), None], DecodeError::BadLength),
        (vec![int4(4), Some(vec![0xff]), None], DecodeError::InvalidUtf8),
        (vec![int4(6)], DecodeError::UnexpectedNull),
        (vec![None, Some(vec![0xff]), None], DecodeError::UnexpectedNull),
    ];
    for (row, error) in bad_rows {
        let result = DbResult::new(0, vec![row, vec![int4(5), text("Jim"), text("black")]]);
        let mut cursor: Cursor<(Serial, VarChar, Nullable<VarChar>), User> = Cursor::new(result);
        assert_eq!(cursor.next(), Some(Err(error)));
        assert_eq!(cursor.next(), None);
    }
}

#[test]
fn many_reads_all_rows_or_stops_at_the_first_bad_one() {
    let mut all = DbRows::new(DbResult::new(0, vec![vec![int4(2)], vec![int4(1)], vec![int4(5)]]));
    let values = <Vec<i32> as FromSqlResult<Many<Integer>>>::build_from_rows(&mut all);
    assert_eq!(values, Some(Ok(vec![2, 1, 5])));
    let values = <Vec<i32> as FromSqlResult<Many<Integer>>>::build_from_rows(&mut all);
    assert_eq!(values, Some(Ok(vec![])));
    let mut bad = DbRows::new(DbResult::new(0, vec![vec![int4(2)], vec![None], vec![int4(5)]]));
    let values = <Vec<i32> as FromSqlResult<Many<Integer>>>::build_from_rows(&mut bad);
    assert_eq!(values, Some(Err(DecodeError::UnexpectedNull)));
    let values = <Vec<i32> as FromSqlResult<Many<Integer>>>::build_from_rows(&mut bad);
    assert_eq!(values, Some(Ok(vec![5])));
}

#[test]
fn query_all_sends_rendered_statement_and_reads_rows() {
    let mut connection = Scripted::answering(vec![sean_and_tess()]);
    let cursor = connection.query_all::<_, User>(Users.filter(user_id().gt(0))).unwrap();
    assert_eq!(collect(cursor), vec![User::new(1, "Sean"), User::new(2, "Tess")]);
    let (sql, binds, types) = statement(&connection, 0);
    assert_eq!(
        sql,
        "SELECT \"users\".\"id\", \"users\".\"name\", \"users\".\"hair_color\" FROM \"users\" WHERE \"users\".\"id\" > $1"
    );
    assert_eq!(binds, &vec![int4(0)]);
    assert_eq!(types, &Some(vec![23]));
}

#[test]
fn query_one_returns_first_row_or_none() {
    let mut connection = Scripted::answering(vec![sean_and_tess(), rows(vec![])]);
    assert_eq!(connection.query_one::<_, User>(Users), Ok(Some(User::new(1, "Sean"))));
    assert_eq!(connection.query_one::<_, User>(Users), Ok(None));
}

#[test]
fn query_one_reports_decode_errors() {
    let mut connection = Scripted::answering(vec![rows(vec![vec![text("not a number")]])]);
    let result: Result<Option<i64>, Error> = connection.query_one(Users.count());
    assert_eq!(result, Err(Error::DeserializationError(DecodeError::BadLength)));
}

#[test]
fn query_is_not_sent_when_rendering_fails() {
    struct Broken;
    impl TableDef for Broken {
        const NAME: &'static str = "bro\0ken";
        type SqlType = Integer;
        type PrimaryKey = Col<BrokenId>;
        type AllColumns = Col<BrokenId>;
    }
    struct BrokenId;
    impl ColumnDef for BrokenId {
        type Table = Broken;
        type SqlType = Integer;
        const NAME: &'static str = "id";
    }
    let mut connection = Scripted::answering(vec![]);
    let result = connection.query_all::<_, i32>(Broken);
    assert!(matches!(result, Err(Error::InvalidCString)));
    assert_eq!(connection.execute_returning_count(&Broken.as_query()), Err(Error::InvalidCString));
    assert!(connection.driver().statements.is_empty());
}

#[test]
fn query_sql_sends_text_without_binds() {
    let mut connection = Scripted::answering(vec![rows(vec![vec![int4(1)], vec![int4(2)]])]);
    let cursor = connection.query_sql::<Integer, i32>("SELECT n FROM numbers").unwrap();
    assert_eq!(collect(cursor), vec![1, 2]);
    let (sql, binds, types) = statement(&connection, 0);
    assert_eq!(sql, "SELECT n FROM numbers");
    assert!(binds.is_empty());
    assert_eq!(types, &None);
}

#[test]
fn query_sql_params_sends_values_without_types() {
    let mut connection = Scripted::answering(vec![rows(vec![vec![text("Sean")]])]);
    let cursor = connection
        .query_sql_params::<VarChar, String, Integer, i32>("SELECT name FROM users WHERE id = $1", &1)
        .unwrap();
    assert_eq!(collect(cursor), vec!["Sean".to_string()]);
    let (sql, binds, types) = statement(&connection, 0);
    assert_eq!(sql, "SELECT name FROM users WHERE id = $1");
    assert_eq!(binds, &vec![int4(1)]);
    assert_eq!(types, &None);
}

#[test]
fn insert_placeholders_continue_across_records() {
    let data = vec![NewUser::new("Sean", None), NewUser::new("Tess", Some("brown")), NewUser::new("Jim", None)];
    let connection = Scripted::answering(vec![]);
    let (sql, binds, types) = connection.placeholders_for_insert::<Users, _>(&data).unwrap();
    assert_eq!(sql, "($1, $2), ($3, $4), ($5, $6)");
    assert_eq!(binds, vec![text("Sean"), None, text("Tess"), text("brown"), text("Jim"), None]);
    assert_eq!(types, vec![1043, 1043, 1043, 1043, 1043, 1043]);
    let none: Vec<NewUser> = Vec::new();
    let (sql, binds, _) = connection.placeholders_for_insert::<Users, _>(&none).unwrap();
    assert_eq!(sql, "");
    assert!(binds.is_empty());
}

#[test]
fn insert_column_names_are_shared_by_all_records() {
    assert_eq!(<&NewUser as Insertable<Users>>::columns().names(), "name, hair_color");
    assert_eq!(<&Vec<NewUser> as Insertable<Users>>::columns().names(), "name, hair_color");
    assert_eq!(<UserName as InsertableColumns<Users>>::names(&user_name()), "name");
}

#[test]
fn insert_returning_count_sends_insert() {
    let mut connection = Scripted::answering(vec![Ok(DbResult::new(2, Vec::new()))]);
    let data: &[_] = &[NewUser::new("Sean", None), NewUser::new("Tess", None)];
    assert_eq!(connection.insert_returning_count(&Users, data), Ok(2));
    let (sql, binds, types) = statement(&connection, 0);
    assert_eq!(sql, "INSERT INTO users (name, hair_color) VALUES ($1, $2), ($3, $4)");
    assert_eq!(binds, &vec![text("Sean"), None, text("Tess"), None]);
    assert_eq!(types, &Some(vec![1043, 1043, 1043, 1043]));
}

#[test]
fn insert_returns_stored_rows() {
    let mut connection = Scripted::answering(vec![sean_and_tess()]);
    let data = vec![NewUser::new("Sean", None), NewUser::new("Tess", None)];
    let cursor = connection.insert::<_, _, User>(&Users, &data).unwrap();
    assert_eq!(collect(cursor), vec![User::new(1, "Sean"), User::new(2, "Tess")]);
    let (sql, binds, _) = statement(&connection, 0);
    assert_eq!(
        sql,
        "INSERT INTO users (name, hair_color) VALUES ($1, $2), ($3, $4) RETURNING \"users\".\"id\", \"users\".\"name\", \"users\".\"hair_color\""
    );
    assert_eq!(binds.len(), 4);
}

#[test]
fn left_outer_join_selects_both_sides() {
    let builder = render(&Users.left_outer_join(Posts).as_query());
    assert_eq!(
        builder.sql,
        "SELECT \"users\".\"id\", \"users\".\"name\", \"users\".\"hair_color\", \"posts\".\"id\", \"posts\".\"user_id\", \"posts\".\"title\", \"posts\".\"body\" FROM \"users\" LEFT OUTER JOIN \"posts\" ON \"users\".\"id\" = \"posts\".\"user_id\" WHERE $1"
    );
}

// The scenarios of a database with users (1, 'Sean', NULL) and (2, 'Tess',
// NULL), its answers given by the script.

#[test]
fn count_of_two_users_is_two() {
    let mut connection = Scripted::answering(vec![rows(vec![vec![int8(2)]])]);
    assert_eq!(connection.query_one::<_, i64>(Users.count()), Ok(Some(2)));
    assert_eq!(statement(&connection, 0).0, "SELECT COUNT(*) FROM \"users\" WHERE $1");
}

#[test]
fn test_count_counts_the_rows() {
    let mut connection = Scripted::answering(vec![
        rows(vec![vec![int8(0)]]),
        Ok(DbResult::new(1, Vec::new())),
        rows(vec![vec![int8(1)]]),
    ]);
    assert_eq!(Some(0), connection.query_one::<_, i64>(Users.select(count(users_star()))).unwrap());
    connection.insert_returning_count(&Users, &vec![NewUser::new("Sean", None)]).unwrap();
    assert_eq!(Some(1), connection.query_one::<_, i64>(Users.select(count(users_star()))).unwrap());
    assert_eq!(statement(&connection, 0).0, "SELECT COUNT(\"users\".*) FROM \"users\" WHERE $1");
}

#[test]
fn test_count_star() {
    let mut connection = Scripted::answering(vec![
        rows(vec![vec![int8(0)]]),
        Ok(DbResult::new(1, Vec::new())),
        rows(vec![vec![int8(1)]]),
    ]);
    assert_eq!(Some(0), connection.query_one::<_, i64>(Users.count()).unwrap());
    connection.insert_returning_count(&Users, &vec![NewUser::new("Sean", None)]).unwrap();
    assert_eq!(Some(1), connection.query_one::<_, i64>(Users.count()).unwrap());
}

#[test]
fn max_returns_same_type_as_expression_being_maxed() {
    let mut connection = Scripted::answering(vec![
        Ok(DbResult::new(3, Vec::new())),
        rows(vec![vec![text("C")]]),
        Ok(DbResult::new(1, Vec::new())),
        rows(vec![vec![text("B")]]),
    ]);
    let data = vec![NewUser::new("B", None), NewUser::new("C", None), NewUser::new("A", None)];
    connection.insert_returning_count(&Users, &data).unwrap();
    assert_eq!(Some("C".to_string()), connection.query_one(Users.select(max(user_name()))).unwrap());
    connection.execute("DELETE FROM users WHERE name = 'C'").unwrap();
    assert_eq!(Some("B".to_string()), connection.query_one(Users.select(max(user_name()))).unwrap());
}

fn arbitrary<T: NativeSqlType>() -> SqlLiteral<T> {
    SqlLiteral::new(String::new())
}

#[test]
fn max_accepts_all_numeric_string_and_date_types() {
    let _ = Users.select(max(arbitrary::<SmallSerial>()));
    let _ = Users.select(max(arbitrary::<Serial>()));
    let _ = Users.select(max(arbitrary::<BigSerial>()));
    let _ = Users.select(max(arbitrary::<SmallInt>()));
    let _ = Users.select(max(arbitrary::<Integer>()));
    let _ = Users.select(max(arbitrary::<BigInt>()));
    let _ = Users.select(max(arbitrary::<Float>()));
    let _ = Users.select(max(arbitrary::<Double>()));

    let _ = Users.select(max(arbitrary::<VarChar>()));
    let _ = Users.select(max(arbitrary::<Text>()));

    let _ = Users.select(max(arbitrary::<Nullable<SmallSerial>>()));
    let _ = Users.select(max(arbitrary::<Nullable<Serial>>()));
    let _ = Users.select(max(arbitrary::<Nullable<BigSerial>>()));
    let _ = Users.select(max(arbitrary::<Nullable<SmallInt>>()));
    let _ = Users.select(max(arbitrary::<Nullable<Integer>>()));
    let _ = Users.select(max(arbitrary::<Nullable<BigInt>>()));
    let _ = Users.select(max(arbitrary::<Nullable<Float>>()));
    let _ = Users.select(max(arbitrary::<Nullable<Double>>()));

    let _ = Users.select(max(arbitrary::<Nullable<VarChar>>()));
    let _ = Users.select(max(arbitrary::<Nullable<Text>>()));
}

#[test]
fn test_updating_single_column() {
    let mut connection = Scripted::answering(vec![
        rows(vec![vec![text("Sean")], vec![text("Tess")]]),
        Ok(DbResult::new(2, Vec::new())),
        rows(vec![vec![text("Jim")], vec![text("Jim")]]),
    ]);
    let expected_data = vec!["Sean".to_string(), "Tess".to_string()];
    let data: Vec<String> = collect(connection.query_all(Users.select(user_name())).unwrap());
    assert_eq!(expected_data, data);

    let command = update(Users).set(user_name().eq("Jim"));
    connection.execute_returning_count(&command).unwrap();

    let expected_data = vec!["Jim".to_string(); 2];
    let data: Vec<String> = collect(connection.query_all(Users.select(user_name())).unwrap());
    assert_eq!(expected_data, data);
    assert_eq!(statement(&connection, 1).0, "UPDATE \"users\" SET \"name\" = $1");
}

#[test]
fn test_updating_single_column_of_single_row() {
    let mut connection = Scripted::answering(vec![
        Ok(DbResult::new(1, Vec::new())),
        rows(vec![vec![text("Tess")], vec![text("Jim")]]),
    ]);
    let command = update(Users.filter(user_id().eq(1))).set(user_name().eq("Jim"));
    connection.execute_returning_count(&command).unwrap();

    let expected_data = vec!["Tess".to_string(), "Jim".to_string()];
    let data: Vec<String> = collect(connection.query_all(Users.select(user_name())).unwrap());
    assert_eq!(expected_data, data);
    let (sql, binds, types) = statement(&connection, 0);
    assert_eq!(sql, "UPDATE \"users\" SET \"name\" = $1 WHERE \"users\".\"id\" = $2");
    assert_eq!(binds, &vec![text("Jim"), int4(1)]);
    assert_eq!(types, &Some(vec![1043, 23]));
}

#[test]
fn test_updating_nullable_column() {
    let mut connection = Scripted::answering(vec![
        Ok(DbResult::new(1, Vec::new())),
        rows(vec![vec![text("black")]]),
        Ok(DbResult::new(1, Vec::new())),
        rows(vec![vec![None]]),
    ]);
    let command = update(Users.filter(user_id().eq(1))).set(hair_color().eq(Some("black")));
    connection.execute_returning_count(&command).unwrap();

    let data: Option<String> = connection
        .query_one(Users.select(hair_color()).filter(user_id().eq(1)))
        .unwrap()
        .unwrap();
    assert_eq!(Some("black".to_string()), data);

    let command = update(Users.filter(user_id().eq(1))).set(hair_color().eq(None::<String>));
    connection.execute_returning_count(&command).unwrap();

    let data: Option<String> = connection
        .query_one(Users.select(hair_color()).filter(user_id().eq(1)))
        .unwrap()
        .unwrap();
    assert_eq!(None, data);
    assert_eq!(statement(&connection, 2).1, vec![None, int4(1)]);
}

#[test]
fn test_updating_multiple_columns() {
    let mut connection = Scripted::answering(vec![
        Ok(DbResult::new(1, Vec::new())),
        rows(vec![vec![int4(1), text("Jim"), text("black")]]),
    ]);
    let command = update(Users.filter(user_id().eq(1)))
        .set((user_name().eq("Jim"), hair_color().eq(Some("black"))));
    connection.execute_returning_count(&command).unwrap();

    let expected_user = User::with_hair_color(1, "Jim", "black");
    let user = connection.find(Users, 1).unwrap();
    assert_eq!(Some(expected_user), user);
    let (sql, binds, _) = statement(&connection, 1);
    assert!(sql.ends_with(" FROM \"users\" WHERE \"users\".\"id\" = $1"));
    assert_eq!(binds, &vec![int4(1)]);
}

#[test]
fn belongs_to() {
    let mut connection = Scripted::answering(vec![rows(vec![
        vec![int4(1), int4(1), text("Hello"), None, int4(1), text("Sean"), None],
        vec![int4(2), int4(2), text("World"), None, int4(2), text("Tess"), None],
    ])]);
    let sean = User::new(1, "Sean");
    let tess = User::new(2, "Tess");
    let seans_post = Post::new(1, 1, "Hello", None);
    let tess_post = Post::new(2, 2, "World", None);

    let expected_data = vec![(seans_post, sean), (tess_post, tess)];
    let source = Posts.inner_join(Users);
    let actual_data: Vec<(Post, User)> = collect(connection.query_all(source).unwrap());

    assert_eq!(expected_data, actual_data);
}

#[test]
fn select_single_from_join() {
    let mut connection = Scripted::answering(vec![
        rows(vec![vec![text("Sean")], vec![text("Tess")]]),
        rows(vec![vec![text("Hello")], vec![text("World")]]),
    ]);
    let source = Posts.inner_join(Users);
    let select_name = source.select(user_name());
    let select_title = source.select(post_title());

    let expected_names = vec!["Sean".to_string(), "Tess".to_string()];
    let actual_names: Vec<String> = collect(connection.query_all(select_name).unwrap());

    assert_eq!(expected_names, actual_names);

    let expected_titles = vec!["Hello".to_string(), "World".to_string()];
    let actual_titles: Vec<String> = collect(connection.query_all(select_title).unwrap());

    assert_eq!(expected_titles, actual_titles);
}

#[test]
fn select_multiple_from_join() {
    let mut connection = Scripted::answering(vec![rows(vec![
        vec![text("Sean"), text("Hello")],
        vec![text("Tess"), text("World")],
    ])]);
    let source = Posts.inner_join(Users).select((user_name(), post_title()));

    let expected_data = vec![
        ("Sean".to_string(), "Hello".to_string()),
        ("Tess".to_string(), "World".to_string()),
    ];
    let actual_data: Vec<(String, String)> = collect(connection.query_all(source).unwrap());

    assert_eq!(expected_data, actual_data);
    assert!(statement(&connection, 0).0.starts_with("SELECT \"users\".\"name\", \"posts\".\"title\" FROM "));
}

#[test]
fn update_then_names_are_jim_and_tess() {
    let mut connection = Scripted::answering(vec![
        Ok(DbResult::new(1, Vec::new())),
        rows(vec![vec![text("Jim")], vec![text("Tess")]]),
    ]);
    let command = update(Users.filter(user_id().eq(1))).set(user_name().eq("Jim"));
    assert_eq!(connection.execute_returning_count(&command), Ok(1));
    let names: Vec<String> = collect(connection.query_all(Users.select(user_name())).unwrap());
    assert_eq!(names, vec!["Jim".to_string(), "Tess".to_string()]);
    assert_eq!(statement(&connection, 0).1, vec![text("Jim"), int4(1)]);
}

#[test]
fn arithmetic_renders_infix() {
    let sum = yaqb::expression::ops::numeric::Add::new(post_user_id(), Bound::<Integer, i32>::new(1));
    let builder = render_expression(&sum);
    assert_eq!(builder.sql, "\"posts\".\"user_id\" + $1");
    assert_eq!(builder.binds, vec![int4(1)]);
    let product = yaqb::expression::ops::numeric::Mul::new(sum, post_user_id());
    assert_eq!(
        render_expression(&product).sql,
        "\"posts\".\"user_id\" + $1 * \"posts\".\"user_id\""
    );
    let difference = yaqb::expression::ops::numeric::Sub::new(user_id(), user_id());
    assert_eq!(render_expression(&difference).sql, "\"users\".\"id\" - \"users\".\"id\"");
    let quotient = yaqb::expression::ops::numeric::Div::new(user_id(), Bound::<Serial, i32>::new(2));
    assert_eq!(render_expression(&quotient).sql, "\"users\".\"id\" / $1");
}

#[derive(Clone, Copy)]
struct Numbers;

struct NumberDef;

impl TableDef for Numbers {
    const NAME: &'static str = "numbers";
    type SqlType = Integer;
    type PrimaryKey = Col<NumberDef>;
    type AllColumns = Col<NumberDef>;
}

impl ColumnDef for NumberDef {
    type Table = Numbers;
    type SqlType = Integer;
    const NAME: &'static str = "n";
}

#[test]
fn test_count_max() {
    let mut connection = Scripted::answering(vec![
        Ok(DbResult::new(0, Vec::new())),
        Ok(DbResult::new(3, Vec::new())),
        rows(vec![vec![int4(5)]]),
        Ok(DbResult::new(1, Vec::new())),
        rows(vec![vec![int4(2)]]),
    ]);
    connection.execute("CREATE TABLE numbers (n integer)").unwrap();
    connection.execute("INSERT INTO numbers (n) VALUES (2), (1), (5)").unwrap();

    assert_eq!(Some(5), connection.query_one(Numbers.select(max(Col::<NumberDef>::new()))).unwrap());
    connection.execute("DELETE FROM numbers WHERE n = 5").unwrap();
    assert_eq!(Some(2), connection.query_one(Numbers.select(max(Col::<NumberDef>::new()))).unwrap());
    assert_eq!(statement(&connection, 2).0, "SELECT MAX(\"numbers\".\"n\") FROM \"numbers\" WHERE $1");
}

#[test]
fn select_only_one_side_of_join() {
    let mut connection = Scripted::answering(vec![rows(vec![vec![int4(2), text("Tess"), None]])]);
    let source = Users.inner_join(Posts).select(users_star());

    let expected_data = vec![User::new(2, "Tess")];
    let actual_data: Vec<User> = collect(connection.query_all(source).unwrap());

    assert_eq!(expected_data, actual_data);
    assert_eq!(
        statement(&connection, 0).0,
        "SELECT \"users\".* FROM \"users\" INNER JOIN \"posts\" ON \"users\".\"id\" = \"posts\".\"user_id\" WHERE $1"
    );
}

#[test]
fn find_returns_none_without_a_row() {
    let mut connection = Scripted::answering(vec![rows(vec![])]);
    let user: Option<User> = connection.find(Users, 9).unwrap();
    assert_eq!(user, None);
}

impl<'a> AsChangeset for &'a NewUser {
    type Changeset = (
        yaqb::expression::predicates::Eq<UserName, Bound<VarChar, &'a String>>,
        yaqb::expression::predicates::Eq<HairColor, Bound<Nullable<VarChar>, &'a Option<String>>>,
    );

    fn as_changeset(self) -> Self::Changeset {
        (user_name().eq(&self.name), hair_color().eq(&self.hair_color))
    }
}

#[test]
fn update_returning_struct() {
    let mut connection =
        Scripted::answering(vec![rows(vec![vec![int4(1), text("Sean"), text("black")]])]);
    let command = update(Users.filter(user_id().eq(1))).set(hair_color().eq("black"));
    let user: Option<User> = connection.query_one(command).unwrap();
    let expected_user = User::with_hair_color(1, "Sean", "black");

    assert_eq!(Some(expected_user), user);
    let (sql, binds, _) = statement(&connection, 0);
    assert_eq!(
        sql,
        "UPDATE \"users\" SET \"hair_color\" = $1 WHERE \"users\".\"id\" = $2 RETURNING \"users\".\"id\", \"users\".\"name\", \"users\".\"hair_color\""
    );
    assert_eq!(binds, &vec![text("black"), int4(1)]);
}

#[test]
fn update_with_struct_as_changes() {
    let mut connection =
        Scripted::answering(vec![rows(vec![vec![int4(1), text("Jim"), text("blue")]])]);
    let changes = NewUser::new("Jim", Some("blue"));
    let command = update(Users.filter(user_id().eq(1))).set(&changes);

    let user = connection.query_one(command).unwrap();
    let expected_user = User::with_hair_color(1, "Jim", "blue");

    assert_eq!(Some(expected_user), user);
    let (sql, binds, _) = statement(&connection, 0);
    assert!(sql.starts_with("UPDATE \"users\" SET \"name\" = $1, \"hair_color\" = $2 WHERE \"users\".\"id\" = $3 RETURNING "));
    assert_eq!(binds, &vec![text("Jim"), text("blue"), int4(1)]);
}

#[test]
fn update_three_columns() {
    let command = update(Users).set_changes((user_id().eq(3), user_name().eq("Jim"), hair_color().eq(None::<String>)));
    let builder = render(&command);
    assert_eq!(builder.sql, "UPDATE \"users\" SET \"id\" = $1, \"name\" = $2, \"hair_color\" = $3");
    assert_eq!(builder.binds, vec![int4(3), text("Jim"), None]);
}

#[test]
fn plain_value_is_bound_to_a_nullable_column() {
    let builder = render_expression(&hair_color().eq("black"));
    assert_eq!(builder.sql, "\"users\".\"hair_color\" = $1");
    assert_eq!(builder.binds, vec![text("black")]);
    assert_eq!(builder.bind_types, vec![1043]);
    let builder = render_expression(&hair_color().eq("black".to_string()));
    assert_eq!(builder.binds, vec![text("black")]);
}

#[test]
fn row_stands_behind_the_cell_that_failed() {
    let result = DbResult::new(0, vec![vec![None, int4(7), text("x")]]);
    let mut rows = DbRows::new(result);
    let mut row = rows.next().unwrap();
    assert_eq!(row.row_idx, 0);
    assert_eq!(row.col_idx, 0);
    let first: Result<i32, DecodeError> = <i32 as FromSqlRow<Integer>>::build_from_row(&mut row);
    assert_eq!(first, Err(DecodeError::UnexpectedNull));
    assert_eq!(row.col_idx, 1);
    let pair: Result<(i32, i32), DecodeError> =
        <(i32, i32) as FromSqlRow<(Integer, Integer)>>::build_from_row(&mut row);
    assert_eq!(pair, Err(DecodeError::BadLength));
    assert_eq!(row.col_idx, 3);
    assert_eq!(row.take(), None);
    assert_eq!(row.col_idx, 3);
    assert_eq!(row.row_idx, 0);
}

#[test]
fn rows_index_advances_until_the_end() {
    let mut rows = DbRows::new(DbResult::new(0, vec![vec![int4(1)], vec![int4(2)]]));
    assert_eq!(rows.row_idx, 0);
    assert!(rows.next().is_some());
    assert_eq!(rows.row_idx, 1);
    {
        let row = rows.next().unwrap();
        assert_eq!(row.row_idx, 1);
        assert_eq!(row.col_idx, 0);
    }
    assert_eq!(rows.row_idx, 2);
    assert!(rows.next().is_none());
    assert_eq!(rows.row_idx, 2);
    assert_eq!(rows.db_result.num_rows(), 2);
}
