pub mod connection;
pub mod db_result;
pub mod expression;
pub mod persistable;
pub mod query_builder;
pub mod query_dsl;
pub mod query_source;
pub mod result;
pub mod row;
pub mod schema;
pub mod types;

pub use connection::{Connection, Cursor, Driver};
pub use db_result::DbResult;
pub use expression::{AsExpression, Expression, ExpressionMethods, NonAggregate, SelectableExpression};
pub use query_builder::{
    AsChangeset, AsQuery, AsUpdateQuery, Binds, BuildQueryResult, Changeset, Query, QueryBuilder,
    QueryFragment, SelectStatement, UpdateQuery, UpdateStatement, update,
};
pub use query_dsl::{CountDsl, FilterDsl, SelectDsl};
pub use query_source::{Column, JoinTo, Queriable, QuerySource, Table};
pub use result::{
    ConnectionError, ConnectionResult, DecodeError, Error, QueryResult, TransactionError,
    TransactionResult,
};
pub use schema::{AppearsIn, Col, ColumnDef, JoinDef, SchemaExpression, Star, TableDef};
