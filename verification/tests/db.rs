use codex_history_store::db::bool_from_row;
use codex_history_store::db::bound_query;
use codex_history_store::db::numbered_placeholders;
use codex_history_store::db::optional_bool_from_row;
use codex_history_store::db::query;
use codex_history_store::db::query_as;
use codex_history_store::db::query_scalar;
use codex_history_store::db::Pool;
use codex_history_store::db::QueryBuilder;
use codex_history_store::history::Statement;
use codex_history_store::value::SqlValue;
use sqlx::Row;

fn runtime() -> tokio::runtime::Runtime {
    tokio::runtime::Runtime::new().expect("runtime")
}

async fn memory() -> Pool {
    sqlx::any::install_default_drivers();
    sqlx::any::AnyPoolOptions::new()
        .max_connections(1)
        .connect("sqlite::memory:")
        .await
        .expect("open sqlite")
}

#[test]
fn numbers_only_parameters_outside_quotes() {
    assert_eq!(
        numbered_placeholders("SELECT '?', \"?\", value FROM t WHERE a = ? AND b = ?"),
        "SELECT '?', \"?\", value FROM t WHERE a = $1 AND b = $2"
    );
}

#[test]
fn builds_multi_row_values_without_extra_parentheses() {
    let mut builder = QueryBuilder::new("INSERT INTO logs (id, level) ");
    builder.push_values(
        vec![(1_i64, "INFO"), (2_i64, "DEBUG")],
        |row, (id, level)| {
            row.push_bind(id).push_bind(level);
        },
    );

    assert_eq!(
        builder.sql(),
        "INSERT INTO logs (id, level) VALUES ($1, $2), ($3, $4)"
    );
}

#[test]
fn reads_sqlite_integer_booleans_through_any() {
    runtime().block_on(async {
        let pool = memory().await;
        let row = query("SELECT 1 AS enabled, NULL AS inherited")
            .query
            .fetch_one(&pool)
            .await
            .expect("query row");

        assert!(bool_from_row(&row, "enabled").expect("read boolean"));
        assert_eq!(
            optional_bool_from_row(&row, "inherited").expect("read optional boolean"),
            None
        );
    });
}

#[test]
fn reads_booleans_from_integers_and_refuses_other_values() {
    runtime().block_on(async {
        let pool = memory().await;
        let row = query("SELECT 0 AS off, 7 AS many, -1 AS below, 'x' AS text, NULL AS empty_cell")
            .query
            .fetch_one(&pool)
            .await
            .expect("query row");

        assert!(!bool_from_row(&row, "off").expect("off"));
        assert!(bool_from_row(&row, "many").expect("many"));
        assert!(bool_from_row(&row, "below").expect("below"));
        assert!(bool_from_row(&row, "text").is_err());
        assert!(bool_from_row(&row, "empty_cell").is_err());
        assert!(bool_from_row(&row, "missing").is_err());

        assert_eq!(optional_bool_from_row(&row, "off").expect("off"), Some(false));
        assert_eq!(optional_bool_from_row(&row, "many").expect("many"), Some(true));
        assert_eq!(optional_bool_from_row(&row, "empty_cell").expect("empty_cell"), None);
        assert!(optional_bool_from_row(&row, "text").is_err());
        assert!(optional_bool_from_row(&row, "missing").is_err());
    });
}

#[test]
fn queries_number_their_parameters() {
    runtime().block_on(async {
        let pool = memory().await;
        let row = query("SELECT '?' AS mark, ? AS first, ? AS second")
            .query
            .bind(5_i64)
            .bind("five")
            .fetch_one(&pool)
            .await
            .expect("query row");
        assert_eq!(row.try_get::<String, _>("mark").expect("mark"), "?");
        assert_eq!(row.try_get::<i64, _>("first").expect("first"), 5);
        assert_eq!(row.try_get::<String, _>("second").expect("second"), "five");

        let pair = query_as::<(i64, i64)>("SELECT ?, ?")
            .query
            .query
            .bind(1_i64)
            .bind(2_i64)
            .fetch_one(&pool)
            .await
            .expect("query pair");
        assert_eq!(pair, (1, 2));

        let sum = query_scalar::<i64>("SELECT ? + ?")
            .query
            .query
            .bind(1_i64)
            .bind(2_i64)
            .fetch_one(&pool)
            .await
            .expect("query sum");
        assert_eq!(sum, 3);
    });
}

#[test]
fn numbers_nothing_without_parameters() {
    for sql in ["", "SELECT 1", "SELECT '?'", "SELECT \"?\"", "it''s"] {
        assert_eq!(numbered_placeholders(sql), sql);
    }
}

#[test]
fn numbers_more_than_nine_parameters() {
    assert_eq!(
        numbered_placeholders("(?, ?, ?, ?, ?, ?, ?, ?, ?, ?, ?)"),
        "($1, $2, $3, $4, $5, $6, $7, $8, $9, $10, $11)"
    );
}

#[test]
fn numbering_a_second_time_changes_nothing() {
    let once = numbered_placeholders("a = ? AND b = '?' AND c = ?");
    assert_eq!(once, "a = $1 AND b = '?' AND c = $2");
    assert_eq!(numbered_placeholders(&once), once);
}

#[test]
fn doubled_quotes_stay_inside_a_text() {
    assert_eq!(numbered_placeholders("'it''s ?' ?"), "'it''s ?' $1");
    assert_eq!(numbered_placeholders("'' ?"), "'' $1");
    assert_eq!(numbered_placeholders("''' ?' ?"), "''' ?' $1");
    assert_eq!(numbered_placeholders("\"a\"\"?\" ?"), "\"a\"\"?\" $1");
}

#[test]
fn quotes_of_one_kind_do_not_end_those_of_the_other() {
    assert_eq!(numbered_placeholders("'\"' ?"), "'\"' $1");
    assert_eq!(numbered_placeholders("\"'\" ?"), "\"'\" $1");
    assert_eq!(numbered_placeholders("'\" ?"), "'\" ?");
}

#[test]
fn parameters_are_numbered_by_the_place_of_their_value() {
    runtime().block_on(async {
        let pool = memory().await;
        let mut builder = QueryBuilder::new("SELECT ");
        builder.push_bind("a").push(" AS x, ");
        builder.push_bind(Some(2_i64)).push(&" AS y, ");
        builder.push_bind(None::<String>).push(" AS z, ");
        builder.push_bind(true).push(" AS w");
        assert_eq!(builder.sql(), "SELECT $1 AS x, $2 AS y, $3 AS z, $4 AS w");

        let row = builder
            .build()
            .query
            .fetch_one(&pool)
            .await
            .expect("query row");
        assert_eq!(row.try_get::<String, _>("x").expect("x"), "a");
        assert_eq!(row.try_get::<i64, _>("y").expect("y"), 2);
        assert_eq!(
            row.try_get::<Option<String>, _>("z").expect("z"),
            None::<String>
        );
        assert!(bool_from_row(&row, "w").expect("w"));
    });
}

#[test]
fn builds_queries_for_typed_rows() {
    runtime().block_on(async {
        let pool = memory().await;
        let mut builder = QueryBuilder::new("SELECT ");
        builder.push_bind(SqlValue::Integer(Some(4))).push(", ");
        builder.push_bind(String::from("four"));
        let row = builder
            .build_query_as::<(i64, String)>()
            .query
            .query
            .fetch_one(&pool)
            .await
            .expect("query row");
        assert_eq!(row, (4, String::from("four")));
    });
}

#[test]
fn separates_all_elements_but_the_first() {
    let mut builder = QueryBuilder::new("WHERE ");
    let mut conditions = builder.separated(" AND ");
    conditions
        .push("a = ")
        .push_bind_unseparated(1_i64)
        .push("b = ")
        .push_bind_unseparated("x")
        .push_unseparated(" COLLATE NOCASE")
        .push_bind(false);
    assert_eq!(
        builder.sql(),
        "WHERE a = $1 AND b = $2 COLLATE NOCASE AND $3"
    );
}

#[test]
fn pushes_numbers_as_their_text() {
    let mut builder = QueryBuilder::new("LIMIT ");
    builder.push(&10);
    assert_eq!(builder.sql(), "LIMIT 10");
}

#[test]
fn rows_without_values_leave_the_keyword() {
    let mut builder = QueryBuilder::new("");
    builder.push_values(Vec::<i64>::new(), |row, value| {
        row.push_bind(value);
    });
    assert_eq!(builder.sql(), "VALUES ");
}

#[test]
fn rows_start_without_a_separator() {
    let mut builder = QueryBuilder::new("");
    builder.push_values(vec![1_i64, 2, 3], |row, value| {
        row.push(&value).push("x");
    });
    assert_eq!(builder.sql(), "VALUES (1, x), (2, x), (3, x)");
}

struct Failing;

impl std::fmt::Display for Failing {
    fn fmt(&self, formatter: &mut std::fmt::Formatter<'_>) -> std::fmt::Result {
        formatter.write_str("part")?;
        Err(std::fmt::Error)
    }
}

#[test]
fn keeps_what_a_failing_value_wrote() {
    let mut builder = QueryBuilder::new(String::from("a "));
    builder.push(&Failing).push(" b");
    assert_eq!(builder.sql(), "a part b");

    let mut builder = QueryBuilder::new("");
    let mut list = builder.separated(&Failing);
    list.push("x").push("y").push_unseparated(&Failing);
    assert_eq!(builder.sql(), "xpartypart");
}

#[test]
fn binds_narrow_integers_texts_and_bytes() {
    runtime().block_on(async {
        let pool = memory().await;
        let mut builder = QueryBuilder::new(&String::from("SELECT "));
        builder.push_bind(7_i16).push(" AS a, ");
        builder.push_bind(Some(8_i32)).push(" AS b, ");
        builder.push_bind(vec![1_u8, 2]).push(" AS c, ");
        builder.push_bind(&[3_u8][..]).push(" AS d, ");
        builder.push_bind(Some("x")).push(" AS e, ");
        builder.push_bind(&String::from("y")).push(" AS f, ");
        builder.push_bind(None::<i16>).push(" AS g, ");
        builder.push_bind(None::<Vec<u8>>).push(" AS h");
        let row = builder
            .build()
            .query
            .fetch_one(&pool)
            .await
            .expect("query row");
        assert_eq!(row.try_get::<i64, _>("a").expect("a"), 7);
        assert_eq!(row.try_get::<i64, _>("b").expect("b"), 8);
        assert_eq!(row.try_get::<Vec<u8>, _>("c").expect("c"), vec![1, 2]);
        assert_eq!(row.try_get::<Vec<u8>, _>("d").expect("d"), vec![3]);
        assert_eq!(row.try_get::<String, _>("e").expect("e"), "x");
        assert_eq!(row.try_get::<String, _>("f").expect("f"), "y");
        assert_eq!(row.try_get::<Option<i64>, _>("g").expect("g"), None);
        assert_eq!(row.try_get::<Option<i64>, _>("h").expect("h"), None);
    });
}

#[test]
fn binds_the_values_of_a_statement() {
    runtime().block_on(async {
        let pool = memory().await;
        let statement = Statement {
            sql: "SELECT ? AS a, '?' AS b, ? AS c, ? AS d",
            values: vec![
                SqlValue::Integer(Some(5)),
                SqlValue::Text(Some(String::from("x"))),
                SqlValue::Bool(Some(true)),
            ],
        };
        let row = bound_query(statement)
            .query
            .fetch_one(&pool)
            .await
            .expect("query row");
        assert_eq!(row.try_get::<i64, _>("a").expect("a"), 5);
        assert_eq!(row.try_get::<String, _>("b").expect("b"), "?");
        assert_eq!(row.try_get::<String, _>("c").expect("c"), "x");
        assert!(bool_from_row(&row, "d").expect("d"));
    });
}
