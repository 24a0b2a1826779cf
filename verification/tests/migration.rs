use codex_history_store::counts::count_sql;
use codex_history_store::counts::table_at;
use codex_history_store::counts::verify_count;
use codex_history_store::counts::verify_counts;
use codex_history_store::counts::CountCheck;
use codex_history_store::counts::CountError;
use codex_history_store::counts::MigrationCounts;
use codex_history_store::counts::CHECKS;
use codex_history_store::migration::Migration;
use codex_history_store::migration::MigrationAction;
use codex_history_store::migration::MigrationError;
use codex_history_store::migration::MigrationEvent;
use codex_history_store::migration::Stage;
use codex_history_store::owners::owned_thread_ids;
use codex_history_store::table_copy::insert_sql;
use codex_history_store::table_copy::quoted;
use codex_history_store::table_copy::row_belongs_to_user;
use codex_history_store::table_copy::row_values;
use codex_history_store::table_copy::select_columns;
use codex_history_store::table_copy::select_sql;
use codex_history_store::table_copy::table_info_sql;
use codex_history_store::table_copy::TableCopy;
use codex_history_store::table_copy::TABLE_EXISTS;
use codex_history_store::tables::table_copy;
use codex_history_store::tables::MigratedTable;
use codex_history_store::tables::SourceDatabase;
use codex_history_store::value::SqlValue;
use sqlx::sqlite::SqliteRow;
use sqlx::SqlitePool;

const OWNERS: &[u8] = br#"{"t1": "alice", "t2": "bob", "t3": "alice"}"#;

fn runtime() -> tokio::runtime::Runtime {
    tokio::runtime::Runtime::new().expect("runtime")
}

async fn memory() -> SqlitePool {
    sqlx::sqlite::SqlitePoolOptions::new()
        .max_connections(1)
        .connect("sqlite::memory:")
        .await
        .expect("open sqlite")
}

fn rows(sql: &'static str) -> Vec<SqliteRow> {
    runtime().block_on(async {
        let pool = memory().await;
        sqlx::query(sql).fetch_all(&pool).await.expect("rows")
    })
}

fn shown(value: &SqlValue) -> String {
    match value {
        SqlValue::Bool(Some(value)) => format!("{value}"),
        SqlValue::Bool(None) => String::from("null boolean"),
        SqlValue::Integer(Some(value)) => format!("{value}"),
        SqlValue::Integer(None) => String::from("null integer"),
        SqlValue::Text(Some(value)) => format!("'{value}'"),
        SqlValue::Text(None) => String::from("null text"),
        other => panic!("{other:?}"),
    }
}

fn small_copy() -> TableCopy<'static> {
    TableCopy {
        source: "source",
        destination: "destination",
        columns: &["id", "flag", "size", "note"],
        conflict_columns: &["id"],
        boolean_columns: &["flag"],
        integer_columns: &["size", "flag"],
        owner_column: Some("id"),
    }
}

#[test]
fn quotes_columns() {
    assert_eq!(quoted(&[]), "");
    assert_eq!(quoted(&["a"]), "\"a\"");
    assert_eq!(quoted(&["a", "b", "c"]), "\"a\", \"b\", \"c\"");
}

#[test]
fn selects_constants_for_missing_columns() {
    let existing = vec![String::from("note"), String::from("id")];
    let copy = small_copy();
    assert_eq!(
        select_columns("source", copy.columns, &existing),
        vec!["\"id\"", "NULL AS \"flag\"", "NULL AS \"size\"", "\"note\""]
    );
    assert_eq!(
        select_sql(&copy, &existing),
        "SELECT \"id\", NULL AS \"flag\", NULL AS \"size\", \"note\" FROM \"source\""
    );
}

#[test]
fn threads_without_the_column_are_not_pinned() {
    let none: Vec<String> = vec![];
    assert_eq!(
        select_columns("threads", &["is_pinned", "name"], &none),
        vec!["0 AS \"is_pinned\"", "NULL AS \"name\""]
    );
    assert_eq!(
        select_columns("threads", &["is_pinned"], &vec![String::from("is_pinned")]),
        vec!["\"is_pinned\""]
    );
    assert_eq!(
        select_columns("logs", &["is_pinned"], &none),
        vec!["NULL AS \"is_pinned\""]
    );
}

#[test]
fn finds_tables_and_their_columns() {
    assert_eq!(
        table_info_sql("threads"),
        "SELECT name FROM pragma_table_info('threads')"
    );
    runtime().block_on(async {
        let pool = memory().await;
        sqlx::query("CREATE TABLE logs (id INTEGER, level TEXT)")
            .execute(&pool)
            .await
            .expect("create");
        for (table, expected) in [("logs", Some(1_i64)), ("threads", None)] {
            let found: Option<i64> = sqlx::query_scalar(TABLE_EXISTS)
                .bind(table)
                .fetch_optional(&pool)
                .await
                .expect("lookup");
            assert_eq!(found, expected);
        }
        let sql = sqlx::AssertSqlSafe(table_info_sql("logs"));
        let columns: Vec<String> = sqlx::query_scalar(sql)
            .fetch_all(&pool)
            .await
            .expect("columns");
        assert_eq!(columns, vec!["id", "level"]);
    });
}

#[test]
fn inserts_update_rows_that_are_there() {
    assert_eq!(
        insert_sql("codex", &small_copy()),
        "INSERT INTO \"codex\".\"destination\" (\"id\", \"flag\", \"size\", \"note\") \
         VALUES ($1, $2, $3, $4) ON CONFLICT (\"id\") DO UPDATE SET \
         \"flag\" = EXCLUDED.\"flag\", \"size\" = EXCLUDED.\"size\", \
         \"note\" = EXCLUDED.\"note\""
    );
}

#[test]
fn inserts_leave_rows_that_have_only_their_key() {
    let copy = table_copy(MigratedTable::ThreadGoalContinuationDeferrals);
    assert_eq!(
        insert_sql("s", &copy),
        "INSERT INTO \"s\".\"thread_goal_continuation_deferrals\" (\"thread_id\") \
         VALUES ($1) ON CONFLICT (\"thread_id\") DO NOTHING"
    );
}

#[test]
fn numbers_a_parameter_for_each_column() {
    let sql = insert_sql("s", &table_copy(MigratedTable::Threads));
    assert!(sql.contains(", $33, $34)"), "{sql}");
    assert!(!sql.contains("$35"), "{sql}");
    assert!(sql.starts_with("INSERT INTO \"s\".\"threads\" (\"id\", \"rollout_path\", "));
    assert!(sql.ends_with("\"is_pinned\" = EXCLUDED.\"is_pinned\""));
}

#[test]
fn copies_booleans_integers_and_texts() {
    let rows = rows(
        "SELECT 'a' AS id, 2 AS flag, 3 AS size, 'n' AS note
         UNION ALL SELECT 'b', 0, -4, NULL
         UNION ALL SELECT NULL, NULL, NULL, NULL",
    );
    let copy = small_copy();
    let copied: Vec<Vec<String>> = rows
        .iter()
        .map(|row| {
            let values = row_values(row, &copy).expect("values");
            values.iter().map(shown).collect()
        })
        .collect();
    assert_eq!(
        copied,
        vec![
            vec!["'a'", "true", "3", "'n'"],
            vec!["'b'", "false", "-4", "null text"],
            vec!["null text", "null boolean", "null integer", "null text"],
        ]
    );
}

#[test]
fn refuses_values_of_other_types_and_missing_columns() {
    let copy = small_copy();
    for sql in [
        "SELECT 'a' AS id, 'x' AS flag, 3 AS size, 'n' AS note",
        "SELECT 'a' AS id, 1 AS flag, 'x' AS size, 'n' AS note",
        "SELECT 'a' AS id, 1 AS flag, 1.5 AS size, 'n' AS note",
        "SELECT 'a' AS id, 1 AS flag, 3 AS size, 7 AS note",
        "SELECT 'a' AS id, 1 AS flag, 3 AS size, x'00' AS note",
        "SELECT 'a' AS id, 1 AS flag, 3 AS size",
    ] {
        assert!(row_values(&rows(sql)[0], &copy).is_err(), "{sql}");
    }
}

#[test]
fn rows_belong_to_the_owner_of_their_thread() {
    let owned = owned_thread_ids(OWNERS, "alice").expect("owners");
    let rows = rows("SELECT 't1' AS thread UNION ALL SELECT 't2' UNION ALL SELECT NULL");
    for (row, without_global, with_global) in [
        (&rows[0], true, true),
        (&rows[1], false, false),
        (&rows[2], false, true),
    ] {
        let belongs = |include_global| {
            row_belongs_to_user(row, Some("thread"), &owned, include_global).expect("owner")
        };
        assert_eq!(belongs(false), without_global);
        assert_eq!(belongs(true), with_global);
        // Without an owner column, all rows are global.
        assert!(!row_belongs_to_user(row, None, &owned, false).expect("global"));
        assert!(row_belongs_to_user(row, None, &owned, true).expect("global"));
        assert!(row_belongs_to_user(row, Some("missing"), &owned, true).is_err());
    }
}

#[test]
fn owners_that_are_no_texts_cannot_be_read() {
    let owned = owned_thread_ids(OWNERS, "alice").expect("owners");
    let row = &rows("SELECT 1 AS thread")[0];
    assert!(row_belongs_to_user(row, Some("thread"), &owned, true).is_err());
}

#[test]
fn collects_the_threads_of_a_user() {
    let owned = owned_thread_ids(OWNERS, "alice").expect("owners");
    assert_eq!(owned.len(), 2);
    assert!(owned.contains("t1"));
    assert!(!owned.contains("t2"));
    assert!(owned.contains("t3"));
    assert!(owned_thread_ids(OWNERS, "carol").expect("owners").is_empty());
    assert!(owned_thread_ids(b"{}", "alice").expect("owners").is_empty());
}

#[test]
fn two_users_own_no_thread_together() {
    let alice = owned_thread_ids(OWNERS, "alice").expect("owners");
    let bob = owned_thread_ids(OWNERS, "bob").expect("owners");
    for thread in ["t1", "t2", "t3"] {
        assert!(!(alice.contains(thread) && bob.contains(thread)));
    }
    // The last of several owners counts.
    let twice = br#"{"t": "alice", "t": "bob"}"#;
    assert!(!owned_thread_ids(twice, "alice").expect("owners").contains("t"));
    assert!(owned_thread_ids(twice, "bob").expect("owners").contains("t"));
}

#[test]
fn refuses_ownership_maps_of_another_form() {
    for json in ["", "[]", "{\"t\": 1}", "{\"t\": null}", "{\"t\": \"a\"} x"] {
        assert!(owned_thread_ids(json.as_bytes(), "a").is_err(), "{json}");
    }
}

fn all_tables() -> Vec<MigratedTable> {
    (0..CHECKS).map(table_at).collect()
}

#[test]
fn tables_follow_one_another_through_the_databases() {
    let mut order = vec![];
    let mut database = Some(SourceDatabase::State);
    let mut files = vec![];
    while let Some(current) = database {
        files.push(current.file_name());
        let mut table = Some(current.first_table());
        while let Some(found) = table {
            assert_eq!(found.database(), current);
            order.push(found);
            table = found.next();
        }
        database = current.next();
    }
    assert_eq!(order, all_tables());
    assert_eq!(
        files,
        vec![
            "state_5.sqlite",
            "goals_1.sqlite",
            "memories_1.sqlite",
            "logs_2.sqlite",
            "thread_history_1.sqlite",
        ]
    );
}

#[test]
fn copies_speak_of_their_own_columns() {
    for table in all_tables() {
        let copy = table_copy(table);
        for columns in [
            copy.conflict_columns,
            copy.boolean_columns,
            copy.integer_columns,
        ] {
            for column in columns {
                assert!(copy.columns.contains(column), "{column}");
            }
        }
        if let Some(owner) = copy.owner_column {
            assert!(copy.columns.contains(&owner), "{owner}");
        }
    }
}

#[test]
fn copies_go_to_different_tables() {
    let names: Vec<&str> = all_tables()
        .into_iter()
        .map(|table| table_copy(table).destination)
        .collect();
    assert_eq!(
        names,
        vec![
            "threads",
            "thread_dynamic_tools",
            "thread_spawn_edges",
            "backfill_state",
            "remote_control_enrollments",
            "external_agent_config_imports",
            "legacy_agent_jobs",
            "legacy_agent_job_items",
            "thread_goals",
            "thread_goal_continuation_deferrals",
            "stage1_outputs",
            "jobs",
            "logs",
            "thread_turns",
            "thread_items",
            "thread_history_projection_state",
        ]
    );
}

fn some_counts() -> MigrationCounts {
    let mut counts = MigrationCounts::default();
    for (index, table) in all_tables().into_iter().enumerate() {
        assert_eq!(counts.get(table), 0);
        counts.set(table, index as u64 * 10);
    }
    counts
}

#[test]
fn counts_are_kept_by_table() {
    let mut counts = some_counts();
    assert_eq!(counts.threads, 0);
    assert_eq!(counts.agent_jobs, 60);
    assert_eq!(counts.memory_jobs, 110);
    assert_eq!(counts.thread_history_projection_state, 150);
    counts.set(MigratedTable::Logs, 1);
    assert_eq!(counts.get(MigratedTable::Logs), 1);
    assert_eq!(counts.get(MigratedTable::MemoryJobs), 110);
    assert_eq!(counts.get(MigratedTable::ThreadTurns), 130);
}

#[test]
fn counts_the_rows_of_a_table() {
    assert_eq!(
        count_sql("codex", "threads"),
        "SELECT COUNT(*) FROM \"codex\".\"threads\""
    );
}

#[test]
fn all_counts_have_to_match() {
    let counts = some_counts();
    let mut actual: Vec<i64> = vec![];
    let mut names = vec![];
    while let Some(check) = verify_counts(&counts, &actual).expect("counts") {
        names.push(check.table_name);
        actual.push(check.expected as i64);
    }
    assert_eq!(actual.len(), CHECKS);
    assert_eq!(names[6], "legacy_agent_jobs");
    assert_eq!(names[11], "jobs");

    actual[6] = 61;
    actual[9] = -1;
    let Err(error) = verify_counts(&counts, &actual) else {
        panic!("a wrong count");
    };
    assert_eq!(
        error.message(),
        "count mismatch for legacy_agent_jobs: source=60, destination=61"
    );
}

#[test]
fn says_why_a_count_does_not_match() {
    let check = CountCheck {
        table_name: "logs",
        expected: 12,
    };
    assert!(verify_count(&check, 12).is_ok());
    let Err(mismatch) = verify_count(&check, 0) else {
        panic!("a wrong count");
    };
    assert!(matches!(mismatch, CountError::Mismatch { .. }));
    assert_eq!(
        mismatch.message(),
        "count mismatch for logs: source=12, destination=0"
    );
    let Err(negative) = verify_count(&check, -1) else {
        panic!("a negative count");
    };
    assert!(matches!(negative, CountError::OutOfRange));
    assert_eq!(
        negative.message(),
        "out of range integral type conversion attempted"
    );
}

struct Run {
    counts: MigrationCounts,
    steps: usize,
    inserted: Vec<(String, Vec<Vec<String>>)>,
}

/// Runs a migration whose databases are all the same in-memory database.
fn run(setup: &[&'static str], missing: &[&str], user: &str, include_global: bool) -> Run {
    runtime().block_on(async {
        let pool = memory().await;
        for sql in setup {
            sqlx::query(*sql).execute(&pool).await.expect("setup");
        }
        let owned = owned_thread_ids(OWNERS, user).expect("owners");
        let (mut migration, mut action) = Migration::new("codex", owned, include_global);
        let mut steps = 0;
        let mut inserted = vec![];
        loop {
            let event = match action {
                MigrationAction::OpenDatabase { file_name } => {
                    if missing.contains(&file_name) {
                        MigrationEvent::DatabaseMissing
                    } else {
                        MigrationEvent::DatabaseOpened
                    }
                }
                MigrationAction::FindTable { table } => {
                    let found: Option<i64> = sqlx::query_scalar(TABLE_EXISTS)
                        .bind(table)
                        .fetch_optional(&pool)
                        .await
                        .expect("lookup");
                    if found.is_some() {
                        MigrationEvent::TableFound
                    } else {
                        MigrationEvent::TableMissing
                    }
                }
                MigrationAction::ListColumns { sql } => MigrationEvent::Columns(
                    sqlx::query_scalar(sqlx::AssertSqlSafe(sql))
                        .fetch_all(&pool)
                        .await
                        .expect("columns"),
                ),
                MigrationAction::FetchRows { sql } => MigrationEvent::Rows(
                    sqlx::query(sqlx::AssertSqlSafe(sql))
                        .fetch_all(&pool)
                        .await
                        .expect("rows"),
                ),
                MigrationAction::InsertRows { sql, copy, rows } => {
                    assert_eq!(sql, insert_sql("codex", &copy));
                    let values = rows
                        .iter()
                        .map(|row| {
                            let values = row_values(row, &copy).expect("values");
                            values.iter().map(shown).collect()
                        })
                        .collect();
                    inserted.push((String::from(copy.destination), values));
                    MigrationEvent::RowsInserted
                }
                MigrationAction::CloseDatabase => MigrationEvent::DatabaseClosed,
                MigrationAction::Finish => {
                    return Run {
                        counts: migration.counts,
                        steps,
                        inserted,
                    }
                }
            };
            steps += 1;
            action = migration.step(event).expect("step");
        }
    })
}

const EDGES: [&str; 2] = [
    "CREATE TABLE thread_spawn_edges (parent_thread_id TEXT, child_thread_id TEXT, status TEXT)",
    "INSERT INTO thread_spawn_edges VALUES
        ('p', 't1', 'open'), ('p', 't2', 'open'), ('p', NULL, 'open'), (NULL, 't3', 'closed')",
];

#[test]
fn copies_only_rows_of_the_user() {
    let run = run(&EDGES, &[], "alice", false);
    assert_eq!(
        run.inserted,
        vec![(
            String::from("thread_spawn_edges"),
            vec![
                vec!["'p'", "'t1'", "'open'"]
                    .into_iter()
                    .map(String::from)
                    .collect::<Vec<String>>(),
                vec!["null text", "'t3'", "'closed'"]
                    .into_iter()
                    .map(String::from)
                    .collect(),
            ]
        )]
    );
    assert_eq!(run.counts.get(MigratedTable::ThreadSpawnEdges), 2);
    for table in all_tables() {
        if table != MigratedTable::ThreadSpawnEdges {
            assert_eq!(run.counts.get(table), 0);
        }
    }
}

#[test]
fn no_row_goes_to_two_users() {
    let alice = run(&EDGES, &[], "alice", false);
    let bob = run(&EDGES, &[], "bob", true);
    assert_eq!(alice.counts.get(MigratedTable::ThreadSpawnEdges), 2);
    assert_eq!(bob.counts.get(MigratedTable::ThreadSpawnEdges), 2);
    for row in &alice.inserted[0].1 {
        assert!(!bob.inserted[0].1.contains(row));
    }
}

#[test]
fn threads_are_never_global() {
    let setup = [
        "CREATE TABLE threads (id TEXT, archived INTEGER, created_at INTEGER)",
        "INSERT INTO threads VALUES ('t1', 1, 5), ('t2', 0, 6), (NULL, 0, 7)",
        "CREATE TABLE backfill_state (id INTEGER, status TEXT)",
        "INSERT INTO backfill_state VALUES (1, 'complete')",
    ];
    let run_with = run(&setup, &[], "alice", true);
    assert_eq!(run_with.counts.get(MigratedTable::Threads), 1);
    assert_eq!(run_with.counts.get(MigratedTable::BackfillState), 1);
    let (table, threads) = &run_with.inserted[0];
    assert_eq!(table, "threads");
    assert_eq!(threads[0].len(), 34);
    assert_eq!(threads[0][0], "'t1'");
    assert_eq!(threads[0][2], "5");
    assert_eq!(threads[0][12], "true");
    // The column is missing, so the thread is not pinned.
    assert_eq!(threads[0][33], "false");
    assert_eq!(
        run_with.inserted[1].1,
        vec![vec!["1", "'complete'", "null text", "null integer", "null integer"]]
    );

    let run_without = run(&setup, &[], "alice", false);
    assert_eq!(run_without.counts.get(MigratedTable::Threads), 1);
    assert_eq!(run_without.counts.get(MigratedTable::BackfillState), 0);
}

#[test]
fn tables_without_rows_of_the_user_are_not_inserted_into() {
    let run = run(&EDGES, &[], "carol", false);
    assert!(run.inserted.is_empty());
    assert_eq!(run.counts.get(MigratedTable::ThreadSpawnEdges), 0);
}

#[test]
fn missing_databases_are_passed_over() {
    let run_all = run(&EDGES, &["goals_1.sqlite", "logs_2.sqlite"], "alice", false);
    assert_eq!(run_all.counts.get(MigratedTable::ThreadSpawnEdges), 2);
    let all = [
        "state_5.sqlite",
        "goals_1.sqlite",
        "memories_1.sqlite",
        "logs_2.sqlite",
        "thread_history_1.sqlite",
    ];
    let run_none = run(&EDGES, &all, "alice", false);
    assert_eq!(run_none.steps, 5);
    assert!(run_none.inserted.is_empty());
}

#[test]
fn copies_the_last_table_of_the_last_database() {
    let setup = [
        "CREATE TABLE thread_history_projection_state
            (thread_id TEXT, next_rollout_byte_offset INTEGER, next_rollout_ordinal INTEGER)",
        "INSERT INTO thread_history_projection_state VALUES ('t2', 9, 1)",
    ];
    let run = run(&setup, &[], "bob", false);
    assert_eq!(
        run.inserted,
        vec![(
            String::from("thread_history_projection_state"),
            vec![vec![
                String::from("'t2'"),
                String::from("9"),
                String::from("1")
            ]]
        )]
    );
    assert_eq!(
        run.counts.get(MigratedTable::ThreadHistoryProjectionState),
        1
    );
}

#[test]
fn unexpected_events_change_nothing() {
    let owned = owned_thread_ids(OWNERS, "alice").expect("owners");
    let (mut migration, _) = Migration::new("codex", owned, true);
    for event in [
        MigrationEvent::TableFound,
        MigrationEvent::TableMissing,
        MigrationEvent::Columns(vec![]),
        MigrationEvent::Rows(vec![]),
        MigrationEvent::RowsInserted,
        MigrationEvent::DatabaseClosed,
    ] {
        assert!(matches!(
            migration.step(event),
            Err(MigrationError::Unexpected)
        ));
        assert_eq!(migration.stage, Stage::Opening(SourceDatabase::State));
    }
}

#[test]
fn rows_whose_owner_cannot_be_read_stop_a_migration() {
    let owned = owned_thread_ids(OWNERS, "alice").expect("owners");
    let (mut migration, _) = Migration::new("codex", owned, true);
    for event in [
        MigrationEvent::DatabaseOpened,
        MigrationEvent::TableFound,
        MigrationEvent::Columns(vec![]),
    ] {
        assert!(migration.step(event).is_ok());
    }
    let unreadable = rows("SELECT 't1' AS id UNION ALL SELECT 5");
    assert!(matches!(
        migration.step(MigrationEvent::Rows(unreadable)),
        Err(MigrationError::Row(_))
    ));
    assert_eq!(migration.stage, Stage::Fetching(MigratedTable::Threads));
}

#[test]
fn a_repeated_migration_hands_out_the_same() {
    let first = run(&EDGES, &[], "alice", true);
    let second = run(&EDGES, &[], "alice", true);
    for table in all_tables() {
        assert_eq!(first.counts.get(table), second.counts.get(table));
    }
    assert_eq!(first.inserted, second.inserted);
}

#[test]
fn repeated_inserts_leave_rows_as_they_were() {
    runtime().block_on(async {
        let pool = memory().await;
        for sql in [
            "ATTACH ':memory:' AS codex",
            "CREATE TABLE codex.destination
                (id TEXT PRIMARY KEY, flag BOOLEAN, size INTEGER, note TEXT, kept TEXT)",
        ] {
            sqlx::query(sql).execute(&pool).await.expect("setup");
        }
        let copy = small_copy();
        let sources: Vec<SqliteRow> = sqlx::query(
            "SELECT 'a' AS id, 1 AS flag, 3 AS size, 'n' AS note
             UNION ALL SELECT 'b', 0, NULL, 'm'",
        )
        .fetch_all(&pool)
        .await
        .expect("rows");
        let mut states = vec![];
        for _ in 0..2 {
            for row in &sources {
                let mut insert = sqlx::query(sqlx::AssertSqlSafe(insert_sql("codex", &copy)));
                for value in row_values(row, &copy).expect("values") {
                    insert = match value {
                        SqlValue::Bool(value) => insert.bind(value),
                        SqlValue::Integer(value) => insert.bind(value),
                        SqlValue::Text(value) => insert.bind(value),
                        other => panic!("{other:?}"),
                    };
                }
                insert.execute(&pool).await.expect("insert");
            }
            let shown: Vec<String> = sqlx::query_scalar(
                "SELECT concat_ws(',', id, flag, coalesce(size, '-'), note)
                 FROM codex.destination ORDER BY id",
            )
            .fetch_all(&pool)
            .await
            .expect("rows");
            states.push(shown);
        }
        assert_eq!(states[0], vec!["a,1,3,n", "b,0,-,m"]);
        assert_eq!(states[1], states[0]);
    });
}

#[test]
fn rows_of_others_make_no_difference() {
    let alone = [
        EDGES[0],
        "INSERT INTO thread_spawn_edges VALUES ('p', 't1', 'open'), (NULL, 't3', 'closed')",
    ];
    let among_others = run(&EDGES, &[], "alice", false);
    let without_others = run(&alone, &[], "alice", false);
    assert_eq!(among_others.inserted, without_others.inserted);
    for table in all_tables() {
        assert_eq!(
            among_others.counts.get(table),
            without_others.counts.get(table)
        );
    }
}

#[test]
fn counts_are_the_rows_that_are_inserted() {
    let run = run(&EDGES, &[], "bob", true);
    for (name, rows) in &run.inserted {
        let table = all_tables()
            .into_iter()
            .find(|table| table_copy(*table).destination == name)
            .expect("table");
        assert_eq!(run.counts.get(table), rows.len() as u64);
    }
}

#[test]
fn quoted_columns_of_two_lists_are_joined_by_a_comma() {
    assert_eq!(
        quoted(&["a", "b", "c"]),
        format!("{}, {}", quoted(&["a"]), quoted(&["b", "c"]))
    );
}

#[test]
fn errors_of_ownership_maps_say_where_they_are_wrong() {
    let Err(error) = owned_thread_ids(b"{\"t\": 1}", "a") else {
        panic!("an owner that is no text");
    };
    assert_eq!(
        error.to_string(),
        "invalid type: integer `1`, expected a string at line 1 column 7"
    );
}
