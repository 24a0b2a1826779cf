use codex_history_store::db::bound_query;
use codex_history_store::db::query;
use codex_history_store::db::Pool;
use codex_history_store::history::apply_change_set;
use codex_history_store::history::delete_thread;
use codex_history_store::history::ItemChange;
use codex_history_store::history::LinePosition;
use codex_history_store::history::MessagePhase;
use codex_history_store::history::Statement;
use codex_history_store::history::ThreadHistoryChangeSet;
use codex_history_store::history::ThreadItem;
use codex_history_store::history::TurnChange;
use codex_history_store::history::TurnStatus;
use sqlx::Row;

const TABLES: [&str; 3] = [
    "CREATE TABLE thread_turns (
        thread_id TEXT, turn_id TEXT, rollout_ordinal INTEGER, rollout_byte_offset INTEGER,
        rollout_end_ordinal INTEGER, rollout_end_byte_offset INTEGER, status TEXT,
        error_json TEXT, started_at INTEGER, completed_at INTEGER, duration_ms INTEGER,
        first_user_item_id TEXT, final_agent_item_id TEXT, PRIMARY KEY (thread_id, turn_id))",
    "CREATE TABLE thread_items (
        thread_id TEXT, turn_id TEXT, item_id TEXT, rollout_ordinal INTEGER,
        updated_at_ordinal INTEGER, created_at_ms INTEGER, item_type TEXT, item_json TEXT,
        PRIMARY KEY (thread_id, turn_id, item_id))",
    "CREATE TABLE thread_history_projection_state (
        thread_id TEXT PRIMARY KEY, next_rollout_byte_offset INTEGER,
        next_rollout_ordinal INTEGER)",
];

fn runtime() -> tokio::runtime::Runtime {
    tokio::runtime::Runtime::new().expect("runtime")
}

async fn memory() -> Pool {
    sqlx::any::install_default_drivers();
    let pool = sqlx::any::AnyPoolOptions::new()
        .max_connections(1)
        .connect("sqlite::memory:")
        .await
        .expect("open sqlite");
    for sql in TABLES {
        query(sql).query.execute(&pool).await.expect("create");
    }
    pool
}

async fn execute(pool: &Pool, statements: Vec<Statement>) {
    for statement in statements {
        bound_query(statement)
            .query
            .execute(pool)
            .await
            .expect("execute");
    }
}

fn position(ordinal: i64) -> LinePosition {
    LinePosition {
        ordinal,
        byte_offset: ordinal * 100,
        end_byte_offset: ordinal * 100 + 50,
        created_at_ms: ordinal * 1000,
    }
}

async fn apply(pool: &Pool, ordinal: i64, turns: Vec<TurnChange>, items: Vec<ItemChange>) {
    let mut statements = vec![];
    let changes = ThreadHistoryChangeSet {
        changed_turns: turns,
        changed_items: items,
    };
    apply_change_set(&mut statements, "t", position(ordinal), &changes);
    execute(pool, statements).await;
}

fn turn(status: TurnStatus, started_at: i64) -> TurnChange {
    TurnChange {
        turn_id: String::from("turn"),
        status,
        error_json: None,
        started_at: Some(started_at),
        completed_at: None,
        duration_ms: None,
    }
}

fn item(item_id: &str, item: ThreadItem, item_json: &str) -> ItemChange {
    ItemChange {
        turn_id: String::from("turn"),
        item_id: String::from(item_id),
        item,
        item_json: String::from(item_json),
    }
}

/// The turns as texts, each with its columns separated by commas.
async fn turns(pool: &Pool) -> Vec<String> {
    texts(
        pool,
        "SELECT concat_ws(',', turn_id, rollout_ordinal, rollout_byte_offset,
            coalesce(rollout_end_ordinal, '-'), coalesce(rollout_end_byte_offset, '-'), status,
            started_at, coalesce(first_user_item_id, '-'), coalesce(final_agent_item_id, '-'))
            AS shown FROM thread_turns ORDER BY turn_id",
    )
    .await
}

async fn items(pool: &Pool) -> Vec<String> {
    texts(
        pool,
        "SELECT concat_ws(',', item_id, rollout_ordinal, updated_at_ordinal, created_at_ms,
            item_type, item_json) AS shown FROM thread_items ORDER BY item_id",
    )
    .await
}

async fn texts(pool: &Pool, sql: &'static str) -> Vec<String> {
    let rows = query(sql).query.fetch_all(pool).await.expect("rows");
    rows.iter()
        .map(|row| row.try_get::<String, _>("shown").expect("shown"))
        .collect()
}

#[test]
fn a_turn_seen_again_keeps_its_place() {
    runtime().block_on(async {
        let pool = memory().await;
        apply(&pool, 3, vec![turn(TurnStatus::InProgress, 10)], vec![]).await;
        assert_eq!(turns(&pool).await, vec!["turn,3,300,-,-,inProgress,10,-,-"]);
        apply(&pool, 4, vec![turn(TurnStatus::InProgress, 11)], vec![]).await;
        assert_eq!(turns(&pool).await, vec!["turn,3,300,-,-,inProgress,11,-,-"]);
        apply(&pool, 5, vec![turn(TurnStatus::Completed, 12)], vec![]).await;
        assert_eq!(turns(&pool).await, vec!["turn,3,300,5,550,completed,12,-,-"]);
    });
}

#[test]
fn an_ended_turn_stays() {
    runtime().block_on(async {
        let pool = memory().await;
        apply(&pool, 3, vec![turn(TurnStatus::Interrupted, 10)], vec![]).await;
        let ended = vec!["turn,3,300,3,350,interrupted,10,-,-"];
        assert_eq!(turns(&pool).await, ended);
        apply(
            &pool,
            4,
            vec![turn(TurnStatus::InProgress, 11)],
            vec![item("user", ThreadItem::UserMessage, "{}")],
        )
        .await;
        apply(&pool, 5, vec![turn(TurnStatus::Failed, 12)], vec![]).await;
        assert_eq!(turns(&pool).await, ended);
    });
}

#[test]
fn an_item_seen_again_keeps_its_age() {
    runtime().block_on(async {
        let pool = memory().await;
        let first = item("a", ThreadItem::Other, "{\"v\":1}");
        apply(&pool, 3, vec![], vec![first]).await;
        assert_eq!(items(&pool).await, vec!["a,3,3,3000,,{\"v\":1}"]);
        let second = item("a", ThreadItem::UserMessage, "{\"v\":2}");
        apply(&pool, 8, vec![], vec![second]).await;
        assert_eq!(items(&pool).await, vec!["a,3,8,3000,userMessage,{\"v\":2}"]);
    });
}

#[test]
fn the_first_user_message_of_a_turn_stays() {
    runtime().block_on(async {
        let pool = memory().await;
        apply(&pool, 1, vec![turn(TurnStatus::InProgress, 1)], vec![]).await;
        for (ordinal, id) in [(2, "b"), (3, "a")] {
            let message = item(id, ThreadItem::UserMessage, "{}");
            apply(&pool, ordinal, vec![], vec![message]).await;
        }
        apply(&pool, 4, vec![turn(TurnStatus::Completed, 1)], vec![]).await;
        assert_eq!(turns(&pool).await, vec!["turn,1,100,4,450,completed,1,b,-"]);
    });
}

#[test]
fn a_deletion_removes_only_its_thread() {
    runtime().block_on(async {
        let pool = memory().await;
        apply(
            &pool,
            1,
            vec![turn(TurnStatus::InProgress, 1)],
            vec![item("a", ThreadItem::Other, "{}")],
        )
        .await;
        execute(&pool, delete_thread("other")).await;
        assert_eq!(turns(&pool).await.len(), 1);
        assert_eq!(items(&pool).await.len(), 1);
        execute(&pool, delete_thread("t")).await;
        assert!(turns(&pool).await.is_empty());
        assert!(items(&pool).await.is_empty());
    });
}

fn agent(item_id: &str, phase: Option<MessagePhase>) -> ItemChange {
    let json = match phase {
        Some(MessagePhase::FinalAnswer) => "{\"phase\":\"final_answer\"}",
        Some(MessagePhase::Commentary) => "{\"phase\":\"commentary\"}",
        None => "{\"phase\":null}",
    };
    item(item_id, ThreadItem::AgentMessage { phase }, json)
}

async fn late_turn(messages: Vec<ItemChange>, status: TurnStatus) -> String {
    let pool = memory().await;
    let mut ordinal = 1;
    for message in messages {
        apply(&pool, ordinal, vec![], vec![message]).await;
        ordinal += 1;
    }
    apply(&pool, 9, vec![turn(status, 1)], vec![]).await;
    let shown = turns(&pool).await;
    assert_eq!(shown.len(), 1);
    let columns: Vec<&str> = shown[0].split(',').collect();
    format!("{},{}", columns[7], columns[8])
}

#[test]
fn a_late_turn_gets_its_messages() {
    let user = |id: &str| item(id, ThreadItem::UserMessage, "{}");
    let final_answer = Some(MessagePhase::FinalAnswer);
    let commentary = Some(MessagePhase::Commentary);
    runtime().block_on(async {
        // The earliest user message, and the latest final answer.
        let messages = vec![
            user("u2"),
            user("u1"),
            agent("f1", final_answer),
            agent("f2", final_answer),
            agent("n", None),
        ];
        assert_eq!(late_turn(messages, TurnStatus::Completed).await, "u2,f2");

        // Without a final answer, the latest message without a phase, once the turn has ended.
        let messages = || {
            vec![
                agent("n1", None),
                agent("n2", None),
                agent("c", commentary),
                item("p", ThreadItem::AgentMessage { phase: None }, "{}"),
            ]
        };
        assert_eq!(late_turn(messages(), TurnStatus::Failed).await, "-,p");
        assert_eq!(late_turn(messages(), TurnStatus::InProgress).await, "-,-");

        let messages = vec![agent("f", final_answer)];
        assert_eq!(late_turn(messages, TurnStatus::InProgress).await, "-,f");
        let messages = vec![agent("c", commentary), user("u")];
        assert_eq!(late_turn(messages, TurnStatus::Interrupted).await, "u,-");
        assert_eq!(late_turn(vec![], TurnStatus::Completed).await, "-,-");
    });
}

#[test]
fn an_item_keeps_its_age_beside_changed_turns() {
    runtime().block_on(async {
        let pool = memory().await;
        let first = item("a", ThreadItem::UserMessage, "{\"v\":1}");
        apply(&pool, 3, vec![], vec![first]).await;
        let second = item("a", ThreadItem::UserMessage, "{\"v\":2}");
        apply(&pool, 5, vec![turn(TurnStatus::InProgress, 1)], vec![second]).await;
        assert_eq!(items(&pool).await, vec!["a,3,5,3000,userMessage,{\"v\":2}"]);
        assert_eq!(turns(&pool).await, vec!["turn,5,500,-,-,inProgress,1,a,-"]);
    });
}
