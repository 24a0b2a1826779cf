use codex_history_store::create::create_postgres_thread;
use codex_history_store::create::create_thread;
use codex_history_store::create::recorder_error;
use codex_history_store::create::CreateThreadParams;
use codex_history_store::create::SessionSource;
use codex_history_store::create::ThreadHistoryMode;
use codex_history_store::create::ThreadMemoryMode;
use codex_history_store::create::ThreadMetadata;
use codex_history_store::error::ThreadStoreError;

fn params() -> CreateThreadParams {
    CreateThreadParams {
        session_id: String::from("session"),
        thread_id: String::from("thread"),
        forked_from_id: Some(String::from("fork")),
        parent_thread_id: None,
        source: SessionSource {
            json: String::from("\"cli\""),
            nickname: Some(String::from("nick")),
            agent_role: Some(String::from("role")),
            agent_path: Some(String::from("path")),
        },
        thread_source: Some(String::from("user")),
        originator: String::from("originator"),
        base_instructions: String::from("{}"),
        dynamic_tools: vec![String::from("{\"name\":\"tool\"}")],
        selected_capability_roots: vec![String::from("root")],
        multi_agent_version: Some(String::from("v2")),
        history_mode: ThreadHistoryMode::Paginated,
        subagent_history_start_ordinal: Some(9),
        initial_window_id: String::from("window"),
        metadata: ThreadMetadata {
            cwd: Some(String::from("/work")),
            model_provider: String::from("provider"),
            memory_mode: ThreadMemoryMode::Enabled,
        },
    }
}

#[test]
fn recorders_get_what_a_thread_is_created_with() {
    let (config, recorder) = create_thread("/home", 3, params()).expect("recorder");
    assert_eq!(config.codex_home, "/home");
    assert_eq!(config.sqlite, 3);
    assert_eq!(config.cwd, "/work");
    assert_eq!(config.model_provider_id, "provider");
    assert!(config.generate_memories);
    assert_eq!(recorder.thread_id, "thread");
    assert_eq!(recorder.session_id, "session");
    assert_eq!(recorder.forked_from_id.as_deref(), Some("fork"));
    assert_eq!(recorder.parent_thread_id, None);
    assert_eq!(recorder.dynamic_tools, vec!["{\"name\":\"tool\"}"]);
    assert_eq!(recorder.history_mode, ThreadHistoryMode::Paginated);
    assert_eq!(recorder.subagent_history_start_ordinal, Some(9));
    assert_eq!(recorder.initial_window_id, "window");

    let mut disabled = params();
    disabled.metadata.memory_mode = ThreadMemoryMode::Disabled;
    let (config, _) = create_thread("/home", 3, disabled).expect("recorder");
    assert!(!config.generate_memories);
}

#[test]
fn local_threads_need_a_working_directory() {
    let mut without = params();
    without.metadata.cwd = None;
    match create_thread("/home", 3, without) {
        Err(ThreadStoreError::InvalidRequest { message }) => {
            assert_eq!(message, "local thread store requires a cwd");
        }
        other => panic!("{other:?}"),
    }
}

#[test]
fn recorder_errors_say_what_failed() {
    match recorder_error("disk full") {
        ThreadStoreError::Internal { message } => {
            assert_eq!(
                message,
                "failed to initialize local thread recorder: disk full"
            );
        }
        other => panic!("{other:?}"),
    }
}

#[test]
fn threads_in_postgres_start_with_their_session_metadata() {
    let line = create_postgres_thread(params(), String::from("now"), String::from("1.2.3"));
    assert_eq!(line.git, None);
    let meta = line.meta;
    assert_eq!(meta.session_id, "session");
    assert_eq!(meta.id, "thread");
    assert_eq!(meta.timestamp, "now");
    assert_eq!(meta.cwd, "/work");
    assert_eq!(meta.cli_version, "1.2.3");
    assert_eq!(meta.agent_nickname.as_deref(), Some("nick"));
    assert_eq!(meta.agent_role.as_deref(), Some("role"));
    assert_eq!(meta.agent_path.as_deref(), Some("path"));
    assert_eq!(meta.source, "\"cli\"");
    assert_eq!(meta.model_provider.as_deref(), Some("provider"));
    assert_eq!(meta.base_instructions.as_deref(), Some("{}"));
    assert_eq!(
        meta.dynamic_tools,
        Some(vec![String::from("{\"name\":\"tool\"}")])
    );
    assert_eq!(meta.memory_mode, None);
    assert_eq!(meta.history_base, None);
    assert_eq!(meta.context_window.as_deref(), Some("window"));
}

#[test]
fn session_metadata_leaves_out_what_a_thread_does_not_have() {
    let mut bare = params();
    bare.metadata.cwd = None;
    bare.metadata.memory_mode = ThreadMemoryMode::Disabled;
    bare.dynamic_tools = vec![];
    let meta = create_postgres_thread(bare, String::new(), String::new()).meta;
    assert_eq!(meta.cwd, "");
    assert_eq!(meta.memory_mode.as_deref(), Some("disabled"));
    assert_eq!(meta.dynamic_tools, None);
}
