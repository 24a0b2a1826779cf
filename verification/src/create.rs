//! What a new thread is created with.
use crate::db::{displays, str_displays_itself};
use crate::error::{internal, Failure, ThreadStoreError, ThreadStoreResult};
use crate::value::optional_text;
use std::fmt::Display;
use vstd::prelude::*;

verus! {

/// Whether a thread generates memories.
#[derive(Debug, Clone, Copy, PartialEq, Eq, Structural)]
pub enum ThreadMemoryMode {
    Enabled,
    Disabled,
}

/// How the history of a thread is kept.
#[derive(Debug, Clone, Copy, PartialEq, Eq, Structural)]
pub enum ThreadHistoryMode {
    Legacy,
    Paginated,
}

/// Where a session was started from.
#[derive(Debug)]
pub struct SessionSource {
    /// The source as JSON text.
    pub json: String,
    pub nickname: Option<String>,
    pub agent_role: Option<String>,
    pub agent_path: Option<String>,
}

/// What is known of a thread before it starts.
#[derive(Debug)]
pub struct ThreadMetadata {
    pub cwd: Option<String>,
    pub model_provider: String,
    pub memory_mode: ThreadMemoryMode,
}

/// What a thread is asked to be created with. Structured values are JSON texts.
#[derive(Debug)]
pub struct CreateThreadParams {
    pub session_id: String,
    pub thread_id: String,
    pub forked_from_id: Option<String>,
    pub parent_thread_id: Option<String>,
    pub source: SessionSource,
    pub thread_source: Option<String>,
    pub originator: String,
    pub base_instructions: String,
    pub dynamic_tools: Vec<String>,
    pub selected_capability_roots: Vec<String>,
    pub multi_agent_version: Option<String>,
    pub history_mode: ThreadHistoryMode,
    pub subagent_history_start_ordinal: Option<u64>,
    pub initial_window_id: String,
    pub metadata: ThreadMetadata,
}

/// What the recorder of a thread's rollout file is configured with. The home directory and the
/// configuration of the SQLite databases are those of the store.
#[derive(Debug)]
pub struct RolloutConfig<Home, Sqlite> {
    pub codex_home: Home,
    pub sqlite: Sqlite,
    pub cwd: String,
    pub model_provider_id: String,
    pub generate_memories: bool,
}

/// What the recorder of a thread's rollout file is created with. Structured values are JSON texts.
#[derive(Debug)]
pub struct RolloutRecorderParams {
    pub thread_id: String,
    pub forked_from_id: Option<String>,
    pub parent_thread_id: Option<String>,
    pub source: SessionSource,
    pub thread_source: Option<String>,
    pub originator: String,
    pub base_instructions: String,
    pub dynamic_tools: Vec<String>,
    pub session_id: String,
    pub selected_capability_roots: Vec<String>,
    pub multi_agent_version: Option<String>,
    pub history_mode: ThreadHistoryMode,
    pub subagent_history_start_ordinal: Option<u64>,
    pub initial_window_id: String,
}

/// What the recorder of a new thread is created with. A thread without a working directory is
/// refused.
pub fn create_thread<Home, Sqlite>(
    codex_home: Home,
    sqlite: Sqlite,
    params: CreateThreadParams,
) -> (result: ThreadStoreResult<(RolloutConfig<Home, Sqlite>, RolloutRecorderParams)>)
    ensures
        match (params.metadata.cwd, result) {
            (None, Err(error)) => error@ == Failure::InvalidRequest(
                "local thread store requires a cwd"@,
            ),
            (Some(cwd), Ok((config, recorder))) => {
                &&& config.codex_home == codex_home
                &&& config.sqlite == sqlite
                &&& config.cwd@ == cwd@
                &&& config.model_provider_id@ == params.metadata.model_provider@
                &&& config.generate_memories == (params.metadata.memory_mode
                    == ThreadMemoryMode::Enabled)
                &&& recorder.thread_id == params.thread_id
                &&& recorder.forked_from_id == params.forked_from_id
                &&& recorder.parent_thread_id == params.parent_thread_id
                &&& recorder.source == params.source
                &&& recorder.thread_source == params.thread_source
                &&& recorder.originator == params.originator
                &&& recorder.base_instructions == params.base_instructions
                &&& recorder.dynamic_tools == params.dynamic_tools
                &&& recorder.session_id == params.session_id
                &&& recorder.selected_capability_roots == params.selected_capability_roots
                &&& recorder.multi_agent_version == params.multi_agent_version
                &&& recorder.history_mode == params.history_mode
                &&& recorder.subagent_history_start_ordinal == params.subagent_history_start_ordinal
                &&& recorder.initial_window_id == params.initial_window_id
            },
            _ => false,
        },
{
    match params.metadata.cwd {
        None => Err(
            ThreadStoreError::InvalidRequest {
                message: "local thread store requires a cwd".to_owned(),
            },
        ),
        Some(cwd) => {
            let config = RolloutConfig {
                codex_home,
                sqlite,
                cwd,
                model_provider_id: params.metadata.model_provider,
                generate_memories: params.metadata.memory_mode == ThreadMemoryMode::Enabled,
            };
            let recorder = RolloutRecorderParams {
                thread_id: params.thread_id,
                forked_from_id: params.forked_from_id,
                parent_thread_id: params.parent_thread_id,
                source: params.source,
                thread_source: params.thread_source,
                originator: params.originator,
                base_instructions: params.base_instructions,
                dynamic_tools: params.dynamic_tools,
                session_id: params.session_id,
                selected_capability_roots: params.selected_capability_roots,
                multi_agent_version: params.multi_agent_version,
                history_mode: params.history_mode,
                subagent_history_start_ordinal: params.subagent_history_start_ordinal,
                initial_window_id: params.initial_window_id,
            };
            Ok((config, recorder))
        },
    }
}

/// The error of a recorder that could not be created.
pub fn recorder_error<E: Display + ?Sized>(err: &E) -> (error: ThreadStoreError)
    ensures
        exists|text: Seq<char>| #[trigger]
            displays(err, text) && error@ == Failure::Internal(
                "failed to initialize local thread recorder: "@ + text,
            ),
{
    let text = err.to_string();
    assert(displays(err, text@));
    internal("failed to initialize local thread recorder: ".to_owned().concat(text.as_str()))
}

/// What the first line of a thread's rollout says of the session. Structured values are JSON texts.
#[derive(Debug)]
pub struct SessionMeta {
    pub session_id: String,
    pub id: String,
    pub forked_from_id: Option<String>,
    pub parent_thread_id: Option<String>,
    pub timestamp: String,
    pub cwd: String,
    pub originator: String,
    pub cli_version: String,
    pub agent_nickname: Option<String>,
    pub agent_role: Option<String>,
    pub agent_path: Option<String>,
    /// The source as JSON text.
    pub source: String,
    pub thread_source: Option<String>,
    pub model_provider: Option<String>,
    pub base_instructions: Option<String>,
    pub dynamic_tools: Option<Vec<String>>,
    pub selected_capability_roots: Vec<String>,
    pub memory_mode: Option<String>,
    pub history_mode: ThreadHistoryMode,
    pub history_base: Option<String>,
    pub subagent_history_start_ordinal: Option<u64>,
    pub multi_agent_version: Option<String>,
    /// The id of the context window that the session starts with.
    pub context_window: Option<String>,
}

/// The first line of a thread's rollout.
#[derive(Debug)]
pub struct SessionMetaLine {
    pub meta: SessionMeta,
    /// The state of the working directory's repository, as JSON text.
    pub git: Option<String>,
}

/// The first line of the rollout of a new thread that is kept in PostgreSQL. A thread without a
/// working directory gets the empty one.
pub fn create_postgres_thread(
    params: CreateThreadParams,
    timestamp: String,
    cli_version: String,
) -> (line: SessionMetaLine)
    ensures
        line.git is None,
        line.meta.session_id == params.session_id,
        line.meta.id == params.thread_id,
        line.meta.forked_from_id == params.forked_from_id,
        line.meta.parent_thread_id == params.parent_thread_id,
        line.meta.timestamp == timestamp,
        line.meta.cwd@ == match params.metadata.cwd {
            Some(cwd) => cwd@,
            None => Seq::empty(),
        },
        line.meta.originator == params.originator,
        line.meta.cli_version == cli_version,
        line.meta.agent_nickname == params.source.nickname,
        line.meta.agent_role == params.source.agent_role,
        line.meta.agent_path == params.source.agent_path,
        line.meta.source == params.source.json,
        line.meta.thread_source == params.thread_source,
        line.meta.model_provider == Some(params.metadata.model_provider),
        line.meta.base_instructions == Some(params.base_instructions),
        line.meta.dynamic_tools == if params.dynamic_tools@.len() == 0 {
            None::<Vec<String>>
        } else {
            Some(params.dynamic_tools)
        },
        line.meta.selected_capability_roots == params.selected_capability_roots,
        optional_text(line.meta.memory_mode) == match params.metadata.memory_mode {
            ThreadMemoryMode::Disabled => Some("disabled"@),
            ThreadMemoryMode::Enabled => None,
        },
        line.meta.history_mode == params.history_mode,
        line.meta.history_base is None,
        line.meta.subagent_history_start_ordinal == params.subagent_history_start_ordinal,
        line.meta.multi_agent_version == params.multi_agent_version,
        line.meta.context_window == Some(params.initial_window_id),
{
    let cwd = match params.metadata.cwd {
        Some(cwd) => cwd,
        None => String::new(),
    };
    let dynamic_tools = if params.dynamic_tools.len() == 0 {
        None
    } else {
        Some(params.dynamic_tools)
    };
    let memory_mode = match params.metadata.memory_mode {
        ThreadMemoryMode::Disabled => Some("disabled".to_owned()),
        ThreadMemoryMode::Enabled => None,
    };
    let meta = SessionMeta {
        session_id: params.session_id,
        id: params.thread_id,
        forked_from_id: params.forked_from_id,
        parent_thread_id: params.parent_thread_id,
        timestamp,
        cwd,
        originator: params.originator,
        cli_version,
        agent_nickname: params.source.nickname,
        agent_role: params.source.agent_role,
        agent_path: params.source.agent_path,
        source: params.source.json,
        thread_source: params.thread_source,
        model_provider: Some(params.metadata.model_provider),
        base_instructions: Some(params.base_instructions),
        dynamic_tools,
        selected_capability_roots: params.selected_capability_roots,
        memory_mode,
        history_mode: params.history_mode,
        history_base: None,
        subagent_history_start_ordinal: params.subagent_history_start_ordinal,
        multi_agent_version: params.multi_agent_version,
        context_window: Some(params.initial_window_id),
    };
    SessionMetaLine { meta, git: None }
}

/// A recorder is created exactly for a thread with a working directory, in this directory.
pub proof fn recorder_needs_a_working_directory<Home, Sqlite>(
    codex_home: Home,
    sqlite: Sqlite,
    params: CreateThreadParams,
    result: ThreadStoreResult<(RolloutConfig<Home, Sqlite>, RolloutRecorderParams)>,
)
    requires
        call_ensures(create_thread::<Home, Sqlite>, (codex_home, sqlite, params), result),
    ensures
        result is Ok <==> params.metadata.cwd is Some,
        result matches Err(error) ==> error@ == Failure::InvalidRequest(
            "local thread store requires a cwd"@,
        ),
        result matches Ok((config, recorder)) ==> {
            &&& Some(config.cwd@) == optional_text(params.metadata.cwd)
            &&& config.codex_home == codex_home
            &&& config.sqlite == sqlite
            &&& config.model_provider_id@ == params.metadata.model_provider@
            &&& config.generate_memories <==> params.metadata.memory_mode is Enabled
        },
{
}

/// A thread with a working directory is described in the same way wherever it is kept: the first line of
/// its rollout in PostgreSQL says what the recorder of a local rollout file is created with.
pub proof fn thread_is_the_same_wherever_it_is_kept<Home, Sqlite>(
    codex_home: Home,
    sqlite: Sqlite,
    params: CreateThreadParams,
    timestamp: String,
    cli_version: String,
    config: RolloutConfig<Home, Sqlite>,
    recorder: RolloutRecorderParams,
    line: SessionMetaLine,
)
    requires
        call_ensures(
            create_thread::<Home, Sqlite>,
            (codex_home, sqlite, params),
            Ok((config, recorder)),
        ),
        call_ensures(create_postgres_thread, (params, timestamp, cli_version), line),
    ensures
        line.meta.id@ == recorder.thread_id@,
        line.meta.session_id@ == recorder.session_id@,
        line.meta.forked_from_id == recorder.forked_from_id,
        line.meta.parent_thread_id == recorder.parent_thread_id,
        line.meta.source@ == recorder.source.json@,
        line.meta.agent_nickname == recorder.source.nickname,
        line.meta.agent_role == recorder.source.agent_role,
        line.meta.agent_path == recorder.source.agent_path,
        line.meta.thread_source == recorder.thread_source,
        line.meta.originator@ == recorder.originator@,
        line.meta.base_instructions == Some(recorder.base_instructions),
        line.meta.dynamic_tools is Some <==> recorder.dynamic_tools@.len() > 0,
        line.meta.dynamic_tools matches Some(tools) ==> tools@ == recorder.dynamic_tools@,
        line.meta.selected_capability_roots@ == recorder.selected_capability_roots@,
        line.meta.multi_agent_version == recorder.multi_agent_version,
        line.meta.history_mode == recorder.history_mode,
        line.meta.subagent_history_start_ordinal == recorder.subagent_history_start_ordinal,
        line.meta.context_window == Some(recorder.initial_window_id),
        line.meta.cwd@ == config.cwd@,
        optional_text(line.meta.model_provider) == Some(config.model_provider_id@),
        config.generate_memories ==> line.meta.memory_mode is None,
        !config.generate_memories ==> optional_text(line.meta.memory_mode) == Some("disabled"@),
{
}

/// The first line of a rollout says what was asked for, when and by which version it was written, and
/// nothing of the repository or of an earlier history.
pub proof fn first_line_says_what_was_asked_for(
    params: CreateThreadParams,
    timestamp: String,
    cli_version: String,
    line: SessionMetaLine,
)
    requires
        call_ensures(create_postgres_thread, (params, timestamp, cli_version), line),
    ensures
        line.git is None,
        line.meta.history_base is None,
        line.meta.timestamp@ == timestamp@,
        line.meta.cli_version@ == cli_version@,
        line.meta.id@ == params.thread_id@,
        line.meta.session_id@ == params.session_id@,
        line.meta.forked_from_id == params.forked_from_id,
        line.meta.parent_thread_id == params.parent_thread_id,
        line.meta.originator@ == params.originator@,
        line.meta.source@ == params.source.json@,
        line.meta.thread_source == params.thread_source,
        line.meta.history_mode == params.history_mode,
        line.meta.base_instructions == Some(params.base_instructions),
        line.meta.context_window == Some(params.initial_window_id),
        optional_text(line.meta.model_provider) == Some(params.metadata.model_provider@),
        params.metadata.cwd matches Some(cwd) ==> line.meta.cwd@ == cwd@,
        params.metadata.cwd is None ==> line.meta.cwd@.len() == 0,
        params.metadata.memory_mode is Enabled ==> line.meta.memory_mode is None,
        params.metadata.memory_mode is Disabled ==> optional_text(line.meta.memory_mode) == Some(
            "disabled"@,
        ),
{
}

/// The error of a recorder says so, and then what came up.
pub proof fn recorder_errors_say_what_came_up(text: &str, error: ThreadStoreError)
    requires
        call_ensures(recorder_error::<str>, (text,), error),
    ensures
        error@ == Failure::Internal("failed to initialize local thread recorder: "@ + text@),
{
    let shown = choose|shown: Seq<char>| #[trigger]
        displays(text, shown) && error@ == Failure::Internal(
            "failed to initialize local thread recorder: "@ + shown,
        );
    str_displays_itself(text, shown);
}

} // verus!
