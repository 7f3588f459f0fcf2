use os1_hermes::env::{
    env_value_from_content, openai_api_key, os1_env_value, realtime_call_result, realtime_key_status,
};
use os1_hermes::journal::{
    ensure_memory_vault_blocking, memory_model, memory_summary_from_response,
    summarize_and_append_memory_async, JournalReply, JournalRequest, JournalStep, MemoryJournal,
};
use os1_hermes::memory::{
    compact_json, latest_daily_memory_paths, memory_entry_text, memory_file_if_useful,
    memory_summary_prompt, memory_turns_to_text, memory_vault_path, read_memory_context_blocking,
    summary_is_durable, vault_ready, ContentPart, DailyNote, MemorySessionTurn, MemorySources,
    ResponseBody, ResponseItem,
};
use os1_hermes::memory::extract_response_text;

fn user(text: &str) -> MemorySessionTurn {
    MemorySessionTurn::User { text: text.to_string(), at: "t".to_string(), item_id: None }
}

fn assistant(text: &str) -> MemorySessionTurn {
    MemorySessionTurn::Assistant { text: text.to_string(), at: "t".to_string(), item_id: None, response_id: None }
}

#[test]
fn env_files_give_values() {
    let content = "# comment\nOTHER=1\n OPENAI_API_KEY = \"sk-abc\" \nOPENAI_API_KEY=second\n";
    assert_eq!(env_value_from_content(content, "OPENAI_API_KEY").as_deref(), Some("sk-abc"));
    assert_eq!(env_value_from_content("A=''\nA='x'", "A").as_deref(), Some("x"));
    assert_eq!(env_value_from_content("#A=1\nB", "A"), None);
    assert_eq!(env_value_from_content("A=\"'q'\"", "A").as_deref(), Some("q"));
    assert_eq!(env_value_from_content("OPENAI_API_KEY=sk-1", "OPENAI_API_KEY").as_deref(), Some("sk-1"));
}

#[test]
fn settings_prefer_the_environment() {
    let files = vec![None, Some("from-file".to_string()), Some("later".to_string())];
    assert_eq!(os1_env_value(Some(" env ".to_string()), &files).as_deref(), Some("env"));
    assert_eq!(os1_env_value(Some("  ".to_string()), &files).as_deref(), Some("from-file"));
    assert_eq!(os1_env_value(None, &vec![None]), None);
    assert_eq!(openai_api_key(Some("k".to_string())).unwrap(), "k");
    assert_eq!(
        openai_api_key(None).unwrap_err(),
        "OPENAI_API_KEY is not configured for OS1. Put it in .env next to the app project or configure a key in Settings."
    );
    let s = realtime_key_status(&None);
    assert!(!s.configured);
    assert_eq!(s.source, "missing");
    assert_eq!(realtime_key_status(&Some("k".to_string())).source, "OPENAI_API_KEY");
    assert_eq!(realtime_call_result(true, "200 OK", "v=0".to_string()).unwrap(), "v=0");
    assert_eq!(
        realtime_call_result(false, "401 Unauthorized", "bad key".to_string()).unwrap_err(),
        "OpenAI Realtime returned 401 Unauthorized: bad key"
    );
}

#[test]
fn vault_paths() {
    let parts = memory_vault_path(Some("C:\\AppData".to_string()), " Nova ").unwrap();
    assert_eq!(parts, vec!["C:\\AppData", "OS1", "memory", "nova"]);
    assert_eq!(
        memory_vault_path(None, "nova").unwrap_err(),
        "APPDATA is not available for OS1 memory storage."
    );
    assert_eq!(memory_vault_path(Some("x".to_string()), "***").unwrap_err(), "Memory profile name is empty.");
    let plan = ensure_memory_vault_blocking("Nova", Some("C:\\AppData".to_string())).unwrap();
    assert_eq!(plan.slug, "nova");
    assert_eq!(plan.folders, vec!["days", "facts", "relationship"]);
    assert_eq!(plan.notes.len(), 4);
    assert_eq!(plan.notes[3].file, "open-loops.md");
    assert!(plan.notes[3].folder.is_none());
}

#[test]
fn vault_plans_repeat_and_name_things_once() {
    let first = ensure_memory_vault_blocking(" Nova ", Some("C:\\AppData".to_string())).unwrap();
    let second = ensure_memory_vault_blocking(" Nova ", Some("C:\\AppData".to_string())).unwrap();
    assert_eq!(first.slug, second.slug);
    assert_eq!(first.parts, second.parts);
    assert_eq!(first.folders, second.folders);
    let key = |p: &os1_hermes::journal::VaultPlan| {
        p.notes.iter().map(|n| (n.folder.clone(), n.file.clone(), n.content.clone())).collect::<Vec<_>>()
    };
    assert_eq!(key(&first), key(&second));
    for (i, a) in first.notes.iter().enumerate() {
        for b in &first.notes[i + 1..] {
            assert!(a.folder != b.folder || a.file != b.file);
        }
        if let Some(f) = &a.folder {
            assert!(first.folders.contains(f));
        }
    }
    assert_eq!(ensure_memory_vault_blocking("Nova", None).unwrap_err(), "APPDATA is not available for OS1 memory storage.");
}

#[test]
fn useful_notes_and_context() {
    assert_eq!(memory_file_if_useful("  # About User\n\nNo stable facts saved yet.\n"), None);
    assert_eq!(memory_file_if_useful("   "), None);
    assert_eq!(memory_file_if_useful(" likes tea \n").as_deref(), Some("likes tea"));
    let vault = vault_ready("nova".to_string(), "C:\\v".to_string());
    let sources = MemorySources {
        about_user: Some("# About User\nName: Ana".to_string()),
        preferences: Some("No stable preferences saved yet.".to_string()),
        continuity: None,
        open_loops: Some("# Open Loops\n\nNo open loops saved yet.".to_string()),
        days: vec![
            DailyNote { file_name: Some("2025-01-02.md".to_string()), content: Some(" talked about tea ".to_string()) },
            DailyNote { file_name: None, content: Some("x".to_string()) },
        ],
    };
    let ctx = read_memory_context_blocking(vault, &sources);
    assert_eq!(ctx.source_count, 3);
    assert!(!ctx.truncated);
    assert_eq!(
        ctx.context,
        "## About User\n\n# About User\nName: Ana\n\n## Recent Memory: 2025-01-02.md\n\ntalked about tea\n\n## Recent Memory: daily-memory\n\nx"
    );
}

#[test]
fn latest_daily_notes_newest_first() {
    let names: Vec<String> = ["2025-01-01.md", "notes.txt", ".md", "2025-03-01.md", "2024-12-31.md", "md", "2025-02-01.md"]
        .iter()
        .map(|s| s.to_string())
        .collect();
    assert_eq!(latest_daily_memory_paths(&names, 3), vec!["2025-03-01.md", "2025-02-01.md", "2025-01-01.md"]);
    assert_eq!(latest_daily_memory_paths(&names, 10).len(), 4);
    assert!(latest_daily_memory_paths(&Vec::new(), 3).is_empty());
}

#[test]
fn transcripts_for_memory() {
    let turns = vec![
        user("  hi there "),
        assistant("   "),
        assistant("hello"),
        MemorySessionTurn::Tool {
            name: "search".to_string(),
            input: "{\"q\":\"tea\"}".to_string(),
            output: "x".repeat(1000),
            at: "t".to_string(),
            call_id: None,
        },
    ];
    let text = memory_turns_to_text(&turns);
    let expected = format!(
        "User: hi there\nAssistant: hello\nTool search: input={{\"q\":\"tea\"}} output={}...",
        "x".repeat(900)
    );
    assert_eq!(text, expected);
    assert_eq!(compact_json("{}"), "{}");
    let many: Vec<MemorySessionTurn> = (0..130).map(|i| user(&format!("m{i}"))).collect();
    assert_eq!(memory_turns_to_text(&many).lines().count(), 120);
}

#[test]
fn summaries_and_entries() {
    assert!(!summary_is_durable("  "));
    assert!(!summary_is_durable(" No Memory "));
    assert!(summary_is_durable("### Remember\n- tea"));
    let prompt = memory_summary_prompt("Nova", "warm", "User: hi");
    assert!(prompt.starts_with("You are OS1's private memory extractor for Nova.\n"));
    assert!(prompt.contains("Assistant mode: warm\n\n"));
    assert!(prompt.ends_with("Transcript:\nUser: hi"));
    let first = memory_entry_text(true, "2025-01-02T10:00:00Z", "Nova", "warm", "2025-01-02", " - tea \n");
    assert_eq!(
        first,
        "---\ncreated: 2025-01-02T10:00:00Z\nsource: os1-voice\nassistant: Nova\nmode: warm\ntags: [os1-memory, voice-session]\n---\n\n# 2025-01-02\n\n## Session 2025-01-02T10:00:00Z\n\n- tea\n"
    );
    let later = memory_entry_text(false, "T", "Nova", "warm", "D", "x");
    assert_eq!(later, "\n## Session T\n\nx\n");
}

#[test]
fn model_answers() {
    let body = ResponseBody { output_text: Some("  summary ".to_string()), output: None };
    assert_eq!(extract_response_text(&body).as_deref(), Some("summary"));
    let body = ResponseBody {
        output_text: None,
        output: Some(vec![
            ResponseItem { content: Some(vec![ContentPart { text: Some("a".to_string()) }, ContentPart { text: None }]) },
            ResponseItem { content: None },
            ResponseItem { content: Some(vec![ContentPart { text: Some("b ".to_string()) }]) },
        ]),
    };
    assert_eq!(extract_response_text(&body).as_deref(), Some("a\nb"));
    let empty = ResponseBody { output_text: None, output: Some(vec![]) };
    assert_eq!(extract_response_text(&empty), None);
    assert_eq!(
        memory_summary_from_response(false, "500 Internal Server Error", "oops", Err("ignored".to_string())).unwrap_err(),
        "OpenAI memory summarization returned 500 Internal Server Error: oops"
    );
    assert_eq!(
        memory_summary_from_response(true, "200 OK", "{", Err("EOF".to_string())).unwrap_err(),
        "Could not parse memory summarization response: EOF"
    );
    assert_eq!(
        memory_summary_from_response(true, "200 OK", "{}", Ok(ResponseBody { output_text: None, output: None })).unwrap_err(),
        "Memory summarization returned no text."
    );
    assert_eq!(memory_model(None), "gpt-5.5");
    assert_eq!(memory_model(Some("gpt-x".to_string())), "gpt-x");
}

fn run_journal(mut step: JournalStep, summary: &str, exists: bool) -> (Result<os1_hermes::memory::MemoryAppendResult, String>, Vec<String>) {
    let mut log = Vec::new();
    loop {
        match step {
            JournalStep::Done(r) => return (r, log),
            JournalStep::Next(s, req) => {
                let reply = match req {
                    JournalRequest::Summarize { prompt } => {
                        log.push(format!("summarize {}", prompt.len()));
                        JournalReply::Summary(Ok(summary.to_string()))
                    },
                    JournalRequest::Clock => {
                        log.push("clock".to_string());
                        JournalReply::Clock(Ok(("2025-01-02".to_string(), "2025-01-02T10:00:00Z".to_string())))
                    },
                    JournalRequest::Locate { profile, file_name } => {
                        log.push(format!("locate {profile} {file_name}"));
                        JournalReply::Located(Ok((format!("C:\\v\\days\\{file_name}"), exists)))
                    },
                    JournalRequest::Append { path, entry } => {
                        log.push(format!("append {path} {}", entry.starts_with("---")));
                        JournalReply::Appended(Ok(()))
                    },
                };
                step = MemoryJournal::resume(s, reply);
            },
        }
    }
}

#[test]
fn journal_saves_durable_memory() {
    let vault = vault_ready("nova".to_string(), "C:\\v".to_string());
    let start = summarize_and_append_memory_async(vault, "Nova".to_string(), "warm".to_string(), &vec![user("I like tea")]);
    let (r, log) = run_journal(start, "### Remember\n- tea", false);
    let res = r.unwrap();
    assert!(res.written);
    assert_eq!(res.path, "C:\\v\\days\\2025-01-02.md");
    assert_eq!(res.message, "Voice memory summary saved.");
    assert_eq!(log[1..], ["clock".to_string(), "locate nova 2025-01-02.md".to_string(), "append C:\\v\\days\\2025-01-02.md true".to_string()]);
    let vault = vault_ready("nova".to_string(), "C:\\v".to_string());
    let start = summarize_and_append_memory_async(vault, "Nova".to_string(), "warm".to_string(), &vec![user("x")]);
    let (_, log) = run_journal(start, "- more", true);
    assert!(log[3].ends_with("false"));
}

#[test]
fn journal_skips_empty_sessions() {
    let vault = vault_ready("nova".to_string(), "C:\\v".to_string());
    let start = summarize_and_append_memory_async(vault, "Nova".to_string(), "warm".to_string(), &vec![user("  "), assistant("")]);
    let (r, log) = run_journal(start, "unused", false);
    let res = r.unwrap();
    assert!(!res.written && log.is_empty());
    assert_eq!(res.message, "No voice transcript was captured for memory.");
    assert_eq!(res.path, "C:\\v");
    let vault = vault_ready("nova".to_string(), "C:\\v".to_string());
    let start = summarize_and_append_memory_async(vault, "Nova".to_string(), "warm".to_string(), &vec![user("hi")]);
    let (r, log) = run_journal(start, "No memory", false);
    let res = r.unwrap();
    assert!(!res.written);
    assert_eq!(res.summary, "No memory");
    assert_eq!(res.message, "No durable memory was found in this session.");
    assert_eq!(log.len(), 1);
}
