use phone_agent::agent::prompt_memory::{
    create_default_prompt_memory, default_task_types, CorrectionRecord, PromptEntry,
    PromptMemory, PromptMemoryError,
};

fn rate(entry: &PromptEntry) -> Option<f32> {
    entry.success_rate().map(|(s, n)| s as f32 / n as f32)
}

#[test]
fn test_prompt_entry_creation() {
    let entry = PromptEntry::new("Test prompt");
    assert_eq!(entry.system_prompt, "Test prompt");
    assert_eq!(entry.usage_count, 0);
    assert!(entry.success_rate().is_none());
}

#[test]
fn test_prompt_entry_usage() {
    let mut entry = PromptEntry::new("Test prompt");

    entry.record_usage(true);
    assert_eq!(entry.usage_count, 1);
    assert_eq!(rate(&entry), Some(1.0));

    entry.record_usage(false);
    assert_eq!(entry.usage_count, 2);
    assert_eq!(rate(&entry), Some(0.5));
}

#[test]
fn test_prompt_memory_crud() {
    let mut memory = PromptMemory::new();

    memory.update("test_type", "Test prompt");
    assert!(memory.contains("test_type"));

    assert_eq!(memory.get_prompt("test_type"), Some("Test prompt"));

    memory.update("test_type", "Updated prompt");
    assert_eq!(memory.get_prompt("test_type"), Some("Updated prompt"));

    memory.remove("test_type");
    assert!(!memory.contains("test_type"));
}

#[test]
fn test_default_prompt_memory() {
    let memory = create_default_prompt_memory();
    assert!(!memory.is_empty());
    assert!(memory.contains("微信操作"));
    assert!(memory.contains("通用任务"));
}

#[test]
fn test_corrections_recording() {
    let mut memory = PromptMemory::new();
    memory.update("test_type", "Initial prompt");

    memory.add_correction("test_type", "Correction 1", None);
    memory.add_correction("test_type", "Correction 2", Some("Context".to_string()));

    assert_eq!(memory.pending_corrections("test_type"), 2);

    let summary = memory.get_corrections_summary("test_type").unwrap();
    assert!(summary.contains("Correction 1"));
    assert!(summary.contains("Correction 2"));
}

#[test]
fn test_corrections_clear() {
    let mut memory = PromptMemory::new();
    memory.update("test_type", "Initial prompt");

    memory.add_correction("test_type", "Correction 1", None);
    memory.add_correction("test_type", "Correction 2", None);
    assert_eq!(memory.pending_corrections("test_type"), 2);

    if let Some(entry) = memory.get_mut("test_type") {
        entry.clear_corrections();
    }
    assert_eq!(memory.pending_corrections("test_type"), 0);
}

#[test]
fn test_task_types_summary() {
    let mut memory = PromptMemory::new();
    memory.update("微信操作", "WeChat prompt");
    memory.update("设置调整", "Settings prompt");

    let summary = memory.get_task_types_summary();
    assert!(summary.contains("微信操作"));
    assert!(summary.contains("设置调整"));
}

#[test]
fn test_ensure_task_type() {
    let mut memory = PromptMemory::new();

    memory.ensure_task_type("new_type");
    assert!(memory.contains("new_type"));

    memory.update("existing", "Custom prompt");
    memory.ensure_task_type("existing");
    assert_eq!(memory.get_prompt("existing"), Some("Custom prompt"));
}

#[test]
fn three_corrections_wait_until_they_are_consolidated() {
    let mut memory = PromptMemory::new();
    memory.add_correction("shopping", "scroll first", None);
    assert_eq!(memory.get_prompt("shopping"), Some(""));
    memory.add_correction("shopping", "then tap", None);
    memory.add_correction("shopping", "never buy", Some("cart".to_string()));
    assert_eq!(memory.pending_corrections("shopping"), 3);
    assert_eq!(memory.pending_corrections("other"), 0);
    assert_eq!(
        memory.get_corrections_summary("shopping"),
        Some("1. scroll first\n2. then tap\n3. never buy".to_string())
    );
    assert_eq!(memory.get_corrections_summary("other"), None);
    memory.consolidate("shopping", "Scroll, tap, never buy.");
    assert_eq!(memory.pending_corrections("shopping"), 0);
    assert_eq!(memory.get_prompt("shopping"), Some("Scroll, tap, never buy."));
    assert_eq!(memory.get_corrections_summary("shopping"), Some(String::new()));
    assert_eq!(memory.len(), 1);
}

#[test]
fn the_summary_is_sorted_and_shows_previews_and_rates() {
    let mut memory = PromptMemory::new();
    assert_eq!(memory.get_task_types_summary(), "（暂无已保存的任务类型记忆）");
    memory.update("b", "short");
    memory.add_correction("c", "only a correction", None);
    memory.update(
        "a",
        "0123456789012345678901234567890123456789012345678901234567890",
    );
    memory.record_usage("a", true);
    memory.record_usage("a", false);
    memory.record_usage("a", false);
    memory.record_usage("b", true);
    memory.record_usage("nobody", true);
    assert_eq!(
        memory.get_task_types_summary(),
        "- **a**: 01234567890123456789012345678901234567890123456789... [使用3次, 成功率33%]\n\
         - **b**: short [使用1次, 成功率100%]\n\
         - **c**: (无提示词，仅有纠偏记录) [使用0次]"
    );
    assert_eq!(memory.get_task_types_list(), vec!["b", "c", "a"]);
}

#[test]
fn percentages_round_to_the_nearest_and_to_even_at_a_half() {
    let mut memory = PromptMemory::new();
    memory.update("k", "p");
    {
        let entry = memory.get_mut("k").unwrap();
        entry.usage_count = 8;
        entry.success_count = 1;
    }
    assert!(memory.get_task_types_summary().ends_with("成功率12%]"));
    memory.get_mut("k").unwrap().success_count = 3;
    assert!(memory.get_task_types_summary().ends_with("成功率38%]"));
    memory.get_mut("k").unwrap().success_count = 2;
    assert!(memory.get_task_types_summary().ends_with("成功率25%]"));
    {
        let entry = memory.get_mut("k").unwrap();
        entry.usage_count = 3;
        entry.success_count = 2;
    }
    assert!(memory.get_task_types_summary().ends_with("成功率67%]"));
    assert_eq!(format!("{:.0}", 12.5f32), "12");
    assert_eq!(format!("{:.0}", 37.5f32), "38");
}

#[test]
fn merging_takes_what_is_new_or_newer() {
    let mut mine = PromptMemory::new();
    mine.update("a", "mine a");
    mine.update("b", "mine b");
    mine.get_mut("a").unwrap().last_updated = "2025-01-01T00:00:00+00:00".to_string();
    mine.get_mut("b").unwrap().last_updated = "2025-06-01T00:00:00+00:00".to_string();
    let mut theirs = PromptMemory::new();
    theirs.update("a", "their a");
    theirs.update("b", "their b");
    theirs.update("c", "their c");
    theirs.get_mut("a").unwrap().last_updated = "2025-03-01T00:00:00+00:00".to_string();
    theirs.get_mut("b").unwrap().last_updated = "2025-06-01T00:00:00+00:00".to_string();
    mine.merge(&theirs);
    assert_eq!(mine.get_prompt("a"), Some("their a"));
    assert_eq!(mine.get_prompt("b"), Some("mine b"));
    assert_eq!(mine.get_prompt("c"), Some("their c"));
    assert_eq!(mine.len(), 3);
    assert_eq!(mine.version(), "1.0");
    mine.clear();
    assert!(mine.is_empty());
}

#[test]
fn entries_and_errors() {
    let record = CorrectionRecord::new("do it", Some("when".to_string()));
    assert_eq!(record.content, "do it");
    assert_eq!(record.context, Some("when".to_string()));
    assert!(record.timestamp.contains('T'));
    assert_eq!(record.duplicate(), record);
    let mut entry = PromptEntry::new("p");
    entry.update("q");
    entry.add_correction("c", None);
    assert_eq!(entry.pending_corrections_count(), 1);
    assert_eq!(entry.corrections_summary(), "1. c");
    assert_eq!(entry.duplicate(), entry);
    let mut memory = PromptMemory::new();
    memory.insert_entry("k", entry.duplicate());
    assert_eq!(memory.get("k"), Some(&entry));
    assert_eq!(memory.entries().len(), 1);
    memory.clear_corrections("k");
    assert_eq!(memory.pending_corrections("k"), 0);
    assert_eq!(default_task_types().len(), 5);
    assert_eq!(default_task_types()[4].0, "通用任务");
    assert_eq!(
        PromptMemoryError::IoError("disk".to_string()).message(),
        "IO error: disk"
    );
    assert_eq!(
        PromptMemoryError::ParseError("bad".to_string()).message(),
        "Parse error: bad"
    );
    assert_eq!(
        PromptMemoryError::SerializeError("worse".to_string()).message(),
        "Serialize error: worse"
    );
}

#[test]
fn usage_counts_stop_at_the_largest_number() {
    let mut entry = PromptEntry::new("p");
    entry.usage_count = u32::MAX;
    entry.success_count = 5;
    entry.record_usage(true);
    assert_eq!(entry.usage_count, u32::MAX);
    assert_eq!(entry.success_count, 5);
}

#[test]
fn test_find_matching_task_type() {
    let mut memory = PromptMemory::new();
    memory.update("微信操作", "WeChat prompt");
    memory.update("微信消息", "WeChat message prompt");
    memory.update("设置调整", "Settings prompt");

    assert_eq!(
        memory.find_matching_task_type("微信操作"),
        Some("微信操作".to_string())
    );

    let result = memory.find_matching_task_type("微信");
    assert!(result.is_some());
    let matched = result.unwrap();
    assert!(matched.contains("微信"));
}

#[test]
fn kinds_are_matched_by_their_words() {
    let mut memory = PromptMemory::new();
    memory.update("File-Manager", "p");
    memory.update("go to", "p");
    memory.update("设置", "p");
    assert_eq!(
        memory.find_matching_task_type("open the MANAGER of files"),
        Some("File-Manager".to_string())
    );
    // words of at most two bytes do not count
    assert_eq!(memory.find_matching_task_type("I go home"), None);
    // one Chinese character takes three bytes
    assert_eq!(
        memory.find_matching_task_type("打开设置页面"),
        Some("设置".to_string())
    );
    assert_eq!(memory.find_matching_task_type("unrelated"), None);
    // an empty description stands in every name
    assert_eq!(
        memory.find_matching_task_type(""),
        Some("File-Manager".to_string())
    );
    assert_eq!(memory.task_types(), vec!["File-Manager", "go to", "设置"]);
    memory.add_correction("go to", "c", None);
    assert_eq!(memory.task_types_with_corrections(), vec!["go to"]);
    memory.record_usage("设置", true);
    memory.record_usage("go to", true);
    memory.record_usage("go to", false);
    let good: Vec<&str> = memory
        .get_successful_prompts(60)
        .into_iter()
        .map(|(k, _)| k)
        .collect();
    assert_eq!(good, vec!["设置"]);
    assert_eq!(memory.get_successful_prompts(50).len(), 2);
    assert_eq!(memory.get_successful_prompts(0).len(), 2);
}

#[test]
fn the_version_of_a_stored_memory_is_kept() {
    let mut memory = PromptMemory::new();
    assert_eq!(memory.version(), "1.0");
    memory.update("general", "a prompt");
    let mut memory = memory.with_version("2.3");
    assert_eq!(memory.version(), "2.3");
    assert_eq!(memory.get_prompt("general"), Some("a prompt"));
    memory.update("general", "another prompt");
    memory.add_correction("general", "slower", None);
    memory.clear();
    assert_eq!(memory.version(), "2.3");
}
