use std::collections::BTreeMap;
use zenkit_cli::artifacts::{summary_path, ArtifactKind};
use zenkit_cli::backup::{ListBackup, ListPhase, ListStep};
use zenkit_cli::paging::PAGE_SIZE;
use zenkit_cli::run::{BackupRun, RunPhase, RunStep};

/// A workspace: each list by selector, with its name, UUID and entries.
struct Remote {
    lists: Vec<(String, String, String, Vec<u64>)>,
    failing: Option<String>,
}

impl Remote {
    fn find(&self, selector: &str) -> &(String, String, String, Vec<u64>) {
        self.lists.iter().find(|l| l.0 == selector).unwrap()
    }
}

/// Runs a whole backup; files written go into the map (path to content).
fn run_backup(remote: &Remote, files: &mut BTreeMap<String, String>) -> BackupRun {
    let selectors = remote.lists.iter().map(|l| l.0.clone()).collect();
    let mut run = BackupRun::new(selectors);
    loop {
        match run.next_step() {
            RunStep::BackupList { selector } => {
                let (_, name, uuid, entries) = remote.find(&selector);
                let mut list: ListBackup<u64> = ListBackup::new("out", name, uuid, PAGE_SIZE);
                let mut failed = false;
                loop {
                    match list.next_step() {
                        ListStep::Write { kind, path } => {
                            let content = match kind {
                                ArtifactKind::List => name.clone(),
                                ArtifactKind::Fields => "fields".to_string(),
                                ArtifactKind::Items => format!("{:?}", list.entries()),
                            };
                            files.insert(path, content);
                            list.on_written();
                        }
                        ListStep::Fetch { request } => {
                            if remote.failing.as_deref() == Some(selector.as_str()) {
                                failed = true;
                                break;
                            }
                            let lo = request.skip.min(entries.len());
                            let hi = (request.skip + request.limit).min(entries.len());
                            list.on_page(entries[lo..hi].to_vec());
                        }
                        ListStep::Done => break,
                    }
                }
                if failed {
                    run.on_failure();
                } else {
                    assert_eq!(list.phase(), ListPhase::Finished);
                    run.on_list_done(list.item());
                }
            }
            RunStep::WriteSummary => {
                let summary = run.summary("WS", "ws-uuid", 42);
                let names: Vec<String> = summary.lists.iter().map(|i| i.name.clone()).collect();
                files.insert(summary_path("out", summary.tstamp), names.join(","));
                run.on_summary_written();
            }
            RunStep::Stop => break,
        }
    }
    run
}

#[test]
fn backup_all_two_lists() {
    let remote = Remote {
        lists: vec![
            ("tasks-uuid".into(), "Tasks".into(), "tasks-uuid".into(), vec![1, 2, 3]),
            ("notes-uuid".into(), "Notes".into(), "notes-uuid".into(), vec![]),
        ],
        failing: None,
    };
    let mut files = BTreeMap::new();
    let run = run_backup(&remote, &mut files);
    assert_eq!(run.phase(), RunPhase::Finished);
    let names: Vec<&str> = files.keys().map(|k| k.as_str()).collect();
    assert_eq!(
        names,
        vec![
            "out/notes-uuid_fields.json",
            "out/notes-uuid_items.json",
            "out/notes-uuid_list.json",
            "out/summary_42.json",
            "out/tasks-uuid_fields.json",
            "out/tasks-uuid_items.json",
            "out/tasks-uuid_list.json",
        ]
    );
    assert_eq!(files["out/tasks-uuid_items.json"], "[1, 2, 3]");
    assert_eq!(files["out/notes-uuid_items.json"], "[]");
    assert_eq!(files["out/summary_42.json"], "Tasks,Notes");
    assert_eq!(run.items()[0].uuid, "tasks-uuid");
    assert_eq!(run.items()[1].uuid, "notes-uuid");
}

#[test]
fn files_are_named_from_resolved_uuid_not_selector() {
    let remote = Remote {
        lists: vec![("Tasks".into(), "Tasks".into(), "0f1e-77".into(), vec![5])],
        failing: None,
    };
    let mut files = BTreeMap::new();
    run_backup(&remote, &mut files);
    assert!(files.contains_key("out/0f1e-77_list.json"));
    assert!(files.contains_key("out/0f1e-77_fields.json"));
    assert!(files.contains_key("out/0f1e-77_items.json"));
    assert!(!files.keys().any(|k| k.contains("Tasks")));
}

#[test]
fn third_of_four_failing_stops_the_run() {
    let lists = (1..=4)
        .map(|i| (format!("l{}", i), format!("L{}", i), format!("u{}", i), vec![i as u64]))
        .collect();
    let remote = Remote { lists, failing: Some("l3".into()) };
    let mut files = BTreeMap::new();
    let run = run_backup(&remote, &mut files);
    assert_eq!(run.phase(), RunPhase::Failed);
    assert_eq!(run.items().len(), 2);
    assert!(files.contains_key("out/u1_items.json"));
    assert!(files.contains_key("out/u2_items.json"));
    assert!(!files.contains_key("out/u3_items.json"));
    assert!(!files.keys().any(|k| k.starts_with("out/u4")));
    assert!(!files.keys().any(|k| k.contains("summary")));
    assert!(matches!(run.next_step(), RunStep::Stop));
}

#[test]
fn list_steps_come_in_order() {
    let mut list: ListBackup<u64> = ListBackup::new("o", "N", "u", 2);
    match list.next_step() {
        ListStep::Write { kind, path } => {
            assert_eq!(kind, ArtifactKind::List);
            assert_eq!(path, "o/u_list.json");
        }
        other => panic!("unexpected {:?}", other),
    }
    list.on_written();
    assert!(matches!(list.next_step(), ListStep::Write { kind: ArtifactKind::Fields, .. }));
    list.on_written();
    list.on_page(vec![1, 2]);
    match list.next_step() {
        ListStep::Fetch { request } => assert_eq!(request.skip, 2),
        other => panic!("unexpected {:?}", other),
    }
    list.on_page(vec![]);
    assert!(matches!(list.next_step(), ListStep::Write { kind: ArtifactKind::Items, .. }));
    list.on_written();
    assert!(matches!(list.next_step(), ListStep::Done));
    let item = list.item();
    assert_eq!((item.name.as_str(), item.uuid.as_str()), ("N", "u"));
}
