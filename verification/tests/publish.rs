use catalog_lib::{
    du_or_dcu, handle_reg, PublishError, PublishPhase, PublishStep, Publisher,
    RegistryPublishRequest, Software, StoreCommand, StoreReply, DCU_PATH, DU_PATH, SERVICE_KEY,
};
use std::collections::BTreeMap;

type Store = BTreeMap<(String, String), String>;

fn carry_out(store: &mut Store, command: &StoreCommand) -> StoreReply {
    match command {
        StoreCommand::OpenKey { .. } => StoreReply::Done,
        StoreCommand::SetString { key, name, value } => {
            store.insert((key.clone(), name.clone()), value.clone());
            StoreReply::Done
        }
        StoreCommand::DeleteValue { key, name } => {
            match store.remove(&(key.clone(), name.clone())) {
                Some(_) => StoreReply::Done,
                None => StoreReply::Absent,
            }
        }
    }
}

fn run(publisher: &mut Publisher, store: &mut Store) -> (Vec<StoreCommand>, Vec<String>, Result<(), PublishError>) {
    let mut commands = Vec::new();
    let mut launched = Vec::new();
    let mut reply = StoreReply::Done;
    loop {
        match publisher.next(reply) {
            PublishStep::Run(command) => {
                reply = carry_out(store, &command);
                commands.push(command);
            }
            PublishStep::Launch { app_name } => {
                launched.push(app_name);
                reply = StoreReply::Done;
            }
            PublishStep::Finished(outcome) => return (commands, launched, outcome),
        }
    }
}

const RECORD: &str = r#"{"CatalogHashValues":[{"Key":"C:\\a.xml","Value":"abc123"}]}"#;

#[test]
fn record_is_published_and_timestamps_are_cleared() {
    let service = SERVICE_KEY.to_string();
    let ignore = format!("{}\\IgnoreList", SERVICE_KEY);
    let mut store = Store::new();
    for name in ["LastCheckTimestamp", "LastUpdateTimestamp", "CatalogTimestamp"] {
        store.insert((service.clone(), name.to_string()), "1".to_string());
    }
    store.insert((ignore.clone(), "LastUpdateTimestamp".to_string()), "2".to_string());
    store.insert((ignore.clone(), "Other".to_string()), "3".to_string());
    store.insert((service.clone(), "CustomCatalogHashValues".to_string()), "old".to_string());
    store.insert((service.clone(), "Version".to_string()), "4".to_string());

    let software = Software::DellCommandUpdate { app_name: "Dell Command Update".to_string() };
    let mut publisher = handle_reg(RECORD, &software);
    let (commands, launched, outcome) = run(&mut publisher, &mut store);

    assert_eq!(outcome, Ok(()));
    assert_eq!(
        store.get(&(service.clone(), "CustomCatalogHashValues".to_string())),
        Some(&RECORD.to_string())
    );
    for name in ["LastCheckTimestamp", "LastUpdateTimestamp", "CatalogTimestamp"] {
        assert!(!store.contains_key(&(service.clone(), name.to_string())));
        assert!(!store.contains_key(&(ignore.clone(), name.to_string())));
    }
    assert_eq!(store.get(&(ignore.clone(), "Other".to_string())), Some(&"3".to_string()));
    assert_eq!(store.get(&(service.clone(), "Version".to_string())), Some(&"4".to_string()));
    assert_eq!(store.len(), 3);
    assert_eq!(launched, vec!["Dell Command Update".to_string()]);
    assert_eq!(commands.len(), 8);
    assert_eq!(commands[0], StoreCommand::OpenKey { path: service.clone() });
    assert_eq!(
        commands[1],
        StoreCommand::SetString {
            key: service.clone(),
            name: "CustomCatalogHashValues".to_string(),
            value: RECORD.to_string()
        }
    );
    assert_eq!(
        commands[2],
        StoreCommand::DeleteValue { key: ignore.clone(), name: "LastCheckTimestamp".to_string() }
    );
    assert_eq!(
        commands[4],
        StoreCommand::DeleteValue { key: ignore.clone(), name: "CatalogTimestamp".to_string() }
    );
    assert_eq!(
        commands[5],
        StoreCommand::DeleteValue { key: service.clone(), name: "LastCheckTimestamp".to_string() }
    );
    assert_eq!(
        commands[7],
        StoreCommand::DeleteValue { key: service.clone(), name: "CatalogTimestamp".to_string() }
    );
    assert_eq!(publisher.phase(), PublishPhase::Succeeded);
    assert_eq!(publisher.next(StoreReply::Failed), PublishStep::Finished(Ok(())));
}

#[test]
fn publishing_into_an_empty_store_is_no_error() {
    let mut store = Store::new();
    let mut publisher = Publisher::new("K", RegistryPublishRequest::new("J"), "A");
    let (commands, launched, outcome) = run(&mut publisher, &mut store);
    assert_eq!(outcome, Ok(()));
    assert_eq!(commands.len(), 8);
    assert_eq!(launched, vec!["A".to_string()]);
    assert_eq!(store.len(), 1);
    assert_eq!(
        store.get(&("K".to_string(), "CustomCatalogHashValues".to_string())),
        Some(&"J".to_string())
    );
}

#[test]
fn key_that_cannot_be_opened_ends_the_publication() {
    let mut publisher = Publisher::new("K", RegistryPublishRequest::new("J"), "A");
    assert_eq!(
        publisher.next(StoreReply::Failed),
        PublishStep::Run(StoreCommand::OpenKey { path: "K".to_string() })
    );
    assert_eq!(publisher.phase(), PublishPhase::Writing);
    assert_eq!(
        publisher.next(StoreReply::Failed),
        PublishStep::Finished(Err(PublishError::KeyUnavailable))
    );
    assert_eq!(publisher.phase(), PublishPhase::Failed(PublishError::KeyUnavailable));
    assert_eq!(
        publisher.next(StoreReply::Done),
        PublishStep::Finished(Err(PublishError::KeyUnavailable))
    );
}

#[test]
fn refused_write_ends_the_publication() {
    let mut publisher = Publisher::new("K", RegistryPublishRequest::new("J"), "A");
    publisher.next(StoreReply::Done);
    assert_eq!(
        publisher.next(StoreReply::Done),
        PublishStep::Run(StoreCommand::SetString {
            key: "K".to_string(),
            name: "CustomCatalogHashValues".to_string(),
            value: "J".to_string()
        })
    );
    assert_eq!(
        publisher.next(StoreReply::Failed),
        PublishStep::Finished(Err(PublishError::WriteFailed))
    );

    let mut publisher = Publisher::new("K", RegistryPublishRequest::new("J"), "A");
    publisher.next(StoreReply::Done);
    publisher.next(StoreReply::Done);
    assert_eq!(
        publisher.next(StoreReply::Done),
        PublishStep::Run(StoreCommand::DeleteValue {
            key: "K\\IgnoreList".to_string(),
            name: "LastCheckTimestamp".to_string()
        })
    );
    assert_eq!(
        publisher.next(StoreReply::Absent),
        PublishStep::Run(StoreCommand::DeleteValue {
            key: "K\\IgnoreList".to_string(),
            name: "LastUpdateTimestamp".to_string()
        })
    );
    assert_eq!(
        publisher.next(StoreReply::Failed),
        PublishStep::Finished(Err(PublishError::WriteFailed))
    );
}

#[test]
fn launch_that_fails_is_of_no_consequence() {
    let mut publisher = Publisher::new("K", RegistryPublishRequest::new("J"), "A");
    for _ in 0..8 {
        assert!(matches!(publisher.next(StoreReply::Done), PublishStep::Run(_)));
    }
    assert_eq!(publisher.phase(), PublishPhase::Launching);
    assert_eq!(publisher.next(StoreReply::Absent), PublishStep::Launch { app_name: "A".to_string() });
    assert_eq!(publisher.phase(), PublishPhase::Closing);
    assert_eq!(publisher.next(StoreReply::Failed), PublishStep::Finished(Ok(())));
}

#[test]
fn command_update_is_preferred() {
    assert_eq!(
        du_or_dcu(true, true),
        Some(Software::DellCommandUpdate { app_name: "Dell Command Update".to_string() })
    );
    assert_eq!(
        du_or_dcu(true, false),
        Some(Software::DellCommandUpdate { app_name: "Dell Command Update".to_string() })
    );
    assert_eq!(
        du_or_dcu(false, true),
        Some(Software::DellUpdate { app_name: "Dell Update".to_string() })
    );
    assert_eq!(du_or_dcu(false, false), None);
    assert_eq!(du_or_dcu(false, true).unwrap().app_name(), "Dell Update");
    assert_eq!(DCU_PATH, r"SOFTWARE\Dell\UpdateService\Clients\CommandUpdate");
    assert_eq!(DU_PATH, r"SOFTWARE\Dell\UpdateService\Clients\Update");
    assert_eq!(SERVICE_KEY, r"SOFTWARE\Dell\UpdateService\Service");
}

#[test]
fn request_names_what_is_deleted() {
    let request = RegistryPublishRequest::new("J");
    assert_eq!(request.json, "J");
    assert_eq!(
        request.cache_entries,
        vec![
            "LastCheckTimestamp".to_string(),
            "LastUpdateTimestamp".to_string(),
            "CatalogTimestamp".to_string()
        ]
    );
    let request = RegistryPublishRequest { json: "J".to_string(), cache_entries: vec!["Stamp".to_string()] };
    let mut store = Store::new();
    store.insert(("K".to_string(), "Stamp".to_string()), "1".to_string());
    store.insert(("K\\IgnoreList".to_string(), "Stamp".to_string()), "2".to_string());
    store.insert(("K".to_string(), "LastCheckTimestamp".to_string()), "3".to_string());
    let mut publisher = Publisher::new("K", request, "A");
    let (commands, launched, outcome) = run(&mut publisher, &mut store);
    assert_eq!(outcome, Ok(()));
    assert_eq!(launched, vec!["A".to_string()]);
    assert_eq!(
        commands,
        vec![
            StoreCommand::OpenKey { path: "K".to_string() },
            StoreCommand::SetString {
                key: "K".to_string(),
                name: "CustomCatalogHashValues".to_string(),
                value: "J".to_string()
            },
            StoreCommand::DeleteValue { key: "K\\IgnoreList".to_string(), name: "Stamp".to_string() },
            StoreCommand::DeleteValue { key: "K".to_string(), name: "Stamp".to_string() },
        ]
    );
    assert_eq!(store.len(), 2);
    assert_eq!(store.get(&("K".to_string(), "LastCheckTimestamp".to_string())), Some(&"3".to_string()));
}

#[test]
fn request_without_names_deletes_nothing() {
    let request = RegistryPublishRequest { json: "J".to_string(), cache_entries: Vec::new() };
    let mut publisher = Publisher::new("K", request, "A");
    assert!(matches!(publisher.next(StoreReply::Done), PublishStep::Run(StoreCommand::OpenKey { .. })));
    assert!(matches!(publisher.next(StoreReply::Done), PublishStep::Run(StoreCommand::SetString { .. })));
    assert_eq!(publisher.phase(), PublishPhase::Launching);
    assert_eq!(publisher.next(StoreReply::Done), PublishStep::Launch { app_name: "A".to_string() });
    assert_eq!(publisher.next(StoreReply::Done), PublishStep::Finished(Ok(())));
    assert_eq!(publisher.phase(), PublishPhase::Succeeded);

    let request = RegistryPublishRequest { json: "J".to_string(), cache_entries: Vec::new() };
    let mut publisher = Publisher::new("K", request, "A");
    publisher.next(StoreReply::Done);
    publisher.next(StoreReply::Done);
    assert_eq!(
        publisher.next(StoreReply::Failed),
        PublishStep::Finished(Err(PublishError::WriteFailed))
    );
}
