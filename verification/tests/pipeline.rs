use catalog_lib::{
    handle, standard_rules, Action, CatalogError, CatalogInfo, DiscoveryError, Event,
    ExpansionError, PathDialect,
    ProcessOutcome, PublishError, RewriteError, Run, StoreCommand, StoreReply, INSTALL_PATH,
};

fn info() -> CatalogInfo {
    CatalogInfo { cab_path: "C:\\work\\Catalog.CAB".to_string(), ic_path: "C:\\work\\invc.exe".to_string() }
}

fn begin() -> Run {
    handle(info(), standard_rules(PathDialect::Slash))
}

const MANIFEST: &[u8] = br#"<Manifest baseLocation="C:\x"><SoftwareComponent path="a/b/c"/></Manifest>"#;
const REWRITTEN: &str = r#"<Manifest baseLocation=""><SoftwareComponent path="c"/></Manifest>"#;
const RECORD: &str = "{\"CatalogHashValues\":[{\"Key\":\"C:\\\\work\\\\_Catalog.xml\",\"Value\":\"6rFU/EIQMqB4Wb/ZpD0G+QaT013u1mSsDgPlk+ayZcTgq23rRrJmgKuHaxCRpCl1\"}]}";

fn until_detection(run: Run) -> Run {
    let (run, action) = run.advance(Event::Start);
    assert_eq!(action, Action::Expand { command: "expand.exe -R C:\\work\\Catalog.CAB".to_string() });
    let (run, action) = run.advance(Event::Expanded(ProcessOutcome::Exited { code: 0 }));
    assert_eq!(action, Action::ReadManifest { path: "C:\\work\\Catalog.xml".to_string() });
    let (run, action) = run.advance(Event::ManifestRead(Some(MANIFEST.to_vec())));
    assert_eq!(
        action,
        Action::WriteManifest {
            path: "C:\\work\\_Catalog.xml".to_string(),
            content: REWRITTEN.as_bytes().to_vec()
        }
    );
    let (run, action) = run.advance(Event::ManifestWritten(true));
    assert_eq!(
        action,
        Action::InstallCollector { from: "C:\\work\\invc.exe".to_string(), to: INSTALL_PATH.to_string() }
    );
    let (run, action) = run.advance(Event::CollectorInstalled(false));
    assert_eq!(action, Action::DetectClient);
    run
}

#[test]
fn run_goes_through_its_stages_in_order() {
    let run = until_detection(begin());
    let (mut run, mut action) = run.advance(Event::ClientDetected { command_update: false, update: true });
    let mut commands = Vec::new();
    while let Action::Store(command) = action {
        commands.push(command);
        let next = run.advance(Event::Stored(StoreReply::Done));
        run = next.0;
        action = next.1;
    }
    assert_eq!(commands.len(), 8);
    assert_eq!(
        commands[1],
        StoreCommand::SetString {
            key: r"SOFTWARE\Dell\UpdateService\Service".to_string(),
            name: "CustomCatalogHashValues".to_string(),
            value: RECORD.to_string()
        }
    );
    assert_eq!(action, Action::Launch { app_name: "Dell Update".to_string() });
    let (run, action) = run.advance(Event::Launched);
    assert_eq!(action, Action::Finish(Ok(())));
    let (_, action) = run.advance(Event::Start);
    assert_eq!(action, Action::Finish(Ok(())));
    assert_eq!(INSTALL_PATH, r"C:\Program Files (x86)\Dell\UpdateService\Service\InvColPC.exe");
}

#[test]
fn run_without_client_ends_well() {
    let run = until_detection(begin());
    let (_, action) = run.advance(Event::ClientDetected { command_update: false, update: false });
    assert_eq!(action, Action::Finish(Ok(())));
}

#[test]
fn failed_expansion_ends_the_run() {
    let command = "expand.exe -R C:\\work\\Catalog.CAB".to_string();
    let (run, _) = begin().advance(Event::Start);
    let (run, action) = run.advance(Event::Expanded(ProcessOutcome::Exited { code: 2 }));
    let failure = CatalogError::Expansion(ExpansionError::NonZeroExit { command: command.clone(), code: 2 });
    assert_eq!(action, Action::Finish(Err(failure.clone())));
    let (_, action) = run.advance(Event::ManifestRead(Some(MANIFEST.to_vec())));
    assert_eq!(action, Action::Finish(Err(failure)));

    let (run, _) = begin().advance(Event::Start);
    let (_, action) = run.advance(Event::Expanded(ProcessOutcome::LaunchFailed));
    assert_eq!(
        action,
        Action::Finish(Err(CatalogError::Expansion(ExpansionError::ProcessLaunchFailed {
            command: command.clone()
        })))
    );
    let (run, _) = begin().advance(Event::Start);
    let (_, action) = run.advance(Event::Expanded(ProcessOutcome::TimedOut));
    assert_eq!(
        action,
        Action::Finish(Err(CatalogError::Expansion(ExpansionError::Timeout { command })))
    );
}

#[test]
fn manifest_that_cannot_be_read_or_parsed_ends_the_run() {
    let (run, _) = begin().advance(Event::Start);
    let (run, _) = run.advance(Event::Expanded(ProcessOutcome::Exited { code: 0 }));
    let (_, action) = run.advance(Event::ManifestRead(None));
    assert_eq!(action, Action::Finish(Err(CatalogError::Rewrite(RewriteError::Io))));

    let (run, _) = begin().advance(Event::Start);
    let (run, _) = run.advance(Event::Expanded(ProcessOutcome::Exited { code: 0 }));
    let (_, action) = run.advance(Event::ManifestRead(Some(b"<Manifest>".to_vec())));
    assert_eq!(action, Action::Finish(Err(CatalogError::Rewrite(RewriteError::MalformedInput))));
}

#[test]
fn manifest_that_cannot_be_written_ends_the_run() {
    let (run, _) = begin().advance(Event::Start);
    let (run, _) = run.advance(Event::Expanded(ProcessOutcome::Exited { code: 0 }));
    let (run, _) = run.advance(Event::ManifestRead(Some(MANIFEST.to_vec())));
    let (_, action) = run.advance(Event::ManifestWritten(false));
    assert_eq!(action, Action::Finish(Err(CatalogError::Rewrite(RewriteError::Io))));
}

#[test]
fn failed_publication_ends_the_run() {
    let run = until_detection(begin());
    let (run, action) = run.advance(Event::ClientDetected { command_update: true, update: false });
    assert_eq!(
        action,
        Action::Store(StoreCommand::OpenKey { path: r"SOFTWARE\Dell\UpdateService\Service".to_string() })
    );
    let (_, action) = run.advance(Event::Stored(StoreReply::Failed));
    assert_eq!(action, Action::Finish(Err(CatalogError::Publish(PublishError::KeyUnavailable))));

    let run = until_detection(begin());
    let (run, _) = run.advance(Event::ClientDetected { command_update: true, update: false });
    let (run, _) = run.advance(Event::Stored(StoreReply::Done));
    let (_, action) = run.advance(Event::Stored(StoreReply::Failed));
    assert_eq!(action, Action::Finish(Err(CatalogError::Publish(PublishError::WriteFailed))));
}

#[test]
fn report_that_was_not_asked_for_ends_the_run() {
    let (_, action) = begin().advance(Event::ManifestWritten(true));
    assert_eq!(action, Action::Finish(Err(CatalogError::Unexpected)));
    let (run, _) = begin().advance(Event::Start);
    let (run, action) = run.advance(Event::Start);
    assert_eq!(action, Action::Finish(Err(CatalogError::Unexpected)));
    let (_, action) = run.advance(Event::Expanded(ProcessOutcome::Exited { code: 0 }));
    assert_eq!(action, Action::Finish(Err(CatalogError::Unexpected)));
}

#[test]
fn stage_failures_become_failures_of_the_run() {
    assert_eq!(
        CatalogError::from(DiscoveryError::NoFilesFound),
        CatalogError::Discovery(DiscoveryError::NoFilesFound)
    );
    assert_eq!(
        CatalogError::from(ExpansionError::Timeout { command: "c".to_string() }),
        CatalogError::Expansion(ExpansionError::Timeout { command: "c".to_string() })
    );
    assert_eq!(CatalogError::from(RewriteError::Io), CatalogError::Rewrite(RewriteError::Io));
    assert_eq!(
        CatalogError::from(PublishError::WriteFailed),
        CatalogError::Publish(PublishError::WriteFailed)
    );
}
