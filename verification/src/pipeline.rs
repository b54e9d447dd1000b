//! A run from the archive to the configuration store, step by step.
//!
//! A run expands the archive, rewrites the manifest, records the digest of
//! the rewritten manifest, installs the collector and publishes the record,
//! in this order, and ends at the first failure. The library decides each
//! step; the caller carries it out and reports what came of it.

use crate::digest::{digest_text, get_hash_sha384, record_json};
use crate::discovery::{CatalogInfo, CatalogInfoView};
use crate::error::{CatalogError, CatalogErrorView, RewriteError};
use crate::expansion::{cab_to_xml, expand_command, expansion_command, expansion_result, ProcessOutcome};
use crate::paths::{rewritten_path, rewritten_path_of};
use crate::publish::{
    after_reply, du_or_dcu, handle_reg, installed_client, step_of, timestamp_names, PublishPhase,
    PublishStep, PublishStepView, Publisher, PublisherView, RequestView, SoftwareView,
    StoreCommand, StoreCommandView, StoreReply, SERVICE_KEY,
};
use crate::rewrite::{handle_xml, rewritten_manifest, rule_views, AttributeRewriteRule, RuleView};
use vstd::prelude::*;

verus! {

/// Where the collector is installed.
pub const INSTALL_PATH: &'static str =
    "C:\\Program Files (x86)\\Dell\\UpdateService\\Service\\InvColPC.exe";

/// What the caller is to do next.
#[derive(Debug, PartialEq, Eq)]
pub enum Action {
    /// Run the command line and report how it ended.
    Expand { command: String },
    /// Read the file and report its content.
    ReadManifest { path: String },
    /// Write the content to the file and report whether that was done.
    WriteManifest { path: String, content: Vec<u8> },
    /// Copy the file `from` to `to`, over what is there, and report whether
    /// that was done.
    InstallCollector { from: String, to: String },
    /// Look which of the client keys are present.
    DetectClient,
    /// Carry out the command and report the store's reply.
    Store(StoreCommand),
    /// Start the update client of this name and report that.
    Launch { app_name: String },
    /// The run is over.
    Finish(Result<(), CatalogError>),
}

/// An `Action` with its texts as sequences of characters.
pub enum ActionView {
    Expand { command: Seq<char> },
    ReadManifest { path: Seq<char> },
    WriteManifest { path: Seq<char>, content: Seq<u8> },
    InstallCollector { from: Seq<char>, to: Seq<char> },
    DetectClient,
    Store(StoreCommandView),
    Launch { app_name: Seq<char> },
    Finish(Result<(), CatalogErrorView>),
}

/// The outcome of a run with the view of its failure.
pub open spec fn outcome_view(outcome: Result<(), CatalogError>) -> Result<(), CatalogErrorView> {
    match outcome {
        Ok(_) => Ok(()),
        Err(e) => Err(e@),
    }
}

impl View for Action {
    type V = ActionView;

    open spec fn view(&self) -> ActionView {
        match *self {
            Action::Expand { command } => ActionView::Expand { command: command@ },
            Action::ReadManifest { path } => ActionView::ReadManifest { path: path@ },
            Action::WriteManifest { path, content } => ActionView::WriteManifest {
                path: path@,
                content: content@,
            },
            Action::InstallCollector { from, to } => ActionView::InstallCollector {
                from: from@,
                to: to@,
            },
            Action::DetectClient => ActionView::DetectClient,
            Action::Store(command) => ActionView::Store(command@),
            Action::Launch { app_name } => ActionView::Launch { app_name: app_name@ },
            Action::Finish(outcome) => ActionView::Finish(outcome_view(outcome)),
        }
    }
}

/// What the caller reports.
#[derive(Debug, PartialEq, Eq)]
pub enum Event {
    /// The run may begin.
    Start,
    /// The expansion tool ended in this way.
    Expanded(ProcessOutcome),
    /// The manifest holds this content; `None` where it could not be read.
    ManifestRead(Option<Vec<u8>>),
    /// Whether the rewritten manifest was written.
    ManifestWritten(bool),
    /// Whether the collector was copied.
    CollectorInstalled(bool),
    /// Which client keys are present.
    ClientDetected { command_update: bool, update: bool },
    /// The store's reply to the command.
    Stored(StoreReply),
    /// The client was asked to start.
    Launched,
}

/// An `Event` with its content as a sequence of bytes.
pub enum EventView {
    Start,
    Expanded(ProcessOutcome),
    ManifestRead(Option<Seq<u8>>),
    ManifestWritten(bool),
    CollectorInstalled(bool),
    ClientDetected { command_update: bool, update: bool },
    Stored(StoreReply),
    Launched,
}

impl View for Event {
    type V = EventView;

    open spec fn view(&self) -> EventView {
        match *self {
            Event::Start => EventView::Start,
            Event::Expanded(outcome) => EventView::Expanded(outcome),
            Event::ManifestRead(content) => EventView::ManifestRead(
                match content {
                    Some(bytes) => Some(bytes@),
                    None => None,
                },
            ),
            Event::ManifestWritten(done) => EventView::ManifestWritten(done),
            Event::CollectorInstalled(done) => EventView::CollectorInstalled(done),
            Event::ClientDetected { command_update, update } => EventView::ClientDetected {
                command_update,
                update,
            },
            Event::Stored(reply) => EventView::Stored(reply),
            Event::Launched => EventView::Launched,
        }
    }
}

/// How far a run has come, with what it has to remember.
#[derive(Debug)]
pub enum RunState {
    Ready,
    Expanding,
    Reading { manifest_path: String },
    Writing { json: String },
    Installing { json: String },
    Detecting { json: String },
    Publishing { publisher: Publisher },
    Finished { outcome: Result<(), CatalogError> },
}

/// A `RunState` with its texts as sequences of characters.
pub enum RunStateView {
    Ready,
    Expanding,
    Reading { manifest_path: Seq<char> },
    Writing { json: Seq<char> },
    Installing { json: Seq<char> },
    Detecting { json: Seq<char> },
    Publishing { publisher: PublisherView },
    Finished { outcome: Result<(), CatalogErrorView> },
}

impl View for RunState {
    type V = RunStateView;

    open spec fn view(&self) -> RunStateView {
        match *self {
            RunState::Ready => RunStateView::Ready,
            RunState::Expanding => RunStateView::Expanding,
            RunState::Reading { manifest_path } => RunStateView::Reading {
                manifest_path: manifest_path@,
            },
            RunState::Writing { json } => RunStateView::Writing { json: json@ },
            RunState::Installing { json } => RunStateView::Installing { json: json@ },
            RunState::Detecting { json } => RunStateView::Detecting { json: json@ },
            RunState::Publishing { publisher } => RunStateView::Publishing { publisher: publisher@ },
            RunState::Finished { outcome } => RunStateView::Finished {
                outcome: outcome_view(outcome),
            },
        }
    }
}

/// A run.
#[derive(Debug)]
pub struct Run {
    pub info: CatalogInfo,
    pub rules: Vec<AttributeRewriteRule>,
    pub state: RunState,
}

/// A `Run` with the views of its parts.
pub struct RunView {
    pub info: CatalogInfoView,
    pub rules: Seq<RuleView>,
    pub state: RunStateView,
}

impl View for Run {
    type V = RunView;

    open spec fn view(&self) -> RunView {
        RunView { info: self.info@, rules: rule_views(self.rules@), state: self.state@ }
    }
}

/// The name under which a client is started.
pub open spec fn client_name(software: SoftwareView) -> Seq<char> {
    match software {
        SoftwareView::DellUpdate { app_name } => app_name,
        SoftwareView::DellCommandUpdate { app_name } => app_name,
    }
}

/// The run ends with `outcome`.
pub open spec fn finished(run: RunView, outcome: Result<(), CatalogErrorView>) -> (
    RunView,
    ActionView,
) {
    (RunView { state: RunStateView::Finished { outcome }, ..run }, ActionView::Finish(outcome))
}

/// The run goes on with the next step of its publication.
pub open spec fn published(run: RunView, publisher: PublisherView, reply: StoreReply) -> (
    RunView,
    ActionView,
) {
    let going = RunView {
        state: RunStateView::Publishing { publisher: after_reply(publisher, reply) },
        ..run
    };
    match step_of(publisher, reply) {
        PublishStepView::Run(command) => (going, ActionView::Store(command)),
        PublishStepView::Launch { app_name } => (going, ActionView::Launch { app_name }),
        PublishStepView::Finished(outcome) => finished(
            run,
            match outcome {
                Ok(_) => Ok(()),
                Err(e) => Err(CatalogErrorView::Publish(e)),
            },
        ),
    }
}

/// What a run becomes, and what it asks for, when it is told of `event`.
///
/// A run that is over stays over. A report that the run did not ask for ends
/// it with `Unexpected`. Whether the collector could be copied, and whether
/// the client could be started, does not matter to the run; where no client
/// is installed the run ends well without a publication.
pub open spec fn advanced(run: RunView, event: EventView) -> (RunView, ActionView) {
    match (run.state, event) {
        (RunStateView::Finished { outcome }, _) => (run, ActionView::Finish(outcome)),
        (RunStateView::Ready, EventView::Start) => (
            RunView { state: RunStateView::Expanding, ..run },
            ActionView::Expand { command: expansion_command(run.info.cab_path) },
        ),
        (RunStateView::Expanding, EventView::Expanded(outcome)) => match expansion_result(
            run.info.cab_path,
            outcome,
        ) {
            Ok(path) => (
                RunView { state: RunStateView::Reading { manifest_path: path }, ..run },
                ActionView::ReadManifest { path },
            ),
            Err(e) => finished(run, Err(CatalogErrorView::Expansion(e))),
        },
        (RunStateView::Reading { manifest_path }, EventView::ManifestRead(content)) => match content {
            None => finished(run, Err(CatalogErrorView::Rewrite(RewriteError::Io))),
            Some(manifest) => match rewritten_manifest(manifest, run.rules) {
                Err(e) => finished(run, Err(CatalogErrorView::Rewrite(e))),
                Ok(document) => {
                    let path = rewritten_path(manifest_path);
                    (
                        RunView {
                            state: RunStateView::Writing {
                                json: record_json(path, digest_text(document)),
                            },
                            ..run
                        },
                        ActionView::WriteManifest { path, content: document },
                    )
                },
            },
        },
        (RunStateView::Writing { json }, EventView::ManifestWritten(done)) => if done {
            (
                RunView { state: RunStateView::Installing { json }, ..run },
                ActionView::InstallCollector { from: run.info.ic_path, to: INSTALL_PATH@ },
            )
        } else {
            finished(run, Err(CatalogErrorView::Rewrite(RewriteError::Io)))
        },
        (RunStateView::Installing { json }, EventView::CollectorInstalled(_)) => (
            RunView { state: RunStateView::Detecting { json }, ..run },
            ActionView::DetectClient,
        ),
        (
            RunStateView::Detecting { json },
            EventView::ClientDetected { command_update, update },
        ) => match installed_client(command_update, update) {
            None => finished(run, Ok(())),
            Some(software) => published(
                run,
                PublisherView {
                    service_key: SERVICE_KEY@,
                    request: RequestView { json, cache_entries: timestamp_names() },
                    app_name: client_name(software),
                    phase: PublishPhase::Opening,
                },
                StoreReply::Done,
            ),
        },
        (RunStateView::Publishing { publisher }, EventView::Stored(reply)) => published(
            run,
            publisher,
            reply,
        ),
        (RunStateView::Publishing { publisher }, EventView::Launched) => published(
            run,
            publisher,
            StoreReply::Done,
        ),
        _ => finished(run, Err(CatalogErrorView::Unexpected)),
    }
}

fn finish(info: CatalogInfo, rules: Vec<AttributeRewriteRule>, outcome: Result<(), CatalogError>) -> (r:
    (Run, Action))
    ensures
        (r.0@, r.1@) == finished(
            RunView { info: info@, rules: rule_views(rules@), state: RunStateView::Ready },
            outcome_view(outcome),
        ),
{
    let copy = match &outcome {
        Ok(_) => Ok(()),
        Err(e) => Err(copy_error(e)),
    };
    (Run { info, rules, state: RunState::Finished { outcome } }, Action::Finish(copy))
}

fn copy_error(error: &CatalogError) -> (r: CatalogError)
    ensures
        r@ == error@,
{
    match error {
        CatalogError::SelectedCabFileError => CatalogError::SelectedCabFileError,
        CatalogError::SelectedIcFileError => CatalogError::SelectedIcFileError,
        CatalogError::Discovery(crate::error::DiscoveryError::NoFilesFound) => CatalogError::Discovery(
            crate::error::DiscoveryError::NoFilesFound,
        ),
        CatalogError::Discovery(crate::error::DiscoveryError::MultipleFilesFound { names }) => {
            CatalogError::Discovery(
                crate::error::DiscoveryError::MultipleFilesFound { names: names.clone() },
            )
        },
        CatalogError::Expansion(crate::error::ExpansionError::ProcessLaunchFailed { command }) => {
            CatalogError::Expansion(
                crate::error::ExpansionError::ProcessLaunchFailed { command: command.clone() },
            )
        },
        CatalogError::Expansion(crate::error::ExpansionError::NonZeroExit { command, code }) => {
            CatalogError::Expansion(
                crate::error::ExpansionError::NonZeroExit { command: command.clone(), code: *code },
            )
        },
        CatalogError::Expansion(crate::error::ExpansionError::Timeout { command }) => {
            CatalogError::Expansion(crate::error::ExpansionError::Timeout { command: command.clone() })
        },
        CatalogError::Rewrite(e) => CatalogError::Rewrite(*e),
        CatalogError::Publish(e) => CatalogError::Publish(*e),
        CatalogError::Unexpected => CatalogError::Unexpected,
    }
}

fn publish(
    info: CatalogInfo,
    rules: Vec<AttributeRewriteRule>,
    publisher: Publisher,
    reply: StoreReply,
) -> (r: (Run, Action))
    ensures
        (r.0@, r.1@) == published(
            RunView { info: info@, rules: rule_views(rules@), state: RunStateView::Ready },
            publisher@,
            reply,
        ),
{
    let mut publisher = publisher;
    match publisher.next(reply) {
        PublishStep::Run(command) => (
            Run { info, rules, state: RunState::Publishing { publisher } },
            Action::Store(command),
        ),
        PublishStep::Launch { app_name } => (
            Run { info, rules, state: RunState::Publishing { publisher } },
            Action::Launch { app_name },
        ),
        PublishStep::Finished(Ok(_)) => finish(info, rules, Ok(())),
        PublishStep::Finished(Err(e)) => finish(info, rules, Err(CatalogError::from(e))),
    }
}

impl Run {
    /// Takes the report of the step handed out last and hands out the next
    /// step.
    pub fn advance(self, event: Event) -> (r: (Run, Action))
        ensures
            (r.0@, r.1@) == advanced(self@, event@),
    {
        let Run { info, rules, state } = self;
        match (state, event) {
            (RunState::Finished { outcome }, _) => {
                let copy = match &outcome {
                    Ok(_) => Ok(()),
                    Err(e) => Err(copy_error(e)),
                };
                (Run { info, rules, state: RunState::Finished { outcome } }, Action::Finish(copy))
            },
            (RunState::Ready, Event::Start) => {
                let command = expand_command(info.cab_path.as_str());
                (Run { info, rules, state: RunState::Expanding }, Action::Expand { command })
            },
            (RunState::Expanding, Event::Expanded(outcome)) => {
                match cab_to_xml(info.cab_path.as_str(), outcome) {
                    Ok(path) => {
                        let manifest_path = path.clone();
                        (
                            Run { info, rules, state: RunState::Reading { manifest_path } },
                            Action::ReadManifest { path },
                        )
                    },
                    Err(e) => finish(info, rules, Err(CatalogError::from(e))),
                }
            },
            (RunState::Reading { manifest_path }, Event::ManifestRead(content)) => {
                match content {
                    None => finish(info, rules, Err(CatalogError::Rewrite(RewriteError::Io))),
                    Some(manifest) => match handle_xml(manifest.as_slice(), &rules) {
                        Err(e) => finish(info, rules, Err(CatalogError::from(e))),
                        Ok(content) => {
                            let path = rewritten_path_of(manifest_path.as_str());
                            let json = get_hash_sha384(path.as_str(), content.as_slice());
                            (
                                Run { info, rules, state: RunState::Writing { json } },
                                Action::WriteManifest { path, content },
                            )
                        },
                    },
                }
            },
            (RunState::Writing { json }, Event::ManifestWritten(done)) => {
                if done {
                    let from = info.ic_path.clone();
                    (
                        Run { info, rules, state: RunState::Installing { json } },
                        Action::InstallCollector { from, to: INSTALL_PATH.to_owned() },
                    )
                } else {
                    finish(info, rules, Err(CatalogError::Rewrite(RewriteError::Io)))
                }
            },
            (RunState::Installing { json }, Event::CollectorInstalled(_)) => (
                Run { info, rules, state: RunState::Detecting { json } },
                Action::DetectClient,
            ),
            (RunState::Detecting { json }, Event::ClientDetected { command_update, update }) => {
                match du_or_dcu(command_update, update) {
                    None => finish(info, rules, Ok(())),
                    Some(software) => {
                        let publisher = handle_reg(json.as_str(), &software);
                        publish(info, rules, publisher, StoreReply::Done)
                    },
                }
            },
            (RunState::Publishing { publisher }, Event::Stored(reply)) => publish(
                info,
                rules,
                publisher,
                reply,
            ),
            (RunState::Publishing { publisher }, Event::Launched) => publish(
                info,
                rules,
                publisher,
                StoreReply::Done,
            ),
            _ => finish(info, rules, Err(CatalogError::Unexpected)),
        }
    }
}

/// A run for the given catalog and collector that rewrites the manifest by
/// `rules`; it waits for `Event::Start`.
pub fn handle(catalog_info: CatalogInfo, rules: Vec<AttributeRewriteRule>) -> (r: Run)
    ensures
        r@ == (RunView {
            info: catalog_info@,
            rules: rule_views(rules@),
            state: RunStateView::Ready,
        }),
{
    Run { info: catalog_info, rules, state: RunState::Ready }
}

} // verus!
