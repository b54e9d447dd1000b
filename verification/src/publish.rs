//! Publication: how the digest record reaches the configuration store of the
//! update client.
//!
//! The library decides which commands go to the store and in which order, and
//! what their replies mean; the caller carries each command out and reports
//! the reply.

use crate::error::PublishError;
use crate::text::{append_str, string_of};
use vstd::prelude::*;

verus! {

/// The key of the update service, below the machine's root key.
pub const SERVICE_KEY: &'static str = "SOFTWARE\\Dell\\UpdateService\\Service";

/// The key whose presence shows that Dell Command Update is installed.
pub const DCU_PATH: &'static str = "SOFTWARE\\Dell\\UpdateService\\Clients\\CommandUpdate";

/// The key whose presence shows that Dell Update is installed.
pub const DU_PATH: &'static str = "SOFTWARE\\Dell\\UpdateService\\Clients\\Update";

/// The update client that is installed on the machine.
#[derive(Debug, Clone, PartialEq, Eq)]
pub enum Software {
    DellUpdate { app_name: String },
    DellCommandUpdate { app_name: String },
}

/// A `Software` with its name as a sequence of characters.
pub enum SoftwareView {
    DellUpdate { app_name: Seq<char> },
    DellCommandUpdate { app_name: Seq<char> },
}

impl View for Software {
    type V = SoftwareView;

    open spec fn view(&self) -> SoftwareView {
        match *self {
            Software::DellUpdate { app_name } => SoftwareView::DellUpdate { app_name: app_name@ },
            Software::DellCommandUpdate { app_name } => SoftwareView::DellCommandUpdate {
                app_name: app_name@,
            },
        }
    }
}

impl Software {
    /// The name under which the client is started.
    pub open spec fn spec_app_name(self) -> Seq<char> {
        match self {
            Software::DellUpdate { app_name } => app_name@,
            Software::DellCommandUpdate { app_name } => app_name@,
        }
    }

    /// The name under which the client is started.
    pub fn app_name(&self) -> (r: &str)
        ensures
            r@ == self.spec_app_name(),
    {
        match self {
            Software::DellUpdate { app_name } => app_name.as_str(),
            Software::DellCommandUpdate { app_name } => app_name.as_str(),
        }
    }
}

/// Which client is installed, given which of the two client keys are
/// present: Dell Command Update where its key is, else Dell Update where its
/// key is, else none.
pub open spec fn installed_client(command_update: bool, update: bool) -> Option<SoftwareView> {
    if command_update {
        Some(SoftwareView::DellCommandUpdate { app_name: "Dell Command Update"@ })
    } else if update {
        Some(SoftwareView::DellUpdate { app_name: "Dell Update"@ })
    } else {
        None
    }
}

/// The installed client, from the presence of the keys at `DCU_PATH` and
/// `DU_PATH`.
pub fn du_or_dcu(command_update: bool, update: bool) -> (r: Option<Software>)
    ensures
        match r {
            Some(software) => installed_client(command_update, update) == Some(software@),
            None => installed_client(command_update, update) is None,
        },
{
    if command_update {
        Some(Software::DellCommandUpdate { app_name: "Dell Command Update".to_owned() })
    } else if update {
        Some(Software::DellUpdate { app_name: "Dell Update".to_owned() })
    } else {
        None
    }
}

/// A command to the configuration store.
#[derive(Debug, Clone, PartialEq, Eq)]
pub enum StoreCommand {
    /// Open the key at `path` for reading and writing.
    OpenKey { path: String },
    /// Set the string value `name` of the key `key` to `value`.
    SetString { key: String, name: String, value: String },
    /// Delete the value `name` of the key `key`.
    DeleteValue { key: String, name: String },
}

/// A `StoreCommand` with its texts as sequences of characters.
pub enum StoreCommandView {
    OpenKey { path: Seq<char> },
    SetString { key: Seq<char>, name: Seq<char>, value: Seq<char> },
    DeleteValue { key: Seq<char>, name: Seq<char> },
}

impl View for StoreCommand {
    type V = StoreCommandView;

    open spec fn view(&self) -> StoreCommandView {
        match *self {
            StoreCommand::OpenKey { path } => StoreCommandView::OpenKey { path: path@ },
            StoreCommand::SetString { key, name, value } => StoreCommandView::SetString {
                key: key@,
                name: name@,
                value: value@,
            },
            StoreCommand::DeleteValue { key, name } => StoreCommandView::DeleteValue {
                key: key@,
                name: name@,
            },
        }
    }
}

/// How the store answered a command.
#[derive(Debug, Clone, Copy, PartialEq, Eq, Structural)]
pub enum StoreReply {
    /// The command was carried out.
    Done,
    /// There was nothing to delete.
    Absent,
    /// The command could not be carried out.
    Failed,
}

/// The name of the value that holds the digest record.
pub open spec fn hash_value_name() -> Seq<char> {
    "CustomCatalogHashValues"@
}

/// The names of the values in which the client keeps the times of its last
/// check, its last update and its catalog.
pub open spec fn timestamp_names() -> Seq<Seq<char>> {
    seq!["LastCheckTimestamp"@, "LastUpdateTimestamp"@, "CatalogTimestamp"@]
}

/// The key below `service_key` that holds the client's ignore list.
pub open spec fn ignore_list_key(service_key: Seq<char>) -> Seq<char> {
    service_key + "\\IgnoreList"@
}

/// The names as sequences of characters.
pub open spec fn name_views(names: Seq<String>) -> Seq<Seq<char>> {
    names.map_values(|n: String| n@)
}

/// What a publication puts into the store and what it takes out of it: the
/// digest record as JSON, and the names of the cached values to delete.
#[derive(Debug, Clone, PartialEq, Eq)]
pub struct RegistryPublishRequest {
    pub json: String,
    pub cache_entries: Vec<String>,
}

/// A `RegistryPublishRequest` with its texts as sequences of characters.
pub struct RequestView {
    pub json: Seq<char>,
    pub cache_entries: Seq<Seq<char>>,
}

impl View for RegistryPublishRequest {
    type V = RequestView;

    open spec fn view(&self) -> RequestView {
        RequestView { json: self.json@, cache_entries: name_views(self.cache_entries@) }
    }
}

impl RegistryPublishRequest {
    /// The request that publishes `json` and deletes the three timestamps.
    pub fn new(json: &str) -> (r: RegistryPublishRequest)
        ensures
            r@ == (RequestView { json: json@, cache_entries: timestamp_names() }),
    {
        let mut cache_entries: Vec<String> = Vec::new();
        cache_entries.push("LastCheckTimestamp".to_owned());
        cache_entries.push("LastUpdateTimestamp".to_owned());
        cache_entries.push("CatalogTimestamp".to_owned());
        assert(name_views(cache_entries@) =~= timestamp_names());
        RegistryPublishRequest { json: json.to_owned(), cache_entries }
    }
}

/// The commands that delete the values `value_names` in `key`, in order.
pub open spec fn deletions(key: Seq<char>, value_names: Seq<Seq<char>>) -> Seq<StoreCommandView> {
    Seq::new(
        value_names.len(),
        |i: int| StoreCommandView::DeleteValue { key, name: value_names[i] },
    )
}

/// The commands of a publication, in order: open the service key, set the
/// digest record, delete the cached values below the ignore list, delete them
/// below the service key.
pub open spec fn publish_commands(service_key: Seq<char>, request: RequestView) -> Seq<
    StoreCommandView,
> {
    seq![
        StoreCommandView::OpenKey { path: service_key },
        StoreCommandView::SetString {
            key: service_key,
            name: hash_value_name(),
            value: request.json,
        },
    ] + deletions(ignore_list_key(service_key), request.cache_entries) + deletions(
        service_key,
        request.cache_entries,
    )
}

/// The values of a store: the text under each key and value name that has
/// one.
pub type StoreValues = Map<(Seq<char>, Seq<char>), Seq<char>>;

/// The values of a store after a command was carried out.
pub open spec fn after_command(values: StoreValues, command: StoreCommandView) -> StoreValues {
    match command {
        StoreCommandView::OpenKey { .. } => values,
        StoreCommandView::SetString { key, name, value } => values.insert((key, name), value),
        StoreCommandView::DeleteValue { key, name } => values.remove((key, name)),
    }
}

/// The values of a store after the commands were carried out in order.
pub open spec fn after_commands(values: StoreValues, commands: Seq<StoreCommandView>) -> StoreValues
    decreases commands.len(),
{
    if commands.len() == 0 {
        values
    } else {
        after_command(after_commands(values, commands.drop_last()), commands.last())
    }
}

/// Whether a value of the store is one that a publication deletes.
pub open spec fn is_cleared(
    service_key: Seq<char>,
    request: RequestView,
    key: Seq<char>,
    name: Seq<char>,
) -> bool {
    (key == service_key || key == ignore_list_key(service_key)) && request.cache_entries.contains(
        name,
    )
}

/// Commands carried out one after the other are carried out in two parts.
pub proof fn lemma_after_commands_add(
    values: StoreValues,
    first: Seq<StoreCommandView>,
    second: Seq<StoreCommandView>,
)
    ensures
        after_commands(values, first + second) == after_commands(
            after_commands(values, first),
            second,
        ),
    decreases second.len(),
{
    if second.len() == 0 {
        assert(first + second == first);
    } else {
        lemma_after_commands_add(values, first, second.drop_last());
        assert((first + second).drop_last() == first + second.drop_last());
    }
}

/// The deletions of values in a key take these values out of the store and
/// leave every other value as it was.
pub proof fn lemma_after_deletions(values: StoreValues, key: Seq<char>, names: Seq<Seq<char>>)
    ensures
        forall|k: Seq<char>, n: Seq<char>|
            #![trigger after_commands(values, deletions(key, names)).contains_key((k, n))]
            after_commands(values, deletions(key, names)).contains_key((k, n)) == (
            values.contains_key((k, n)) && !(k == key && names.contains(n))),
        forall|k: Seq<char>, n: Seq<char>|
            #![trigger after_commands(values, deletions(key, names))[(k, n)]]
            after_commands(values, deletions(key, names)).contains_key((k, n)) ==> after_commands(
                values,
                deletions(key, names),
            )[(k, n)] == values[(k, n)],
    decreases names.len(),
{
    let commands = deletions(key, names);
    if names.len() > 0 {
        let front = names.drop_last();
        lemma_after_deletions(values, key, front);
        assert(commands.drop_last() == deletions(key, front));
        let before = after_commands(values, deletions(key, front));
        let after = after_commands(values, commands);
        assert(after == before.remove((key, names.last())));
        assert forall|k: Seq<char>, n: Seq<char>|
            #![trigger after.contains_key((k, n))]
            after.contains_key((k, n)) == (values.contains_key((k, n)) && !(k == key
                && names.contains(n))) by {
            if names.contains(n) {
                let at = choose|i: int| 0 <= i < names.len() && names[i] == n;
                if at < front.len() {
                    assert(front[at] == n);
                }
            }
            if front.contains(n) {
                let at = choose|i: int| 0 <= i < front.len() && front[i] == n;
                assert(names[at] == n);
            }
            assert(names[names.len() - 1] == names.last());
        }
    }
}

/// Whatever the store held before, after a publication the value
/// `CustomCatalogHashValues` of the service key is the digest record, the
/// cached values that the request names are absent below the service key and
/// below its ignore list, and every other value is as it was. This holds of
/// every request that does not name the digest record itself for deletion.
pub proof fn lemma_publication_effect(
    values: StoreValues,
    service_key: Seq<char>,
    request: RequestView,
)
    requires
        !request.cache_entries.contains(hash_value_name()),
    ensures
        ({
            let after = after_commands(values, publish_commands(service_key, request));
            &&& after.contains_key((service_key, hash_value_name()))
            &&& after[(service_key, hash_value_name())] == request.json
            &&& forall|key: Seq<char>, name: Seq<char>|
                is_cleared(service_key, request, key, name) ==> !after.contains_key((key, name))
            &&& forall|key: Seq<char>, name: Seq<char>|
                !is_cleared(service_key, request, key, name) && (key, name) != (
                    service_key,
                    hash_value_name(),
                ) ==> after.contains_key((key, name)) == values.contains_key((key, name)) && (
                after.contains_key((key, name)) ==> after[(key, name)] == values[(key, name)])
        }),
{
    let head = seq![
        StoreCommandView::OpenKey { path: service_key },
        StoreCommandView::SetString {
            key: service_key,
            name: hash_value_name(),
            value: request.json,
        },
    ];
    let nested = deletions(ignore_list_key(service_key), request.cache_entries);
    let direct = deletions(service_key, request.cache_entries);
    let written = values.insert((service_key, hash_value_name()), request.json);
    assert(after_commands(values, head) == written) by {
        let opened = head.drop_last();
        assert(opened.drop_last() == Seq::<StoreCommandView>::empty());
        assert(after_commands(values, opened) == after_command(
            after_commands(values, opened.drop_last()),
            opened.last(),
        ));
    }
    lemma_after_commands_add(values, head, nested);
    lemma_after_commands_add(values, head + nested, direct);
    let cleared = after_commands(written, nested);
    lemma_after_deletions(written, ignore_list_key(service_key), request.cache_entries);
    lemma_after_deletions(cleared, service_key, request.cache_entries);
    let after = after_commands(values, publish_commands(service_key, request));
    assert(after == after_commands(cleared, direct));
    assert(cleared.contains_key((service_key, hash_value_name())));
    assert(after.contains_key((service_key, hash_value_name())));
    assert(after[(service_key, hash_value_name())] == request.json);
    assert forall|key: Seq<char>, name: Seq<char>|
        is_cleared(service_key, request, key, name) implies !after.contains_key((key, name)) by {
        assert(after.contains_key((key, name)) ==> cleared.contains_key((key, name)));
    }
    assert forall|key: Seq<char>, name: Seq<char>|
        !is_cleared(service_key, request, key, name) && (key, name) != (
            service_key,
            hash_value_name(),
        ) implies after.contains_key((key, name)) == values.contains_key((key, name)) && (
    after.contains_key((key, name)) ==> after[(key, name)] == values[(key, name)]) by {
        assert(after.contains_key((key, name)) == cleared.contains_key((key, name)));
        assert(cleared.contains_key((key, name)) == written.contains_key((key, name)));
        if after.contains_key((key, name)) {
            assert(after[(key, name)] == cleared[(key, name)]);
            assert(cleared[(key, name)] == written[(key, name)]);
        }
    }
}

/// The three timestamps are not the name of the digest record, so that the
/// request made for a digest record meets what `lemma_publication_effect`
/// asks of a request.
pub proof fn lemma_timestamps_spare_the_record()
    ensures
        !timestamp_names().contains(hash_value_name()),
{
    reveal_strlit("CustomCatalogHashValues");
    reveal_strlit("LastCheckTimestamp");
    reveal_strlit("LastUpdateTimestamp");
    reveal_strlit("CatalogTimestamp");
    let names = timestamp_names();
    assert(hash_value_name().len() == 23);
    assert(names[0].len() == 18);
    assert(names[1].len() == 19);
    assert(names[2].len() == 16);
}

fn ignore_list_key_of(service_key: &str) -> (r: String)
    ensures
        r@ == ignore_list_key(service_key@),
{
    let mut out: Vec<char> = Vec::new();
    append_str(&mut out, service_key);
    append_str(&mut out, "\\IgnoreList");
    string_of(&out)
}

/// What the caller is to do next.
#[derive(Debug, PartialEq, Eq)]
pub enum PublishStep {
    /// Carry out the command and report the store's reply.
    Run(StoreCommand),
    /// Start the update client of this name; whether it starts is of no
    /// consequence.
    Launch { app_name: String },
    /// The publication is over.
    Finished(Result<(), PublishError>),
}

/// A `PublishStep` with its texts as sequences of characters.
pub enum PublishStepView {
    Run(StoreCommandView),
    Launch { app_name: Seq<char> },
    Finished(Result<(), PublishError>),
}

impl View for PublishStep {
    type V = PublishStepView;

    open spec fn view(&self) -> PublishStepView {
        match *self {
            PublishStep::Run(command) => PublishStepView::Run(command@),
            PublishStep::Launch { app_name } => PublishStepView::Launch { app_name: app_name@ },
            PublishStep::Finished(outcome) => PublishStepView::Finished(outcome),
        }
    }
}

/// What a publication does next.
#[derive(Debug, Clone, Copy, PartialEq, Eq, Structural)]
pub enum PublishPhase {
    /// It opens the service key; nothing went to the store so far.
    Opening,
    /// It writes the digest record, if the service key was opened.
    Writing,
    /// It deletes the cached value number `next`, below the ignore list or
    /// below the service key itself, if the command before was carried out.
    Clearing { nested: bool, next: usize },
    /// It asks for the client to be started, if the last command was carried
    /// out.
    Launching,
    /// It ends well, whether the client was started or not.
    Closing,
    /// It is over and has succeeded.
    Succeeded,
    /// It is over and has failed.
    Failed(PublishError),
}

/// A publication in progress.
#[derive(Debug)]
pub struct Publisher {
    service_key: String,
    request: RegistryPublishRequest,
    app_name: String,
    phase: PublishPhase,
}

/// What a publication is about, and how far it has come.
pub struct PublisherView {
    pub service_key: Seq<char>,
    pub request: RequestView,
    pub app_name: Seq<char>,
    pub phase: PublishPhase,
}

impl View for Publisher {
    type V = PublisherView;

    closed spec fn view(&self) -> PublisherView {
        PublisherView {
            service_key: self.service_key@,
            request: self.request@,
            app_name: self.app_name@,
            phase: self.phase,
        }
    }
}

/// The phase in which the cached value number `next` is deleted, below the
/// ignore list or below the service key: where the request names no such
/// value, the first deletion below the service key is next, or the start of
/// the client.
pub open spec fn clearing_from(entries: int, nested: bool, next: int) -> PublishPhase {
    if next < entries {
        PublishPhase::Clearing { nested, next: next as usize }
    } else if nested && 0 < entries {
        PublishPhase::Clearing { nested: false, next: 0 }
    } else {
        PublishPhase::Launching
    }
}

/// The phase that follows once the store has answered `reply` to the command
/// handed out last. The first refusal ends the publication: with
/// `KeyUnavailable` where the service key could not be opened, with
/// `WriteFailed` where a later command was refused.
pub open spec fn next_phase(publisher: PublisherView, reply: StoreReply) -> PublishPhase {
    let entries = publisher.request.cache_entries.len() as int;
    let refused = reply == StoreReply::Failed;
    match publisher.phase {
        PublishPhase::Opening => PublishPhase::Writing,
        PublishPhase::Writing => if refused {
            PublishPhase::Failed(PublishError::KeyUnavailable)
        } else {
            clearing_from(entries, true, 0)
        },
        PublishPhase::Clearing { nested, next } => if refused {
            PublishPhase::Failed(PublishError::WriteFailed)
        } else {
            clearing_from(entries, nested, next + 1)
        },
        PublishPhase::Launching => if refused {
            PublishPhase::Failed(PublishError::WriteFailed)
        } else {
            PublishPhase::Closing
        },
        PublishPhase::Closing => PublishPhase::Succeeded,
        PublishPhase::Succeeded => PublishPhase::Succeeded,
        PublishPhase::Failed(failure) => PublishPhase::Failed(failure),
    }
}

/// What the caller is told once the store has answered `reply` to the command
/// handed out last.
pub open spec fn step_of(publisher: PublisherView, reply: StoreReply) -> PublishStepView {
    let refused = reply == StoreReply::Failed;
    match publisher.phase {
        PublishPhase::Opening => PublishStepView::Run(
            StoreCommandView::OpenKey { path: publisher.service_key },
        ),
        PublishPhase::Writing => if refused {
            PublishStepView::Finished(Err(PublishError::KeyUnavailable))
        } else {
            PublishStepView::Run(
                StoreCommandView::SetString {
                    key: publisher.service_key,
                    name: hash_value_name(),
                    value: publisher.request.json,
                },
            )
        },
        PublishPhase::Clearing { nested, next } => if refused {
            PublishStepView::Finished(Err(PublishError::WriteFailed))
        } else {
            PublishStepView::Run(
                StoreCommandView::DeleteValue {
                    key: if nested {
                        ignore_list_key(publisher.service_key)
                    } else {
                        publisher.service_key
                    },
                    name: publisher.request.cache_entries[next as int],
                },
            )
        },
        PublishPhase::Launching => if refused {
            PublishStepView::Finished(Err(PublishError::WriteFailed))
        } else {
            PublishStepView::Launch { app_name: publisher.app_name }
        },
        PublishPhase::Closing => PublishStepView::Finished(Ok(())),
        PublishPhase::Succeeded => PublishStepView::Finished(Ok(())),
        PublishPhase::Failed(failure) => PublishStepView::Finished(Err(failure)),
    }
}

/// The publication after the reply `reply`.
pub open spec fn after_reply(publisher: PublisherView, reply: StoreReply) -> PublisherView {
    PublisherView { phase: next_phase(publisher, reply), ..publisher }
}

/// Whether a publication can be: its request names no more values than a
/// vector holds, and a value that it is about to delete is one of them.
pub open spec fn is_in_range(publisher: PublisherView) -> bool {
    &&& publisher.request.cache_entries.len() <= usize::MAX
    &&& publisher.phase matches PublishPhase::Clearing { next, .. } ==> next
        < publisher.request.cache_entries.len()
}

/// How many commands a publication has handed out, as long as it has not
/// failed: the number of the command that it hands out next.
pub open spec fn position(publisher: PublisherView) -> int {
    let entries = publisher.request.cache_entries.len() as int;
    match publisher.phase {
        PublishPhase::Opening => 0,
        PublishPhase::Writing => 1,
        PublishPhase::Clearing { nested, next } => if nested {
            2 + next
        } else {
            2 + entries + next
        },
        _ => 2 + 2 * entries,
    }
}

/// As long as the store refuses nothing, a publication hands out the
/// commands of its request one after the other.
pub proof fn lemma_publication_issues_commands(publisher: PublisherView, reply: StoreReply)
    requires
        is_in_range(publisher),
        publisher.phase is Opening || publisher.phase is Writing || publisher.phase is Clearing,
        reply != StoreReply::Failed || publisher.phase is Opening,
    ensures
        0 <= position(publisher) < publish_commands(publisher.service_key, publisher.request).len(),
        step_of(publisher, reply) == PublishStepView::Run(
            publish_commands(publisher.service_key, publisher.request)[position(publisher)],
        ),
        is_in_range(after_reply(publisher, reply)),
        position(after_reply(publisher, reply)) == position(publisher) + 1,
        after_reply(publisher, reply).phase is Writing || after_reply(publisher, reply).phase
            is Clearing || after_reply(publisher, reply).phase is Launching,
{
}

/// Once all commands are handed out and the last is answered, a publication
/// asks for the client to be started and then ends well, whatever is reported
/// of the client.
pub proof fn lemma_publication_ends_well(
    publisher: PublisherView,
    reply: StoreReply,
    last: StoreReply,
    later: StoreReply,
)
    requires
        publisher.phase is Launching,
        reply != StoreReply::Failed,
    ensures
        position(publisher) == publish_commands(publisher.service_key, publisher.request).len(),
        step_of(publisher, reply) == (PublishStepView::Launch { app_name: publisher.app_name }),
        step_of(after_reply(publisher, reply), last) == PublishStepView::Finished(Ok(())),
        step_of(after_reply(after_reply(publisher, reply), last), later) == PublishStepView::Finished(
            Ok(()),
        ),
{
}

/// The first refusal ends a publication: with `KeyUnavailable` where the
/// service key could not be opened, with `WriteFailed` where a later command
/// was refused; whatever is reported afterwards changes nothing.
pub proof fn lemma_refusal_ends_publication(publisher: PublisherView, later: StoreReply)
    requires
        publisher.phase is Writing || publisher.phase is Clearing || publisher.phase is Launching,
    ensures
        ({
            let failure = if publisher.phase is Writing {
                PublishError::KeyUnavailable
            } else {
                PublishError::WriteFailed
            };
            let failed = after_reply(publisher, StoreReply::Failed);
            &&& step_of(publisher, StoreReply::Failed) == PublishStepView::Finished(Err(failure))
            &&& failed.phase == PublishPhase::Failed(failure)
            &&& step_of(failed, later) == PublishStepView::Finished(Err(failure))
            &&& after_reply(failed, later) == failed
        }),
{
}

impl Publisher {
    #[verifier::type_invariant]
    spec fn in_range(&self) -> bool {
        self.phase matches PublishPhase::Clearing { next, .. } ==> next
            < self.request.cache_entries.len()
    }

    /// A publication of `request` below `service_key`, after which the client
    /// `app_name` is started.
    pub fn new(service_key: &str, request: RegistryPublishRequest, app_name: &str) -> (r: Publisher)
        ensures
            r@ == (PublisherView {
                service_key: service_key@,
                request: request@,
                app_name: app_name@,
                phase: PublishPhase::Opening,
            }),
    {
        Publisher {
            service_key: service_key.to_owned(),
            request,
            app_name: app_name.to_owned(),
            phase: PublishPhase::Opening,
        }
    }

    /// What the publication does next.
    pub fn phase(&self) -> (r: PublishPhase)
        ensures
            r == self@.phase,
            is_in_range(self@),
    {
        let entries = self.request.cache_entries.len();
        proof {
            use_type_invariant(self);
            assert(self@.request.cache_entries.len() == entries);
        }
        self.phase
    }

    fn clearing_from(&self, nested: bool, next: usize) -> (r: PublishPhase)
        ensures
            r == clearing_from(self@.request.cache_entries.len() as int, nested, next as int),
            r matches PublishPhase::Clearing { next: n, .. } ==> n < self.request.cache_entries.len(),
    {
        if next < self.request.cache_entries.len() {
            PublishPhase::Clearing { nested, next }
        } else if nested && 0 < self.request.cache_entries.len() {
            PublishPhase::Clearing { nested: false, next: 0 }
        } else {
            PublishPhase::Launching
        }
    }

    /// Takes the reply to the step handed out last and hands out the next
    /// step. The reply given with the first call is not looked at.
    pub fn next(&mut self, reply: StoreReply) -> (step: PublishStep)
        ensures
            final(self)@ == after_reply(old(self)@, reply),
            step@ == step_of(old(self)@, reply),
    {
        proof {
            use_type_invariant(&*self);
        }
        let refused = reply == StoreReply::Failed;
        match self.phase {
            PublishPhase::Opening => {
                self.phase = PublishPhase::Writing;
                PublishStep::Run(StoreCommand::OpenKey { path: self.service_key.clone() })
            },
            PublishPhase::Writing => {
                if refused {
                    self.phase = PublishPhase::Failed(PublishError::KeyUnavailable);
                    PublishStep::Finished(Err(PublishError::KeyUnavailable))
                } else {
                    let phase = self.clearing_from(true, 0);
                    self.phase = phase;
                    PublishStep::Run(
                        StoreCommand::SetString {
                            key: self.service_key.clone(),
                            name: "CustomCatalogHashValues".to_owned(),
                            value: self.request.json.clone(),
                        },
                    )
                }
            },
            PublishPhase::Clearing { nested, next } => {
                if refused {
                    self.phase = PublishPhase::Failed(PublishError::WriteFailed);
                    PublishStep::Finished(Err(PublishError::WriteFailed))
                } else {
                    let key = if nested {
                        ignore_list_key_of(self.service_key.as_str())
                    } else {
                        self.service_key.clone()
                    };
                    let name = self.request.cache_entries[next].clone();
                    let phase = self.clearing_from(nested, next + 1);
                    self.phase = phase;
                    PublishStep::Run(StoreCommand::DeleteValue { key, name })
                }
            },
            PublishPhase::Launching => {
                if refused {
                    self.phase = PublishPhase::Failed(PublishError::WriteFailed);
                    PublishStep::Finished(Err(PublishError::WriteFailed))
                } else {
                    self.phase = PublishPhase::Closing;
                    PublishStep::Launch { app_name: self.app_name.clone() }
                }
            },
            PublishPhase::Closing => {
                self.phase = PublishPhase::Succeeded;
                PublishStep::Finished(Ok(()))
            },
            PublishPhase::Succeeded => PublishStep::Finished(Ok(())),
            PublishPhase::Failed(failure) => PublishStep::Finished(Err(failure)),
        }
    }
}

/// Begins the publication of the digest record `str_hash` for the installed
/// client.
pub fn handle_reg(str_hash: &str, software: &Software) -> (r: Publisher)
    ensures
        r@ == (PublisherView {
            service_key: SERVICE_KEY@,
            request: RequestView { json: str_hash@, cache_entries: timestamp_names() },
            app_name: software.spec_app_name(),
            phase: PublishPhase::Opening,
        }),
{
    Publisher::new(SERVICE_KEY, RegistryPublishRequest::new(str_hash), software.app_name())
}

} // verus!
