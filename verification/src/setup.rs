use crate::fetch_processes::ProcessSnapshot;
use crate::mqtt::{
    message_for, server_uri, ConnectPlan, Message, MessageModel, MqttClient, CONNECT_TIMEOUT_SECS,
    RETRY_INTERVAL_SECS,
};
use crate::mqtt_settings::MqttSettings;
use crate::process_entry::{models, EntryModel, ProcessEntry};
use vstd::prelude::*;

verus! {

/// A message that accompanies every start of a watched process, whatever the
/// trigger: it is published right after the trigger's own message.
#[derive(Debug, Clone, PartialEq)]
pub struct Companion {
    pub topic: String,
    pub payload: String,
}

/// The mathematical content of a [`Companion`].
pub struct CompanionModel {
    pub topic: Seq<char>,
    pub payload: Seq<char>,
}

impl View for Companion {
    type V = CompanionModel;

    open spec fn view(&self) -> CompanionModel {
        CompanionModel { topic: self.topic@, payload: self.payload@ }
    }
}

/// The content of an optional companion.
pub open spec fn companion_model(companion: Option<Companion>) -> Option<CompanionModel> {
    match companion {
        Some(c) => Some(c@),
        None => None,
    }
}

/// The companion that sets the brightness of the status light.
pub open spec fn brightness_companion() -> CompanionModel {
    CompanionModel { topic: "tgn/esp_3/neopixel/brightness"@, payload: "150"@ }
}

impl Companion {
    /// The companion that sets the brightness of the status light.
    pub fn brightness() -> (companion: Companion)
        ensures
            companion@ == brightness_companion(),
    {
        Companion {
            topic: String::from_str("tgn/esp_3/neopixel/brightness"),
            payload: String::from_str("150"),
        }
    }
}

/// What one tick hands to the outside: the messages to send, in order, and the
/// running state of every trigger, in the order of the list.
#[derive(Debug, Clone, PartialEq)]
pub struct TickOutcome {
    pub messages: Vec<Message>,
    pub running_states: Vec<bool>,
}

/// The models of a list of messages, in order.
pub open spec fn message_models(messages: Seq<Message>) -> Seq<MessageModel> {
    messages.map_values(|m: Message| m@)
}

/// The watched process is in the snapshot, and the trigger was not running.
pub open spec fn starts(entry: EntryModel, snapshot: Set<Seq<char>>) -> bool {
    !entry.is_running && snapshot.contains(entry.name)
}

/// The watched process is not in the snapshot, and the trigger was running.
pub open spec fn stops(entry: EntryModel, snapshot: Set<Seq<char>>) -> bool {
    entry.is_running && !snapshot.contains(entry.name)
}

/// The trigger changes state on this snapshot.
pub open spec fn changes(entry: EntryModel, snapshot: Set<Seq<char>>) -> bool {
    starts(entry, snapshot) || stops(entry, snapshot)
}

/// The trigger after a tick: it runs exactly if its process is in the
/// snapshot; nothing else about it changes.
pub open spec fn observed(entry: EntryModel, snapshot: Set<Seq<char>>) -> EntryModel {
    EntryModel { is_running: snapshot.contains(entry.name), ..entry }
}

/// The list after a tick.
pub open spec fn observed_all(entries: Seq<EntryModel>, snapshot: Set<Seq<char>>) -> Seq<
    EntryModel,
> {
    entries.map_values(|e: EntryModel| observed(e, snapshot))
}

/// The running states of a list, in order.
pub open spec fn running_states(entries: Seq<EntryModel>) -> Seq<bool> {
    entries.map_values(|e: EntryModel| e.is_running)
}

/// The trigger's own message for the transition it makes on this snapshot:
/// the on-value when it starts, the off-value otherwise.
pub open spec fn transition_message(entry: EntryModel, snapshot: Set<Seq<char>>) -> MessageModel {
    if starts(entry, snapshot) {
        message_for(entry.topic, entry.value)
    } else {
        message_for(entry.topic, entry.off_value)
    }
}

/// The messages that the companion adds to a start.
pub open spec fn companion_messages(companion: Option<CompanionModel>) -> Seq<MessageModel> {
    match companion {
        Some(c) => seq![message_for(c.topic, c.payload)],
        None => Seq::empty(),
    }
}

/// What one trigger publishes on a tick: on a start its on-value and then the
/// companion, on a stop its off-value, and nothing while its state holds.
pub open spec fn entry_messages(
    entry: EntryModel,
    snapshot: Set<Seq<char>>,
    companion: Option<CompanionModel>,
) -> Seq<MessageModel> {
    if starts(entry, snapshot) {
        seq![message_for(entry.topic, entry.value)] + companion_messages(companion)
    } else if stops(entry, snapshot) {
        seq![message_for(entry.topic, entry.off_value)]
    } else {
        Seq::empty()
    }
}

/// What a tick publishes: the messages of each trigger, in the order of the
/// list.
pub open spec fn tick_messages(
    entries: Seq<EntryModel>,
    snapshot: Set<Seq<char>>,
    companion: Option<CompanionModel>,
) -> Seq<MessageModel>
    decreases entries.len(),
{
    if entries.len() == 0 {
        Seq::empty()
    } else {
        tick_messages(entries.drop_last(), snapshot, companion) + entry_messages(
            entries.last(),
            snapshot,
            companion,
        )
    }
}

/// How many triggers of the list satisfy `pred`.
pub open spec fn count(entries: Seq<EntryModel>, pred: spec_fn(EntryModel) -> bool) -> nat
    decreases entries.len(),
{
    if entries.len() == 0 {
        0
    } else {
        count(entries.drop_last(), pred) + if pred(entries.last()) {
            1nat
        } else {
            0nat
        }
    }
}

/// One tick of the reconciliation: every trigger is compared with the snapshot
/// and takes the state it finds there. Each trigger that changes state gets its
/// message through the client, which drops it when it holds no session; the
/// state changes either way.
pub fn reconcile(
    entries: &mut Vec<ProcessEntry>,
    processes: &ProcessSnapshot,
    client: &MqttClient,
    companion: &Option<Companion>,
) -> (outcome: TickOutcome)
    ensures
        models(final(entries)@) == observed_all(models(old(entries)@), processes@),
        forall|i: int|
            0 <= i < final(entries).len() ==> (#[trigger] final(entries)@[i]).is_running
                == processes@.contains(final(entries)@[i].name@),
        message_models(outcome.messages@) == if client.has_session() {
            tick_messages(models(old(entries)@), processes@, companion_model(*companion))
        } else {
            Seq::empty()
        },
        outcome.running_states@ == running_states(models(final(entries)@)),
{
    let mut messages: Vec<Message> = Vec::new();
    let mut states: Vec<bool> = Vec::new();
    let ghost before = models(entries@);
    let ghost snapshot = processes@;
    let ghost extra = companion_model(*companion);
    let mut i: usize = 0;
    assert(message_models(messages@) =~= Seq::empty());
    while i < entries.len()
        invariant
            i <= entries.len(),
            entries.len() == before.len(),
            snapshot == processes@,
            extra == companion_model(*companion),
            forall|j: int| 0 <= j < i ==> (#[trigger] entries@[j])@ == observed(before[j], snapshot),
            forall|j: int| i <= j < entries.len() ==> (#[trigger] entries@[j])@ == before[j],
            message_models(messages@) == if client.has_session() {
                tick_messages(before.take(i as int), snapshot, extra)
            } else {
                Seq::empty()
            },
            states@.len() == i,
            forall|j: int| 0 <= j < i ==> #[trigger] states@[j] == snapshot.contains(before[j].name),
        decreases entries.len() - i,
    {
        let ghost sent = message_models(messages@);
        let ghost entry = before[i as int];
        assert(before.take(i + 1).drop_last() =~= before.take(i as int));
        assert(before.take(i + 1).last() == entry);
        let found = processes.contains(entries[i].name.as_str());
        if found && !entries[i].is_running {
            entries[i].is_running = true;
            match client.publish(&entries[i].topic, &entries[i].value) {
                Some(message) => {
                    messages.push(message);
                },
                None => {},
            }
            match companion {
                Some(c) => {
                    match client.publish(&c.topic, &c.payload) {
                        Some(message) => {
                            messages.push(message);
                        },
                        None => {},
                    }
                },
                None => {},
            }
        } else if !found && entries[i].is_running {
            entries[i].is_running = false;
            match client.publish(&entries[i].topic, &entries[i].off_value) {
                Some(message) => {
                    messages.push(message);
                },
                None => {},
            }
        }
        states.push(entries[i].is_running);
        assert(message_models(messages@) =~= if client.has_session() {
            sent + entry_messages(entry, snapshot, extra)
        } else {
            Seq::empty()
        });
        i += 1;
    }
    assert(before.take(i as int) =~= before);
    assert(models(entries@) =~= observed_all(before, snapshot));
    assert(states@ =~= running_states(models(entries@)));
    TickOutcome { messages, running_states: states }
}

/// A list as it is taken up at startup: no trigger counts as running before
/// the first tick has looked.
pub open spec fn at_rest(entries: Seq<EntryModel>) -> Seq<EntryModel> {
    entries.map_values(|e: EntryModel| EntryModel { is_running: false, ..e })
}

/// Takes up what was saved: the trigger list, every trigger not running, and
/// the broker settings, with which a first connection is started.
pub fn setup(
    entries: &mut Vec<ProcessEntry>,
    client: &mut MqttClient,
    saved_entries: Vec<ProcessEntry>,
    saved_settings: MqttSettings,
) -> (plan: ConnectPlan)
    ensures
        models(final(entries)@) == at_rest(models(saved_entries@)),
        final(client).settings() == Some(saved_settings@),
        !final(client).has_session(),
        plan.disconnect_first == old(client).has_session(),
        plan.server_uri matches Some(uri) && uri@ == server_uri(saved_settings@),
        plan.timeout_secs == CONNECT_TIMEOUT_SECS,
        plan.retry_interval_secs == RETRY_INTERVAL_SECS,
{
    let mut loaded = saved_entries;
    let mut i: usize = 0;
    while i < loaded.len()
        invariant
            i <= loaded.len(),
            loaded.len() == saved_entries.len(),
            forall|j: int|
                0 <= j < i ==> (#[trigger] loaded@[j])@ == (EntryModel {
                    is_running: false,
                    ..saved_entries@[j]@
                }),
            forall|j: int| i <= j < loaded.len() ==> (#[trigger] loaded@[j])@ == saved_entries@[j]@,
        decreases loaded.len() - i,
    {
        loaded[i].is_running = false;
        i += 1;
    }
    assert(models(loaded@) =~= at_rest(models(saved_entries@)));
    *entries = loaded;
    client.set_settings(saved_settings);
    client.connect()
}

/// After a tick every trigger runs exactly if its process is in the snapshot
/// of that tick.
pub proof fn lemma_tick_follows_snapshot(entries: Seq<EntryModel>, snapshot: Set<Seq<char>>, i: int)
    requires
        0 <= i < entries.len(),
    ensures
        observed_all(entries, snapshot)[i].is_running == snapshot.contains(entries[i].name),
        observed_all(entries, snapshot)[i].name == entries[i].name,
        observed_all(entries, snapshot)[i].topic == entries[i].topic,
        observed_all(entries, snapshot)[i].value == entries[i].value,
        observed_all(entries, snapshot)[i].off_value == entries[i].off_value,
{
}

/// Without a companion a tick publishes exactly one message for each trigger
/// that changes state, in the order of the list, and none for the others: the
/// on-value of a trigger that starts, the off-value of one that stops.
pub proof fn lemma_one_message_per_transition(entries: Seq<EntryModel>, snapshot: Set<Seq<char>>)
    ensures
        tick_messages(entries, snapshot, None) == entries.filter(
            |e: EntryModel| changes(e, snapshot),
        ).map_values(|e: EntryModel| transition_message(e, snapshot)),
        tick_messages(entries, snapshot, None).len() == count(
            entries,
            |e: EntryModel| changes(e, snapshot),
        ),
    decreases entries.len(),
{
    let pred = |e: EntryModel| changes(e, snapshot);
    let msg = |e: EntryModel| transition_message(e, snapshot);
    reveal(Seq::filter);
    if entries.len() == 0 {
        assert(entries.filter(pred).map_values(msg) =~= Seq::empty());
    } else {
        let rest = entries.drop_last();
        let last = entries.last();
        lemma_one_message_per_transition(rest, snapshot);
        if pred(last) {
            assert(entries.filter(pred) == rest.filter(pred).push(last));
            assert(rest.filter(pred).push(last).map_values(msg) =~= rest.filter(pred).map_values(
                msg,
            ).push(msg(last)));
            assert(entry_messages(last, snapshot, None) =~= seq![msg(last)]);
            assert(tick_messages(entries, snapshot, None) =~= tick_messages(
                rest,
                snapshot,
                None,
            ).push(msg(last)));
        } else {
            assert(entries.filter(pred) == rest.filter(pred));
            assert(entry_messages(last, snapshot, None) =~= Seq::empty());
            assert(tick_messages(entries, snapshot, None) =~= tick_messages(rest, snapshot, None));
        }
    }
}

/// With a companion a tick publishes one message for each trigger that
/// changes state, and one more for each that starts.
pub proof fn lemma_message_count(
    entries: Seq<EntryModel>,
    snapshot: Set<Seq<char>>,
    companion: CompanionModel,
)
    ensures
        tick_messages(entries, snapshot, Some(companion)).len() == count(
            entries,
            |e: EntryModel| changes(e, snapshot),
        ) + count(entries, |e: EntryModel| starts(e, snapshot)),
    decreases entries.len(),
{
    if entries.len() > 0 {
        lemma_message_count(entries.drop_last(), snapshot, companion);
    }
}

/// A tick on which no trigger changes state publishes nothing.
pub proof fn lemma_quiet_tick(
    entries: Seq<EntryModel>,
    snapshot: Set<Seq<char>>,
    companion: Option<CompanionModel>,
)
    requires
        forall|i: int| 0 <= i < entries.len() ==> !changes(#[trigger] entries[i], snapshot),
    ensures
        tick_messages(entries, snapshot, companion) == Seq::<MessageModel>::empty(),
    decreases entries.len(),
{
    if entries.len() > 0 {
        lemma_quiet_tick(entries.drop_last(), snapshot, companion);
        assert(!changes(entries[entries.len() - 1], snapshot));
    }
}

/// Publishing is edge-triggered: a second tick on the same snapshot finds no
/// trigger that changes state, publishes nothing and leaves the list as it is.
pub proof fn lemma_second_tick_is_quiet(
    entries: Seq<EntryModel>,
    snapshot: Set<Seq<char>>,
    companion: Option<CompanionModel>,
)
    ensures
        tick_messages(observed_all(entries, snapshot), snapshot, companion) == Seq::<
            MessageModel,
        >::empty(),
        observed_all(observed_all(entries, snapshot), snapshot) == observed_all(entries, snapshot),
{
    lemma_quiet_tick(observed_all(entries, snapshot), snapshot, companion);
    assert(observed_all(observed_all(entries, snapshot), snapshot) =~= observed_all(
        entries,
        snapshot,
    ));
}

} // verus!
