use crate::fetch_processes::{name_views, ProcessSnapshot};
use crate::mqtt::{
    server_uri, ConnectPlan, MqttClient, CONNECT_TIMEOUT_SECS, RETRY_INTERVAL_SECS,
};
use crate::mqtt_settings::{MqttSettings, SettingsModel};
use crate::process_entry::{blank_model, models, EntryModel, ProcessEntry};
use crate::sorting::{
    bytes_le, lemma_bytes_le_total, lemma_bytes_le_transitive, lowercase, slice_le, sort_key,
    sorted_by_key, to_lowercase,
};
use crate::storage::{
    entries_bytes, saved_entries, saved_settings, settings_bytes, writes, FileRead, FileWrite,
    Storage, MQTT_SETTINGS_PATH, PROCESS_ENTRYS_PATH,
};
use vstd::prelude::*;

verus! {

/// Why a command on the trigger list was refused.
#[derive(Debug, Clone, Copy, PartialEq, Eq, Structural)]
pub enum CommandError {
    /// The index names no trigger of the list.
    IndexOutOfRange,
}

/// What follows a change of the broker settings: the file to write, and the
/// connection to open.
#[derive(Debug, Clone, PartialEq)]
pub struct SettingsChange {
    pub write: Option<FileWrite>,
    pub plan: ConnectPlan,
}

/// The trigger at `index` with its four editable fields replaced; its running
/// state stays.
pub open spec fn edited(
    entry: EntryModel,
    name: Seq<char>,
    topic: Seq<char>,
    value: Seq<char>,
    off_value: Seq<char>,
) -> EntryModel {
    EntryModel { is_running: entry.is_running, name, topic, value, off_value }
}

/// Whether `write` asks for exactly the file that holds `entries`, as far as
/// the storage has a directory and the list can be encoded.
pub open spec fn writes_through(
    write: Option<FileWrite>,
    storage: Storage,
    entries: Seq<EntryModel>,
) -> bool {
    &&& writes(
        write,
        PROCESS_ENTRYS_PATH@,
        if storage.path is Some {
            entries_bytes(entries)
        } else {
            None
        },
    )
    &&& write matches Some(w) ==> saved_entries(storage.path, FileRead::Content(w.data)) == entries
}

/// Appends a trigger with empty fields that is not running, and asks for the
/// new list to be saved.
pub fn add_process_entry(entries: &mut Vec<ProcessEntry>, storage: &Storage) -> (write: Option<
    FileWrite,
>)
    ensures
        models(final(entries)@) == models(old(entries)@).push(blank_model()),
        writes_through(write, *storage, models(final(entries)@)),
{
    let ghost before = models(entries@);
    entries.push(ProcessEntry::blank());
    assert(models(entries@) =~= before.push(blank_model()));
    storage.save_process_entrys(entries.as_slice())
}

/// Removes the trigger at `index`, and asks for the new list to be saved. An
/// index that names no trigger is refused, and the list stays as it was.
pub fn delete_process_entry(entries: &mut Vec<ProcessEntry>, storage: &Storage, index: usize) -> (done:
    Result<Option<FileWrite>, CommandError>)
    ensures
        index < old(entries).len() ==> done is Ok && models(final(entries)@) == models(
            old(entries)@,
        ).remove(index as int) && writes_through(done->Ok_0, *storage, models(final(entries)@)),
        index >= old(entries).len() ==> done == Err::<Option<FileWrite>, CommandError>(
            CommandError::IndexOutOfRange,
        ) && final(entries)@ == old(entries)@,
{
    if index >= entries.len() {
        return Err(CommandError::IndexOutOfRange);
    }
    let ghost before = models(entries@);
    entries.remove(index);
    assert(models(entries@) =~= before.remove(index as int));
    Ok(storage.save_process_entrys(entries.as_slice()))
}

/// Replaces name, topic and the two payloads of the trigger at `index`, leaves
/// its running state, and asks for the list to be saved. An index that names
/// no trigger is refused, and the list stays as it was.
pub fn update_process_entry(
    entries: &mut Vec<ProcessEntry>,
    storage: &Storage,
    index: usize,
    name: String,
    topic: String,
    value: String,
    off_value: String,
) -> (done: Result<Option<FileWrite>, CommandError>)
    ensures
        index < old(entries).len() ==> done is Ok && models(final(entries)@) == models(
            old(entries)@,
        ).update(
            index as int,
            edited(old(entries)@[index as int]@, name@, topic@, value@, off_value@),
        ) && writes_through(done->Ok_0, *storage, models(final(entries)@)),
        index >= old(entries).len() ==> done == Err::<Option<FileWrite>, CommandError>(
            CommandError::IndexOutOfRange,
        ) && final(entries)@ == old(entries)@,
{
    if index >= entries.len() {
        return Err(CommandError::IndexOutOfRange);
    }
    let ghost before = models(entries@);
    entries[index].name = name;
    entries[index].topic = topic;
    entries[index].value = value;
    entries[index].off_value = off_value;
    assert(models(entries@) =~= before.update(
        index as int,
        edited(before[index as int], name@, topic@, value@, off_value@),
    ));
    Ok(storage.save_process_entrys(entries.as_slice()))
}

/// A copy of the trigger list, in order.
pub fn get_process_entrys(entries: &Vec<ProcessEntry>) -> (copy: Vec<ProcessEntry>)
    ensures
        models(copy@) == models(entries@),
{
    let mut copy: Vec<ProcessEntry> = Vec::new();
    let mut i: usize = 0;
    while i < entries.len()
        invariant
            i <= entries.len(),
            copy.len() == i,
            forall|j: int| 0 <= j < i ==> (#[trigger] copy@[j])@ == entries@[j]@,
        decreases entries.len() - i,
    {
        copy.push(entries[i].duplicate());
        i += 1;
    }
    assert(models(copy@) =~= models(entries@));
    copy
}

/// The names of the snapshot as a list for display: each name once, in the
/// order of the lowercase forms of the names.
pub fn get_processes(processes: &ProcessSnapshot) -> (names: Vec<String>)
    ensures
        name_views(names@).no_duplicates(),
        name_views(names@).to_set() == processes@,
        names.len() == processes@.len(),
        sorted_by_key(name_views(names@)),
{
    let mut names: Vec<String> = Vec::new();
    let mut keys: Vec<String> = Vec::new();
    let count = processes.len();
    let ghost listing = processes.listing();
    assert(name_views(names@).to_set() =~= listing.take(0).to_set());
    let mut i: usize = 0;
    while i < count
        invariant
            i <= count,
            count == listing.len(),
            listing == processes.listing(),
            listing.no_duplicates(),
            names.len() == i,
            keys.len() == i,
            forall|j: int| 0 <= j < i ==> (#[trigger] keys@[j])@ == lowercase(names@[j]@),
            sorted_by_key(name_views(names@)),
            name_views(names@).no_duplicates(),
            name_views(names@).to_set() == listing.take(i as int).to_set(),
        decreases count - i,
    {
        let name = processes.name_at(i);
        let key = to_lowercase(name.as_str());
        let ghost placed = name_views(names@);
        let ghost old_keys = keys@;
        let mut at: usize = 0;
        while at < keys.len() && slice_le(keys[at].as_str().as_bytes(), key.as_str().as_bytes())
            invariant
                at <= keys.len(),
                keys.len() == names.len(),
                keys@ == old_keys,
                placed == name_views(names@),
                key@ == lowercase(name@),
                forall|j: int| 0 <= j < keys.len() ==> (#[trigger] keys@[j])@ == lowercase(names@[j]@),
                forall|j: int|
                    0 <= j < at ==> bytes_le(sort_key(#[trigger] placed[j]), sort_key(name@)),
            decreases keys.len() - at,
        {
            at += 1;
        }
        proof {
            assert(!listing.take(i as int).contains(name@)) by {
                if listing.take(i as int).contains(name@) {
                    let j = choose|j: int| 0 <= j < i && listing.take(i as int)[j] == name@;
                    assert(listing[j] == listing[i as int]);
                }
            }
            assert(!placed.contains(name@)) by {
                if placed.contains(name@) {
                    assert(placed.to_set().contains(name@));
                    assert(listing.take(i as int).to_set().contains(name@));
                }
            }
            if at < keys.len() {
                lemma_bytes_le_total(sort_key(placed[at as int]), sort_key(name@));
                assert forall|j: int| at <= j < placed.len() implies bytes_le(
                    sort_key(name@),
                    sort_key(#[trigger] placed[j]),
                ) by {
                    if j > at {
                        assert(bytes_le(sort_key(placed[at as int]), sort_key(placed[j])));
                        lemma_bytes_le_transitive(
                            sort_key(name@),
                            sort_key(placed[at as int]),
                            sort_key(placed[j]),
                        );
                    }
                }
            }
        }
        names.insert(at, name.clone());
        keys.insert(at, key);
        proof {
            let grown = name_views(names@);
            assert(grown =~= placed.insert(at as int, name@));
            assert(grown.len() == placed.len() + 1);
            assert forall|a: int, b: int| 0 <= a < b < grown.len() implies bytes_le(
                sort_key(#[trigger] grown[a]),
                sort_key(#[trigger] grown[b]),
            ) by {
                if a == at {
                    assert(grown[b] == placed[b - 1]);
                } else if b == at {
                    assert(grown[a] == placed[a]);
                } else {
                    let pa = if a < at { a } else { a - 1 };
                    let pb = if b < at { b } else { b - 1 };
                    assert(grown[a] == placed[pa]);
                    assert(grown[b] == placed[pb]);
                }
            }
            assert forall|a: int, b: int| 0 <= a < grown.len() && 0 <= b < grown.len() && a
                != b implies grown[a] != grown[b] by {
                let pa = if a < at { a } else { a - 1 };
                let pb = if b < at { b } else { b - 1 };
                if a == at {
                    assert(grown[b] == placed[pb]);
                    assert(placed.contains(placed[pb]));
                } else if b == at {
                    assert(grown[a] == placed[pa]);
                    assert(placed.contains(placed[pa]));
                } else {
                    assert(grown[a] == placed[pa]);
                    assert(grown[b] == placed[pb]);
                }
            }
            let seen = listing.take(i + 1);
            assert(seen =~= listing.take(i as int).push(name@));
            listing.take(i as int).lemma_push_to_set_commute(name@);
            assert forall|n: Seq<char>| #[trigger] grown.to_set().contains(n) <==> placed.to_set().insert(
                name@,
            ).contains(n) by {
                if grown.contains(n) {
                    let a = choose|a: int| 0 <= a < grown.len() && grown[a] == n;
                    if a != at {
                        let pa = if a < at { a } else { a - 1 };
                        assert(grown[a] == placed[pa]);
                        assert(placed.contains(n));
                    }
                }
                if placed.contains(n) {
                    let pa = choose|pa: int| 0 <= pa < placed.len() && placed[pa] == n;
                    let a = if pa < at { pa } else { pa + 1 };
                    assert(grown[a] == n);
                }
                if n == name@ {
                    assert(grown[at as int] == n);
                }
            }
            assert(grown.to_set() =~= seen.to_set());
            assert forall|j: int| 0 <= j < i + 1 implies (#[trigger] keys@[j])@ == lowercase(
                names@[j]@,
            ) by {
                if j != at {
                    let pj = if j < at { j } else { j - 1 };
                    assert(keys@[j] == old_keys[pj]);
                    assert(grown[j] == placed[pj]);
                }
            }
        }
        i += 1;
    }
    assert(listing.take(i as int) =~= listing);
    names
}

/// Starts a fresh connection with the settings that the client has.
pub fn mqtt_connect(client: &mut MqttClient) -> (plan: ConnectPlan)
    ensures
        !final(client).has_session(),
        final(client).settings() == old(client).settings(),
        plan.disconnect_first == old(client).has_session(),
        match old(client).settings() {
            Some(settings) => plan.server_uri matches Some(uri) && uri@ == server_uri(settings),
            None => plan.server_uri is None,
        },
        plan.timeout_secs == CONNECT_TIMEOUT_SECS,
        plan.retry_interval_secs == RETRY_INTERVAL_SECS,
{
    client.connect()
}

/// The settings that the client connects with, if it has any.
pub fn get_mqtt_connection(client: &MqttClient) -> (settings: Option<MqttSettings>)
    ensures
        settings is Some <==> client.settings() is Some,
        settings matches Some(s) ==> client.settings() == Some(s@),
{
    client.current_settings()
}

/// Takes new broker settings: asks for them to be saved, gives them to the
/// client, and starts a fresh connection with them.
pub fn save_mqtt_connection(client: &mut MqttClient, storage: &Storage, ip: String, port: u16) -> (change:
    SettingsChange)
    ensures
        final(client).settings() == Some(SettingsModel { ip: ip@, port }),
        !final(client).has_session(),
        writes(
            change.write,
            MQTT_SETTINGS_PATH@,
            if storage.path is Some {
                settings_bytes(SettingsModel { ip: ip@, port })
            } else {
                None
            },
        ),
        change.write matches Some(w) ==> saved_settings(storage.path, FileRead::Content(w.data))
            == (SettingsModel { ip: ip@, port }),
        change.plan.disconnect_first == old(client).has_session(),
        change.plan.server_uri matches Some(uri) && uri@ == server_uri(
            SettingsModel { ip: ip@, port },
        ),
        change.plan.timeout_secs == CONNECT_TIMEOUT_SECS,
        change.plan.retry_interval_secs == RETRY_INTERVAL_SECS,
{
    let settings = MqttSettings { ip, port };
    let write = storage.save_mqtt_settings(&settings);
    client.set_settings(settings);
    let plan = client.connect();
    SettingsChange { write, plan }
}

} // verus!
