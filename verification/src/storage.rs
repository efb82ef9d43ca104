use crate::mqtt_settings::{default_settings, MqttSettings, SettingsModel};
use crate::process_entry::{models, EntryModel, ProcessEntry};
use vstd::prelude::*;

verus! {

/// The file of the storage directory that holds the trigger list.
pub const PROCESS_ENTRYS_PATH: &'static str = "process_entrys.dat";

/// The file of the storage directory that holds the broker settings.
pub const MQTT_SETTINGS_PATH: &'static str = "mqtt_settings.dat";

/// Where the trigger list and the broker settings are kept. The library
/// decides what is written and how what was read is understood; reading and
/// writing the files is the caller's part.
pub struct Storage {
    pub path: Option<String>,
}

/// What the caller found when it read a file of the storage directory.
#[derive(Debug, Clone, PartialEq)]
pub enum FileRead {
    /// There is no such file.
    Missing,
    /// The file is there and could not be read.
    Unreadable,
    /// The bytes of the file.
    Content(Vec<u8>),
}

/// A file that the caller is asked to write into the storage directory,
/// replacing what it held.
#[derive(Debug, Clone, PartialEq)]
pub struct FileWrite {
    pub file_name: String,
    pub data: Vec<u8>,
}

/// The settings read at startup, and the file to write if none was there.
#[derive(Debug, Clone, PartialEq)]
pub struct LoadedSettings {
    pub settings: MqttSettings,
    pub write_back: Option<FileWrite>,
}

#[verifier::external_type_specification]
#[verifier::external_body]
pub struct ExErrorKind(bincode::ErrorKind);

/// What `bincode::serialize` returns for a list of entries, each given by its
/// fields in order; `None` where it fails.
pub uninterp spec fn bincode_entries(
    rows: Seq<(bool, Seq<char>, Seq<char>, Seq<char>, Seq<char>)>,
) -> Option<Seq<u8>>;

/// What `bincode::deserialize` reads as a list of entries from `data`; `None`
/// where it fails.
pub uninterp spec fn bincode_read_entries(data: Seq<u8>) -> Option<
    Seq<(bool, Seq<char>, Seq<char>, Seq<char>, Seq<char>)>,
>;

/// What `bincode::serialize` returns for broker settings, given as host and
/// port; `None` where it fails.
pub uninterp spec fn bincode_settings(ip: Seq<char>, port: u16) -> Option<Seq<u8>>;

/// What `bincode::deserialize` reads as broker settings from `data`; `None`
/// where it fails.
pub uninterp spec fn bincode_read_settings(data: Seq<u8>) -> Option<(Seq<char>, u16)>;

/// The contents of a list of rows.
pub open spec fn row_views(rows: Seq<(bool, String, String, String, String)>) -> Seq<
    (bool, Seq<char>, Seq<char>, Seq<char>, Seq<char>),
> {
    rows.map_values(|r: (bool, String, String, String, String)| (r.0, r.1@, r.2@, r.3@, r.4@))
}

/// An entry as the row of its fields.
pub open spec fn entry_row(entry: EntryModel) -> (bool, Seq<char>, Seq<char>, Seq<char>, Seq<char>) {
    (entry.is_running, entry.name, entry.topic, entry.value, entry.off_value)
}

/// The entry that a row of fields stands for.
pub open spec fn row_entry(row: (bool, Seq<char>, Seq<char>, Seq<char>, Seq<char>)) -> EntryModel {
    EntryModel { is_running: row.0, name: row.1, topic: row.2, value: row.3, off_value: row.4 }
}

/// A list of entries as rows.
pub open spec fn entry_rows(entries: Seq<EntryModel>) -> Seq<
    (bool, Seq<char>, Seq<char>, Seq<char>, Seq<char>),
> {
    entries.map_values(|e: EntryModel| entry_row(e))
}

/// The entries that a list of rows stands for.
pub open spec fn row_entries(rows: Seq<(bool, Seq<char>, Seq<char>, Seq<char>, Seq<char>)>) -> Seq<
    EntryModel,
> {
    rows.map_values(|r: (bool, Seq<char>, Seq<char>, Seq<char>, Seq<char>)| row_entry(r))
}

/// The bytes that hold a trigger list, where it can be encoded.
pub open spec fn entries_bytes(entries: Seq<EntryModel>) -> Option<Seq<u8>> {
    bincode_entries(entry_rows(entries))
}

/// The trigger list that the bytes of a file hold; the empty list where they
/// hold none.
pub open spec fn stored_entries(data: Seq<u8>) -> Seq<EntryModel> {
    match bincode_read_entries(data) {
        Some(rows) => row_entries(rows),
        None => Seq::empty(),
    }
}

/// The bytes that hold broker settings, where they can be encoded.
pub open spec fn settings_bytes(settings: SettingsModel) -> Option<Seq<u8>> {
    bincode_settings(settings.ip, settings.port)
}

/// The broker settings that the bytes of a file hold; the default settings
/// where they hold none.
pub open spec fn stored_settings(data: Seq<u8>) -> SettingsModel {
    match bincode_read_settings(data) {
        Some(pair) => SettingsModel { ip: pair.0, port: pair.1 },
        None => default_settings(),
    }
}

/// The trigger list found in the storage directory: what the file holds where
/// a directory is set and the file could be read, and the empty list otherwise.
pub open spec fn saved_entries(path: Option<String>, file: FileRead) -> Seq<EntryModel> {
    match (path, file) {
        (Some(_), FileRead::Content(data)) => stored_entries(data@),
        _ => Seq::empty(),
    }
}

/// The broker settings found in the storage directory: what the file holds
/// where a directory is set and the file could be read, and the default
/// settings otherwise.
pub open spec fn saved_settings(path: Option<String>, file: FileRead) -> SettingsModel {
    match (path, file) {
        (Some(_), FileRead::Content(data)) => stored_settings(data@),
        _ => default_settings(),
    }
}

/// Whether `write` asks for the file `file_name` to hold exactly `data`.
pub open spec fn writes(write: Option<FileWrite>, file_name: Seq<char>, data: Option<Seq<u8>>) -> bool {
    match data {
        Some(bytes) => write matches Some(w) && w.file_name@ == file_name && w.data@ == bytes,
        None => write is None,
    }
}

/// Calls `bincode::serialize` on the rows. The bytes it returns are named
/// [`bincode_entries`]; `bincode::deserialize` reads the same rows back from
/// them, as the two are each other's inverse on lists of tuples of `bool` and
/// `String`.
#[verifier::external_body]
fn serialize_rows(rows: &Vec<(bool, String, String, String, String)>) -> (encoded: Result<
    Vec<u8>,
    Box<bincode::ErrorKind>,
>)
    ensures
        match encoded {
            Ok(bytes) => bincode_entries(row_views(rows@)) == Some(bytes@) && bincode_read_entries(
                bytes@,
            ) == Some(row_views(rows@)),
            Err(_) => bincode_entries(row_views(rows@)) is None,
        },
{
    bincode::serialize(rows)
}

/// Calls `bincode::deserialize` for a list of rows. What it reads is named
/// [`bincode_read_entries`].
#[verifier::external_body]
fn deserialize_rows(data: &[u8]) -> (decoded: Result<
    Vec<(bool, String, String, String, String)>,
    Box<bincode::ErrorKind>,
>)
    ensures
        match decoded {
            Ok(rows) => bincode_read_entries(data@) == Some(row_views(rows@)),
            Err(_) => bincode_read_entries(data@) is None,
        },
{
    bincode::deserialize(data)
}

/// Calls `bincode::serialize` on host and port. The bytes it returns are
/// named [`bincode_settings`]; `bincode::deserialize` reads the same pair back
/// from them.
#[verifier::external_body]
fn serialize_pair(pair: &(String, u16)) -> (encoded: Result<Vec<u8>, Box<bincode::ErrorKind>>)
    ensures
        match encoded {
            Ok(bytes) => bincode_settings(pair.0@, pair.1) == Some(bytes@) && bincode_read_settings(
                bytes@,
            ) == Some((pair.0@, pair.1)),
            Err(_) => bincode_settings(pair.0@, pair.1) is None,
        },
{
    bincode::serialize(pair)
}

/// Calls `bincode::deserialize` for host and port. What it reads is named
/// [`bincode_read_settings`].
#[verifier::external_body]
fn deserialize_pair(data: &[u8]) -> (decoded: Result<(String, u16), Box<bincode::ErrorKind>>)
    ensures
        match decoded {
            Ok(pair) => bincode_read_settings(data@) == Some((pair.0@, pair.1)),
            Err(_) => bincode_read_settings(data@) is None,
        },
{
    bincode::deserialize(data)
}

/// The rows of a list of entries.
fn rows_of(entries: &[ProcessEntry]) -> (rows: Vec<(bool, String, String, String, String)>)
    ensures
        row_views(rows@) == entry_rows(models(entries@)),
{
    let mut rows: Vec<(bool, String, String, String, String)> = Vec::new();
    let mut i: usize = 0;
    while i < entries.len()
        invariant
            i <= entries.len(),
            rows.len() == i,
            forall|j: int| 0 <= j < i ==> row_views(rows@)[j] == entry_row(#[trigger] entries@[j]@),
        decreases entries.len() - i,
    {
        let e = &entries[i];
        rows.push(
            (e.is_running, e.name.clone(), e.topic.clone(), e.value.clone(), e.off_value.clone()),
        );
        i += 1;
    }
    assert(row_views(rows@) =~= entry_rows(models(entries@)));
    rows
}

/// The entries that a list of rows stands for.
fn entries_of(rows: &Vec<(bool, String, String, String, String)>) -> (entries: Vec<ProcessEntry>)
    ensures
        models(entries@) == row_entries(row_views(rows@)),
{
    let mut entries: Vec<ProcessEntry> = Vec::new();
    let mut i: usize = 0;
    while i < rows.len()
        invariant
            i <= rows.len(),
            entries.len() == i,
            forall|j: int| 0 <= j < i ==> (#[trigger] entries@[j])@ == row_entry(row_views(rows@)[j]),
        decreases rows.len() - i,
    {
        let r = &rows[i];
        entries.push(
            ProcessEntry {
                is_running: r.0,
                name: r.1.clone(),
                topic: r.2.clone(),
                value: r.3.clone(),
                off_value: r.4.clone(),
            },
        );
        i += 1;
    }
    assert(models(entries@) =~= row_entries(row_views(rows@)));
    entries
}

/// Encodes a trigger list for its file. What was encoded is read back
/// unchanged by [`decode_process_entrys`].
pub fn encode_process_entrys(entries: &[ProcessEntry]) -> (encoded: Option<Vec<u8>>)
    ensures
        match encoded {
            Some(bytes) => entries_bytes(models(entries@)) == Some(bytes@) && stored_entries(bytes@)
                == models(entries@),
            None => entries_bytes(models(entries@)) is None,
        },
{
    let rows = rows_of(entries);
    match serialize_rows(&rows) {
        Ok(bytes) => {
            assert(row_entries(entry_rows(models(entries@))) =~= models(entries@));
            Some(bytes)
        },
        Err(_) => None,
    }
}

/// Decodes the trigger list that a file holds; the empty list where the
/// bytes hold none.
pub fn decode_process_entrys(data: &[u8]) -> (entries: Vec<ProcessEntry>)
    ensures
        models(entries@) == stored_entries(data@),
{
    match deserialize_rows(data) {
        Ok(rows) => entries_of(&rows),
        Err(_) => {
            let entries: Vec<ProcessEntry> = Vec::new();
            assert(models(entries@) =~= Seq::empty());
            entries
        },
    }
}

/// Encodes broker settings for their file. What was encoded is read back
/// unchanged by [`decode_mqtt_settings`].
pub fn encode_mqtt_settings(settings: &MqttSettings) -> (encoded: Option<Vec<u8>>)
    ensures
        match encoded {
            Some(bytes) => settings_bytes(settings@) == Some(bytes@) && stored_settings(bytes@)
                == settings@,
            None => settings_bytes(settings@) is None,
        },
{
    let pair = (settings.ip.clone(), settings.port);
    match serialize_pair(&pair) {
        Ok(bytes) => Some(bytes),
        Err(_) => None,
    }
}

/// Decodes the broker settings that a file holds; the default settings where
/// the bytes hold none.
pub fn decode_mqtt_settings(data: &[u8]) -> (settings: MqttSettings)
    ensures
        settings@ == stored_settings(data@),
{
    match deserialize_pair(data) {
        Ok(pair) => MqttSettings { ip: pair.0, port: pair.1 },
        Err(_) => MqttSettings::default(),
    }
}

fn file_write(file_name: &str, data: Vec<u8>) -> (write: FileWrite)
    ensures
        write.file_name@ == file_name@,
        write.data@ == data@,
{
    FileWrite { file_name: String::from_str(file_name), data }
}

impl Storage {
    /// A storage without a directory: it saves nothing and finds nothing.
    pub fn new() -> (storage: Storage)
        ensures
            storage.path is None,
    {
        Storage { path: None }
    }

    /// Sets the directory that holds the two files.
    pub fn set_path(&mut self, path: String)
        ensures
            final(self).path == Some(path),
    {
        self.path = Some(path);
    }

    /// Asks for the whole trigger list to be written to its file. Nothing is
    /// asked for while no directory is set, or where the list cannot be
    /// encoded. What is written reads back as the same list.
    pub fn save_process_entrys(&self, process_entrys: &[ProcessEntry]) -> (write: Option<FileWrite>)
        ensures
            writes(
                write,
                PROCESS_ENTRYS_PATH@,
                if self.path is Some {
                    entries_bytes(models(process_entrys@))
                } else {
                    None
                },
            ),
            write matches Some(w) ==> saved_entries(self.path, FileRead::Content(w.data)) == models(
                process_entrys@,
            ),
    {
        let encoded = encode_process_entrys(process_entrys);
        match encoded {
            Some(bytes) => {
                if self.path.is_none() {
                    return None;
                }
                Some(file_write(PROCESS_ENTRYS_PATH, bytes))
            },
            None => None,
        }
    }

    /// The trigger list that was saved, given what the caller found in
    /// [`PROCESS_ENTRYS_PATH`]: the list that the file holds, and the empty
    /// list where no directory is set, the file is missing or unreadable, or
    /// its bytes hold no list.
    pub fn get_saved_process_entrys(&self, file: &FileRead) -> (entries: Vec<ProcessEntry>)
        ensures
            models(entries@) == saved_entries(self.path, *file),
    {
        let found = match file {
            FileRead::Content(data) => {
                if self.path.is_none() {
                    Vec::new()
                } else {
                    decode_process_entrys(data.as_slice())
                }
            },
            _ => Vec::new(),
        };
        assert(models(found@) =~= saved_entries(self.path, *file));
        found
    }

    /// The broker settings that were saved, given what the caller found in
    /// [`MQTT_SETTINGS_PATH`]: the settings that the file holds, and the
    /// default settings where no directory is set, the file is missing or
    /// unreadable, or its bytes hold none. Where a directory is set and the
    /// file is missing, the default settings are to be written to it.
    pub fn get_mqtt_settings(&self, file: &FileRead) -> (loaded: LoadedSettings)
        ensures
            loaded.settings@ == saved_settings(self.path, *file),
            writes(
                loaded.write_back,
                MQTT_SETTINGS_PATH@,
                if self.path is Some && *file is Missing {
                    settings_bytes(default_settings())
                } else {
                    None
                },
            ),
            loaded.write_back matches Some(w) ==> saved_settings(
                self.path,
                FileRead::Content(w.data),
            ) == default_settings(),
    {
        if self.path.is_none() {
            return LoadedSettings { settings: MqttSettings::default(), write_back: None };
        }
        match file {
            FileRead::Missing => {
                let settings = MqttSettings::default();
                let write_back = match encode_mqtt_settings(&settings) {
                    Some(bytes) => Some(file_write(MQTT_SETTINGS_PATH, bytes)),
                    None => None,
                };
                LoadedSettings { settings, write_back }
            },
            FileRead::Unreadable => LoadedSettings {
                settings: MqttSettings::default(),
                write_back: None,
            },
            FileRead::Content(data) => LoadedSettings {
                settings: decode_mqtt_settings(data.as_slice()),
                write_back: None,
            },
        }
    }

    /// Asks for the broker settings to be written to their file. Nothing is
    /// asked for while no directory is set, or where the settings cannot be
    /// encoded. What is written reads back as the same settings.
    pub fn save_mqtt_settings(&self, settings: &MqttSettings) -> (write: Option<FileWrite>)
        ensures
            writes(
                write,
                MQTT_SETTINGS_PATH@,
                if self.path is Some {
                    settings_bytes(settings@)
                } else {
                    None
                },
            ),
            write matches Some(w) ==> saved_settings(self.path, FileRead::Content(w.data))
                == settings@,
    {
        if self.path.is_none() {
            return None;
        }
        match encode_mqtt_settings(settings) {
            Some(bytes) => Some(file_write(MQTT_SETTINGS_PATH, bytes)),
            None => None,
        }
    }
}

} // verus!
