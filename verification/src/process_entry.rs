use vstd::prelude::*;

verus! {

/// A trigger: the process to watch, the topic to publish on, and the payloads
/// for the two transitions, together with the state last observed.
#[derive(Debug, Clone, PartialEq)]
pub struct ProcessEntry {
    pub is_running: bool,
    pub name: String,
    pub topic: String,
    pub value: String,
    pub off_value: String,
}

/// The mathematical content of a [`ProcessEntry`].
pub struct EntryModel {
    pub is_running: bool,
    pub name: Seq<char>,
    pub topic: Seq<char>,
    pub value: Seq<char>,
    pub off_value: Seq<char>,
}

impl View for ProcessEntry {
    type V = EntryModel;

    open spec fn view(&self) -> EntryModel {
        EntryModel {
            is_running: self.is_running,
            name: self.name@,
            topic: self.topic@,
            value: self.value@,
            off_value: self.off_value@,
        }
    }
}

/// The models of a list of entries, in order.
pub open spec fn models(entries: Seq<ProcessEntry>) -> Seq<EntryModel> {
    entries.map_values(|e: ProcessEntry| e@)
}

/// The entry that `add` appends: nothing to watch yet, and not running.
pub open spec fn blank_model() -> EntryModel {
    EntryModel {
        is_running: false,
        name: Seq::empty(),
        topic: Seq::empty(),
        value: Seq::empty(),
        off_value: Seq::empty(),
    }
}

impl ProcessEntry {
    /// An entry with empty fields that is not running.
    pub fn blank() -> (entry: ProcessEntry)
        ensures
            entry@ == blank_model(),
    {
        ProcessEntry {
            is_running: false,
            name: String::new(),
            topic: String::new(),
            value: String::new(),
            off_value: String::new(),
        }
    }

    /// A copy with the same content.
    pub fn duplicate(&self) -> (copy: ProcessEntry)
        ensures
            copy@ == self@,
    {
        ProcessEntry {
            is_running: self.is_running,
            name: self.name.clone(),
            topic: self.topic.clone(),
            value: self.value.clone(),
            off_value: self.off_value.clone(),
        }
    }
}

} // verus!
