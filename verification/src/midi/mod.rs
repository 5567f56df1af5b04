//! MIDI support: message kinds, controller names and readable parameter
//! names.
use vstd::prelude::*;

pub mod learn;
pub mod mapping;

use learn::{spec_learns_from, LearnSession};
use mapping::spec_mapping_matches;
use vstd::string::StringExecFns;

pub use mapping::{
    default_curve, join_with_spaces, mapping_matches, param_display_name, param_range_kind, param_words,
    title_case_word, MidiMessageType, ParamRangeKind,
};

verus! {

/// A MIDI-to-parameter mapping's matching part (its value range is kept by
/// the caller, by parameter ID).
#[derive(Debug, Clone)]
pub struct MappingEntry {
    /// Parameter ID (e.g. "block1.fb1_mix_amount")
    pub param_id: String,
    /// Device name (empty = any device)
    pub device: String,
    /// Type of MIDI message
    pub message_type: MidiMessageType,
    /// MIDI channel (0 = omni, 1-16 = specific channel)
    pub channel: u8,
    /// Controller or note number
    pub controller: u8,
}

/// The plain values of a mapping entry.
pub struct MappingView {
    pub param_id: Seq<char>,
    pub device: Seq<char>,
    pub message_type: MidiMessageType,
    pub channel: u8,
    pub controller: u8,
}

impl View for MappingEntry {
    type V = MappingView;

    open spec fn view(&self) -> MappingView {
        MappingView {
            param_id: self.param_id@,
            device: self.device@,
            message_type: self.message_type,
            channel: self.channel,
            controller: self.controller,
        }
    }
}

/// A mapping stored in the table under a parameter ID.
#[derive(Debug, Clone)]
pub struct KeyedMapping {
    /// The parameter ID the mapping is stored under
    pub key: String,
    /// The mapping
    pub mapping: MappingEntry,
}

/// The plain values of a stored mapping.
pub struct KeyedView {
    pub key: Seq<char>,
    pub mapping: MappingView,
}

impl View for KeyedMapping {
    type V = KeyedView;

    open spec fn view(&self) -> KeyedView {
        KeyedView { key: self.key@, mapping: self.mapping@ }
    }
}

/// The plain values of a mapping table.
pub open spec fn table_view(t: Seq<KeyedMapping>) -> Seq<KeyedView> {
    t.map_values(|e: KeyedMapping| e@)
}

/// No parameter ID is a key twice.
pub open spec fn keys_unique(t: Seq<KeyedView>) -> bool {
    forall|i: int, j: int| 0 <= i < j < t.len() ==> t[i].key != t[j].key
}

/// Whether a message matches a mapping (see `mapping_matches`).
pub open spec fn entry_matches(
    e: MappingView,
    device_id: Seq<char>,
    message_type: MidiMessageType,
    channel: u8,
    number: u8,
) -> bool {
    spec_mapping_matches(
        e.device,
        e.message_type,
        e.channel,
        e.controller,
        device_id,
        message_type,
        channel,
        number,
    )
}

/// Index of the first mapping stored under `k`.
pub open spec fn first_with_key(t: Seq<KeyedView>, k: Seq<char>) -> Option<int>
    decreases t.len(),
{
    if t.len() == 0 {
        None
    } else if t[0].key == k {
        Some(0)
    } else {
        match first_with_key(t.drop_first(), k) {
            Some(i) => Some(i + 1),
            None => None,
        }
    }
}

/// Index of the first mapping a message matches.
pub open spec fn first_match(
    t: Seq<KeyedView>,
    device_id: Seq<char>,
    message_type: MidiMessageType,
    channel: u8,
    number: u8,
) -> Option<int>
    decreases t.len(),
{
    if t.len() == 0 {
        None
    } else if entry_matches(t[0].mapping, device_id, message_type, channel, number) {
        Some(0)
    } else {
        match first_match(t.drop_first(), device_id, message_type, channel, number) {
            Some(i) => Some(i + 1),
            None => None,
        }
    }
}

/// `first_with_key` names the first entry under the key, and is `None`
/// only when no entry is under it.
pub proof fn lemma_first_with_key(t: Seq<KeyedView>, k: Seq<char>)
    ensures
        first_with_key(t, k) matches Some(i) ==> 0 <= i < t.len() && t[i].key == k && forall|j: int|
            0 <= j < i ==> t[j].key != k,
        first_with_key(t, k) is None ==> forall|j: int| 0 <= j < t.len() ==> t[j].key != k,
    decreases t.len(),
{
    if t.len() > 0 && t[0].key != k {
        lemma_first_with_key(t.drop_first(), k);
        assert forall|j: int| 0 < j < t.len() implies t[j] == t.drop_first()[j - 1] by {}
    }
}

/// `first_match` names the first matching entry, and is `None` only when
/// no entry matches.
pub proof fn lemma_first_match(
    t: Seq<KeyedView>,
    device_id: Seq<char>,
    message_type: MidiMessageType,
    channel: u8,
    number: u8,
)
    ensures
        first_match(t, device_id, message_type, channel, number) matches Some(i) ==> 0 <= i < t.len()
            && entry_matches(t[i].mapping, device_id, message_type, channel, number) && forall|j: int|
            0 <= j < i ==> !entry_matches(t[j].mapping, device_id, message_type, channel, number),
        first_match(t, device_id, message_type, channel, number) is None ==> forall|j: int|
            0 <= j < t.len() ==> !entry_matches(t[j].mapping, device_id, message_type, channel, number),
    decreases t.len(),
{
    if t.len() > 0 && !entry_matches(t[0].mapping, device_id, message_type, channel, number) {
        lemma_first_match(t.drop_first(), device_id, message_type, channel, number);
        assert forall|j: int| 0 < j < t.len() implies t[j] == t.drop_first()[j - 1] by {}
    }
}

/// The mapping table after storing `m` under `key`: it replaces the mapping
/// stored under that key, or is appended.
pub open spec fn with_mapping(t: Seq<KeyedView>, key: Seq<char>, m: MappingView) -> Seq<KeyedView> {
    match first_with_key(t, key) {
        Some(i) => t.update(i, KeyedView { key, mapping: m }),
        None => t.push(KeyedView { key, mapping: m }),
    }
}

/// The mapping table after removing what is stored under `key`.
pub open spec fn without_mapping(t: Seq<KeyedView>, key: Seq<char>) -> Seq<KeyedView> {
    match first_with_key(t, key) {
        Some(i) => t.remove(i),
        None => t,
    }
}

/// The mapping learned from a message: its device, type and channel, and
/// its controller, note or program number (0 for types without one).
pub open spec fn learned_mapping(
    param_id: Seq<char>,
    device_id: Seq<char>,
    message_type: MidiMessageType,
    channel: u8,
    number: u8,
) -> MappingView {
    MappingView {
        param_id,
        device: device_id,
        message_type,
        channel,
        controller: if message_type == MidiMessageType::ChannelAftertouch || message_type
            == MidiMessageType::PitchBend {
            0
        } else {
            number
        },
    }
}

/// Whether the channel filter (0 = omni) lets a message on `channel` (0 =
/// none) through.
pub open spec fn spec_passes_channel_filter(filter: u8, channel: u8) -> bool {
    filter == 0 || channel == 0 || channel == filter
}

/// A received MIDI event: the device that sent it and the message's type,
/// channel, controller, note or program number, and velocity.
#[derive(Debug, Clone)]
pub struct MidiEventRecord {
    pub device_id: String,
    pub message_type: MidiMessageType,
    pub channel: u8,
    pub number: u8,
    pub velocity: u8,
}

/// The plain values of a received event.
pub struct MidiEventView {
    pub device_id: Seq<char>,
    pub message_type: MidiMessageType,
    pub channel: u8,
    pub number: u8,
    pub velocity: u8,
}

impl View for MidiEventRecord {
    type V = MidiEventView;

    open spec fn view(&self) -> MidiEventView {
        MidiEventView {
            device_id: self.device_id@,
            message_type: self.message_type,
            channel: self.channel,
            number: self.number,
            velocity: self.velocity,
        }
    }
}

/// The learn sessions `a` and `b` agree in every field.
pub open spec fn same_learn(a: LearnSession, b: LearnSession) -> bool {
    &&& a.active == b.active
    &&& a.param_id@ == b.param_id@
    &&& a.timed == b.timed
    &&& a.timeout_ms == b.timeout_ms
    &&& a.flash_count == b.flash_count
}

/// MIDI state: the mapping table, the learn session and the input settings.
pub struct MidiState {
    /// Active mappings, by parameter ID
    pub mappings: Vec<KeyedMapping>,
    /// MIDI learn session
    pub learn: LearnSession,
    /// Connected input devices
    pub connected_devices: Vec<String>,
    /// Device selected for learning (None = all devices)
    pub selected_device: Option<String>,
    /// Enable/disable MIDI input globally
    pub enabled: bool,
    /// Last received event (for display and debugging)
    pub last_message: Option<MidiEventRecord>,
    /// Channel filter (0 = omni, 1-16 = specific channel)
    pub channel_filter: u8,
    /// 14-bit CC support
    pub high_resolution_cc: bool,
    /// Latch mode for buttons
    pub latch_mode: bool,
}

impl MidiState {
    /// The device list and settings of `self` and `other` agree.
    pub open spec fn same_settings(&self, other: &MidiState) -> bool {
        &&& self.connected_devices@ == other.connected_devices@
        &&& self.selected_device == other.selected_device
        &&& self.enabled == other.enabled
        &&& self.channel_filter == other.channel_filter
        &&& self.high_resolution_cc == other.high_resolution_cc
        &&& self.latch_mode == other.latch_mode
    }

    /// No mappings, learning off, enabled, no event yet, omni, 14-bit CC on,
    /// latch off.
    pub fn new() -> (r: Self)
        ensures
            r.mappings@.len() == 0,
            !r.learn.active && !r.learn.timed && r.learn.timeout_ms == 10000,
            r.connected_devices@.len() == 0,
            r.selected_device is None,
            r.last_message is None,
            r.enabled && r.channel_filter == 0 && r.high_resolution_cc && !r.latch_mode,
    {
        MidiState {
            mappings: Vec::new(),
            learn: LearnSession::new(),
            connected_devices: Vec::new(),
            selected_device: None,
            enabled: true,
            last_message: None,
            channel_filter: 0,
            high_resolution_cc: true,
            latch_mode: false,
        }
    }

    /// Index of the first mapping stored under `key`.
    fn position_of(&self, key: &String) -> (r: Option<usize>)
        ensures
            r matches Some(i) ==> first_with_key(table_view(self.mappings@), key@) == Some(i as int),
            r is None ==> first_with_key(table_view(self.mappings@), key@) is None,
    {
        let ghost t = table_view(self.mappings@);
        proof {
            lemma_first_with_key(t, key@);
        }
        let mut i: usize = 0;
        while i < self.mappings.len()
            invariant
                i <= self.mappings@.len(),
                t == table_view(self.mappings@),
                forall|j: int| 0 <= j < i ==> t[j].key != key@,
                first_with_key(t, key@) matches Some(k) ==> 0 <= k < t.len() && t[k].key == key@
                    && forall|j: int| 0 <= j < k ==> t[j].key != key@,
                first_with_key(t, key@) is None ==> forall|j: int| 0 <= j < t.len() ==> t[j].key != key@,
            decreases self.mappings@.len() - i,
        {
            if self.mappings[i].key == *key {
                proof {
                    if let Some(k) = first_with_key(t, key@) {
                        if k < i {
                            assert(t[k].key != key@);
                        } else if k > i {
                            assert(t[i as int].key == key@);
                        }
                    }
                }
                return Some(i);
            }
            i += 1;
        }
        None
    }

    /// Store a mapping under a parameter ID, replacing the mapping stored
    /// under it.
    pub fn add_mapping(&mut self, param_id: String, mapping: MappingEntry)
        ensures
            table_view(final(self).mappings@) == with_mapping(
                table_view(old(self).mappings@),
                param_id@,
                mapping@,
            ),
            keys_unique(table_view(old(self).mappings@)) ==> keys_unique(table_view(final(self).mappings@)),
            final(self).learn == old(self).learn,
            final(self).last_message == old(self).last_message,
            final(self).same_settings(&*old(self)),
    {
        let ghost t = table_view(self.mappings@);
        proof {
            lemma_first_with_key(t, param_id@);
        }
        match self.position_of(&param_id) {
            Some(i) => {
                self.mappings.set(i, KeyedMapping { key: param_id, mapping });
                proof {
                    assert(table_view(self.mappings@) =~= with_mapping(t, param_id@, mapping@));
                }
            },
            None => {
                self.mappings.push(KeyedMapping { key: param_id, mapping });
                proof {
                    assert(table_view(self.mappings@) =~= with_mapping(t, param_id@, mapping@));
                }
            },
        }
    }

    /// Remove the mapping stored under a parameter ID; whether there was
    /// one.
    pub fn remove_mapping(&mut self, param_id: &str) -> (r: bool)
        ensures
            r == first_with_key(table_view(old(self).mappings@), param_id@) is Some,
            table_view(final(self).mappings@) == without_mapping(table_view(old(self).mappings@), param_id@),
            keys_unique(table_view(old(self).mappings@)) ==> keys_unique(table_view(final(self).mappings@)),
            final(self).learn == old(self).learn,
            final(self).last_message == old(self).last_message,
            final(self).same_settings(&*old(self)),
    {
        let key = String::from_str(param_id);
        let ghost t = table_view(self.mappings@);
        proof {
            lemma_first_with_key(t, key@);
        }
        match self.position_of(&key) {
            Some(i) => {
                self.mappings.remove(i);
                proof {
                    let t2 = table_view(self.mappings@);
                    assert(t2 =~= t.remove(i as int));
                    if keys_unique(t) {
                        assert forall|a: int, b: int| 0 <= a < b < t2.len() implies t2[a].key != t2[b].key by {
                            let a2 = if a < i { a } else { a + 1 };
                            let b2 = if b < i { b } else { b + 1 };
                            assert(t2[a] == t[a2]);
                            assert(t2[b] == t[b2]);
                        }
                    }
                }
                true
            },
            None => false,
        }
    }

    /// Clear all mappings.
    pub fn clear_mappings(&mut self)
        ensures
            final(self).mappings@.len() == 0,
            final(self).learn == old(self).learn,
            final(self).last_message == old(self).last_message,
            final(self).same_settings(&*old(self)),
    {
        self.mappings.clear();
    }

    /// Index of the first mapping a message from `device_id` matches: its
    /// type, channel (0 = none) and controller, note or program number.
    pub fn find_mapping(&self, device_id: &str, message_type: MidiMessageType, channel: u8, number: u8) -> (r:
        Option<usize>)
        ensures
            r matches Some(i) ==> first_match(table_view(self.mappings@), device_id@, message_type, channel, number)
                == Some(i as int),
            r is None ==> first_match(table_view(self.mappings@), device_id@, message_type, channel, number) is None,
    {
        let ghost t = table_view(self.mappings@);
        proof {
            lemma_first_match(t, device_id@, message_type, channel, number);
        }
        let mut i: usize = 0;
        while i < self.mappings.len()
            invariant
                i <= self.mappings@.len(),
                t == table_view(self.mappings@),
                forall|j: int| 0 <= j < i ==> !entry_matches(t[j].mapping, device_id@, message_type, channel, number),
                first_match(t, device_id@, message_type, channel, number) matches Some(k) ==> 0 <= k < t.len()
                    && entry_matches(t[k].mapping, device_id@, message_type, channel, number) && forall|j: int|
                    0 <= j < k ==> !entry_matches(t[j].mapping, device_id@, message_type, channel, number),
                first_match(t, device_id@, message_type, channel, number) is None ==> forall|j: int|
                    0 <= j < t.len() ==> !entry_matches(t[j].mapping, device_id@, message_type, channel, number),
            decreases self.mappings@.len() - i,
        {
            let e = &self.mappings[i].mapping;
            assert(t[i as int] == self.mappings@[i as int]@);
            if mapping_matches(
                e.device.as_str(),
                e.message_type,
                e.channel,
                e.controller,
                device_id,
                message_type,
                channel,
                number,
            ) {
                proof {
                    if let Some(k) = first_match(t, device_id@, message_type, channel, number) {
                        if k < i {
                            assert(!entry_matches(t[k].mapping, device_id@, message_type, channel, number));
                        } else if k > i {
                            assert(entry_matches(t[i as int].mapping, device_id@, message_type, channel, number));
                        }
                    }
                }
                return Some(i);
            }
            i += 1;
        }
        None
    }

    /// Start learning a parameter.
    pub fn start_learning(&mut self, param_id: String)
        ensures
            final(self).learn.active && final(self).learn.timed,
            final(self).learn.param_id@ == param_id@,
            final(self).learn.timeout_ms == old(self).learn.timeout_ms,
            final(self).learn.flash_count == 0,
            table_view(final(self).mappings@) == table_view(old(self).mappings@),
            final(self).last_message == old(self).last_message,
            final(self).same_settings(&*old(self)),
    {
        self.learn.start(param_id);
    }

    /// Cancel learning, when it is on `elapsed_ms` after it started.
    pub fn cancel_learning(&mut self, elapsed_ms: u128)
        ensures
            old(self).learn.spec_is_active(elapsed_ms) ==> !final(self).learn.active
                && final(self).learn.param_id@ == Seq::<char>::empty() && !final(self).learn.timed
                && final(self).learn.timeout_ms == old(self).learn.timeout_ms
                && final(self).learn.flash_count == old(self).learn.flash_count,
            !old(self).learn.spec_is_active(elapsed_ms) ==> final(self).learn == old(self).learn,
            table_view(final(self).mappings@) == table_view(old(self).mappings@),
            final(self).last_message == old(self).last_message,
            final(self).same_settings(&*old(self)),
    {
        if self.learn.is_active(elapsed_ms) {
            self.learn.cancel();
        }
    }

    /// Process a MIDI message from `device_id` (type, channel, controller,
    /// note or program number, and velocity for note-on), `elapsed_ms`
    /// after learning started. The event is kept as the last one. While
    /// learning, a learnable message maps the parameter being learned to it
    /// and that parameter's ID is returned; otherwise a message the channel
    /// filter lets through fires the first mapping it matches, whose
    /// parameter ID is returned.
    pub fn process_midi_event(
        &mut self,
        elapsed_ms: u128,
        device_id: &str,
        message_type: MidiMessageType,
        channel: u8,
        number: u8,
        velocity: u8,
    ) -> (r: Option<String>)
        ensures
            final(self).last_message matches Some(e) && e@ == (MidiEventView {
                device_id: device_id@,
                message_type,
                channel,
                number,
                velocity,
            }),
            final(self).same_settings(&*old(self)),
            old(self).learn.spec_is_active(elapsed_ms) && spec_learns_from(message_type, velocity) ==> (r matches Some(p) && p@ == old(self).learn.param_id@)
                && table_view(final(self).mappings@) == with_mapping(
                table_view(old(self).mappings@),
                old(self).learn.param_id@,
                learned_mapping(old(self).learn.param_id@, device_id@, message_type, channel, number),
            ) && !final(self).learn.active && !final(self).learn.timed
                && final(self).learn.param_id@ == old(self).learn.param_id@
                && final(self).learn.timeout_ms == old(self).learn.timeout_ms
                && final(self).learn.flash_count == old(self).learn.flash_count,
            old(self).learn.spec_is_active(elapsed_ms) && !spec_learns_from(message_type, velocity) ==> r is None
                && table_view(final(self).mappings@) == table_view(old(self).mappings@)
                && same_learn(final(self).learn, old(self).learn),
            !old(self).learn.spec_is_active(elapsed_ms) ==> final(self).learn == old(self).learn
                && table_view(final(self).mappings@) == table_view(old(self).mappings@),
            !old(self).learn.spec_is_active(elapsed_ms) && !spec_passes_channel_filter(old(self).channel_filter, channel) ==> r is None,
            !old(self).learn.spec_is_active(elapsed_ms) && spec_passes_channel_filter(old(self).channel_filter, channel) ==> match first_match(
                table_view(old(self).mappings@),
                device_id@,
                message_type,
                channel,
                number,
            ) {
                Some(i) => (r matches Some(p) && p@ == table_view(old(self).mappings@)[i].mapping.param_id),
                None => r is None,
            },
            keys_unique(table_view(old(self).mappings@)) ==> keys_unique(table_view(final(self).mappings@)),
    {
        self.last_message = Some(
            MidiEventRecord {
                device_id: String::from_str(device_id),
                message_type,
                channel,
                number,
                velocity,
            },
        );
        if self.learn.is_active(elapsed_ms) {
            match self.learn.handle_midi_message(elapsed_ms, message_type, velocity) {
                Some(param_id) => {
                    let controller = if message_type.uses_controller() {
                        number
                    } else {
                        0
                    };
                    let mapping = MappingEntry {
                        param_id: param_id.clone(),
                        device: String::from_str(device_id),
                        message_type,
                        channel,
                        controller,
                    };
                    self.add_mapping(param_id.clone(), mapping);
                    return Some(param_id);
                },
                None => {
                    return None;
                },
            }
        }
        if self.channel_filter > 0 && channel != 0 && channel != self.channel_filter {
            return None;
        }
        proof {
            lemma_first_match(table_view(self.mappings@), device_id@, message_type, channel, number);
        }
        match self.find_mapping(device_id, message_type, channel, number) {
            Some(i) => {
                assert(table_view(self.mappings@)[i as int] == self.mappings@[i as int]@);
                Some(self.mappings[i].mapping.param_id.clone())
            },
            None => None,
        }
    }
}

/// Storing a mapping keeps at most one mapping per parameter ID.
pub proof fn law_add_keeps_keys_unique(t: Seq<KeyedView>, key: Seq<char>, m: MappingView)
    requires
        keys_unique(t),
    ensures
        keys_unique(with_mapping(t, key, m)),
{
    lemma_first_with_key(t, key);
}

/// Removing a mapping keeps at most one mapping per parameter ID, and
/// leaves none under the removed ID.
pub proof fn law_remove_keeps_keys_unique(t: Seq<KeyedView>, key: Seq<char>)
    requires
        keys_unique(t),
    ensures
        keys_unique(without_mapping(t, key)),
        forall|j: int| 0 <= j < without_mapping(t, key).len() ==> without_mapping(t, key)[j].key != key,
{
    lemma_first_with_key(t, key);
    if let Some(i) = first_with_key(t, key) {
        let t2 = t.remove(i);
        assert forall|a: int| 0 <= a < t2.len() implies t2[a] == t[if a < i { a } else { a + 1 }] by {}
        assert forall|a: int, b: int| 0 <= a < b < t2.len() implies t2[a].key != t2[b].key by {
            let a2 = if a < i { a } else { a + 1 };
            let b2 = if b < i { b } else { b + 1 };
            assert(t2[a] == t[a2]);
            assert(t2[b] == t[b2]);
        }
        assert forall|j: int| 0 <= j < t2.len() implies t2[j].key != key by {
            let j2 = if j < i { j } else { j + 1 };
            assert(t2[j] == t[j2]);
        }
    }
}

/// Storing a mapping under an ID twice leaves one mapping there: the second
/// replaces the first.
pub proof fn law_relearn_replaces(t: Seq<KeyedView>, key: Seq<char>, m1: MappingView, m2: MappingView)
    ensures
        with_mapping(with_mapping(t, key, m1), key, m2) == with_mapping(t, key, m2),
{
    lemma_first_with_key(t, key);
    let t1 = with_mapping(t, key, m1);
    lemma_first_with_key(t1, key);
    match first_with_key(t, key) {
        Some(i) => {
            assert(t1[i].key == key);
            if let Some(k) = first_with_key(t1, key) {
                if k < i {
                    assert(t1[k] == t[k]);
                } else if k > i {
                    assert(t1[i as int].key == key);
                }
            }
            assert(with_mapping(t1, key, m2) =~= with_mapping(t, key, m2));
        },
        None => {
            assert(t1 == t.push(KeyedView { key, mapping: m1 }));
            assert(t1[t.len() as int].key == key);
            if let Some(k) = first_with_key(t1, key) {
                if k < t.len() {
                    assert(t1[k] == t[k]);
                }
                assert(k == t.len());
            }
            assert(first_with_key(t1, key) == Some(t.len() as int));
            assert(with_mapping(t1, key, m2) =~= with_mapping(t, key, m2));
        },
    }
}

/// Human-readable name of a MIDI control change number.
pub open spec fn spec_cc_name(cc: u8) -> Seq<char> {
    match cc {
        0 => "Bank Select"@,
        1 => "Modulation Wheel"@,
        2 => "Breath Controller"@,
        4 => "Foot Controller"@,
        5 => "Portamento Time"@,
        6 => "Data Entry MSB"@,
        7 => "Channel Volume"@,
        8 => "Balance"@,
        10 => "Pan"@,
        11 => "Expression"@,
        12 => "Effect Control 1"@,
        13 => "Effect Control 2"@,
        x if 16 <= x && x <= 19 => "General Purpose"@,
        x if 32 <= x && x <= 63 => "LSB (14-bit)"@,
        64 => "Sustain Pedal"@,
        65 => "Portamento"@,
        66 => "Sostenuto"@,
        67 => "Soft Pedal"@,
        68 => "Legato Footswitch"@,
        69 => "Hold 2"@,
        70 => "Sound Variation"@,
        71 => "Timbre/Harmonic"@,
        72 => "Release Time"@,
        73 => "Attack Time"@,
        74 => "Brightness"@,
        75 => "Decay Time"@,
        76 => "Vibrato Rate"@,
        77 => "Vibrato Depth"@,
        78 => "Vibrato Delay"@,
        79 => "Sound Controller 10"@,
        x if 80 <= x && x <= 83 => "General Purpose"@,
        84 => "Portamento Control"@,
        91 => "Reverb Send"@,
        92 => "Tremolo Depth"@,
        93 => "Chorus Send"@,
        94 => "Celeste Depth"@,
        95 => "Phaser Depth"@,
        96 => "Data Increment"@,
        97 => "Data Decrement"@,
        98 => "NRPN LSB"@,
        99 => "NRPN MSB"@,
        100 => "RPN LSB"@,
        101 => "RPN MSB"@,
        120 => "All Sound Off"@,
        121 => "Reset All Controllers"@,
        122 => "Local Control"@,
        123 => "All Notes Off"@,
        124 => "Omni Mode Off"@,
        125 => "Omni Mode On"@,
        126 => "Mono Mode On"@,
        127 => "Poly Mode On"@,
        _ => "Undefined"@,
    }
}

/// Get the human-readable name for a CC number.
pub fn cc_name(cc: u8) -> (r: &'static str)
    ensures
        r@ == spec_cc_name(cc),
{
    match cc {
        0 => "Bank Select",
        1 => "Modulation Wheel",
        2 => "Breath Controller",
        4 => "Foot Controller",
        5 => "Portamento Time",
        6 => "Data Entry MSB",
        7 => "Channel Volume",
        8 => "Balance",
        10 => "Pan",
        11 => "Expression",
        12 => "Effect Control 1",
        13 => "Effect Control 2",
        x if 16 <= x && x <= 19 => "General Purpose",
        x if 32 <= x && x <= 63 => "LSB (14-bit)",
        64 => "Sustain Pedal",
        65 => "Portamento",
        66 => "Sostenuto",
        67 => "Soft Pedal",
        68 => "Legato Footswitch",
        69 => "Hold 2",
        70 => "Sound Variation",
        71 => "Timbre/Harmonic",
        72 => "Release Time",
        73 => "Attack Time",
        74 => "Brightness",
        75 => "Decay Time",
        76 => "Vibrato Rate",
        77 => "Vibrato Depth",
        78 => "Vibrato Delay",
        79 => "Sound Controller 10",
        x if 80 <= x && x <= 83 => "General Purpose",
        84 => "Portamento Control",
        91 => "Reverb Send",
        92 => "Tremolo Depth",
        93 => "Chorus Send",
        94 => "Celeste Depth",
        95 => "Phaser Depth",
        96 => "Data Increment",
        97 => "Data Decrement",
        98 => "NRPN LSB",
        99 => "NRPN MSB",
        100 => "RPN LSB",
        101 => "RPN MSB",
        120 => "All Sound Off",
        121 => "Reset All Controllers",
        122 => "Local Control",
        123 => "All Notes Off",
        124 => "Omni Mode Off",
        125 => "Omni Mode On",
        126 => "Mono Mode On",
        127 => "Poly Mode On",
        _ => "Undefined",
    }
}

/// The channel filter: omni (0) lets every message through, a message
/// without a channel (0) always passes, and otherwise a message passes
/// exactly when its channel is the filter's.
pub proof fn law_channel_filter(filter: u8, channel: u8)
    ensures
        filter == 0 ==> spec_passes_channel_filter(filter, channel),
        channel == 0 ==> spec_passes_channel_filter(filter, channel),
        filter != 0 && channel != 0 ==> (spec_passes_channel_filter(filter, channel) <==> channel
            == filter),
{
}

/// The mapping learned from a message is stored under the learned
/// parameter, keeps the message's device, type and channel (and its number,
/// for every type that carries one), and the very message it was learned
/// from matches it.
pub proof fn law_learned_mapping_matches_its_message(
    param_id: Seq<char>,
    device_id: Seq<char>,
    message_type: MidiMessageType,
    channel: u8,
    number: u8,
)
    ensures
        learned_mapping(param_id, device_id, message_type, channel, number).param_id == param_id,
        learned_mapping(param_id, device_id, message_type, channel, number).device == device_id,
        learned_mapping(param_id, device_id, message_type, channel, number).message_type
            == message_type,
        learned_mapping(param_id, device_id, message_type, channel, number).channel == channel,
        message_type != MidiMessageType::ChannelAftertouch && message_type
            != MidiMessageType::PitchBend ==> learned_mapping(
            param_id,
            device_id,
            message_type,
            channel,
            number,
        ).controller == number,
        entry_matches(
            learned_mapping(param_id, device_id, message_type, channel, number),
            device_id,
            message_type,
            channel,
            number,
        ),
{
}

/// After storing a mapping under an ID, the first entry under that ID holds
/// that mapping, and every entry under another ID is where it was.
pub proof fn law_stored_mapping_is_found(t: Seq<KeyedView>, key: Seq<char>, m: MappingView)
    ensures
        first_with_key(with_mapping(t, key, m), key) matches Some(i) && with_mapping(
            t,
            key,
            m,
        )[i].mapping == m,
        forall|j: int|
            0 <= j < t.len() && t[j].key != key ==> #[trigger] with_mapping(t, key, m)[j] == t[j],
{
    lemma_first_with_key(t, key);
    let t1 = with_mapping(t, key, m);
    lemma_first_with_key(t1, key);
    match first_with_key(t, key) {
        Some(i) => {
            assert(t1[i].key == key);
            if let Some(k) = first_with_key(t1, key) {
                if k < i {
                    assert(t1[k] == t[k]);
                }
            }
            assert(first_with_key(t1, key) == Some(i));
        },
        None => {
            assert(t1[t.len() as int].key == key);
            if let Some(k) = first_with_key(t1, key) {
                if k < t.len() {
                    assert(t1[k] == t[k]);
                }
            }
            assert(first_with_key(t1, key) == Some(t.len() as int));
        },
    }
}

/// In a table where no ID is a key twice, removing an ID leaves no entry
/// under it, and every entry under another ID is still there.
pub proof fn law_removed_mapping_is_gone(t: Seq<KeyedView>, key: Seq<char>)
    requires
        keys_unique(t),
    ensures
        forall|j: int|
            0 <= j < without_mapping(t, key).len() ==> #[trigger] without_mapping(t, key)[j].key
                != key,
        forall|j: int|
            0 <= j < t.len() && t[j].key != key ==> without_mapping(t, key).contains(#[trigger] t[j]),
{
    lemma_first_with_key(t, key);
    let t1 = without_mapping(t, key);
    match first_with_key(t, key) {
        Some(i) => {
            assert forall|j: int| 0 <= j < t1.len() implies #[trigger] t1[j].key != key by {
                if j < i {
                    assert(t1[j] == t[j]);
                } else {
                    assert(t1[j] == t[j + 1]);
                }
            }
            assert forall|j: int| 0 <= j < t.len() && t[j].key != key implies t1.contains(
                #[trigger] t[j],
            ) by {
                if j < i {
                    assert(t1[j] == t[j]);
                } else {
                    assert(t1[j - 1] == t[j]);
                }
            }
        },
        None => {
            assert forall|j: int| 0 <= j < t.len() && t[j].key != key implies t1.contains(
                #[trigger] t[j],
            ) by {
                assert(t1[j] == t[j]);
            }
        },
    }
}

} // verus!
