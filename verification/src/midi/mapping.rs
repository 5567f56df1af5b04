//! MIDI message kinds and readable names of parameter IDs.
use vstd::prelude::*;
use vstd::string::{StrSliceExecFns, StringExecFns};
use crate::text::push_char;

verus! {

/// Type of MIDI message that can be mapped.
#[derive(Debug, Clone, Copy, PartialEq, Eq, Structural)]
pub enum MidiMessageType {
    /// Control Change (CC)
    ControlChange,
    /// Note On (velocity used as value)
    NoteOn,
    /// Note Off
    NoteOff,
    /// Polyphonic Aftertouch
    PolyAftertouch,
    /// Channel Aftertouch
    ChannelAftertouch,
    /// Pitch Bend (-8192 to 8191, mapped to 0-16383)
    PitchBend,
    /// Program Change
    ProgramChange,
}

impl MidiMessageType {
    /// Human-readable name of a message type.
    pub open spec fn spec_name(self) -> Seq<char> {
        match self {
            MidiMessageType::ControlChange => "CC"@,
            MidiMessageType::NoteOn => "Note On"@,
            MidiMessageType::NoteOff => "Note Off"@,
            MidiMessageType::PolyAftertouch => "Poly Aftertouch"@,
            MidiMessageType::ChannelAftertouch => "Channel Aftertouch"@,
            MidiMessageType::PitchBend => "Pitch Bend"@,
            MidiMessageType::ProgramChange => "Program Change"@,
        }
    }

    /// Get human-readable name.
    pub fn name(&self) -> (r: &'static str)
        ensures
            r@ == self.spec_name(),
    {
        match self {
            MidiMessageType::ControlChange => "CC",
            MidiMessageType::NoteOn => "Note On",
            MidiMessageType::NoteOff => "Note Off",
            MidiMessageType::PolyAftertouch => "Poly Aftertouch",
            MidiMessageType::ChannelAftertouch => "Channel Aftertouch",
            MidiMessageType::PitchBend => "Pitch Bend",
            MidiMessageType::ProgramChange => "Program Change",
        }
    }

    /// Check if this message type carries a controller or note number.
    pub fn uses_controller(&self) -> (r: bool)
        ensures
            r <==> !(*self == MidiMessageType::ChannelAftertouch || *self
                == MidiMessageType::PitchBend),
    {
        match self {
            MidiMessageType::ControlChange
            | MidiMessageType::NoteOn
            | MidiMessageType::NoteOff
            | MidiMessageType::PolyAftertouch
            | MidiMessageType::ProgramChange => true,
            _ => false,
        }
    }
}

impl Default for MidiMessageType {
    fn default() -> (r: Self)
        ensures
            r == MidiMessageType::ControlChange,
    {
        MidiMessageType::ControlChange
    }
}

/// Curve of a mapping when none is given: linear.
pub fn default_curve() -> (r: String)
    ensures
        r@ == "linear"@,
{
    String::from_str("linear")
}

/// What `char::to_uppercase` yields for `c`, collected into a string.
pub uninterp spec fn char_uppercase(c: char) -> Seq<char>;

/// What `str::to_lowercase` returns for a string with characters `s`.
pub uninterp spec fn str_lowercase(s: Seq<char>) -> Seq<char>;

/// Upper case of one character: `char::to_uppercase`, collected into a
/// string. Trusted (not proved) to give the characters named
/// `char_uppercase(c)`, the same ones for the same character; what they are
/// is Unicode's case mapping, which is not stated here.
#[verifier::external_body]
fn uppercase_of(c: char) -> (r: String)
    ensures
        r@ == char_uppercase(c),
{
    c.to_uppercase().collect::<String>()
}

/// Lower case of a string: `str::to_lowercase`. Trusted (not proved) to give
/// the characters named `str_lowercase(s@)`, the same ones for the same
/// input; what they are is Unicode's case mapping, which is not stated here.
#[verifier::external_body]
fn lowercase_of(s: &str) -> (r: String)
    ensures
        r@ == str_lowercase(s@),
{
    s.to_lowercase()
}

/// The pieces of `s` between occurrences of `sep`, as `str::split` yields
/// them: always at least one piece, empty pieces kept.
pub open spec fn split_on(s: Seq<char>, sep: char) -> Seq<Seq<char>>
    decreases s.len(),
{
    if s.len() == 0 {
        seq![Seq::<char>::empty()]
    } else {
        let init = split_on(s.drop_last(), sep);
        if s.last() == sep {
            init.push(Seq::<char>::empty())
        } else {
            init.update(init.len() - 1, init.last().push(s.last()))
        }
    }
}

/// A word with its first character upper-cased and the rest lower-cased.
pub open spec fn title_word(w: Seq<char>) -> Seq<char> {
    if w.len() == 0 {
        Seq::<char>::empty()
    } else {
        char_uppercase(w[0]) + str_lowercase(w.drop_first())
    }
}

/// The strings of `ws` joined with single spaces.
pub open spec fn join_spaced(ws: Seq<Seq<char>>) -> Seq<char>
    decreases ws.len(),
{
    if ws.len() == 0 {
        Seq::<char>::empty()
    } else if ws.len() == 1 {
        ws[0]
    } else {
        join_spaced(ws.drop_last()) + seq![' '] + ws.last()
    }
}

/// The words of a parameter ID: its last `.`-separated segment split at
/// `_`.
pub open spec fn spec_param_words(param_id: Seq<char>) -> Seq<Seq<char>> {
    split_on(split_on(param_id, '.').last(), '_')
}

/// Readable name of a parameter ID: its words title-cased and joined with
/// spaces.
pub open spec fn spec_param_display_name(param_id: Seq<char>) -> Seq<char> {
    join_spaced(spec_param_words(param_id).map_values(|w: Seq<char>| title_word(w)))
}

/// `split_on` always yields at least one piece.
pub proof fn lemma_split_on_nonempty(s: Seq<char>, sep: char)
    ensures
        split_on(s, sep).len() >= 1,
    decreases s.len(),
{
    if s.len() > 0 {
        lemma_split_on_nonempty(s.drop_last(), sep);
    }
}

/// Title-case one word: upper-case its first character, lower-case the
/// rest.
pub fn title_case_word(word: &Vec<char>) -> (r: String)
    ensures
        r@ == title_word(word@),
{
    if word.len() == 0 {
        return String::new();
    }
    let mut rest = String::new();
    let mut k: usize = 1;
    while k < word.len()
        invariant
            1 <= k <= word@.len(),
            rest@ == word@.subrange(1, k as int),
        decreases word@.len() - k,
    {
        push_char(&mut rest, word[k]);
        proof {
            assert(word@.subrange(1, k + 1) =~= word@.subrange(1, k as int).push(word@[k as int]));
        }
        k += 1;
    }
    proof {
        assert(word@.subrange(1, word@.len() as int) =~= word@.drop_first());
    }
    let up = uppercase_of(word[0]);
    let low = lowercase_of(rest.as_str());
    up.concat(low.as_str())
}

/// The characters of a parameter ID's last `.`-separated segment, split at
/// `_` into words (empty words kept).
pub fn param_words(param_id: &str) -> (r: Vec<Vec<char>>)
    ensures
        r@.map_values(|w: Vec<char>| w@) == spec_param_words(param_id@),
{
    let n = param_id.unicode_len();
    let mut seg: Vec<char> = Vec::new();
    let mut i: usize = 0;
    proof {
        assert(param_id@.take(0) =~= Seq::<char>::empty());
    }
    while i < n
        invariant
            n == param_id@.len(),
            i <= n,
            split_on(param_id@.take(i as int), '.').last() == seg@,
        decreases n - i,
    {
        let c = param_id.get_char(i);
        proof {
            assert(param_id@.take(i + 1).drop_last() =~= param_id@.take(i as int));
            lemma_split_on_nonempty(param_id@.take(i as int), '.');
        }
        if c == '.' {
            seg = Vec::new();
        } else {
            seg.push(c);
        }
        i += 1;
    }
    proof {
        assert(param_id@.take(n as int) =~= param_id@);
    }
    let mut words: Vec<Vec<char>> = Vec::new();
    let mut word: Vec<char> = Vec::new();
    let mut j: usize = 0;
    proof {
        assert(seg@.take(0) =~= Seq::<char>::empty());
        assert(split_on(seg@.take(0), '_') =~= words@.map_values(|w: Vec<char>| w@).push(word@));
    }
    while j < seg.len()
        invariant
            j <= seg@.len(),
            split_on(seg@.take(j as int), '_') == words@.map_values(|w: Vec<char>| w@).push(word@),
        decreases seg@.len() - j,
    {
        let c = seg[j];
        let ghost before = words@.map_values(|w: Vec<char>| w@);
        proof {
            assert(seg@.take(j + 1).drop_last() =~= seg@.take(j as int));
        }
        if c == '_' {
            let done_word = word;
            words.push(done_word);
            word = Vec::new();
            proof {
                assert(words@.map_values(|w: Vec<char>| w@) =~= before.push(done_word@));
                assert(split_on(seg@.take(j + 1), '_') =~= words@.map_values(|w: Vec<char>| w@).push(
                    word@,
                ));
            }
        } else {
            word.push(c);
            proof {
                assert(split_on(seg@.take(j + 1), '_') =~= words@.map_values(|w: Vec<char>| w@).push(
                    word@,
                ));
            }
        }
        j += 1;
    }
    let ghost before = words@.map_values(|w: Vec<char>| w@);
    let last_word = word;
    words.push(last_word);
    proof {
        assert(seg@.take(seg@.len() as int) =~= seg@);
        assert(words@.map_values(|w: Vec<char>| w@) =~= before.push(last_word@));
    }
    words
}

/// Join strings with single spaces.
pub fn join_with_spaces(words: &Vec<String>) -> (r: String)
    ensures
        r@ == join_spaced(words@.map_values(|s: String| s@)),
{
    let mut out = String::new();
    let mut i: usize = 0;
    while i < words.len()
        invariant
            i <= words@.len(),
            out@ == join_spaced(words@.map_values(|s: String| s@).take(i as int)),
        decreases words@.len() - i,
    {
        let ghost ws = words@.map_values(|s: String| s@);
        proof {
            assert(ws.take(i + 1).drop_last() =~= ws.take(i as int));
        }
        if i > 0 {
            push_char(&mut out, ' ');
        }
        out.append(words[i].as_str());
        proof {
            if i == 0 {
                assert(out@ =~= join_spaced(ws.take(1)));
            } else {
                assert(out@ =~= join_spaced(ws.take(i + 1)));
            }
        }
        i += 1;
    }
    proof {
        assert(words@.map_values(|s: String| s@).take(words@.len() as int) =~= words@.map_values(
            |s: String| s@,
        ));
    }
    out
}

/// Get a human-readable name for a parameter ID: snake_case becomes
/// Title Case, and only the part after the last `.` is kept.
pub fn param_display_name(param_id: &str) -> (r: String)
    ensures
        r@ == spec_param_display_name(param_id@),
{
    let words = param_words(param_id);
    let mut titled: Vec<String> = Vec::new();
    let mut i: usize = 0;
    while i < words.len()
        invariant
            i <= words@.len(),
            titled@.len() == i,
            forall|j: int|
                0 <= j < i ==> (#[trigger] titled@[j])@ == title_word(words@[j]@),
        decreases words@.len() - i,
    {
        titled.push(title_case_word(&words[i]));
        i += 1;
    }
    proof {
        assert(titled@.map_values(|s: String| s@) =~= spec_param_words(param_id@).map_values(
            |w: Seq<char>| title_word(w),
        ));
    }
    join_with_spaces(&titled)
}

/// The characters of a string slice.
pub(crate) fn chars_of(s: &str) -> (r: Vec<char>)
    ensures
        r@ == s@,
{
    let n = s.unicode_len();
    let mut v: Vec<char> = Vec::new();
    let mut i: usize = 0;
    while i < n
        invariant
            n == s@.len(),
            i <= n,
            v@ == s@.take(i as int),
        decreases n - i,
    {
        v.push(s.get_char(i));
        proof {
            assert(s@.take(i + 1) =~= s@.take(i as int).push(s@[i as int]));
        }
        i += 1;
    }
    proof {
        assert(s@.take(n as int) =~= s@);
    }
    v
}

/// Whether `pat` occurs in `s` starting at position `i`.
pub open spec fn occurs_at(s: Seq<char>, pat: Seq<char>, i: int) -> bool {
    0 <= i && i + pat.len() <= s.len() && s.subrange(i, i + pat.len()) == pat
}

/// Whether `pat` occurs anywhere in `s` (`str::contains`).
pub open spec fn seq_contains(s: Seq<char>, pat: Seq<char>) -> bool {
    exists|i: int| occurs_at(s, pat, i)
}

/// Whether `pat` occurs in `s`.
pub fn contains_pattern(s: &Vec<char>, pat: &str) -> (r: bool)
    ensures
        r == seq_contains(s@, pat@),
{
    let p = chars_of(pat);
    let n = s.len();
    let m = p.len();
    if m > n {
        assert forall|i: int| !occurs_at(s@, pat@, i) by {}
        return false;
    }
    let mut i: usize = 0;
    while i <= n - m
        invariant
            n == s@.len(),
            m == p@.len(),
            p@ == pat@,
            m <= n,
            i <= n - m + 1,
            forall|k: int| 0 <= k < i ==> !occurs_at(s@, pat@, k),
        decreases n - m + 1 - i,
    {
        let mut j: usize = 0;
        let mut matched = true;
        while j < m
            invariant
                n == s@.len(),
                m == p@.len(),
                i + m <= n,
                j <= m,
                matched <==> forall|t: int| 0 <= t < j ==> s@[i + t] == p@[t],
            decreases m - j,
        {
            if s[i + j] != p[j] {
                matched = false;
            }
            j += 1;
        }
        if matched {
            proof {
                assert(s@.subrange(i as int, i + m) =~= p@);
                assert(occurs_at(s@, pat@, i as int));
            }
            return true;
        }
        proof {
            assert(!occurs_at(s@, pat@, i as int)) by {
                if s@.subrange(i as int, i + m) == pat@ {
                    assert forall|t: int| 0 <= t < m implies s@[i + t] == p@[t] by {
                        assert(s@.subrange(i as int, i + m)[t] == s@[i + t]);
                    }
                }
            }
        }
        i += 1;
    }
    proof {
        assert forall|k: int| !occurs_at(s@, pat@, k) by {
            if 0 <= k && k + pat@.len() <= s@.len() {
                assert(k < i);
            }
        }
    }
    false
}

/// Class of value range a parameter gets when it is learned from MIDI.
#[derive(Debug, Clone, Copy, PartialEq, Eq, Structural)]
pub enum ParamRangeKind {
    /// 0 to 1 (switches, amounts, blur and sharpen, and the default)
    Unit,
    /// -2 to 2 (x and y displacement)
    Displace,
    /// 0 to 10 (z displacement)
    ZDisplace,
    /// -360 to 360 (rotation)
    Rotate,
    /// -1 to 1 (key threshold and softness)
    Bipolar,
}

/// The range class of a parameter ID, by the first rule that applies:
/// switch-like names, then amounts (but not displacements), displacements
/// in x or y, in z, rotations, blur and sharpen, key threshold and
/// softness; anything else is `Unit`.
pub open spec fn spec_param_range_kind(id: Seq<char>) -> ParamRangeKind {
    if seq_contains(id, "_mirror"@) || seq_contains(id, "_flip"@) || seq_contains(id, "_invert"@)
        || seq_contains(id, "_switch"@) || seq_contains(id, "_on"@) {
        ParamRangeKind::Unit
    } else if seq_contains(id, "_mix_amount"@) || (seq_contains(id, "_amount"@) && !seq_contains(
        id,
        "_x_displace"@,
    ) && !seq_contains(id, "_y_displace"@)) {
        ParamRangeKind::Unit
    } else if seq_contains(id, "_x_displace"@) || seq_contains(id, "_y_displace"@) {
        ParamRangeKind::Displace
    } else if seq_contains(id, "_z_displace"@) {
        ParamRangeKind::ZDisplace
    } else if seq_contains(id, "_rotate"@) {
        ParamRangeKind::Rotate
    } else if seq_contains(id, "_blur_"@) || seq_contains(id, "_sharpen_"@) {
        ParamRangeKind::Unit
    } else if seq_contains(id, "_key_threshold"@) || seq_contains(id, "_key_soft"@) {
        ParamRangeKind::Bipolar
    } else {
        ParamRangeKind::Unit
    }
}

/// The range class of a known parameter, for MIDI learn.
pub fn param_range_kind(param_id: &str) -> (r: ParamRangeKind)
    ensures
        r == spec_param_range_kind(param_id@),
{
    let id = chars_of(param_id);
    if contains_pattern(&id, "_mirror") || contains_pattern(&id, "_flip") || contains_pattern(
        &id,
        "_invert",
    ) || contains_pattern(&id, "_switch") || contains_pattern(&id, "_on") {
        return ParamRangeKind::Unit;
    }
    if contains_pattern(&id, "_mix_amount") || (contains_pattern(&id, "_amount")
        && !contains_pattern(&id, "_x_displace") && !contains_pattern(&id, "_y_displace")) {
        return ParamRangeKind::Unit;
    }
    if contains_pattern(&id, "_x_displace") || contains_pattern(&id, "_y_displace") {
        return ParamRangeKind::Displace;
    }
    if contains_pattern(&id, "_z_displace") {
        return ParamRangeKind::ZDisplace;
    }
    if contains_pattern(&id, "_rotate") {
        return ParamRangeKind::Rotate;
    }
    if contains_pattern(&id, "_blur_") || contains_pattern(&id, "_sharpen_") {
        return ParamRangeKind::Unit;
    }
    if contains_pattern(&id, "_key_threshold") || contains_pattern(&id, "_key_soft") {
        return ParamRangeKind::Bipolar;
    }
    ParamRangeKind::Unit
}

/// Whether a message matches a mapping: the mapping's device is empty (any
/// device) or the message's; the message types are equal; the channels are
/// equal or either is 0 (omni); and, for types that carry a controller or
/// note number, the numbers are equal.
pub open spec fn spec_mapping_matches(
    mapping_device: Seq<char>,
    mapping_type: MidiMessageType,
    mapping_channel: u8,
    mapping_controller: u8,
    device_id: Seq<char>,
    message_type: MidiMessageType,
    message_channel: u8,
    message_number: u8,
) -> bool {
    &&& (mapping_device.len() == 0 || mapping_device == device_id)
    &&& message_type == mapping_type
    &&& (mapping_channel == 0 || message_channel == 0 || message_channel == mapping_channel)
    &&& (!(mapping_type != MidiMessageType::ChannelAftertouch && mapping_type
        != MidiMessageType::PitchBend) || message_number == mapping_controller)
}

/// Check whether a MIDI message from `device_id` matches a mapping. The
/// message is given by its type, channel and controller, note or program
/// number (0 for types without one).
pub fn mapping_matches(
    mapping_device: &str,
    mapping_type: MidiMessageType,
    mapping_channel: u8,
    mapping_controller: u8,
    device_id: &str,
    message_type: MidiMessageType,
    message_channel: u8,
    message_number: u8,
) -> (r: bool)
    ensures
        r == spec_mapping_matches(
            mapping_device@,
            mapping_type,
            mapping_channel,
            mapping_controller,
            device_id@,
            message_type,
            message_channel,
            message_number,
        ),
{
    let device = String::from_str(mapping_device);
    if device.as_str().unicode_len() != 0 && device != String::from_str(device_id) {
        return false;
    }
    if message_type != mapping_type {
        return false;
    }
    if mapping_channel != 0 && message_channel != 0 && message_channel != mapping_channel {
        return false;
    }
    if mapping_type.uses_controller() {
        if message_number != mapping_controller {
            return false;
        }
    }
    true
}

/// Whether `s` begins with `prefix` (`str::starts_with`).
pub open spec fn starts_with(s: Seq<char>, prefix: Seq<char>) -> bool {
    prefix.len() <= s.len() && s.subrange(0, prefix.len() as int) == prefix
}

/// Whether `s` begins with `prefix`.
pub fn has_prefix(s: &str, prefix: &str) -> (r: bool)
    ensures
        r == starts_with(s@, prefix@),
{
    let a = chars_of(s);
    let b = chars_of(prefix);
    if b.len() > a.len() {
        return false;
    }
    let mut i: usize = 0;
    while i < b.len()
        invariant
            a@ == s@,
            b@ == prefix@,
            b@.len() <= a@.len(),
            i <= b@.len(),
            forall|k: int| 0 <= k < i ==> a@[k] == b@[k],
        decreases b@.len() - i,
    {
        if a[i] != b[i] {
            proof {
                assert(a@.subrange(0, b@.len() as int)[i as int] != b@[i as int]);
            }
            return false;
        }
        i += 1;
    }
    proof {
        assert(a@.subrange(0, b@.len() as int) =~= b@);
    }
    true
}

/// A message matches a mapping only when its type is the mapping's type and,
/// for every type that carries a controller, note or program number
/// (control change, note on, note off, poly aftertouch, program change),
/// only when its number is the mapping's controller.
pub proof fn law_number_must_equal_controller(
    mapping_device: Seq<char>,
    mapping_type: MidiMessageType,
    mapping_channel: u8,
    mapping_controller: u8,
    device_id: Seq<char>,
    message_type: MidiMessageType,
    message_channel: u8,
    message_number: u8,
)
    ensures
        spec_mapping_matches(
            mapping_device,
            mapping_type,
            mapping_channel,
            mapping_controller,
            device_id,
            message_type,
            message_channel,
            message_number,
        ) ==> message_type == mapping_type,
        spec_mapping_matches(
            mapping_device,
            mapping_type,
            mapping_channel,
            mapping_controller,
            device_id,
            message_type,
            message_channel,
            message_number,
        ) && (mapping_type == MidiMessageType::ControlChange || mapping_type == MidiMessageType::NoteOn
            || mapping_type == MidiMessageType::NoteOff || mapping_type
            == MidiMessageType::PolyAftertouch || mapping_type == MidiMessageType::ProgramChange)
            ==> message_number == mapping_controller,
        spec_mapping_matches(
            mapping_device,
            mapping_type,
            mapping_channel,
            mapping_controller,
            device_id,
            message_type,
            message_channel,
            message_number,
        ) ==> (mapping_device.len() == 0 || mapping_device == device_id) && (mapping_channel == 0
            || message_channel == 0 || message_channel == mapping_channel),
        (mapping_type == MidiMessageType::ChannelAftertouch || mapping_type == MidiMessageType::PitchBend)
            && (mapping_device.len() == 0 || mapping_device == device_id) && (mapping_channel == 0
            || message_channel == 0 || message_channel == mapping_channel) && message_type
            == mapping_type ==> spec_mapping_matches(
            mapping_device,
            mapping_type,
            mapping_channel,
            mapping_controller,
            device_id,
            message_type,
            message_channel,
            message_number,
        ),
{
}

/// A message matches a mapping whenever everything agrees: the mapping is
/// for any device or for the message's device, the types are equal, either
/// channel is omni (0) or the channels are equal, and the message's number
/// is the mapping's controller.
pub proof fn law_match_when_fields_agree(
    mapping_device: Seq<char>,
    mapping_type: MidiMessageType,
    mapping_channel: u8,
    mapping_controller: u8,
    device_id: Seq<char>,
    message_channel: u8,
)
    requires
        mapping_device.len() == 0 || mapping_device == device_id,
        mapping_channel == 0 || message_channel == 0 || message_channel == mapping_channel,
    ensures
        spec_mapping_matches(
            mapping_device,
            mapping_type,
            mapping_channel,
            mapping_controller,
            device_id,
            mapping_type,
            message_channel,
            mapping_controller,
        ),
{
}

} // verus!
