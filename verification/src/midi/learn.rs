//! MIDI learn: the user picks a parameter, then moves a MIDI control to map
//! it. The session times out; the caller measures how long it has run.
use vstd::prelude::*;
use vstd::string::StringExecFns;
use super::mapping::{
    has_prefix, param_display_name, spec_param_display_name, starts_with, MidiMessageType,
};

verus! {

/// Whether a message of this type (with this velocity, for note-on) can be
/// learned: control changes, pitch bend, aftertouch, and note-on with a
/// velocity above zero.
pub open spec fn spec_learns_from(message_type: MidiMessageType, velocity: u8) -> bool {
    match message_type {
        MidiMessageType::ControlChange => true,
        MidiMessageType::NoteOn => velocity > 0,
        MidiMessageType::PitchBend => true,
        MidiMessageType::PolyAftertouch => true,
        MidiMessageType::ChannelAftertouch => true,
        _ => false,
    }
}

/// Whether a message of this type can be learned.
pub fn learns_from(message_type: MidiMessageType, velocity: u8) -> (r: bool)
    ensures
        r == spec_learns_from(message_type, velocity),
{
    match message_type {
        MidiMessageType::ControlChange => true,
        MidiMessageType::NoteOn => velocity > 0,
        MidiMessageType::PitchBend => true,
        MidiMessageType::PolyAftertouch => true,
        MidiMessageType::ChannelAftertouch => true,
        _ => false,
    }
}

/// State of a MIDI learn session (the value range of the parameter is kept
/// by the caller).
pub struct LearnSession {
    /// Whether learn mode is on
    pub active: bool,
    /// Parameter ID being learned
    pub param_id: String,
    /// Whether the session has a start time (and so can time out)
    pub timed: bool,
    /// Timeout in milliseconds
    pub timeout_ms: u128,
    /// Visual feedback: flash counter
    pub flash_count: u32,
}

impl LearnSession {
    /// Whether learn mode is on after `elapsed_ms` since the session started:
    /// it is on and has not run past its timeout.
    pub open spec fn spec_is_active(&self, elapsed_ms: u128) -> bool {
        self.active && !(self.timed && elapsed_ms > self.timeout_ms)
    }

    /// An inactive session with a ten-second timeout.
    pub fn new() -> (r: Self)
        ensures
            !r.active,
            r.param_id@ == Seq::<char>::empty(),
            !r.timed,
            r.timeout_ms == 10000,
            r.flash_count == 0,
    {
        LearnSession {
            active: false,
            param_id: String::new(),
            timed: false,
            timeout_ms: 10000,
            flash_count: 0,
        }
    }

    /// Whether learn mode is on, `elapsed_ms` after the session started.
    pub fn is_active(&self, elapsed_ms: u128) -> (r: bool)
        ensures
            r == self.spec_is_active(elapsed_ms),
    {
        if !self.active {
            return false;
        }
        if self.timed && elapsed_ms > self.timeout_ms {
            return false;
        }
        true
    }

    /// Start learning a parameter (the clock starts now).
    pub fn start(&mut self, param_id: String)
        ensures
            final(self).active,
            final(self).param_id@ == param_id@,
            final(self).timed,
            final(self).flash_count == 0,
            final(self).timeout_ms == old(self).timeout_ms,
            forall|e: u128| #[trigger] final(self).spec_is_active(e) <==> e <= old(self).timeout_ms,
    {
        self.active = true;
        self.param_id = param_id;
        self.timed = true;
        self.flash_count = 0;
    }

    /// Cancel learning.
    pub fn cancel(&mut self)
        ensures
            !final(self).active,
            final(self).param_id@ == Seq::<char>::empty(),
            !final(self).timed,
            final(self).flash_count == old(self).flash_count,
            final(self).timeout_ms == old(self).timeout_ms,
            forall|e: u128| !#[trigger] final(self).spec_is_active(e),
    {
        self.active = false;
        self.param_id = String::new();
        self.timed = false;
    }

    /// Handle a MIDI message `elapsed_ms` after the session started: when
    /// learn mode is on and the message can be learned, the session ends
    /// and the learned parameter's ID is returned; otherwise nothing
    /// changes.
    pub fn handle_midi_message(&mut self, elapsed_ms: u128, message_type: MidiMessageType, velocity: u8) -> (r:
        Option<String>)
        ensures
            old(self).spec_is_active(elapsed_ms) && spec_learns_from(message_type, velocity) ==> (r matches Some(p) && p@ == old(self).param_id@) && !final(self).active
                && !final(self).timed && final(self).param_id@ == old(self).param_id@
                && final(self).timeout_ms == old(self).timeout_ms && final(self).flash_count == old(self).flash_count,
            old(self).spec_is_active(elapsed_ms) && spec_learns_from(message_type, velocity) ==> forall|e: u128|
                !#[trigger] final(self).spec_is_active(e),
            !(old(self).spec_is_active(elapsed_ms) && spec_learns_from(message_type, velocity)) ==> r is None
                && final(self).active == old(self).active && final(self).timed == old(self).timed
                && final(self).param_id@ == old(self).param_id@ && final(self).timeout_ms
                == old(self).timeout_ms && final(self).flash_count == old(self).flash_count,
    {
        if !self.is_active(elapsed_ms) {
            return None;
        }
        if learns_from(message_type, velocity) {
            let param_id = self.param_id.clone();
            self.active = false;
            self.timed = false;
            Some(param_id)
        } else {
            None
        }
    }

    /// Whether `param_id` is the parameter being learned right now.
    pub fn is_learning(&self, elapsed_ms: u128, param_id: &str) -> (r: bool)
        ensures
            r == (self.spec_is_active(elapsed_ms) && self.param_id@ == param_id@),
    {
        self.is_active(elapsed_ms) && self.param_id == String::from_str(param_id)
    }
}

/// IDs of every parameter that can be learned, in menu order.
pub open spec fn spec_learnable_param_ids() -> Seq<Seq<char>> {
    seq![
        "block1.ch1_x_displace"@,
        "block1.ch1_y_displace"@,
        "block1.ch1_z_displace"@,
        "block1.ch1_rotate"@,
        "block1.ch1_blur_amount"@,
        "block1.ch1_sharpen_amount"@,
        "block1.ch1_kaleidoscope_amount"@,
        "block1.ch2_mix_amount"@,
        "block1.ch2_x_displace"@,
        "block1.ch2_y_displace"@,
        "block1.ch2_z_displace"@,
        "block1.ch2_rotate"@,
        "block1.ch2_blur_amount"@,
        "block1.ch2_sharpen_amount"@,
        "block1.ch2_key_threshold"@,
        "block1.ch2_key_soft"@,
        "block1.fb1_mix_amount"@,
        "block1.fb1_x_displace"@,
        "block1.fb1_y_displace"@,
        "block1.fb1_z_displace"@,
        "block1.fb1_rotate"@,
        "block1.fb1_blur_amount"@,
        "block1.fb1_sharpen_amount"@,
        "block1.fb1_delay_time"@,
        "block2.input_x_displace"@,
        "block2.input_y_displace"@,
        "block2.input_z_displace"@,
        "block2.input_rotate"@,
        "block2.input_blur_amount"@,
        "block2.input_sharpen_amount"@,
        "block2.fb2_mix_amount"@,
        "block2.fb2_x_displace"@,
        "block2.fb2_y_displace"@,
        "block2.fb2_z_displace"@,
        "block2.fb2_rotate"@,
        "block3.block1_x_displace"@,
        "block3.block1_y_displace"@,
        "block3.block1_z_displace"@,
        "block3.block1_rotate"@,
        "block3.block2_x_displace"@,
        "block3.block2_y_displace"@,
        "block3.block2_z_displace"@,
        "block3.block2_rotate"@,
        "block3.matrix_mix_r_to_r"@,
        "block3.matrix_mix_r_to_g"@,
        "block3.matrix_mix_r_to_b"@,
        "block3.matrix_mix_g_to_r"@,
        "block3.matrix_mix_g_to_g"@,
        "block3.matrix_mix_g_to_b"@,
        "block3.matrix_mix_b_to_r"@,
        "block3.matrix_mix_b_to_g"@,
        "block3.matrix_mix_b_to_b"@,
        "block3.final_mix_amount"@,
        "block3.final_key_threshold"@,
        "block3.final_key_soft"@,
        "global.bpm"@,
    ]
}

/// IDs of every parameter that can be learned, in menu order.
pub fn learnable_param_ids() -> (r: Vec<String>)
    ensures
        r@.map_values(|s: String| s@) == spec_learnable_param_ids(),
{
    let mut v: Vec<String> = Vec::new();
    v.push(String::from_str("block1.ch1_x_displace"));
    v.push(String::from_str("block1.ch1_y_displace"));
    v.push(String::from_str("block1.ch1_z_displace"));
    v.push(String::from_str("block1.ch1_rotate"));
    v.push(String::from_str("block1.ch1_blur_amount"));
    v.push(String::from_str("block1.ch1_sharpen_amount"));
    v.push(String::from_str("block1.ch1_kaleidoscope_amount"));
    v.push(String::from_str("block1.ch2_mix_amount"));
    v.push(String::from_str("block1.ch2_x_displace"));
    v.push(String::from_str("block1.ch2_y_displace"));
    v.push(String::from_str("block1.ch2_z_displace"));
    v.push(String::from_str("block1.ch2_rotate"));
    v.push(String::from_str("block1.ch2_blur_amount"));
    v.push(String::from_str("block1.ch2_sharpen_amount"));
    v.push(String::from_str("block1.ch2_key_threshold"));
    v.push(String::from_str("block1.ch2_key_soft"));
    v.push(String::from_str("block1.fb1_mix_amount"));
    v.push(String::from_str("block1.fb1_x_displace"));
    v.push(String::from_str("block1.fb1_y_displace"));
    v.push(String::from_str("block1.fb1_z_displace"));
    v.push(String::from_str("block1.fb1_rotate"));
    v.push(String::from_str("block1.fb1_blur_amount"));
    v.push(String::from_str("block1.fb1_sharpen_amount"));
    v.push(String::from_str("block1.fb1_delay_time"));
    v.push(String::from_str("block2.input_x_displace"));
    v.push(String::from_str("block2.input_y_displace"));
    v.push(String::from_str("block2.input_z_displace"));
    v.push(String::from_str("block2.input_rotate"));
    v.push(String::from_str("block2.input_blur_amount"));
    v.push(String::from_str("block2.input_sharpen_amount"));
    v.push(String::from_str("block2.fb2_mix_amount"));
    v.push(String::from_str("block2.fb2_x_displace"));
    v.push(String::from_str("block2.fb2_y_displace"));
    v.push(String::from_str("block2.fb2_z_displace"));
    v.push(String::from_str("block2.fb2_rotate"));
    v.push(String::from_str("block3.block1_x_displace"));
    v.push(String::from_str("block3.block1_y_displace"));
    v.push(String::from_str("block3.block1_z_displace"));
    v.push(String::from_str("block3.block1_rotate"));
    v.push(String::from_str("block3.block2_x_displace"));
    v.push(String::from_str("block3.block2_y_displace"));
    v.push(String::from_str("block3.block2_z_displace"));
    v.push(String::from_str("block3.block2_rotate"));
    v.push(String::from_str("block3.matrix_mix_r_to_r"));
    v.push(String::from_str("block3.matrix_mix_r_to_g"));
    v.push(String::from_str("block3.matrix_mix_r_to_b"));
    v.push(String::from_str("block3.matrix_mix_g_to_r"));
    v.push(String::from_str("block3.matrix_mix_g_to_g"));
    v.push(String::from_str("block3.matrix_mix_g_to_b"));
    v.push(String::from_str("block3.matrix_mix_b_to_r"));
    v.push(String::from_str("block3.matrix_mix_b_to_g"));
    v.push(String::from_str("block3.matrix_mix_b_to_b"));
    v.push(String::from_str("block3.final_mix_amount"));
    v.push(String::from_str("block3.final_key_threshold"));
    v.push(String::from_str("block3.final_key_soft"));
    v.push(String::from_str("global.bpm"));
    assert(v@.map_values(|s: String| s@) =~= spec_learnable_param_ids());
    v
}

/// Every learnable parameter: its ID and its readable name.
pub fn learnable_params() -> (r: Vec<(String, String)>)
    ensures
        r@.len() == spec_learnable_param_ids().len(),
        forall|i: int|
            0 <= i < r@.len() ==> (#[trigger] r@[i]).0@ == spec_learnable_param_ids()[i] && r@[i].1@
                == spec_param_display_name(spec_learnable_param_ids()[i]),
{
    let ids = learnable_param_ids();
    let mut out: Vec<(String, String)> = Vec::new();
    let mut i: usize = 0;
    while i < ids.len()
        invariant
            i <= ids@.len(),
            ids@.map_values(|s: String| s@) == spec_learnable_param_ids(),
            out@.len() == i,
            forall|j: int|
                0 <= j < i ==> (#[trigger] out@[j]).0@ == spec_learnable_param_ids()[j] && out@[j].1@
                    == spec_param_display_name(spec_learnable_param_ids()[j]),
        decreases ids@.len() - i,
    {
        let id = ids[i].clone();
        let name = param_display_name(id.as_str());
        proof {
            assert(ids@.map_values(|s: String| s@)[i as int] == ids@[i as int]@);
        }
        out.push((id, name));
        i += 1;
    }
    out
}

/// Every learnable parameter: its ID and its readable name.
pub open spec fn spec_learnable_params() -> Seq<(Seq<char>, Seq<char>)> {
    spec_learnable_param_ids().map_values(|id: Seq<char>| (id, spec_param_display_name(id)))
}

/// The parameters of `params` whose ID begins with `block`, in order.
pub open spec fn params_in_block(params: Seq<(Seq<char>, Seq<char>)>, block: Seq<char>) -> Seq<
    (Seq<char>, Seq<char>),
>
    decreases params.len(),
{
    if params.len() == 0 {
        params
    } else {
        let rest = params_in_block(params.drop_last(), block);
        if starts_with(params.last().0, block) {
            rest.push(params.last())
        } else {
            rest
        }
    }
}

/// The learnable parameters of a block: those whose ID begins with
/// `block`, in order, with their readable names.
pub fn learnable_params_for_block(block: &str) -> (r: Vec<(String, String)>)
    ensures
        r@.map_values(|p: (String, String)| (p.0@, p.1@)) == params_in_block(
            spec_learnable_params(),
            block@,
        ),
{
    let all = learnable_params();
    let ghost pairs = all@.map_values(|p: (String, String)| (p.0@, p.1@));
    proof {
        assert(pairs =~= spec_learnable_params());
        assert(pairs.take(0) =~= Seq::<(Seq<char>, Seq<char>)>::empty());
    }
    let mut out: Vec<(String, String)> = Vec::new();
    let mut i: usize = 0;
    while i < all.len()
        invariant
            i <= all@.len(),
            pairs == all@.map_values(|p: (String, String)| (p.0@, p.1@)),
            out@.map_values(|p: (String, String)| (p.0@, p.1@)) == params_in_block(
                pairs.take(i as int),
                block@,
            ),
        decreases all@.len() - i,
    {
        let ghost before = out@.map_values(|p: (String, String)| (p.0@, p.1@));
        proof {
            assert(pairs.take(i + 1).drop_last() =~= pairs.take(i as int));
            assert(pairs.take(i + 1).last() == pairs[i as int]);
        }
        if has_prefix(all[i].0.as_str(), block) {
            let id = all[i].0.clone();
            let name = all[i].1.clone();
            out.push((id, name));
            proof {
                assert(out@.map_values(|p: (String, String)| (p.0@, p.1@)) =~= before.push(
                    pairs[i as int],
                ));
            }
        }
        i += 1;
    }
    proof {
        assert(pairs.take(all@.len() as int) =~= pairs);
    }
    out
}

/// The parameters listed for a block are exactly those of the whole list
/// whose ID begins with the block's name: each listed one is in the whole
/// list and begins with it, and each one in the whole list that begins with
/// it is listed.
pub proof fn law_block_lists_its_parameters(
    params: Seq<(Seq<char>, Seq<char>)>,
    block: Seq<char>,
)
    ensures
        forall|k: int|
            0 <= k < params_in_block(params, block).len() ==> starts_with(
                #[trigger] params_in_block(params, block)[k].0,
                block,
            ) && params.contains(params_in_block(params, block)[k]),
        forall|j: int|
            0 <= j < params.len() && starts_with(#[trigger] params[j].0, block) ==> params_in_block(
                params,
                block,
            ).contains(params[j]),
    decreases params.len(),
{
    if params.len() > 0 {
        let init = params.drop_last();
        law_block_lists_its_parameters(init, block);
        let rest = params_in_block(init, block);
        let r = params_in_block(params, block);
        assert forall|k: int| 0 <= k < r.len() implies starts_with(#[trigger] r[k].0, block)
            && params.contains(r[k]) by {
            if k < rest.len() {
                assert(r[k] == rest[k]);
                assert(0 <= k < params_in_block(init, block).len());
                assert(starts_with(params_in_block(init, block)[k].0, block));
                assert(init.contains(rest[k]));
                let w = choose|w: int| 0 <= w < init.len() && init[w] == rest[k];
                assert(params[w] == init[w]);
            } else {
                assert(r[k] == params.last());
                assert(params[params.len() - 1] == params.last());
            }
        }
        assert forall|j: int| 0 <= j < params.len() && starts_with(#[trigger] params[j].0, block)
            implies r.contains(params[j]) by {
            if j < params.len() - 1 {
                assert(params[j] == init[j]);
                assert(starts_with(init[j].0, block));
                let w = choose|w: int| 0 <= w < rest.len() && rest[w] == init[j];
                assert(r[w] == rest[w]);
            } else {
                assert(params[j] == params.last());
                assert(r[r.len() - 1] == params.last());
            }
        }
    }
}

} // verus!
