//! Output helpers: pixel byte-order conversion, frame data handed to a
//! Syphon sender, and the state of a pool of GPU readback buffers.
use vstd::prelude::*;

verus! {

/// Syphon video frame data (CPU side).
pub struct SyphonFrameData {
    pub width: u32,
    pub height: u32,
    /// BGRA pixel data (native macOS format)
    pub data: Vec<u8>,
    pub timestamp: std::time::Instant,
}

/// The byte at position `i` after swapping the first and third byte of every
/// whole 4-byte pixel of `s`; positions past the last whole pixel hold zero.
pub open spec fn swapped_byte(s: Seq<u8>, i: int) -> u8 {
    if i < (s.len() / 4) * 4 {
        if i % 4 == 0 {
            s[i + 2]
        } else if i % 4 == 2 {
            s[i - 2]
        } else {
            s[i]
        }
    } else {
        0
    }
}

/// `s` with red and blue swapped in every whole pixel, the same length as
/// `s`, trailing bytes that do not form a pixel zeroed.
pub open spec fn swap_red_blue(s: Seq<u8>) -> Seq<u8> {
    Seq::new(s.len(), |i: int| swapped_byte(s, i))
}

/// Convert RGBA data to BGRA (Syphon's preferred format on macOS).
pub fn rgba_to_bgra(rgba_data: &[u8]) -> (r: Vec<u8>)
    ensures
        r@ == swap_red_blue(rgba_data@),
{
    let len = rgba_data.len();
    let pixel_count = len / 4;
    let mut bgra_data: Vec<u8> = Vec::new();
    let mut k: usize = 0;
    while k < len
        invariant
            k <= len,
            len == rgba_data@.len(),
            bgra_data@.len() == k,
            forall|j: int| 0 <= j < k ==> bgra_data@[j] == 0u8,
        decreases len - k,
    {
        bgra_data.push(0u8);
        k += 1;
    }
    let mut i: usize = 0;
    while i < pixel_count
        invariant
            len == rgba_data@.len(),
            pixel_count == len / 4,
            i <= pixel_count,
            bgra_data@.len() == len,
            forall|j: int|
                0 <= j < i * 4 ==> #[trigger] bgra_data@[j] == swapped_byte(rgba_data@, j),
            forall|j: int| i * 4 <= j < len ==> #[trigger] bgra_data@[j] == 0u8,
        decreases pixel_count - i,
    {
        let src_idx = i * 4;
        bgra_data.set(src_idx, rgba_data[src_idx + 2]);
        bgra_data.set(src_idx + 1, rgba_data[src_idx + 1]);
        bgra_data.set(src_idx + 2, rgba_data[src_idx]);
        bgra_data.set(src_idx + 3, rgba_data[src_idx + 3]);
        assert forall|j: int| 0 <= j < (i + 1) * 4 implies #[trigger] bgra_data@[j] == swapped_byte(
            rgba_data@,
            j,
        ) by {
            if j >= i * 4 {
                assert(j - src_idx < 4);
            }
        }
        i += 1;
    }
    assert(bgra_data@ =~= swap_red_blue(rgba_data@));
    bgra_data
}

/// Converting twice gives back the input when it is made of whole pixels.
pub proof fn law_rgba_to_bgra_involution(s: Seq<u8>)
    requires
        s.len() % 4 == 0,
    ensures
        swap_red_blue(swap_red_blue(s)) == s,
{
    assert(swap_red_blue(swap_red_blue(s)) =~= s);
}

/// State of one readback buffer.
#[derive(Clone, Copy, Debug, PartialEq, Eq, Structural)]
pub enum BufferState {
    /// Buffer is free and ready for copy
    Free,
    /// Copy submitted to GPU, map_async started
    InFlight,
}

/// Number of free buffers among `s`.
pub open spec fn count_free(s: Seq<BufferState>) -> nat
    decreases s.len(),
{
    if s.len() == 0 {
        0
    } else {
        count_free(s.drop_last()) + if s.last() == BufferState::Free {
            1nat
        } else {
            0nat
        }
    }
}

/// Index of the first free buffer in `s`, if any.
pub open spec fn first_free(s: Seq<BufferState>) -> Option<int>
    decreases s.len(),
{
    if s.len() == 0 {
        None
    } else if s[0] == BufferState::Free {
        Some(0)
    } else {
        match first_free(s.drop_first()) {
            Some(i) => Some(i + 1),
            None => None,
        }
    }
}

/// `first_free` names a free buffer with only buffers in flight before it,
/// and is `None` only when every buffer is in flight.
pub proof fn lemma_first_free(s: Seq<BufferState>)
    ensures
        first_free(s) matches Some(i) ==> 0 <= i < s.len() && s[i] == BufferState::Free && forall|
            j: int,
        | 0 <= j < i ==> s[j] == BufferState::InFlight,
        first_free(s) is None ==> forall|j: int| 0 <= j < s.len() ==> s[j] == BufferState::InFlight,
    decreases s.len(),
{
    if s.len() > 0 && s[0] != BufferState::Free {
        lemma_first_free(s.drop_first());
        assert forall|j: int| 0 < j < s.len() implies s[j] == s.drop_first()[j - 1] by {}
    }
}

/// Marking a free buffer in flight lowers the count of free buffers by one;
/// marking a buffer in flight free raises it by one.
pub proof fn lemma_count_free_update(s: Seq<BufferState>, k: int, v: BufferState)
    requires
        0 <= k < s.len(),
    ensures
        count_free(s.update(k, v)) + (if s[k] == BufferState::Free { 1int } else { 0int })
            == count_free(s) + (if v == BufferState::Free { 1int } else { 0int }),
    decreases s.len(),
{
    if k == s.len() - 1 {
        assert(s.update(k, v).drop_last() =~= s.drop_last());
    } else {
        lemma_count_free_update(s.drop_last(), k, v);
        assert(s.update(k, v).drop_last() =~= s.drop_last().update(k, v));
    }
}

/// No buffer is free exactly when the count of free buffers is zero.
pub proof fn lemma_count_free_zero(s: Seq<BufferState>)
    ensures
        count_free(s) == 0 <==> forall|i: int| 0 <= i < s.len() ==> s[i] == BufferState::InFlight,
    decreases s.len(),
{
    if s.len() > 0 {
        lemma_count_free_zero(s.drop_last());
        if count_free(s) == 0 {
            assert forall|i: int| 0 <= i < s.len() implies s[i] == BufferState::InFlight by {
                if i < s.len() - 1 {
                    assert(s.drop_last()[i] == s[i]);
                }
            }
        } else {
            if forall|i: int| 0 <= i < s.len() ==> s[i] == BufferState::InFlight {
                assert forall|i: int| 0 <= i < s.drop_last().len() implies s.drop_last()[i]
                    == BufferState::InFlight by {
                    assert(s.drop_last()[i] == s[i]);
                }
                assert(s[s.len() - 1] == BufferState::InFlight);
            }
        }
    }
}

/// The states of a fixed set of GPU readback buffers that are handed out for
/// a copy and given back when the copy has been read.
pub struct ReadbackBuffers {
    states: Vec<BufferState>,
}

impl View for ReadbackBuffers {
    type V = Seq<BufferState>;

    closed spec fn view(&self) -> Seq<BufferState> {
        self.states@
    }
}

impl ReadbackBuffers {
    /// A set of `count` buffers, all free.
    pub fn new(count: usize) -> (r: Self)
        ensures
            r@.len() == count,
            forall|i: int| 0 <= i < count ==> r@[i] == BufferState::Free,
    {
        let mut states: Vec<BufferState> = Vec::new();
        let mut k: usize = 0;
        while k < count
            invariant
                k <= count,
                states@.len() == k,
                forall|i: int| 0 <= i < k ==> states@[i] == BufferState::Free,
            decreases count - k,
        {
            states.push(BufferState::Free);
            k += 1;
        }
        ReadbackBuffers { states }
    }

    /// Number of buffers.
    pub fn len(&self) -> (r: usize)
        ensures
            r == self@.len(),
    {
        self.states.len()
    }

    /// State of buffer `idx`.
    pub fn state(&self, idx: usize) -> (r: BufferState)
        requires
            idx < self@.len(),
        ensures
            r == self@[idx as int],
    {
        self.states[idx]
    }

    /// Find the first free buffer and mark it in flight; `None` when every
    /// buffer is in flight.
    pub fn acquire_buffer(&mut self) -> (r: Option<usize>)
        ensures
            r matches Some(i) ==> first_free(old(self)@) == Some(i as int),
            r is None ==> first_free(old(self)@) is None,
            r matches Some(i) ==> final(self)@ == old(self)@.update(i as int, BufferState::InFlight),
            r is None ==> final(self)@ == old(self)@,
            r is Some <==> count_free(old(self)@) > 0,
            r is Some ==> count_free(final(self)@) + 1 == count_free(old(self)@),
    {
        let mut i: usize = 0;
        while i < self.states.len()
            invariant
                self.states@ == old(self).states@,
                i <= self.states@.len(),
                forall|j: int| 0 <= j < i ==> self.states@[j] == BufferState::InFlight,
            decreases self.states@.len() - i,
        {
            if self.states[i] == BufferState::Free {
                let ghost s = self.states@;
                self.states.set(i, BufferState::InFlight);
                proof {
                    lemma_first_free(s);
                    if let Some(c) = first_free(s) {
                        if c < i {
                            assert(s[c] == BufferState::InFlight);
                        } else if c > i {
                            assert(s[i as int] == BufferState::InFlight);
                        }
                    }
                    lemma_count_free_update(s, i as int, BufferState::InFlight);
                }
                return Some(i);
            }
            i += 1;
        }
        proof {
            lemma_count_free_zero(self.states@);
            lemma_first_free(self.states@);
        }
        None
    }

    /// Mark buffer `idx` free again; out-of-range indices change nothing.
    pub fn release_buffer(&mut self, idx: usize)
        ensures
            idx < old(self)@.len() ==> final(self)@ == old(self)@.update(idx as int, BufferState::Free),
            idx >= old(self)@.len() ==> final(self)@ == old(self)@,
            idx < old(self)@.len() && old(self)@[idx as int] == BufferState::InFlight ==> count_free(
                final(self)@,
            ) == count_free(old(self)@) + 1,
    {
        if idx < self.states.len() {
            proof {
                lemma_count_free_update(self.states@, idx as int, BufferState::Free);
            }
            self.states.set(idx, BufferState::Free);
        }
    }

    /// Whether every buffer is in flight.
    pub fn is_overloaded(&self) -> (r: bool)
        ensures
            r <==> forall|i: int| 0 <= i < self@.len() ==> self@[i] == BufferState::InFlight,
    {
        let mut i: usize = 0;
        while i < self.states.len()
            invariant
                i <= self.states@.len(),
                forall|j: int| 0 <= j < i ==> self.states@[j] == BufferState::InFlight,
            decreases self.states@.len() - i,
        {
            if self.states[i] != BufferState::InFlight {
                return false;
            }
            i += 1;
        }
        true
    }

    /// Number of free buffers.
    pub fn free_buffer_count(&self) -> (r: usize)
        ensures
            r == count_free(self@),
    {
        let mut count: usize = 0;
        let mut i: usize = 0;
        while i < self.states.len()
            invariant
                i <= self.states@.len(),
                count == count_free(self.states@.take(i as int)),
                count <= i,
            decreases self.states@.len() - i,
        {
            proof {
                assert(self.states@.take(i + 1).drop_last() =~= self.states@.take(i as int));
            }
            if self.states[i] == BufferState::Free {
                count += 1;
            }
            i += 1;
        }
        proof {
            assert(self.states@.take(i as int) =~= self.states@);
        }
        count
    }
}

/// Handing a buffer out and giving it back leaves the set as it was.
pub proof fn law_acquire_release_restores(s: Seq<BufferState>)
    requires
        first_free(s) is Some,
    ensures
        ({
            let i = first_free(s)->0;
            0 <= i < s.len() && s.update(i, BufferState::InFlight).update(i, BufferState::Free) == s
        }),
{
    lemma_first_free(s);
    let i = first_free(s)->0;
    assert(s.update(i, BufferState::InFlight).update(i, BufferState::Free) =~= s);
}

/// The set is overloaded exactly when no buffer is free.
pub proof fn law_overloaded_iff_no_free(s: Seq<BufferState>)
    ensures
        (forall|i: int| 0 <= i < s.len() ==> s[i] == BufferState::InFlight) <==> count_free(s) == 0,
{
    lemma_count_free_zero(s);
}

/// Every whole pixel of the input comes out with its first and third bytes
/// swapped and its second and fourth kept; the output is as long as the
/// input, and bytes after the last whole pixel are zero.
pub proof fn law_rgba_to_bgra_per_pixel(s: Seq<u8>)
    ensures
        swap_red_blue(s).len() == s.len(),
        forall|p: int|
            0 <= p < s.len() / 4 ==> {
                &&& #[trigger] swap_red_blue(s)[4 * p] == s[4 * p + 2]
                &&& swap_red_blue(s)[4 * p + 1] == s[4 * p + 1]
                &&& swap_red_blue(s)[4 * p + 2] == s[4 * p]
                &&& swap_red_blue(s)[4 * p + 3] == s[4 * p + 3]
            },
        forall|i: int| (s.len() / 4) * 4 <= i < s.len() ==> #[trigger] swap_red_blue(s)[i] == 0,
{
    assert forall|p: int| 0 <= p < s.len() / 4 implies {
        &&& #[trigger] swap_red_blue(s)[4 * p] == s[4 * p + 2]
        &&& swap_red_blue(s)[4 * p + 1] == s[4 * p + 1]
        &&& swap_red_blue(s)[4 * p + 2] == s[4 * p]
        &&& swap_red_blue(s)[4 * p + 3] == s[4 * p + 3]
    } by {
        assert(4 * p + 3 < (s.len() / 4) * 4);
        assert((4 * p) % 4 == 0);
        assert((4 * p + 1) % 4 == 1);
        assert((4 * p + 2) % 4 == 2);
        assert((4 * p + 3) % 4 == 3);
    }
}

} // verus!
