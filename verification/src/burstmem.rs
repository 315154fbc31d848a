//! Raw burst frames as the sensor sends them: a status word, six data
//! fields, temperature, sample counter and checksum, at 16-bit or 32-bit
//! precision. Field positions follow from the precision; nothing is scaled
//! to physical units here.

use vstd::prelude::*;

verus! {

/// Bits in one bus word.
pub const WORD_SIZE_BITS: usize = 16;

/// Words taken by the status field.
pub const DIAG_STAT: usize = 1;

/// Words taken by one data field at 16-bit precision.
pub const DATA_FIELD: usize = 1;

/// Words taken by the temperature field.
pub const TEMP: usize = 1;

/// Words taken by the sample counter.
pub const DATA_CNTR: usize = 1;

/// Words taken by the checksum.
pub const CHECKSUM: usize = 1;

/// Number of data fields in a frame.
pub const DATA_FIELDS: usize = 6;

/// Words that the six data fields take together at the given precision.
pub open spec fn spec_data_field_size(data_size: int) -> int {
    (data_size / 16) * 6
}

/// Words in a whole frame at the given precision.
pub open spec fn spec_burst_size(data_size: int) -> int {
    4 + spec_data_field_size(data_size)
}

/// Words that the six data fields take together, for fields of `data_size`
/// bits.
pub fn data_field_size(data_size: usize) -> (words: usize)
    ensures
        words == spec_data_field_size(data_size as int),
        data_size == 16 ==> words == 6,
        data_size == 32 ==> words == 12,
{
    (data_size / WORD_SIZE_BITS) * DATA_FIELD * DATA_FIELDS
}

/// Words in a whole frame, for fields of `data_size` bits: 10 at 16 bits,
/// 16 at 32 bits.
pub fn burst_size(data_size: usize) -> (words: usize)
    ensures
        words == spec_burst_size(data_size as int),
        data_size == 16 ==> words == 10,
        data_size == 32 ==> words == 16,
{
    DIAG_STAT + data_field_size(data_size) + TEMP + DATA_CNTR + CHECKSUM
}

/// Position of the status word: always the first.
pub fn diag_stat_off(_data_size: usize) -> (offset: usize)
    ensures
        offset == 0,
{
    0
}

/// Position of the first data field: right after the status word.
pub fn data_field_off(_data_size: usize) -> (offset: usize)
    ensures
        offset == 1,
{
    DIAG_STAT
}

/// Position of the temperature word: after the data fields.
pub fn temp_off(data_size: usize) -> (offset: usize)
    ensures
        offset == spec_burst_size(data_size as int) - 3,
{
    DIAG_STAT + data_field_size(data_size)
}

/// Position of the sample counter: after the temperature.
pub fn data_cntr_off(data_size: usize) -> (offset: usize)
    ensures
        offset == spec_burst_size(data_size as int) - 2,
{
    DIAG_STAT + data_field_size(data_size) + TEMP
}

/// Position of the checksum: the last word of the frame.
pub fn checksum_off(data_size: usize) -> (offset: usize)
    ensures
        offset == spec_burst_size(data_size as int) - 1,
{
    DIAG_STAT + data_field_size(data_size) + TEMP + DATA_CNTR
}

/// A bus word read as a two's-complement number.
pub open spec fn signed(word: u16) -> int {
    if word < 0x8000 {
        word as int
    } else {
        word - 0x1_0000
    }
}

/// Sum of the two bytes of a word.
pub open spec fn word_bytes(word: u16) -> int {
    word % 256 + word / 256
}

/// Sum of all bytes of a run of words.
pub open spec fn byte_sum(words: Seq<u16>) -> int
    decreases words.len(),
{
    if words.len() == 0 {
        0
    } else {
        byte_sum(words.drop_last()) + word_bytes(words.last())
    }
}

/// Checksum that a frame ought to carry: the sum of all bytes before its
/// last word, cut to 16 bits.
pub open spec fn computed_checksum(frame: Seq<u16>) -> int {
    byte_sum(frame.drop_last()) % 0x1_0000
}

/// Whether the last word of a frame differs from the checksum of the words
/// before it.
pub open spec fn frame_corrupted(frame: Seq<u16>) -> bool {
    computed_checksum(frame) != frame.last()
}

/// Data field `index` (0 to 5) of a frame, in units of 2^-15 of the least
/// significant bit of the integer word. At 16-bit precision the field is one
/// signed word. At 32-bit precision it is a signed integer word followed by an
/// unsigned fraction word worth 2^-15 each.
pub open spec fn field_q15(frame: Seq<u16>, data_size: int, index: int) -> int {
    if data_size == 16 {
        signed(frame[1 + index]) * 0x8000
    } else {
        signed(frame[1 + 2 * index]) * 0x8000 + frame[1 + 2 * index + 1]
    }
}

/// Temperature word of a frame, as a signed count.
pub open spec fn frame_temp(frame: Seq<u16>) -> int {
    signed(frame[frame.len() - 3])
}

/// Sample counter of a frame.
pub open spec fn frame_data_cntr(frame: Seq<u16>) -> u16 {
    frame[frame.len() - 2]
}

fn signed_word(word: u16) -> (value: i32)
    ensures
        value == signed(word),
{
    if word < 0x8000 {
        word as i32
    } else {
        word as i32 - 0x1_0000
    }
}

fn read_field(frame: &[u16], data_size: usize, index: usize) -> (value: i32)
    requires
        data_size == 16 || data_size == 32,
        frame@.len() == spec_burst_size(data_size as int),
        index < 6,
    ensures
        value == field_q15(frame@, data_size as int, index as int),
{
    let first: usize = data_field_off(data_size);
    if data_size == 16 {
        signed_word(frame[first + index]) * 0x8000
    } else {
        let whole: i32 = signed_word(frame[first + 2 * index]);
        let fraction: i32 = frame[first + 2 * index + 1] as i32;
        whole * 0x8000 + fraction
    }
}

fn read_temp(frame: &[u16], data_size: usize) -> (value: i16)
    requires
        data_size == 16 || data_size == 32,
        frame@.len() == spec_burst_size(data_size as int),
    ensures
        value == frame_temp(frame@),
{
    signed_word(frame[temp_off(data_size)]) as i16
}

fn sum_bytes(frame: &[u16]) -> (sum: u16)
    requires
        1 <= frame@.len() <= 16,
    ensures
        sum == computed_checksum(frame@),
{
    let count: usize = frame.len() - 1;
    let mut total: u32 = 0;
    let mut i: usize = 0;
    while i < count
        invariant
            count == frame@.len() - 1,
            count <= 15,
            i <= count,
            total == byte_sum(frame@.take(i as int)),
            total <= 510 * i,
        decreases count - i,
    {
        let word: u16 = frame[i];
        assert(frame@.take(i + 1).drop_last() =~= frame@.take(i as int));
        total = total + (word % 256) as u32 + (word / 256) as u32;
        i += 1;
    }
    assert(frame@.take(count as int) =~= frame@.drop_last());
    (total % 0x1_0000) as u16
}

fn check_frame(frame: &[u16], data_size: usize) -> (corrupted: bool)
    requires
        data_size == 16 || data_size == 32,
        frame@.len() == spec_burst_size(data_size as int),
    ensures
        corrupted == frame_corrupted(frame@),
{
    sum_bytes(frame) != frame[checksum_off(data_size)]
}

/// What every raw burst frame offers, whatever its precision.
pub trait BurstMemory {
    /// The words of the frame, in bus order.
    spec fn frame(&self) -> Seq<u16>;

    /// Bits per data field: 16 or 32.
    spec fn data_size(&self) -> int;

    /// The status word.
    fn diag_stat(&self) -> (word: u16)
        ensures
            word == self.frame()[0],
    ;

    /// First data field, in units of 2^-15 of a count.
    fn xa(&self) -> (value: i32)
        ensures
            value == field_q15(self.frame(), self.data_size(), 0),
    ;

    /// Second data field, in units of 2^-15 of a count.
    fn ya(&self) -> (value: i32)
        ensures
            value == field_q15(self.frame(), self.data_size(), 1),
    ;

    /// Third data field, in units of 2^-15 of a count.
    fn za(&self) -> (value: i32)
        ensures
            value == field_q15(self.frame(), self.data_size(), 2),
    ;

    /// Fourth data field, in units of 2^-15 of a count.
    fn xb(&self) -> (value: i32)
        ensures
            value == field_q15(self.frame(), self.data_size(), 3),
    ;

    /// Fifth data field, in units of 2^-15 of a count.
    fn yb(&self) -> (value: i32)
        ensures
            value == field_q15(self.frame(), self.data_size(), 4),
    ;

    /// Sixth data field, in units of 2^-15 of a count.
    fn zb(&self) -> (value: i32)
        ensures
            value == field_q15(self.frame(), self.data_size(), 5),
    ;

    /// The temperature word as a signed count.
    fn temp(&self) -> (value: i16)
        ensures
            value == frame_temp(self.frame()),
    ;

    /// The sample counter.
    fn data_cntr(&self) -> (count: u16)
        ensures
            count == frame_data_cntr(self.frame()),
    ;

    /// Whether the checksum word disagrees with the bytes before it.
    fn is_corrupted(&self) -> (corrupted: bool)
        ensures
            corrupted == frame_corrupted(self.frame()),
    ;
}

/// A burst frame with 16-bit data fields: ten words.
#[derive(Debug, Clone, Copy, Hash)]
pub struct BurstMemory16 {
    pub data: [u16; 10],
}

/// A burst frame with 32-bit data fields: sixteen words.
#[derive(Debug, Clone, Copy, Hash)]
pub struct BurstMemory32 {
    pub data: [u16; 16],
}

impl View for BurstMemory16 {
    type V = Seq<u16>;

    open spec fn view(&self) -> Seq<u16> {
        self.data@
    }
}

impl View for BurstMemory32 {
    type V = Seq<u16>;

    open spec fn view(&self) -> Seq<u16> {
        self.data@
    }
}

impl Default for BurstMemory16 {
    /// A frame of zeros.
    fn default() -> (mem: Self)
        ensures
            mem@ == Seq::new(10, |i: int| 0u16),
    {
        let mem = BurstMemory16 { data: [0u16; 10] };
        assert(mem@ =~= Seq::new(10, |i: int| 0u16));
        mem
    }
}

impl Default for BurstMemory32 {
    /// A frame of zeros.
    fn default() -> (mem: Self)
        ensures
            mem@ == Seq::new(16, |i: int| 0u16),
    {
        let mem = BurstMemory32 { data: [0u16; 16] };
        assert(mem@ =~= Seq::new(16, |i: int| 0u16));
        mem
    }
}

impl From<[u16; 10]> for BurstMemory16 {
    fn from(data: [u16; 10]) -> (mem: Self) {
        BurstMemory16 { data }
    }
}

impl vstd::std_specs::convert::FromSpecImpl<[u16; 10]> for BurstMemory16 {
    open spec fn obeys_from_spec() -> bool {
        true
    }

    open spec fn from_spec(data: [u16; 10]) -> Self {
        BurstMemory16 { data }
    }
}

impl From<[u16; 16]> for BurstMemory32 {
    fn from(data: [u16; 16]) -> (mem: Self) {
        BurstMemory32 { data }
    }
}

impl vstd::std_specs::convert::FromSpecImpl<[u16; 16]> for BurstMemory32 {
    open spec fn obeys_from_spec() -> bool {
        true
    }

    open spec fn from_spec(data: [u16; 16]) -> Self {
        BurstMemory32 { data }
    }
}

fn same_words(left: &[u16], right: &[u16]) -> (same: bool)
    ensures
        same == (left@ == right@),
{
    if left.len() != right.len() {
        return false;
    }
    let mut i: usize = 0;
    while i < left.len()
        invariant
            left@.len() == right@.len(),
            i <= left@.len(),
            forall|j: int| 0 <= j < i ==> left@[j] == right@[j],
        decreases left@.len() - i,
    {
        if left[i] != right[i] {
            return false;
        }
        i += 1;
    }
    assert(left@ =~= right@);
    true
}

impl PartialEq for BurstMemory16 {
    fn eq(&self, other: &Self) -> (same: bool) {
        let same = same_words(self.data.as_slice(), other.data.as_slice());
        assert(same == (self.data@ == other.data@));
        assert((self.data@ == other.data@) == (self.data == other.data)) by {
            if self.data@ == other.data@ {
                assert(self.data =~= other.data);
            }
        }
        same
    }
}

impl Eq for BurstMemory16 {

}

impl vstd::std_specs::cmp::PartialEqSpecImpl for BurstMemory16 {
    open spec fn obeys_eq_spec() -> bool {
        true
    }

    open spec fn eq_spec(&self, other: &Self) -> bool {
        *self == *other
    }
}

impl PartialEq for BurstMemory32 {
    fn eq(&self, other: &Self) -> (same: bool) {
        let same = same_words(self.data.as_slice(), other.data.as_slice());
        assert(same == (self.data@ == other.data@));
        assert((self.data@ == other.data@) == (self.data == other.data)) by {
            if self.data@ == other.data@ {
                assert(self.data =~= other.data);
            }
        }
        same
    }
}

impl Eq for BurstMemory32 {

}

impl vstd::std_specs::cmp::PartialEqSpecImpl for BurstMemory32 {
    open spec fn obeys_eq_spec() -> bool {
        true
    }

    open spec fn eq_spec(&self, other: &Self) -> bool {
        *self == *other
    }
}

impl BurstMemory16 {
    /// The checksum word that the frame carries.
    pub fn checksum(&self) -> (word: u16)
        ensures
            word == self@.last(),
    {
        self.data[checksum_off(16)]
    }
}

impl BurstMemory32 {
    /// The checksum word that the frame carries.
    pub fn checksum(&self) -> (word: u16)
        ensures
            word == self@.last(),
    {
        self.data[checksum_off(32)]
    }
}

impl BurstMemory for BurstMemory16 {
    open spec fn frame(&self) -> Seq<u16> {
        self@
    }

    open spec fn data_size(&self) -> int {
        16
    }

    fn diag_stat(&self) -> (word: u16) {
        self.data[diag_stat_off(16)]
    }

    fn xa(&self) -> (value: i32) {
        read_field(self.data.as_slice(), 16, 0)
    }

    fn ya(&self) -> (value: i32) {
        read_field(self.data.as_slice(), 16, 1)
    }

    fn za(&self) -> (value: i32) {
        read_field(self.data.as_slice(), 16, 2)
    }

    fn xb(&self) -> (value: i32) {
        read_field(self.data.as_slice(), 16, 3)
    }

    fn yb(&self) -> (value: i32) {
        read_field(self.data.as_slice(), 16, 4)
    }

    fn zb(&self) -> (value: i32) {
        read_field(self.data.as_slice(), 16, 5)
    }

    fn temp(&self) -> (value: i16) {
        read_temp(self.data.as_slice(), 16)
    }

    fn data_cntr(&self) -> (count: u16) {
        self.data[data_cntr_off(16)]
    }

    fn is_corrupted(&self) -> (corrupted: bool) {
        check_frame(self.data.as_slice(), 16)
    }
}

impl BurstMemory for BurstMemory32 {
    open spec fn frame(&self) -> Seq<u16> {
        self@
    }

    open spec fn data_size(&self) -> int {
        32
    }

    fn diag_stat(&self) -> (word: u16) {
        self.data[diag_stat_off(32)]
    }

    fn xa(&self) -> (value: i32) {
        read_field(self.data.as_slice(), 32, 0)
    }

    fn ya(&self) -> (value: i32) {
        read_field(self.data.as_slice(), 32, 1)
    }

    fn za(&self) -> (value: i32) {
        read_field(self.data.as_slice(), 32, 2)
    }

    fn xb(&self) -> (value: i32) {
        read_field(self.data.as_slice(), 32, 3)
    }

    fn yb(&self) -> (value: i32) {
        read_field(self.data.as_slice(), 32, 4)
    }

    fn zb(&self) -> (value: i32) {
        read_field(self.data.as_slice(), 32, 5)
    }

    fn temp(&self) -> (value: i16) {
        read_temp(self.data.as_slice(), 32)
    }

    fn data_cntr(&self) -> (count: u16) {
        self.data[data_cntr_off(32)]
    }

    fn is_corrupted(&self) -> (corrupted: bool) {
        check_frame(self.data.as_slice(), 32)
    }
}

/// Replacing one word of a run changes the byte sum by the difference of
/// the two words' bytes.
pub proof fn lemma_byte_sum_update(words: Seq<u16>, index: int, word: u16)
    requires
        0 <= index < words.len(),
    ensures
        byte_sum(words.update(index, word)) == byte_sum(words) - word_bytes(words[index])
            + word_bytes(word),
    decreases words.len(),
{
    let changed = words.update(index, word);
    if index == words.len() - 1 {
        assert(changed.drop_last() =~= words.drop_last());
    } else {
        assert(changed.drop_last() =~= words.drop_last().update(index, word));
        lemma_byte_sum_update(words.drop_last(), index, word);
    }
}

/// Flipping a single bit moves the byte sum of a word, by less than the
/// checksum can hide.
pub proof fn lemma_flip_moves_bytes(word: u16, bit: u16)
    requires
        bit < 16,
    ensures
        word_bytes(word ^ (1u16 << bit)) != word_bytes(word),
        0 <= word_bytes(word) <= 510,
        0 <= word_bytes(word ^ (1u16 << bit)) <= 510,
{
    let flipped: u16 = word ^ (1u16 << bit);
    assert(flipped % 256 + flipped / 256 != word % 256 + word / 256) by (bit_vector)
        requires
            bit < 16,
            flipped == word ^ (1u16 << bit),
    ;
}

/// A frame whose checksum holds stops holding as soon as any single bit
/// before the checksum word is flipped and the checksum word is left as it
/// was: the frame then reads as corrupted.
pub proof fn lemma_bit_flip_detected(frame: Seq<u16>, index: int, bit: u16)
    requires
        0 <= index < frame.len() - 1,
        bit < 16,
        !frame_corrupted(frame),
    ensures
        frame_corrupted(frame.update(index, frame[index] ^ (1u16 << bit))),
{
    let flipped: u16 = frame[index] ^ (1u16 << bit);
    let changed = frame.update(index, flipped);
    assert(changed.drop_last() =~= frame.drop_last().update(index, flipped));
    lemma_byte_sum_update(frame.drop_last(), index, flipped);
    lemma_flip_moves_bytes(frame[index], bit);
    let before = byte_sum(frame.drop_last());
    let after = byte_sum(changed.drop_last());
    assert(after != before);
    assert(-510 <= after - before <= 510);
    assert(after % 0x1_0000 != before % 0x1_0000);
    assert(changed.last() == frame.last());
}

} // verus!
