//! Chaskey-12 message authentication.
//!
//! A lightweight MAC for 32-bit microcontrollers: a 128-bit key, a 128-bit
//! state permuted twelve rounds per block, and a tag cut to 64 bits.

use vstd::prelude::*;
use vstd::wrapping::u32_specs::wrapping_add;

verus! {

/// Number of Chaskey rounds (12 for standard security).
pub const CHASKEY_ROUNDS: usize = 12;

/// MAC tag size in bytes (64-bit truncated for efficiency).
pub const MAC_TAG_SIZE: usize = 8;

/// Block size in bytes.
pub const BLOCK_SIZE: usize = 16;

/// A 32-bit word rotated left by `n` bits, for `n` between 1 and 31.
pub open spec fn rotl32_spec(x: u32, n: u32) -> u32 {
    (x << n) | (x >> ((32 - n) as u32))
}

/// One Chaskey round on a state of four words.
pub open spec fn round_spec(v: Seq<u32>) -> Seq<u32> {
    let a0 = wrapping_add(v[0], v[1]);
    let b1 = rotl32_spec(v[1], 5) ^ a0;
    let c0 = rotl32_spec(a0, 16);
    let a2 = wrapping_add(v[2], v[3]);
    let b3 = rotl32_spec(v[3], 8) ^ a2;
    let d0 = wrapping_add(c0, b3);
    let c3 = rotl32_spec(b3, 13) ^ d0;
    let b2 = wrapping_add(a2, b1);
    let c1 = rotl32_spec(b1, 7) ^ b2;
    let c2 = rotl32_spec(b2, 16);
    seq![d0, c1, c2, c3]
}

/// `n` Chaskey rounds in a row.
pub open spec fn rounds_spec(v: Seq<u32>, n: nat) -> Seq<u32>
    decreases n,
{
    if n == 0 {
        v
    } else {
        round_spec(rounds_spec(v, (n - 1) as nat))
    }
}

/// The full Chaskey permutation: twelve rounds.
pub open spec fn permute_spec(v: Seq<u32>) -> Seq<u32> {
    rounds_spec(v, 12)
}

/// The little-endian word made of four bytes.
pub open spec fn word_spec(b0: u8, b1: u8, b2: u8, b3: u8) -> u32 {
    (b0 as u32) | ((b1 as u32) << 8) | ((b2 as u32) << 16) | ((b3 as u32) << 24)
}

/// The four little-endian words of the first 16 bytes of `data`.
pub open spec fn load_spec(data: Seq<u8>) -> Seq<u32> {
    seq![
        word_spec(data[0], data[1], data[2], data[3]),
        word_spec(data[4], data[5], data[6], data[7]),
        word_spec(data[8], data[9], data[10], data[11]),
        word_spec(data[12], data[13], data[14], data[15]),
    ]
}

/// Byte `i` (0 to 3) of a word, counted from the least significant.
pub open spec fn byte_spec(w: u32, i: int) -> u8 {
    if i == 0 {
        w as u8
    } else if i == 1 {
        (w >> 8) as u8
    } else if i == 2 {
        (w >> 16) as u8
    } else {
        (w >> 24) as u8
    }
}

/// The 16 bytes of four words, each word little-endian.
pub open spec fn store_spec(words: Seq<u32>) -> Seq<u8> {
    Seq::new(16, |i: int| byte_spec(words[i / 4], i % 4))
}

/// Word-wise exclusive or of two states.
pub open spec fn xor_spec(a: Seq<u32>, b: Seq<u32>) -> Seq<u32> {
    seq![a[0] ^ b[0], a[1] ^ b[1], a[2] ^ b[2], a[3] ^ b[3]]
}

/// Multiplication by x in GF(2^128) with the reduction polynomial
/// x^128 + x^7 + x^2 + x + 1, on four little-endian words.
pub open spec fn times_two_spec(v: Seq<u32>) -> Seq<u32> {
    seq![
        (v[0] << 1) ^ (if v[3] >> 31 == 1 {
            0x87u32
        } else {
            0u32
        }),
        (v[1] << 1) | (v[0] >> 31),
        (v[2] << 1) | (v[1] >> 31),
        (v[3] << 1) | (v[2] >> 31),
    ]
}

/// Rotate left 32-bit value.
pub fn rotl32(x: u32, n: u32) -> (r: u32)
    requires
        1 <= n <= 31,
    ensures
        r == rotl32_spec(x, n),
{
    (x << n) | (x >> (32 - n))
}

/// Single Chaskey round on 128-bit state.
pub fn chaskey_round(v: &mut [u32; 4])
    ensures
        final(v)@ == round_spec(old(v)@),
{
    v[0] = v[0].wrapping_add(v[1]);
    v[1] = rotl32(v[1], 5);
    v[1] = v[1] ^ v[0];
    v[0] = rotl32(v[0], 16);

    v[2] = v[2].wrapping_add(v[3]);
    v[3] = rotl32(v[3], 8);
    v[3] = v[3] ^ v[2];

    v[0] = v[0].wrapping_add(v[3]);
    v[3] = rotl32(v[3], 13);
    v[3] = v[3] ^ v[0];

    v[2] = v[2].wrapping_add(v[1]);
    v[1] = rotl32(v[1], 7);
    v[1] = v[1] ^ v[2];
    v[2] = rotl32(v[2], 16);
    assert(v@ =~= round_spec(old(v)@));
}

/// Full Chaskey permutation.
pub fn chaskey_permute(v: &mut [u32; 4])
    ensures
        final(v)@ == permute_spec(old(v)@),
{
    let mut i: usize = 0;
    while i < CHASKEY_ROUNDS
        invariant
            i <= 12,
            v@ == rounds_spec(old(v)@, i as nat),
        decreases 12 - i,
    {
        chaskey_round(v);
        i += 1;
    }
}

/// Load a 16-byte block as 4 little-endian u32 words.
pub fn load_block(data: &[u8]) -> (words: [u32; 4])
    requires
        data@.len() >= 16,
    ensures
        words@ == load_spec(data@),
{
    let words = [
        load_word(data[0], data[1], data[2], data[3]),
        load_word(data[4], data[5], data[6], data[7]),
        load_word(data[8], data[9], data[10], data[11]),
        load_word(data[12], data[13], data[14], data[15]),
    ];
    assert(words@ =~= load_spec(data@));
    words
}

fn load_word(b0: u8, b1: u8, b2: u8, b3: u8) -> (w: u32)
    ensures
        w == word_spec(b0, b1, b2, b3),
{
    (b0 as u32) | ((b1 as u32) << 8) | ((b2 as u32) << 16) | ((b3 as u32) << 24)
}

/// Store 4 u32 words as a 16-byte block (little-endian).
pub fn store_block(words: &[u32; 4]) -> (out: [u8; 16])
    ensures
        out@ == store_spec(words@),
{
    let mut out = [0u8;16];
    let mut i: usize = 0;
    while i < 4
        invariant
            i <= 4,
            forall|j: int| 0 <= j < 4 * i ==> (#[trigger] out[j]) == byte_spec(words[j / 4], j % 4),
        decreases 4 - i,
    {
        let w: u32 = words[i];
        out[4 * i] = #[verifier::truncate] (w as u8);
        out[4 * i + 1] = #[verifier::truncate] ((w >> 8) as u8);
        out[4 * i + 2] = #[verifier::truncate] ((w >> 16) as u8);
        out[4 * i + 3] = #[verifier::truncate] ((w >> 24) as u8);
        i += 1;
    }
    assert(out@ =~= store_spec(words@));
    out
}

/// Multiply by x in GF(2^128) with reduction polynomial x^128 + x^7 + x^2 + x + 1.
pub fn times_two(input: &[u32; 4]) -> (output: [u32; 4])
    ensures
        output@ == times_two_spec(input@),
{
    // The reduction constant is masked in rather than branched on, so that
    // the time taken does not depend on the key.
    let top: u32 = input[3];
    let msb: u32 = (top >> 31) & 1;
    let mask: u32 = 0u32.wrapping_sub(msb);
    let reduction: u32 = 0x87 & mask;
    assert(reduction == (if top >> 31 == 1 {
        0x87u32
    } else {
        0u32
    })) by (bit_vector)
        requires
            msb == (top >> 31) & 1,
            mask == (if msb == 0 {
                0u32
            } else {
                (0x1_0000_0000 - msb) as u32
            }),
            reduction == 0x87 & mask,
    ;
    let output = [
        (input[0] << 1) ^ reduction,
        (input[1] << 1) | (input[0] >> 31),
        (input[2] << 1) | (input[1] >> 31),
        (input[3] << 1) | (input[2] >> 31),
    ];
    assert(output@ =~= times_two_spec(input@));
    output
}

/// The state after one block is absorbed: the state xored with the block's
/// first 16 bytes, then permuted.
pub open spec fn absorb_block(state: Seq<u32>, block: Seq<u8>) -> Seq<u32> {
    permute_spec(xor_spec(state, load_spec(block)))
}

/// Absorb the leading blocks of `rest` as long as more than 16 bytes remain.
/// Gives the state and the bytes left over, at most 16 of them.
pub open spec fn absorb_rest(state: Seq<u32>, rest: Seq<u8>) -> (Seq<u32>, Seq<u8>)
    decreases rest.len(),
{
    if rest.len() > 16 {
        absorb_rest(absorb_block(state, rest), rest.subrange(16, rest.len() as int))
    } else {
        (state, rest)
    }
}

/// What feeding `data` does to a MAC computation with the given state and
/// buffered bytes. Buffered bytes are first completed to a block, which is
/// absorbed at once; then blocks are absorbed as long as more than 16 bytes
/// remain; what is left is buffered.
pub open spec fn update_spec(state: Seq<u32>, buffered: Seq<u8>, data: Seq<u8>) -> (
    Seq<u32>,
    Seq<u8>,
) {
    if buffered.len() > 0 {
        let need = 16 - buffered.len();
        if data.len() < need {
            (state, buffered + data)
        } else {
            absorb_rest(
                absorb_block(state, buffered + data.subrange(0, need)),
                data.subrange(need, data.len() as int),
            )
        }
    } else {
        absorb_rest(state, data)
    }
}

/// The last block: the buffered bytes, and where they are fewer than 16, a
/// byte 0x01 behind them and zeros up to the block's end.
pub open spec fn padded_spec(buffered: Seq<u8>) -> Seq<u8> {
    Seq::new(
        16,
        |i: int|
            if i < buffered.len() {
                buffered[i]
            } else if i == buffered.len() {
                1u8
            } else {
                0u8
            },
    )
}

/// The tag that ends a MAC computation: the state xored with the subkey
/// for a complete or an incomplete last block and with that block, permuted,
/// xored with the key, and cut to its first 8 bytes.
pub open spec fn finalize_spec(key: AuthKey, state: Seq<u32>, buffered: Seq<u8>) -> Seq<u8> {
    let subkey = if buffered.len() < 16 {
        key.k2@
    } else {
        key.k1@
    };
    let mixed = xor_spec(xor_spec(state, subkey), load_spec(padded_spec(buffered)));
    store_spec(xor_spec(permute_spec(mixed), key.k@)).subrange(0, 8)
}

/// The Chaskey-12 tag of a message under a key.
pub open spec fn mac_spec(key: AuthKey, data: Seq<u8>) -> Seq<u8> {
    let (state, buffered) = update_spec(key.k@, Seq::<u8>::empty(), data);
    finalize_spec(key, state, buffered)
}

/// The tag of a protocol message: the sender's id and the message type
/// are fed first, the data after them.
pub open spec fn mac_message_spec(key: AuthKey, sender_id: u8, msg_type: u8, data: Seq<u8>) -> Seq<
    u8,
> {
    let (s1, b1) = update_spec(key.k@, Seq::<u8>::empty(), seq![sender_id, msg_type]);
    let (s2, b2) = update_spec(s1, b1, data);
    finalize_spec(key, s2, b2)
}

/// 128-bit raw key material.
#[derive(Clone)]
pub struct RawKey {
    pub bytes: [u8; 16],
}

impl RawKey {
    /// Create a raw key from bytes.
    pub fn from_bytes(bytes: [u8; 16]) -> (key: RawKey)
        ensures
            key.bytes == bytes,
    {
        RawKey { bytes }
    }

    /// Create a raw key from a slice.
    ///
    /// Returns `None` if slice is not exactly 16 bytes.
    pub fn from_slice(slice: &[u8]) -> (key: Option<RawKey>)
        ensures
            slice@.len() != 16 ==> key.is_none(),
            slice@.len() == 16 ==> key.is_some() && key.unwrap().bytes@ == slice@,
    {
        if slice.len() != 16 {
            return None;
        }
        let mut bytes = [0u8;16];
        let mut i: usize = 0;
        while i < 16
            invariant
                i <= 16,
                slice@.len() == 16,
                forall|j: int| 0 <= j < i ==> (#[trigger] bytes[j]) == slice@[j],
            decreases 16 - i,
        {
            bytes[i] = slice[i];
            i += 1;
        }
        assert(bytes@ =~= slice@);
        Some(RawKey { bytes })
    }

    /// Get raw bytes (use carefully - exposes key material).
    pub fn as_bytes(&self) -> (bytes: &[u8; 16])
        ensures
            *bytes == self.bytes,
    {
        &self.bytes
    }
}

/// Expanded authentication key: the master key K and the derived subkeys
/// K1 and K2 for Chaskey finalization.
#[derive(Clone)]
pub struct AuthKey {
    /// Master key (128 bits as 4x32-bit words)
    pub k: [u32; 4],
    /// Subkey 1 (for complete final blocks)
    pub k1: [u32; 4],
    /// Subkey 2 (for incomplete final blocks)
    pub k2: [u32; 4],
}

impl AuthKey {
    /// Create an expanded key from raw key material: the key as four
    /// little-endian words, K1 = 2*K and K2 = 4*K in GF(2^128).
    pub fn new(raw: &RawKey) -> (key: AuthKey)
        ensures
            key.k@ == load_spec(raw.bytes@),
            key.k1@ == times_two_spec(key.k@),
            key.k2@ == times_two_spec(key.k1@),
    {
        let k = load_block(vstd::array::array_as_slice(&raw.bytes));
        let k1 = times_two(&k);
        let k2 = times_two(&k1);
        AuthKey { k, k1, k2 }
    }
}

/// Exclusive or of a state with four words, in place.
fn xor_into(state: &mut [u32; 4], words: &[u32; 4])
    ensures
        final(state)@ == xor_spec(old(state)@, words@),
{
    state[0] = state[0] ^ words[0];
    state[1] = state[1] ^ words[1];
    state[2] = state[2] ^ words[2];
    state[3] = state[3] ^ words[3];
    assert(state@ =~= xor_spec(old(state)@, words@));
}

/// Absorb one block into the state.
fn absorb(state: &mut [u32; 4], block: &[u8])
    requires
        block@.len() >= 16,
    ensures
        final(state)@ == absorb_block(old(state)@, block@),
{
    let words = load_block(block);
    xor_into(state, &words);
    chaskey_permute(state);
}

/// Whether every byte is zero.
pub open spec fn all_zero_bytes(bytes: Seq<u8>) -> bool {
    forall|i: int| 0 <= i < bytes.len() ==> (#[trigger] bytes[i]) == 0
}

/// Whether every word is zero.
pub open spec fn all_zero_words(words: Seq<u32>) -> bool {
    forall|i: int| 0 <= i < words.len() ==> (#[trigger] words[i]) == 0
}

/// Calls `subtle::ConstantTimeEq::ct_eq` on the two tags as byte slices and
/// converts the choice to a `bool`. Claims that the result tells whether the
/// tags hold the same bytes.
#[verifier::external_body]
fn ct_eq_tags(a: &[u8; 8], b: &[u8; 8]) -> (equal: bool)
    ensures
        equal == (a@ == b@),
{
    subtle::ConstantTimeEq::ct_eq(&a[..], &b[..]).into()
}

/// Calls `zeroize::Zeroize::zeroize` on the bytes. Claims that every byte is
/// zero afterwards.
#[verifier::external_body]
fn wipe_bytes(bytes: &mut [u8; 16])
    ensures
        all_zero_bytes(final(bytes)@),
{
    zeroize::Zeroize::zeroize(bytes)
}

/// Calls `zeroize::Zeroize::zeroize` on the words. Claims that every word is
/// zero afterwards.
#[verifier::external_body]
fn wipe_words(words: &mut [u32; 4])
    ensures
        all_zero_words(final(words)@),
{
    zeroize::Zeroize::zeroize(words)
}

impl RawKey {
    /// Overwrite the key material with zeros.
    pub fn zeroize(&mut self)
        ensures
            all_zero_bytes(final(self).bytes@),
    {
        wipe_bytes(&mut self.bytes);
    }
}

impl AuthKey {
    /// Overwrite the key and its subkeys with zeros.
    pub fn zeroize(&mut self)
        ensures
            all_zero_words(final(self).k@),
            all_zero_words(final(self).k1@),
            all_zero_words(final(self).k2@),
    {
        wipe_words(&mut self.k);
        wipe_words(&mut self.k1);
        wipe_words(&mut self.k2);
    }
}

/// Authentication tag (truncated to 64 bits).
#[derive(Clone, Debug)]
pub struct AuthTag {
    pub bytes: [u8; 8],
}

impl AuthTag {
    /// Create a tag from bytes.
    pub fn from_bytes(bytes: [u8; 8]) -> (tag: AuthTag)
        ensures
            tag.bytes == bytes,
    {
        AuthTag { bytes }
    }

    /// Get tag bytes.
    pub fn as_bytes(&self) -> (bytes: &[u8; 8])
        ensures
            *bytes == self.bytes,
    {
        &self.bytes
    }

    /// Verify tag against another tag, in constant time.
    ///
    /// Returns `true` if tags match, `false` otherwise.
    pub fn verify(&self, other: &AuthTag) -> (equal: bool)
        ensures
            equal == (self.bytes@ == other.bytes@),
    {
        ct_eq_tags(&self.bytes, &other.bytes)
    }
}

/// Copy `count` bytes of `src`, from position `from` on, into the buffer at
/// position `at`.
fn copy_bytes(buffer: &mut [u8; 16], at: usize, src: &[u8], from: usize, count: usize)
    requires
        at + count <= 16,
        from + count <= src@.len(),
    ensures
        forall|j: int|
            0 <= j < 16 ==> (#[trigger] final(buffer)[j]) == if at <= j < at + count {
                src@[from + j - at]
            } else {
                old(buffer)[j]
            },
{
    let src_len: usize = src.len();
    let mut i: usize = 0;
    while i < count
        invariant
            i <= count,
            at + count <= 16,
            src_len == src@.len(),
            from + count <= src_len,
            forall|j: int|
                0 <= j < 16 ==> (#[trigger] buffer[j]) == if at <= j < at + i {
                    src@[from + j - at]
                } else {
                    old(buffer)[j]
                },
        decreases count - i,
    {
        buffer[at + i] = src[from + i];
        i += 1;
    }
}

/// Incremental MAC computation: feed the data in pieces, then finalize.
pub struct AuthBuilder<'k> {
    /// Reference to key
    pub key: &'k AuthKey,
    /// Current state
    pub state: [u32; 4],
    /// Partial block buffer
    pub buffer: [u8; 16],
    /// Bytes in buffer
    pub buflen: usize,
}

impl<'k> AuthBuilder<'k> {
    /// Validity of a builder: it buffers one block at most.
    pub open spec fn wf(self) -> bool {
        self.buflen <= 16
    }

    /// The bytes fed but not yet absorbed.
    pub open spec fn buffered(self) -> Seq<u8> {
        self.buffer@.subrange(0, self.buflen as int)
    }

    /// Create a new MAC builder with the given key: the state is the key,
    /// nothing is buffered.
    pub fn new(key: &'k AuthKey) -> (b: AuthBuilder<'k>)
        ensures
            b.wf(),
            b.key == key,
            b.state@ == key.k@,
            b.buffered() == Seq::<u8>::empty(),
    {
        let b = AuthBuilder { key, state: key.k, buffer: [0u8;16], buflen: 0 };
        assert(b.buffered() =~= Seq::<u8>::empty());
        b
    }

    /// Update MAC with additional data. Can be called multiple times.
    pub fn update(self, data: &[u8]) -> (b: AuthBuilder<'k>)
        requires
            self.wf(),
        ensures
            b.wf(),
            b.key == self.key,
            (b.state@, b.buffered()) == update_spec(self.state@, self.buffered(), data@),
    {
        let mut this = self;
        let len: usize = data.len();
        let mut offset: usize = 0;
        if this.buflen > 0 {
            let need: usize = BLOCK_SIZE - this.buflen;
            if len < need {
                copy_bytes(&mut this.buffer, this.buflen, data, 0, len);
                this.buflen = this.buflen + len;
                assert(this.buffered() =~= self.buffered() + data@);
                return this;
            }
            copy_bytes(&mut this.buffer, this.buflen, data, 0, need);
            offset = need;
            assert(this.buffer@ =~= self.buffered() + data@.subrange(0, need as int));
            absorb(&mut this.state, vstd::array::array_as_slice(&this.buffer));
            this.buflen = 0;
        }
        let ghost target = update_spec(self.state@, self.buffered(), data@);
        assert(target == absorb_rest(this.state@, data@.subrange(offset as int, len as int))) by {
            if self.buflen == 0 {
                assert(data@.subrange(0, len as int) =~= data@);
            }
        }
        while len - offset > 16
            invariant
                offset <= len,
                len == data@.len(),
                this.buflen == 0,
                this.key == self.key,
                target == absorb_rest(this.state@, data@.subrange(offset as int, len as int)),
            decreases len - offset,
        {
            let block = vstd::slice::slice_subrange(data, offset, len);
            absorb(&mut this.state, block);
            assert(data@.subrange(offset as int, len as int).subrange(16, len - offset)
                =~= data@.subrange(offset + 16, len as int));
            offset += 16;
        }
        let remaining: usize = len - offset;
        if remaining > 0 {
            copy_bytes(&mut this.buffer, 0, data, offset, remaining);
            this.buflen = remaining;
        }
        assert(this.buffered() =~= data@.subrange(offset as int, len as int));
        this
    }

    /// Finalize MAC computation and return the tag.
    pub fn finalize(self) -> (tag: AuthTag)
        requires
            self.wf(),
        ensures
            tag.bytes@ == finalize_spec(*self.key, self.state@, self.buffered()),
    {
        let mut this = self;
        let mut last_block = [0u8;16];
        copy_bytes(&mut last_block, 0, vstd::array::array_as_slice(&this.buffer), 0, this.buflen);
        if this.buflen < BLOCK_SIZE {
            last_block[this.buflen] = 0x01;
            xor_into(&mut this.state, &this.key.k2);
        } else {
            xor_into(&mut this.state, &this.key.k1);
        }
        assert(last_block@ =~= padded_spec(self.buffered()));
        let block = load_block(vstd::array::array_as_slice(&last_block));
        xor_into(&mut this.state, &block);
        chaskey_permute(&mut this.state);
        xor_into(&mut this.state, &this.key.k);
        let full_tag = store_block(&this.state);
        let mut tag = [0u8;8];
        let mut i: usize = 0;
        while i < MAC_TAG_SIZE
            invariant
                i <= 8,
                forall|j: int| 0 <= j < i ==> (#[trigger] tag[j]) == full_tag[j],
            decreases 8 - i,
        {
            tag[i] = full_tag[i];
            i += 1;
        }
        assert(tag@ =~= full_tag@.subrange(0, 8));
        AuthTag { bytes: tag }
    }
}

/// Compute MAC tag for a message (one-shot).
pub fn mac(key: &AuthKey, data: &[u8]) -> (tag: AuthTag)
    ensures
        tag.bytes@ == mac_spec(*key, data@),
{
    AuthBuilder::new(key).update(data).finalize()
}

/// Verify MAC tag for a message, in constant time.
///
/// Returns `true` if the tag is valid, `false` otherwise.
pub fn verify(key: &AuthKey, data: &[u8], tag: &AuthTag) -> (valid: bool)
    ensures
        valid == (mac_spec(*key, data@) == tag.bytes@),
{
    mac(key, data).verify(tag)
}

/// How far a message type requires authentication.
#[derive(Debug, Clone, Copy, PartialEq, Eq, Structural)]
pub enum AuthRequirement {
    /// Not required
    NotRequired,
    /// Optional (authenticate if key available)
    Optional,
    /// Required (reject if no key or invalid)
    Required,
}

/// The authentication requirement of a message type: proposals (0x04),
/// votes (0x05) and shutdowns (0x08) require it, nothing else does.
pub open spec fn auth_requirement_spec(msg_type: u8) -> AuthRequirement {
    if msg_type == 0x04 || msg_type == 0x05 || msg_type == 0x08 {
        AuthRequirement::Required
    } else {
        AuthRequirement::NotRequired
    }
}

/// Check if a message type requires authentication.
pub fn auth_requirement(msg_type: u8) -> (r: AuthRequirement)
    ensures
        r == auth_requirement_spec(msg_type),
{
    match msg_type {
        0x04 => AuthRequirement::Required,
        0x05 => AuthRequirement::Required,
        0x08 => AuthRequirement::Required,
        _ => AuthRequirement::NotRequired,
    }
}

/// Compute MAC for a protocol message.
///
/// Authenticates: sender_id | msg_type | data
pub fn mac_message(key: &AuthKey, sender_id: u8, msg_type: u8, data: &[u8]) -> (tag: AuthTag)
    ensures
        tag.bytes@ == mac_message_spec(*key, sender_id, msg_type, data@),
{
    let header = [sender_id, msg_type];
    assert(header@ =~= seq![sender_id, msg_type]);
    AuthBuilder::new(key).update(vstd::array::array_as_slice(&header)).update(data).finalize()
}

/// Verify MAC for a received protocol message.
pub fn verify_message(key: &AuthKey, sender_id: u8, msg_type: u8, data: &[u8], tag: &AuthTag) -> (valid:
    bool)
    ensures
        valid == (mac_message_spec(*key, sender_id, msg_type, data@) == tag.bytes@),
{
    mac_message(key, sender_id, msg_type, data).verify(tag)
}

} // verus!
