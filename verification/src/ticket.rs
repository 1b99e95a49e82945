//! The ticket format: three little-endian words and a checksum over them.
//!
//! | bytes  | content                          |
//! |--------|----------------------------------|
//! | 0..8   | subject the ticket was issued to |
//! | 8..16  | last tick at which it is valid   |
//! | 16..24 | nonce                            |
//! | 24..32 | checksum of the three words      |

use crate::table::TableKey;
use vstd::bytes::*;
use vstd::prelude::*;
use vstd::slice::slice_subrange;

verus! {

/// The number of bytes of a ticket.
pub const TICKET_LEN: usize = 32;

/// The word that every checksum is mixed with.
pub const CHECKSUM_SALT: u64 = 0x5a17_baad_cafe_f00d;

/// The three words that a ticket carries besides its checksum.
#[derive(Debug, Clone, Copy, PartialEq, Eq, Structural)]
pub struct TicketFields {
    /// The subject the ticket was issued to.
    pub subject: u64,
    /// The last tick at which the ticket is valid.
    pub expire_tick: u64,
    /// The number that tells tickets of one subject and expiry apart.
    pub nonce: u64,
}

/// `x` with its bits moved `n` places to the left, those that leave coming in on the right.
pub open spec fn rotated_left(x: u64, n: u64) -> u64
    recommends
        0 < n < 64,
{
    (x << n) | (x >> ((64 - n) as u64))
}

impl TicketFields {
    /// The checksum of the three words.
    pub open spec fn checksum_spec(self) -> u64 {
        rotated_left(self.subject, 7) ^ rotated_left(self.expire_tick, 17) ^ rotated_left(
            self.nonce,
            29,
        ) ^ CHECKSUM_SALT
    }

    /// The bytes of the ticket with these words.
    pub open spec fn bytes(self) -> Seq<u8> {
        spec_u64_to_le_bytes(self.subject) + spec_u64_to_le_bytes(self.expire_tick)
            + spec_u64_to_le_bytes(self.nonce) + spec_u64_to_le_bytes(self.checksum_spec())
    }

    /// The words that stand in the first bytes of `blob`.
    pub open spec fn of(blob: Seq<u8>) -> TicketFields
        recommends
            blob.len() >= TICKET_LEN,
    {
        TicketFields {
            subject: spec_u64_from_le_bytes(blob.subrange(0, 8)),
            expire_tick: spec_u64_from_le_bytes(blob.subrange(8, 16)),
            nonce: spec_u64_from_le_bytes(blob.subrange(16, 24)),
        }
    }

    /// The checksum word of `blob` is that of its other words.
    pub open spec fn intact(blob: Seq<u8>) -> bool
        recommends
            blob.len() >= TICKET_LEN,
    {
        TicketFields::of(blob).checksum_spec() == spec_u64_from_le_bytes(blob.subrange(24, 32))
    }

    /// The checksum of the three words.
    pub fn checksum(&self) -> (r: u64)
        ensures
            r == self.checksum_spec(),
    {
        rotate_left(self.subject, 7) ^ rotate_left(self.expire_tick, 17) ^ rotate_left(
            self.nonce,
            29,
        ) ^ CHECKSUM_SALT
    }

    /// Writes the ticket with these words.
    pub fn encode(&self) -> (r: [u8; 32])
        ensures
            r@ == self.bytes(),
    {
        let mut ticket: [u8; 32] = [0u8;32];
        put_word(&mut ticket, 0, self.subject);
        put_word(&mut ticket, 8, self.expire_tick);
        put_word(&mut ticket, 16, self.nonce);
        put_word(&mut ticket, 24, self.checksum());
        proof {
            lemma_auto_spec_u64_to_from_le_bytes();
        }
        assert(ticket@ =~= self.bytes());
        ticket
    }

    /// Reads the words of `blob`, if it is long enough and its checksum is right.
    pub fn decode(blob: &[u8]) -> (r: Option<TicketFields>)
        ensures
            r is Some <==> blob@.len() >= TICKET_LEN && TicketFields::intact(blob@),
            r is Some ==> r->0 == TicketFields::of(blob@),
    {
        if blob.len() < TICKET_LEN {
            return None;
        }
        let fields = TicketFields {
            subject: u64_from_le_bytes(slice_subrange(blob, 0, 8)),
            expire_tick: u64_from_le_bytes(slice_subrange(blob, 8, 16)),
            nonce: u64_from_le_bytes(slice_subrange(blob, 16, 24)),
        };
        let check: u64 = u64_from_le_bytes(slice_subrange(blob, 24, 32));
        if fields.checksum() != check {
            return None;
        }
        Some(fields)
    }
}

/// `x` rotated to the left by `n` bits.
fn rotate_left(x: u64, n: u64) -> (r: u64)
    requires
        0 < n < 64,
    ensures
        r == rotated_left(x, n),
{
    (x << n) | (x >> (64 - n))
}

/// Writes `word` at `at`, low byte first.
fn put_word(ticket: &mut [u8; 32], at: usize, word: u64)
    requires
        at + 8 <= 32,
    ensures
        final(ticket)@ == old(ticket)@.take(at as int) + spec_u64_to_le_bytes(word) + old(
            ticket,
        )@.skip(at + 8),
{
    let bytes = u64_to_le_bytes(word);
    proof {
        lemma_auto_spec_u64_to_from_le_bytes();
    }
    let ghost before = ticket@;
    let mut i: usize = 0;
    while i < 8
        invariant
            i <= 8,
            at + 8 <= 32,
            bytes@.len() == 8,
            ticket@.len() == 32,
            before.len() == 32,
            forall|j: int|
                0 <= j < 32 ==> #[trigger] ticket@[j] == if at <= j < at + i {
                    bytes@[j - at]
                } else {
                    before[j]
                },
        decreases 8 - i,
    {
        ticket[at + i] = bytes[i];
        i = i + 1;
    }
    assert(ticket@ =~= before.take(at as int) + bytes@ + before.skip(at + 8));
}

/// The first bytes of `blob` as a ticket.
pub fn ticket_prefix(blob: &[u8]) -> (r: [u8; 32])
    requires
        blob@.len() >= TICKET_LEN,
    ensures
        r@ == blob@.take(TICKET_LEN as int),
{
    let mut ticket: [u8; 32] = [0u8;32];
    let mut i: usize = 0;
    while i < TICKET_LEN
        invariant
            i <= TICKET_LEN,
            blob@.len() >= TICKET_LEN,
            ticket@.len() == TICKET_LEN,
            forall|j: int| 0 <= j < i ==> ticket@[j] == blob@[j],
        decreases TICKET_LEN - i,
    {
        ticket[i] = blob[i];
        i = i + 1;
    }
    assert(ticket@ =~= blob@.take(TICKET_LEN as int));
    ticket
}

impl TableKey for [u8; 32] {
    fn same(&self, other: &Self) -> (r: bool) {
        let mut i: usize = 0;
        while i < 32
            invariant
                i <= 32,
                self@.len() == 32,
                other@.len() == 32,
                forall|j: int| 0 <= j < i ==> self@[j] == other@[j],
            decreases 32 - i,
        {
            if self[i] != other[i] {
                return false;
            }
            i = i + 1;
        }
        assert(self@ =~= other@);
        true
    }
}

/// The rotations of two words differ if the words do.
proof fn lemma_rotation_is_injective(a: u64, b: u64)
    requires
        a != b,
    ensures
        rotated_left(a, 7) != rotated_left(b, 7),
        rotated_left(a, 17) != rotated_left(b, 17),
        rotated_left(a, 29) != rotated_left(b, 29),
{
    assert(a != b ==> (a << 7u64) | (a >> 57u64) != (b << 7u64) | (b >> 57u64)) by (bit_vector);
    assert(a != b ==> (a << 17u64) | (a >> 47u64) != (b << 17u64) | (b >> 47u64)) by (bit_vector);
    assert(a != b ==> (a << 29u64) | (a >> 35u64) != (b << 29u64) | (b >> 35u64)) by (bit_vector);
}

/// Changing exactly one of the three words changes the checksum.
pub proof fn changed_word_changes_checksum(a: TicketFields, b: TicketFields)
    requires
        ({
            ||| a.subject != b.subject && a.expire_tick == b.expire_tick && a.nonce == b.nonce
            ||| a.subject == b.subject && a.expire_tick != b.expire_tick && a.nonce == b.nonce
            ||| a.subject == b.subject && a.expire_tick == b.expire_tick && a.nonce != b.nonce
        }),
    ensures
        a.checksum_spec() != b.checksum_spec(),
{
    let (s, e, n) = (
        rotated_left(a.subject, 7),
        rotated_left(a.expire_tick, 17),
        rotated_left(a.nonce, 29),
    );
    if a.subject != b.subject {
        lemma_rotation_is_injective(a.subject, b.subject);
        let t = rotated_left(b.subject, 7);
        assert(s != t ==> s ^ e ^ n ^ 0x5a17_baad_cafe_f00du64 != t ^ e ^ n
            ^ 0x5a17_baad_cafe_f00du64) by (bit_vector);
    } else if a.expire_tick != b.expire_tick {
        lemma_rotation_is_injective(a.expire_tick, b.expire_tick);
        let t = rotated_left(b.expire_tick, 17);
        assert(e != t ==> s ^ e ^ n ^ 0x5a17_baad_cafe_f00du64 != s ^ t ^ n
            ^ 0x5a17_baad_cafe_f00du64) by (bit_vector);
    } else {
        lemma_rotation_is_injective(a.nonce, b.nonce);
        let t = rotated_left(b.nonce, 29);
        assert(n != t ==> s ^ e ^ n ^ 0x5a17_baad_cafe_f00du64 != s ^ e ^ t
            ^ 0x5a17_baad_cafe_f00du64) by (bit_vector);
    }
}

/// The bytes of word `i` of a blob.
pub open spec fn word_bytes(blob: Seq<u8>, i: int) -> Seq<u8> {
    blob.subrange(8 * i, 8 * i + 8)
}

/// A ticket that is changed within exactly one of its four words, the checksum among them, is
/// not intact any more.
pub proof fn changed_word_is_noticed(ticket: Seq<u8>, blob: Seq<u8>, changed: int)
    requires
        ticket.len() >= TICKET_LEN,
        blob.len() >= TICKET_LEN,
        TicketFields::intact(ticket),
        0 <= changed < 4,
        forall|i: int|
            0 <= i < 4 ==> (#[trigger] word_bytes(ticket, i) == word_bytes(blob, i) <==> i
                != changed),
    ensures
        !TicketFields::intact(blob),
{
    lemma_auto_spec_u64_to_from_le_bytes();
    let a = TicketFields::of(ticket);
    let b = TicketFields::of(blob);
    assert(word_bytes(ticket, 0) == ticket.subrange(0, 8));
    assert(word_bytes(ticket, 1) == ticket.subrange(8, 16));
    assert(word_bytes(ticket, 2) == ticket.subrange(16, 24));
    assert(word_bytes(ticket, 3) == ticket.subrange(24, 32));
    assert(word_bytes(blob, 0) == blob.subrange(0, 8));
    assert(word_bytes(blob, 1) == blob.subrange(8, 16));
    assert(word_bytes(blob, 2) == blob.subrange(16, 24));
    assert(word_bytes(blob, 3) == blob.subrange(24, 32));
    let x = spec_u64_from_le_bytes(word_bytes(ticket, changed));
    let y = spec_u64_from_le_bytes(word_bytes(blob, changed));
    assert(spec_u64_to_le_bytes(x) == word_bytes(ticket, changed));
    assert(spec_u64_to_le_bytes(y) == word_bytes(blob, changed));
    assert(x != y);
    if changed < 3 {
        changed_word_changes_checksum(a, b);
    }
}

/// Reading a written ticket gives its words back, and finds its checksum right, whatever
/// follows the ticket.
pub proof fn decode_inverts_encode(fields: TicketFields, rest: Seq<u8>)
    ensures
        fields.bytes().len() == TICKET_LEN,
        TicketFields::of(fields.bytes() + rest) == fields,
        TicketFields::intact(fields.bytes() + rest),
{
    lemma_auto_spec_u64_to_from_le_bytes();
    let blob = fields.bytes() + rest;
    assert(blob.subrange(0, 8) =~= spec_u64_to_le_bytes(fields.subject));
    assert(blob.subrange(8, 16) =~= spec_u64_to_le_bytes(fields.expire_tick));
    assert(blob.subrange(16, 24) =~= spec_u64_to_le_bytes(fields.nonce));
    assert(blob.subrange(24, 32) =~= spec_u64_to_le_bytes(fields.checksum_spec()));
}

/// An intact blob starts with the very ticket that its words are written as.
pub proof fn encode_inverts_decode(blob: Seq<u8>)
    requires
        blob.len() >= TICKET_LEN,
        TicketFields::intact(blob),
    ensures
        TicketFields::of(blob).bytes() == blob.take(TICKET_LEN as int),
{
    lemma_auto_spec_u64_to_from_le_bytes();
    let fields = TicketFields::of(blob);
    assert(spec_u64_to_le_bytes(fields.subject) == blob.subrange(0, 8));
    assert(spec_u64_to_le_bytes(fields.expire_tick) == blob.subrange(8, 16));
    assert(spec_u64_to_le_bytes(fields.nonce) == blob.subrange(16, 24));
    assert(spec_u64_to_le_bytes(fields.checksum_spec()) == blob.subrange(24, 32));
    assert(fields.bytes() =~= blob.take(TICKET_LEN as int));
}

} // verus!
