//! Account addresses and their assignment to block-production threads.

use vstd::arithmetic::power2::{lemma2_to64, pow2};
use vstd::bits::lemma_u8_shr_is_div;
use vstd::prelude::*;
use vstd::std_specs::bits::{axiom_u8_trailing_zeros, u8_trailing_zeros};

verus! {

/// Number of bytes in an address.
pub const ADDRESS_SIZE_BYTES: usize = 32;

/// Opaque fixed-size identifier of an account.
#[derive(Clone, Copy, Debug, PartialEq, Eq, Hash)]
pub struct Address {
    pub bytes: [u8; 32],
}

impl View for Address {
    type V = Seq<u8>;

    open spec fn view(&self) -> Seq<u8> {
        self.bytes@
    }
}

/// The thread that an address whose first byte is `first_byte` belongs to
/// when the network runs `thread_count` threads: the value of the leading
/// bits of that byte, as many of them as `thread_count` has trailing zero
/// bits.
pub open spec fn thread_of(first_byte: u8, thread_count: u8) -> int {
    first_byte as int / pow2((8 - u8_trailing_zeros(thread_count)) as nat) as int
}

impl Address {
    /// Wraps the raw bytes of an address.
    pub fn from_bytes(bytes: [u8; 32]) -> (a: Address)
        ensures
            a.bytes == bytes,
            a@ == bytes@,
    {
        Address { bytes }
    }

    /// The raw bytes of the address.
    pub fn to_bytes(&self) -> (bytes: [u8; 32])
        ensures
            bytes == self.bytes,
            bytes@ == self@,
    {
        self.bytes
    }

    /// The thread this address is permanently assigned to.
    pub fn get_thread(&self, thread_count: u8) -> (thread: u8)
        ensures
            thread == thread_of(self@[0], thread_count),
            thread_count > 0 ==> thread < thread_count,
    {
        let first: u8 = self.bytes[0];
        let bits: u32 = thread_count.trailing_zeros();
        proof {
            axiom_u8_trailing_zeros(thread_count);
            lemma2_to64();
            if thread_count > 0 {
                lemma_thread_in_range(*self, thread_count);
            }
        }
        if bits == 0 {
            assert(first as int / 256 == 0);
            0
        } else {
            let shift: u32 = 8 - bits;
            proof {
                lemma_u8_shr_is_div(first, shift as u8);
            }
            assert(first >> shift == first >> (shift as u8)) by (bit_vector)
                requires
                    shift < 8,
            ;
            first >> shift
        }
    }
}

/// Every address falls into one of the threads: for a positive thread count
/// the assigned thread is below that count.
pub proof fn lemma_thread_in_range(address: Address, thread_count: u8)
    requires
        thread_count > 0,
    ensures
        0 <= thread_of(address@[0], thread_count) < thread_count,
{
    axiom_u8_trailing_zeros(thread_count);
    lemma2_to64();
    let first_byte = address@[0];
    let bits = u8_trailing_zeros(thread_count);
    if bits != 0 {
        let k = bits as u8;
        let shift = (8 - bits) as u8;
        lemma_u8_shr_is_div(first_byte, shift);
        assert((first_byte >> shift) < thread_count) by (bit_vector)
            requires
                (thread_count >> k) & 1u8 == 1u8,
                0 < k < 8,
                shift == 8 - k,
        ;
    }
}

/// The thread of an address depends on nothing but its bytes and the thread
/// count: addresses with equal bytes share a thread, whatever the count.
pub proof fn lemma_thread_deterministic(a: Address, b: Address, thread_count: u8)
    requires
        a@ == b@,
    ensures
        thread_of(a@[0], thread_count) == thread_of(b@[0], thread_count),
{
}

} // verus!
