//! Numbers in the byte order of the machine.

use vstd::endian::{endianness, Endian};
use vstd::prelude::*;

verus! {

/// Calls `u16::from_ne_bytes` on the two bytes.
///
/// Assumed of it: it reads the bytes in the order of the machine on which the program runs.
#[verifier::external_body]
fn native_unit(first: u8, second: u8) -> (value: u16)
    ensures
        value == ByteOrder::of_machine().unit(first, second),
{
    u16::from_ne_bytes([first, second])
}

/// The order in which a machine lays out the bytes of a number.
#[derive(Debug, Clone, Copy, PartialEq, Eq)]
pub enum ByteOrder {
    /// The low byte comes first.
    Little,
    /// The high byte comes first.
    Big,
}

impl ByteOrder {
    /// The order of the machine on which the program runs, whichever of the two that is.
    pub open spec fn of_machine() -> ByteOrder {
        match endianness() {
            Endian::Little => ByteOrder::Little,
            Endian::Big => ByteOrder::Big,
        }
    }

    /// The 16-bit number whose bytes in memory are `first` and `second`.
    pub open spec fn unit(self, first: u8, second: u8) -> u16 {
        match self {
            ByteOrder::Little => (first + 256 * second) as u16,
            ByteOrder::Big => (256 * first + second) as u16,
        }
    }

    /// The 32-bit number whose bytes in memory are the given ones.
    pub open spec fn word(self, first: u8, second: u8, third: u8, fourth: u8) -> u32 {
        match self {
            ByteOrder::Little => (first + 0x100 * second + 0x1_0000 * third + 0x100_0000
                * fourth) as u32,
            ByteOrder::Big => (0x100_0000 * first + 0x1_0000 * second + 0x100 * third
                + fourth) as u32,
        }
    }

    /// The order of a machine that reads the bytes 1 and 0 as the number `probe`.
    pub open spec fn probed(probe: u16) -> ByteOrder {
        if probe == 1 {
            ByteOrder::Little
        } else {
            ByteOrder::Big
        }
    }

    /// The order of a machine that reads the bytes 1 and 0 as the number `probe`.
    pub fn of_probe(probe: u16) -> (order: ByteOrder)
        ensures
            order == ByteOrder::probed(probe),
    {
        if probe == 1 {
            ByteOrder::Little
        } else {
            ByteOrder::Big
        }
    }

    /// The order of the machine on which the program runs. To learn it, a known number is read
    /// from its bytes.
    pub(crate) fn native() -> (order: ByteOrder)
        ensures
            order == ByteOrder::of_machine(),
    {
        proof {
            probe_tells_the_order(ByteOrder::of_machine());
        }
        ByteOrder::of_probe(native_unit(1, 0))
    }

    /// The 16-bit number whose bytes in memory are `first` and `second`.
    pub fn read_unit(self, first: u8, second: u8) -> (value: u16)
        ensures
            value == self.unit(first, second),
    {
        match self {
            ByteOrder::Little => first as u16 + 256 * (second as u16),
            ByteOrder::Big => 256 * (first as u16) + second as u16,
        }
    }

    /// The 32-bit number whose bytes in memory are the given ones.
    pub fn read_word(self, first: u8, second: u8, third: u8, fourth: u8) -> (value: u32)
        ensures
            value == self.word(first, second, third, fourth),
    {
        match self {
            ByteOrder::Little => {
                first as u32 + 0x100 * (second as u32) + 0x1_0000 * (third as u32) + 0x100_0000
                    * (fourth as u32)
            },
            ByteOrder::Big => {
                0x100_0000 * (first as u32) + 0x1_0000 * (second as u32) + 0x100 * (third as u32)
                    + fourth as u32
            },
        }
    }
}

/// A machine of either order is told by how it reads the bytes 1 and 0.
pub proof fn probe_tells_the_order(order: ByteOrder)
    ensures
        ByteOrder::probed(order.unit(1, 0)) == order,
{
}

/// The 16-bit numbers that the bytes hold; an odd byte at the end is left out.
pub open spec fn units_of(bytes: Seq<u8>, order: ByteOrder) -> Seq<u16> {
    Seq::new((bytes.len() / 2) as nat, |i: int| order.unit(bytes[2 * i], bytes[2 * i + 1]))
}

/// The 32-bit numbers that the bytes hold; up to three bytes at the end are left out.
pub open spec fn words_of(bytes: Seq<u8>, order: ByteOrder) -> Seq<u32> {
    Seq::new(
        (bytes.len() / 4) as nat,
        |i: int|
            order.word(bytes[4 * i], bytes[4 * i + 1], bytes[4 * i + 2], bytes[4 * i + 3]),
    )
}

/// Reads the 16-bit numbers that the bytes hold.
pub fn read_units(bytes: &Vec<u8>, order: ByteOrder) -> (units: Vec<u16>)
    ensures
        units@ == units_of(bytes@, order),
{
    let mut units: Vec<u16> = Vec::new();
    let len: usize = bytes.len();
    let count: usize = len / 2;
    let mut i: usize = 0;
    while i < count
        invariant
            len == bytes@.len(),
            count == len / 2,
            i <= count,
            units@ == units_of(bytes@, order).take(i as int),
        decreases count - i,
    {
        units.push(order.read_unit(bytes[2 * i], bytes[2 * i + 1]));
        i += 1;
        assert(units@ =~= units_of(bytes@, order).take(i as int));
    }
    assert(units@ =~= units_of(bytes@, order));
    units
}

/// Reads the 32-bit numbers that the bytes hold.
pub fn read_words(bytes: &Vec<u8>, order: ByteOrder) -> (words: Vec<u32>)
    ensures
        words@ == words_of(bytes@, order),
{
    let mut words: Vec<u32> = Vec::new();
    let len: usize = bytes.len();
    let count: usize = len / 4;
    let mut i: usize = 0;
    while i < count
        invariant
            len == bytes@.len(),
            count == len / 4,
            i <= count,
            words@ == words_of(bytes@, order).take(i as int),
        decreases count - i,
    {
        let word = order.read_word(
            bytes[4 * i],
            bytes[4 * i + 1],
            bytes[4 * i + 2],
            bytes[4 * i + 3],
        );
        words.push(word);
        i += 1;
        assert(words@ =~= words_of(bytes@, order).take(i as int));
    }
    assert(words@ =~= words_of(bytes@, order));
    words
}

/// The bytes by which a machine with the given byte order stores 16-bit numbers.
pub open spec fn unit_bytes(units: Seq<u16>, order: ByteOrder) -> Seq<u8> {
    Seq::new(
        (2 * units.len()) as nat,
        |i: int|
            if (i % 2 == 0) == (order == ByteOrder::Little) {
                (units[i / 2] % 256) as u8
            } else {
                (units[i / 2] / 256) as u8
            },
    )
}

/// The bytes by which a machine with the given byte order stores 32-bit numbers.
pub open spec fn word_bytes(words: Seq<u32>, order: ByteOrder) -> Seq<u8> {
    Seq::new(
        (4 * words.len()) as nat,
        |i: int|
            {
                let place = match order {
                    ByteOrder::Little => i % 4,
                    ByteOrder::Big => 3 - i % 4,
                };
                word_byte(words[i / 4], place)
            },
    )
}

/// The byte of a 32-bit number at the given place, where place 0 is the lowest.
pub open spec fn word_byte(word: u32, place: int) -> u8 {
    if place == 0 {
        (word % 0x100) as u8
    } else if place == 1 {
        (word / 0x100 % 0x100) as u8
    } else if place == 2 {
        (word / 0x1_0000 % 0x100) as u8
    } else {
        (word / 0x100_0000) as u8
    }
}

/// 16-bit numbers are read back as they were stored, also with an odd byte behind them.
pub proof fn units_are_read_back(units: Seq<u16>, order: ByteOrder, odd: Seq<u8>)
    requires
        odd.len() <= 1,
    ensures
        units_of(unit_bytes(units, order) + odd, order) == units,
{
    let bytes = unit_bytes(units, order) + odd;
    assert forall|i: int| 0 <= i < units.len() implies units_of(bytes, order)[i] == units[i] by {
        let unit = units[i];
        assert((2 * i) / 2 == i && (2 * i + 1) / 2 == i);
        assert((2 * i) % 2 == 0 && (2 * i + 1) % 2 == 1);
        assert(unit == 256 * (unit / 256) + unit % 256);
    }
    assert(units_of(bytes, order) =~= units);
}

/// 32-bit numbers are read back as they were stored, also with up to three bytes behind them.
pub proof fn words_are_read_back(words: Seq<u32>, order: ByteOrder, odd: Seq<u8>)
    requires
        odd.len() <= 3,
    ensures
        words_of(word_bytes(words, order) + odd, order) == words,
{
    let bytes = word_bytes(words, order) + odd;
    assert forall|i: int| 0 <= i < words.len() implies words_of(bytes, order)[i] == words[i] by {
        let word = words[i];
        assert(forall|k: int| 0 <= k < 4 ==> #[trigger] ((4 * i + k) / 4) == i);
        assert(forall|k: int| 0 <= k < 4 ==> #[trigger] ((4 * i + k) % 4) == k);
        assert((4 * i) / 4 == i && (4 * i) % 4 == 0);
        assert(word == word % 0x100 + 0x100 * (word / 0x100 % 0x100) + 0x1_0000 * (word / 0x1_0000
            % 0x100) + 0x100_0000 * (word / 0x100_0000));
    }
    assert(words_of(bytes, order) =~= words);
}

/// The bytes of a number are its digits to the base 256: in the one order the first byte is the
/// lowest digit, in the other the last byte is.
pub proof fn bytes_are_the_digits_of_a_number(a: u8, b: u8, c: u8, d: u8)
    ensures
        ByteOrder::Little.unit(a, b) % 256 == a,
        ByteOrder::Little.unit(a, b) / 256 == b,
        ByteOrder::Big.unit(a, b) % 256 == b,
        ByteOrder::Big.unit(a, b) / 256 == a,
        ByteOrder::Little.word(a, b, c, d) as int == a + 256 * (b + 256 * (c + 256 * d)),
        ByteOrder::Big.word(a, b, c, d) == ByteOrder::Little.word(d, c, b, a),
{
}

/// The order of the machine is the one that its hardware has, and the bytes 1 and 0 tell which.
pub proof fn machine_has_the_order_of_its_hardware(probe: u16)
    ensures
        ByteOrder::of_machine() == ByteOrder::Little <==> endianness() == Endian::Little,
        ByteOrder::of_machine() == ByteOrder::Big <==> endianness() == Endian::Big,
        ByteOrder::probed(probe) == ByteOrder::Little <==> probe == 1,
{
}

/// Numbers follow each other in the bytes without a gap: the number at position `i` stands in the
/// bytes behind those of the `i` numbers before it. As many are read as the bytes have room for.
pub proof fn numbers_follow_each_other(bytes: Seq<u8>, order: ByteOrder, i: int)
    ensures
        2 * units_of(bytes, order).len() <= bytes.len() < 2 * units_of(bytes, order).len() + 2,
        4 * words_of(bytes, order).len() <= bytes.len() < 4 * words_of(bytes, order).len() + 4,
        0 <= i < units_of(bytes, order).len() ==> units_of(bytes, order)[i] == order.unit(
            bytes[2 * i],
            bytes[2 * i + 1],
        ),
        0 <= i < words_of(bytes, order).len() ==> words_of(bytes, order)[i] == order.word(
            bytes[4 * i],
            bytes[4 * i + 1],
            bytes[4 * i + 2],
            bytes[4 * i + 3],
        ),
{
}

} // verus!
