//! A short hash, to tell cheaply whether a value has changed. It is the hash that the standard
//! library's default hasher gives, and like that one it depends on the machine: numbers are hashed
//! byte by byte, in the order in which the machine keeps them.
use crate::codec::le_bytes;
use std::collections::hash_map::DefaultHasher;
use std::hash::Hasher;
use vstd::prelude::*;
use vstd::std_specs::hash::*;

verus! {

/// The order in which a machine keeps the bytes of a number.
#[derive(Debug, PartialEq, Eq, Clone, Copy, Structural)]
pub enum ByteOrder {
    /// The least significant byte comes first.
    LittleEndian,
    /// The most significant byte comes first.
    BigEndian,
}

/// `u32::to_ne_bytes`: the bytes of a number in the order in which this machine keeps them, least
/// significant first or most significant first. Which of the two is the machine's.
#[verifier::external_body]
fn native_bytes(n: u32) -> (bytes: [u8; 4])
    ensures
        bytes@ == le_bytes(n as nat, 4) || bytes@ == le_bytes(n as nat, 4).reverse(),
{
    n.to_ne_bytes()
}

/// Whether this machine keeps numbers in `order`, as the bytes of the number one tell.
pub closed spec fn machine_keeps(order: ByteOrder) -> bool {
    exists|bytes: [u8; 4]| #[trigger]
        call_ensures(native_bytes, (1u32,), bytes) && bytes@ == in_order(1, 4, order)
}

/// The order in which this machine keeps numbers.
pub fn machine_order() -> (order: ByteOrder)
    ensures
        machine_keeps(order),
{
    let bytes = native_bytes(1);
    proof {
        reveal_with_fuel(le_bytes, 5);
        assert(le_bytes(1, 4) =~= seq![1u8, 0, 0, 0]);
        assert(le_bytes(1, 4).reverse() =~= seq![0u8, 0, 0, 1]);
    }
    if bytes[0] == 1 {
        ByteOrder::LittleEndian
    } else {
        ByteOrder::BigEndian
    }
}

/// The `width` low bytes of a number, in `order`.
pub open spec fn in_order(n: nat, width: nat, order: ByteOrder) -> Seq<u8> {
    match order {
        ByteOrder::LittleEndian => le_bytes(n, width),
        ByteOrder::BigEndian => le_bytes(n, width).reverse(),
    }
}

/// The `width` low bytes of a number, in `order`.
fn bytes_in_order(n: usize, width: usize, order: ByteOrder) -> (bytes: Vec<u8>)
    ensures
        bytes@ == in_order(n as nat, width as nat, order),
{
    let mut little: Vec<u8> = Vec::new();
    let mut left: usize = n;
    let mut i: usize = 0;
    while i < width
        invariant
            i <= width,
            little@ + le_bytes(left as nat, (width - i) as nat) == le_bytes(
                n as nat,
                width as nat,
            ),
        decreases width - i,
    {
        let ghost before = little@;
        let ghost todo = le_bytes(left as nat, (width - i) as nat);
        little.push((left % 256) as u8);
        left = left / 256;
        i += 1;
        assert(little@ + le_bytes(left as nat, (width - i) as nat) =~= before + todo);
    }
    assert(little@ =~= le_bytes(n as nat, width as nat));
    if let ByteOrder::LittleEndian = order {
        return little;
    }
    let mut big: Vec<u8> = Vec::new();
    let mut at: usize = little.len();
    while at > 0
        invariant
            at <= little@.len(),
            big@ == little@.skip(at as int).reverse(),
        decreases at,
    {
        at -= 1;
        big.push(little[at]);
        assert(big@ =~= little@.skip(at as int).reverse());
    }
    assert(little@.skip(0) =~= little@);
    big
}

/// A value that can be written into a hasher, piece by piece.
pub trait HashInput {
    /// The pieces that are written for the value, in order, on a machine that keeps numbers in
    /// `order`.
    spec fn pieces(&self, order: ByteOrder) -> Seq<Seq<u8>>;

    /// Writes the value's pieces after those that the hasher already has.
    fn feed(&self, hasher: &mut DefaultHasher, order: ByteOrder)
        ensures
            final(hasher)@ == old(hasher)@ + self.pieces(order),
    ;
}

/// A flag is one byte, one or zero.
impl HashInput for bool {
    open spec fn pieces(&self, order: ByteOrder) -> Seq<Seq<u8>> {
        seq![seq![if *self { 1u8 } else { 0u8 }]]
    }

    fn feed(&self, hasher: &mut DefaultHasher, order: ByteOrder) {
        let ghost before = hasher@;
        let mut piece: Vec<u8> = Vec::new();
        piece.push(if *self { 1 } else { 0 });
        assert(piece@ =~= self.pieces(order)[0]);
        hasher.write(piece.as_slice());
        assert(hasher@ =~= before + self.pieces(order));
    }
}

/// A number is four bytes.
impl HashInput for u32 {
    open spec fn pieces(&self, order: ByteOrder) -> Seq<Seq<u8>> {
        seq![in_order(*self as nat, 4, order)]
    }

    fn feed(&self, hasher: &mut DefaultHasher, order: ByteOrder) {
        let ghost before = hasher@;
        let piece = bytes_in_order(*self as usize, 4, order);
        hasher.write(piece.as_slice());
        assert(hasher@ =~= before + self.pieces(order));
    }
}

/// A number of the machine's own width is as many bytes as that has.
impl HashInput for usize {
    open spec fn pieces(&self, order: ByteOrder) -> Seq<Seq<u8>> {
        seq![in_order(*self as nat, (usize::BITS / 8) as nat, order)]
    }

    fn feed(&self, hasher: &mut DefaultHasher, order: ByteOrder) {
        let ghost before = hasher@;
        let piece = bytes_in_order(*self, (usize::BITS / 8) as usize, order);
        hasher.write(piece.as_slice());
        assert(hasher@ =~= before + self.pieces(order));
    }
}

/// A value with a short hash.
pub trait QuickHash {
    /// The hash on a machine that keeps numbers in `order`.
    spec fn digest(&self, order: ByteOrder) -> u64;

    /// The hash that the standard library's default hasher, freshly made, gives the value on a
    /// machine that keeps numbers in `order`.
    fn hash_in(&self, order: ByteOrder) -> (hash: u64)
        ensures
            hash == self.digest(order),
    ;

    /// The hash that the standard library's default hasher, freshly made, gives the value on this
    /// machine.
    fn quick_hash(&self) -> (hash: u64)
        ensures
            exists|order: ByteOrder| #[trigger]
                machine_keeps(order) && hash == self.digest(order),
    ;
}

impl<T: HashInput> QuickHash for T {
    open spec fn digest(&self, order: ByteOrder) -> u64 {
        DefaultHasher::spec_finish(self.pieces(order))
    }

    fn hash_in(&self, order: ByteOrder) -> u64 {
        let mut hasher = DefaultHasher::new();
        self.feed(&mut hasher, order);
        assert(hasher@ =~= self.pieces(order));
        hasher.finish()
    }

    fn quick_hash(&self) -> u64 {
        self.hash_in(machine_order())
    }
}

/// What is hashed of a flag is one byte, and of a number its four bytes, in the machine's order.
pub proof fn law_flags_and_numbers_are_hashed_byte_by_byte(
    flag: bool,
    number: u32,
    order: ByteOrder,
    of_flag: u64,
    of_number: u64,
)
    requires
        call_ensures(<bool as QuickHash>::hash_in, (&flag, order), of_flag),
        call_ensures(<u32 as QuickHash>::hash_in, (&number, order), of_number),
    ensures
        of_flag == DefaultHasher::spec_finish(seq![seq![if flag { 1u8 } else { 0u8 }]]),
        order is LittleEndian ==> of_number == DefaultHasher::spec_finish(
            seq![
                seq![
                    (number % 256) as u8,
                    (number / 256 % 256) as u8,
                    (number / 65536 % 256) as u8,
                    (number / 16777216) as u8,
                ],
            ],
        ),
        order is BigEndian ==> of_number == DefaultHasher::spec_finish(
            seq![
                seq![
                    (number / 16777216) as u8,
                    (number / 65536 % 256) as u8,
                    (number / 256 % 256) as u8,
                    (number % 256) as u8,
                ],
            ],
        ),
{
    reveal_with_fuel(le_bytes, 5);
    let bytes = seq![
        (number % 256) as u8,
        (number / 256 % 256) as u8,
        (number / 65536 % 256) as u8,
        (number / 16777216) as u8,
    ];
    assert(le_bytes(number as nat, 4) =~= bytes);
    assert(bytes.reverse() =~= seq![
        (number / 16777216) as u8,
        (number / 65536 % 256) as u8,
        (number / 256 % 256) as u8,
        (number % 256) as u8,
    ]);
}

/// The machine's order is told by its own bytes of the number one: the one comes first or last.
proof fn law_the_order_is_the_machines(order: ByteOrder)
    requires
        call_ensures(machine_order, (), order),
    ensures
        exists|bytes: [u8; 4]| #[trigger]
            call_ensures(native_bytes, (1u32,), bytes) && (order is LittleEndian ==> bytes@ == seq![
                1u8,
                0,
                0,
                0,
            ]) && (order is BigEndian ==> bytes@ == seq![0u8, 0, 0, 1]),
{
    reveal_with_fuel(le_bytes, 5);
    assert(le_bytes(1, 4) =~= seq![1u8, 0, 0, 0]);
    assert(le_bytes(1, 4).reverse() =~= seq![0u8, 0, 0, 1]);
}

/// The hash on this machine is the hash in the machine's order.
pub proof fn law_the_hash_is_that_of_the_machine<T: HashInput>(value: T, hash: u64)
    requires
        call_ensures(<T as QuickHash>::quick_hash, (&value,), hash),
    ensures
        exists|order: ByteOrder| #[trigger]
            machine_keeps(order) && hash == DefaultHasher::spec_finish(value.pieces(order)),
{
}

} // verus!
