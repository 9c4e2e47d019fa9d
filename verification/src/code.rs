//! Four-character codes: the numbers by which the older item functions of the
//! framework name classes and attributes.

use crate::constant::Constant;
use vstd::prelude::*;

verus! {

/// A four-character code: four bytes of text packed into one number, the first byte
/// highest.
#[derive(Clone, Copy, Debug, PartialEq, Eq, Hash, Structural)]
pub struct FourCharacterCode(pub u32);

impl FourCharacterCode {
    /// The number that four bytes pack into.
    pub open spec fn pack(b0: u8, b1: u8, b2: u8, b3: u8) -> u32 {
        ((b0 as u32) << 24) | ((b1 as u32) << 16) | ((b2 as u32) << 8) | (b3 as u32)
    }

    /// The code of a text of exactly four bytes, and nothing for any other text.
    pub open spec fn of(bytes: Seq<u8>) -> Option<FourCharacterCode> {
        if bytes.len() == 4 {
            Some(FourCharacterCode(Self::pack(bytes[0], bytes[1], bytes[2], bytes[3])))
        } else {
            None
        }
    }

    /// The code of the given bytes, if they are exactly four.
    pub fn from_bytes(bytes: &[u8]) -> (r: Option<FourCharacterCode>)
        ensures
            r == Self::of(bytes@),
    {
        if bytes.len() == 4 {
            let b0: u32 = bytes[0] as u32;
            let b1: u32 = bytes[1] as u32;
            let b2: u32 = bytes[2] as u32;
            let b3: u32 = bytes[3] as u32;
            Some(FourCharacterCode((b0 << 24) | (b1 << 16) | (b2 << 8) | b3))
        } else {
            None
        }
    }

    /// No two texts of four bytes have the same code.
    pub proof fn lemma_of_injective(a: Seq<u8>, b: Seq<u8>)
        requires
            Self::of(a) is Some,
            Self::of(a) == Self::of(b),
        ensures
            a == b,
    {
        Self::lemma_pack_injective(a[0], a[1], a[2], a[3], b[0], b[1], b[2], b[3]);
    }

    proof fn lemma_pack_injective(a0: u8, a1: u8, a2: u8, a3: u8, b0: u8, b1: u8, b2: u8, b3: u8)
        by (bit_vector)
        requires
            Self::pack(a0, a1, a2, a3) == Self::pack(b0, b1, b2, b3),
        ensures
            a0 == b0,
            a1 == b1,
            a2 == b2,
            a3 == b3,
    {
    }
}

/// The constant of the first entry of a table that has a code, if an entry has it.
pub open spec fn first_with_code(
    table: Seq<(Constant, FourCharacterCode)>,
    code: FourCharacterCode,
) -> Option<Constant>
    decreases table.len(),
{
    if table.len() == 0 {
        None
    } else if table[0].1 == code {
        Some(table[0].0)
    } else {
        first_with_code(table.drop_first(), code)
    }
}

/// What the table answers is the constant of an entry with the code, and of the
/// first such entry; it answers nothing exactly if no entry has the code.
pub proof fn lemma_first_with_code(
    table: Seq<(Constant, FourCharacterCode)>,
    code: FourCharacterCode,
)
    ensures
        match first_with_code(table, code) {
            Some(constant) => exists|i: int|
                0 <= i < table.len() && table[i] == (constant, code) && forall|j: int|
                    0 <= j < i ==> (#[trigger] table[j]).1 != code,
            None => forall|i: int| 0 <= i < table.len() ==> (#[trigger] table[i]).1 != code,
        },
    decreases table.len(),
{
    if table.len() > 0 && table[0].1 != code {
        let rest = table.drop_first();
        lemma_first_with_code(rest, code);
        match first_with_code(rest, code) {
            Some(constant) => {
                let i = choose|i: int|
                    0 <= i < rest.len() && rest[i] == (constant, code) && forall|j: int|
                        0 <= j < i ==> (#[trigger] rest[j]).1 != code;
                assert(table[i + 1] == (constant, code));
                assert forall|j: int| 0 <= j < i + 1 implies (#[trigger] table[j]).1 != code by {
                    if j > 0 {
                        assert(table[j] == rest[j - 1]);
                    }
                }
            },
            None => {
                assert forall|i: int| 0 <= i < table.len() implies (#[trigger] table[i]).1
                    != code by {
                    if i > 0 {
                        assert(table[i] == rest[i - 1]);
                    }
                }
            },
        }
    } else if table.len() > 0 {
        assert(table[0] == (table[0].0, code));
    }
}

/// Finds the constant that goes by a four-character code, in a table that pairs
/// constants with their codes: the constant of the first entry with the code.
pub fn constant_of_code(
    table: &[(Constant, FourCharacterCode)],
    code: FourCharacterCode,
) -> (r: Option<Constant>)
    ensures
        r == first_with_code(table@, code),
{
    let mut i: usize = 0;
    proof {
        assert(table@.subrange(0, table@.len() as int) =~= table@);
    }
    while i < table.len()
        invariant
            i <= table@.len(),
            first_with_code(table@, code) == first_with_code(
                table@.subrange(i as int, table@.len() as int),
                code,
            ),
        decreases table@.len() - i,
    {
        let ghost here = table@.subrange(i as int, table@.len() as int);
        proof {
            assert(here[0] == table@[i as int]);
            assert(here.drop_first() =~= table@.subrange(i + 1, table@.len() as int));
        }
        if table[i].1 == code {
            return Some(table[i].0);
        }
        i = i + 1;
    }
    None
}

} // verus!
