//! The camera's record as the shader reads it: twenty-four 32-bit words,
//! every field on a 16-byte boundary.
//!
//! | bytes  | words  | field                                |
//! |--------|--------|--------------------------------------|
//! | 0..12  | 0..3   | position                             |
//! | 12..16 | 3      | padding, zero                        |
//! | 16..80 | 4..20  | rotation matrix, row after row       |
//! | 80..84 | 20     | scale                                |
//! | 84..96 | 21..24 | padding, zero                        |
//!
//! Each number is held as the 32 bits of its single-precision encoding.

use vstd::prelude::*;
use vstd::slice::slice_to_vec;

verus! {

/// The number of words in the record.
pub const RECORD_WORDS: usize = 24;

/// The number of bytes in the record.
pub const RECORD_BYTES: usize = 96;

/// The bits of the single-precision number one.
pub const UNIT_SCALE: u32 = 0x3f80_0000;

/// The order of a word's four bytes in memory.
#[derive(Clone, Copy, Debug, PartialEq, Eq, Structural)]
pub enum ByteOrder {
    /// The lowest eight bits come first.
    LittleEndian,
    /// The highest eight bits come first.
    BigEndian,
}

/// The camera: where it is, how it is turned, and its scale.
#[derive(Clone, Copy, Debug)]
pub struct Camera {
    /// The position, one word for each coordinate.
    pub pos: [u32; 3],
    /// The rotation matrix, four rows of four words.
    pub rot: [[u32; 4]; 4],
    /// The scale.
    pub scale: u32,
}

/// Eight bits of `word`: the lowest for `place` 0, the highest for 3.
pub open spec fn word_bits(word: u32, place: int) -> u8 {
    if place == 0 {
        (word % 0x100) as u8
    } else if place == 1 {
        (word / 0x100 % 0x100) as u8
    } else if place == 2 {
        (word / 0x1_0000 % 0x100) as u8
    } else {
        (word / 0x100_0000 % 0x100) as u8
    }
}

/// The bytes of `words` in memory: four for each word, word after word, the
/// four in the given order.
pub open spec fn byte_image(words: Seq<u32>, order: ByteOrder) -> Seq<u8> {
    Seq::new(
        4 * words.len(),
        |at: int|
            match order {
                ByteOrder::LittleEndian => word_bits(words[at / 4], at % 4),
                ByteOrder::BigEndian => word_bits(words[at / 4], 3 - at % 4),
            },
    )
}

impl Camera {
    /// The record's words in order.
    pub open spec fn words(&self) -> Seq<u32> {
        self.pos@ + seq![0u32] + self.rot@[0]@ + self.rot@[1]@ + self.rot@[2]@ + self.rot@[3]@
            + seq![self.scale, 0u32, 0u32, 0u32]
    }

    /// The record's words in order.
    pub fn to_words(&self) -> (words: Vec<u32>)
        ensures
            words@ == self.words(),
            words@.len() == RECORD_WORDS,
    {
        let mut words: Vec<u32> = Vec::new();
        words.push(self.pos[0]);
        words.push(self.pos[1]);
        words.push(self.pos[2]);
        words.push(0);
        assert(words@ =~= self.pos@ + seq![0u32]);
        let mut row: usize = 0;
        while row < 4
            invariant
                row <= 4,
                words@.len() == 4 + 4 * row,
                words@.subrange(0, 4) == self.pos@ + seq![0u32],
                forall|r: int, c: int|
                    0 <= r < row && 0 <= c < 4 ==> words@[4 + 4 * r + c] == self.rot@[r]@[c],
            decreases 4 - row,
        {
            let ghost before = words@;
            words.push(self.rot[row][0]);
            words.push(self.rot[row][1]);
            words.push(self.rot[row][2]);
            words.push(self.rot[row][3]);
            assert(words@.subrange(0, 4) =~= before.subrange(0, 4));
            assert forall|r: int, c: int| 0 <= r < row + 1 && 0 <= c < 4 implies words@[4 + 4 * r
                + c] == self.rot@[r]@[c] by {
                if r < row {
                    assert(words@[4 + 4 * r + c] == before[4 + 4 * r + c]);
                }
            }
            row += 1;
        }
        words.push(self.scale);
        words.push(0);
        words.push(0);
        words.push(0);
        assert(words@ =~= self.words());
        words
    }

    /// The record's bytes as they lie in memory, ready for a uniform
    /// buffer. The words are laid down in order, each in the byte order of
    /// the machine.
    pub fn to_bytes(&self) -> (bytes: Vec<u8>)
        ensures
            bytes@.len() == RECORD_BYTES,
            bytes@ == byte_image(self.words(), ByteOrder::LittleEndian) || bytes@ == byte_image(
                self.words(),
                ByteOrder::BigEndian,
            ),
    {
        let words = self.to_words();
        slice_to_vec(words_as_bytes(words.as_slice()))
    }
}

impl Camera {
    /// The word of the identity matrix at a row and a column: one on the
    /// diagonal, zero off it.
    pub open spec fn identity_word(row: int, column: int) -> u32 {
        if row == column {
            UNIT_SCALE
        } else {
            0
        }
    }
}

impl Default for Camera {
    /// The camera at rest: at the origin, turned by a yaw and a pitch of
    /// zero, which is the identity matrix, and with a scale of one.
    fn default() -> (camera: Camera)
        ensures
            forall|i: int| 0 <= i < 3 ==> camera.pos@[i] == 0,
            forall|r: int, c: int|
                0 <= r < 4 && 0 <= c < 4 ==> #[trigger] camera.rot@[r]@[c]
                    == Camera::identity_word(r, c),
            camera.scale == UNIT_SCALE,
    {
        Camera {
            pos: [0; 3],
            rot: [
                [UNIT_SCALE, 0, 0, 0],
                [0, UNIT_SCALE, 0, 0],
                [0, 0, UNIT_SCALE, 0],
                [0, 0, 0, UNIT_SCALE],
            ],
            scale: UNIT_SCALE,
        }
    }
}

/// `bytemuck::cast_slice` from 32-bit words to bytes. It hands back the
/// memory of `words` as bytes: four for each word, word after word, each
/// word's four in the byte order of the machine, which is one of the two
/// and the same for every word.
#[verifier::external_body]
fn words_as_bytes(words: &[u32]) -> (bytes: &[u8])
    ensures
        bytes@ == byte_image(words@, ByteOrder::LittleEndian) || bytes@ == byte_image(
            words@,
            ByteOrder::BigEndian,
        ),
{
    bytemuck::cast_slice(words)
}

} // verus!
