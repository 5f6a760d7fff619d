use vstd::prelude::*;

verus! {

pub const SINGLE_SPRITE_BYTES: usize = 16;

/// The flat character-byte array extracted from a cartridge image: graphics
/// tile data, 16 bytes per sprite. The view is the byte contents.
pub struct CharacterROM {
    data: Vec<u8>,
}

impl View for CharacterROM {
    type V = Seq<u8>;

    closed spec fn view(&self) -> Seq<u8> {
        self.data@
    }
}

impl CharacterROM {
    pub fn new(data: &[u8]) -> (r: CharacterROM)
        ensures
            r@ == data@,
    {
        CharacterROM { data: vstd::slice::slice_to_vec(data) }
    }

    /// Extracts the 16 bytes of sprite `n`: the first 8 are the low bit
    /// plane, the next 8 the high bit plane.
    pub fn nth_sprite(&self, n: usize) -> (r: Sprite)
        requires
            n < self@.len() / SINGLE_SPRITE_BYTES as nat,
        ensures
            r.lower_half() == self@.subrange(
                n * SINGLE_SPRITE_BYTES,
                n * SINGLE_SPRITE_BYTES + 8,
            ),
            r.upper_half() == self@.subrange(
                n * SINGLE_SPRITE_BYTES + 8,
                n * SINGLE_SPRITE_BYTES + SINGLE_SPRITE_BYTES,
            ),
    {
        let total = self.data.len();
        proof {
            let len = total as int;
            vstd::arithmetic::div_mod::lemma_fundamental_div_mod(len, 16);
            vstd::arithmetic::div_mod::lemma_mod_bound(len, 16);
            assert(n * SINGLE_SPRITE_BYTES + SINGLE_SPRITE_BYTES <= len);
        }
        let start = n * SINGLE_SPRITE_BYTES;
        let sprite_bytes: [u8; 16] = [
            self.data[start],
            self.data[start + 1],
            self.data[start + 2],
            self.data[start + 3],
            self.data[start + 4],
            self.data[start + 5],
            self.data[start + 6],
            self.data[start + 7],
            self.data[start + 8],
            self.data[start + 9],
            self.data[start + 10],
            self.data[start + 11],
            self.data[start + 12],
            self.data[start + 13],
            self.data[start + 14],
            self.data[start + 15],
        ];
        let r = Sprite::new(sprite_bytes);
        proof {
            assert(r.lower_half() =~= self@.subrange(start as int, start + 8));
            assert(r.upper_half() =~= self@.subrange(start + 8, start + SINGLE_SPRITE_BYTES));
        }
        r
    }

    /// How many whole 16-byte sprites the image holds.
    pub fn number_of_sprites(&self) -> (r: usize)
        ensures
            r == self@.len() / SINGLE_SPRITE_BYTES as nat,
    {
        self.data.len() / SINGLE_SPRITE_BYTES
    }
}

/// One 8x8 sprite: two bit planes of 8 bytes each. Row `y` of the low plane
/// is `lower_half()[y]`, of the high plane `upper_half()[y]`.
pub struct Sprite {
    lower_half_bytes: [u8; 8],
    upper_half_bytes: [u8; 8],
}

impl Sprite {
    pub closed spec fn lower_half(&self) -> Seq<u8> {
        self.lower_half_bytes@
    }

    pub closed spec fn upper_half(&self) -> Seq<u8> {
        self.upper_half_bytes@
    }

    /// Splits 16 raw bytes into the two bit planes.
    pub fn new(bytes: [u8; 16]) -> (r: Sprite)
        ensures
            r.lower_half() == bytes@.subrange(0, 8),
            r.upper_half() == bytes@.subrange(8, 16),
    {
        let r = Sprite {
            lower_half_bytes: [
                bytes[0],
                bytes[1],
                bytes[2],
                bytes[3],
                bytes[4],
                bytes[5],
                bytes[6],
                bytes[7],
            ],
            upper_half_bytes: [
                bytes[8],
                bytes[9],
                bytes[10],
                bytes[11],
                bytes[12],
                bytes[13],
                bytes[14],
                bytes[15],
            ],
        };
        proof {
            assert(r.lower_half() =~= bytes@.subrange(0, 8));
            assert(r.upper_half() =~= bytes@.subrange(8, 16));
        }
        r
    }

    /// The two-bit palette color number of the pixel at column `x`, row `y`:
    /// bit `7 - x` of the row's low-plane byte plus bit `7 - x` of the row's
    /// high-plane byte. Coordinates outside the 8x8 grid are rejected.
    pub fn pallet_color_number_for_pixel(&self, x: usize, y: usize) -> (r: Result<u8, SpriteError>)
        ensures
            x >= 8 ==> r == Err::<u8, SpriteError>(SpriteError::XOutOfRange),
            x < 8 && y >= 8 ==> r == Err::<u8, SpriteError>(SpriteError::YOutOfRange),
            x < 8 && y < 8 ==> r == Ok::<u8, SpriteError>(
                (((self.lower_half()[y as int] >> (7 - x) as u8) & 1) + ((self.upper_half()[y as int]
                    >> (7 - x) as u8) & 1)) as u8,
            ),
    {
        if x >= 8 {
            return Err(SpriteError::XOutOfRange);
        }
        if y >= 8 {
            return Err(SpriteError::YOutOfRange);
        }
        let bit_index = (7 - x) as u8;
        let byte_index = y;

        let lower_half_byte = self.lower_half_bytes[byte_index];
        let lower_half_bit = (lower_half_byte >> bit_index) & 1;

        let upper_half_byte = self.upper_half_bytes[byte_index];
        let upper_half_bit = (upper_half_byte >> bit_index) & 1;

        proof {
            let lb = lower_half_byte;
            let ub = upper_half_byte;
            let bi = bit_index;
            assert((lb >> bi) & 1 <= 1 && (ub >> bi) & 1 <= 1) by (bit_vector);
        }
        Ok(lower_half_bit + upper_half_bit)
    }
}

/// Why a sprite pixel query was rejected.
#[derive(Clone, Copy, Debug, PartialEq, Eq, Structural)]
pub enum SpriteError {
    XOutOfRange,
    YOutOfRange,
}

} // verus!
