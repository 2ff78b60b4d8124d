//! Single-byte flag structures of the GIF format.
//!
//! Each structure holds its packed byte and offers named accessors and
//! builders for the sub-byte fields it contains. Fields are laid out from the
//! most significant bit down, as the format prescribes; the first field named
//! in each structure's documentation holds the highest bits.
use vstd::prelude::*;
use crate::gif::DecodeError;

verus! {

/// Base-two logarithm, rounded down (0 for 0 and 1).
pub open spec fn log2(n: nat) -> nat
    decreases n,
{
    if n < 2 {
        0
    } else {
        1 + log2(n / 2)
    }
}

/// Lengths a color table may have: none at all, or a power of two from 2 to 256.
pub open spec fn is_table_len(n: nat) -> bool {
    n == 0 || n == 2 || n == 4 || n == 8 || n == 16 || n == 32 || n == 64 || n == 128 || n == 256
}

/// The three-bit size code recorded for a color table of `n` entries:
/// `log2(n) - 1`, and 0 when there is no table.
pub open spec fn table_size_code(n: nat) -> nat {
    if n == 0 {
        0
    } else {
        (log2(n) - 1) as nat
    }
}

/// The number of entries that a present-flag and a size code announce.
pub open spec fn announced_table_len(present: bool, code: nat) -> nat
    decreases code,
{
    if !present {
        0
    } else if code == 0 {
        2
    } else {
        2 * announced_table_len(true, (code - 1) as nat)
    }
}

pub open spec fn bit(b: bool) -> nat {
    if b {
        1
    } else {
        0
    }
}

/// Whether a color table may have `len` entries.
pub fn valid_table_len(len: usize) -> (r: bool)
    ensures
        r == is_table_len(len as nat),
{
    len == 0 || len == 2 || len == 4 || len == 8 || len == 16 || len == 32 || len == 64 || len == 128
        || len == 256
}

/// Size code of a color table of `len` entries.
pub fn size_code_of_table(len: usize) -> (r: u8)
    requires
        is_table_len(len as nat),
    ensures
        r as nat == table_size_code(len as nat),
        r < 8,
{
    proof {
        reveal_with_fuel(log2, 10);
    }
    if len == 0 || len == 2 {
        0
    } else if len == 4 {
        1
    } else if len == 8 {
        2
    } else if len == 16 {
        3
    } else if len == 32 {
        4
    } else if len == 64 {
        5
    } else if len == 128 {
        6
    } else {
        7
    }
}

/// A present-flag and size code derived from a table length announce that
/// length again.
pub proof fn lemma_table_len_round_trip(n: nat)
    requires
        is_table_len(n),
    ensures
        announced_table_len(n > 0, table_size_code(n)) == n,
        table_size_code(n) < 8,
{
    reveal_with_fuel(log2, 10);
    reveal_with_fuel(announced_table_len, 10);
}

/// What writing screen descriptor flags needs to know: the length of the
/// global color table that follows them.
#[derive(Clone, Copy, Debug)]
pub struct HeaderPackedWriteArgs {
    pub global_color_table_length: usize,
}

/// What writing image descriptor flags needs to know: the length of the
/// local color table that follows them.
#[derive(Clone, Copy, Debug)]
pub struct ImagePackedWriteArgs {
    pub local_color_table_length: usize,
}

/// The first byte of `input`, or `UnexpectedEnd` when there is none.
fn read_byte(input: &[u8]) -> (r: Result<u8, DecodeError>)
    ensures
        input@.len() == 0 ==> r == Err::<u8, DecodeError>(DecodeError::UnexpectedEnd),
        input@.len() > 0 ==> r == Ok::<u8, DecodeError>(input@[0]),
{
    if input.len() == 0 {
        Err(DecodeError::UnexpectedEnd)
    } else {
        Ok(input[0])
    }
}

/// Flags of the logical screen descriptor. From the highest bit down:
/// global color table flag (1 bit), color resolution (3 bits), sort flag
/// (1 bit), size of the global color table (3 bits).
#[derive(Clone, Copy, Debug, PartialEq, Eq, Structural)]
pub struct HeaderPacked {
    pub bits: u8,
}

impl HeaderPacked {
    pub open spec fn spec_size(self) -> nat {
        (self.bits % 8) as nat
    }

    pub open spec fn spec_sort(self) -> bool {
        (self.bits / 8) % 2 == 1
    }

    pub open spec fn spec_color_resolution(self) -> nat {
        ((self.bits / 16) % 8) as nat
    }

    pub open spec fn spec_global_table(self) -> bool {
        self.bits / 128 == 1
    }

    /// The byte whose fields are the given ones.
    pub open spec fn pack(size: nat, sort: bool, color_resolution: nat, global_table: bool) -> u8 {
        (size + 8 * bit(sort) + 16 * color_resolution + 128 * bit(global_table)) as u8
    }

    pub proof fn lemma_pack(size: nat, sort: bool, color_resolution: nat, global_table: bool)
        requires
            size < 8,
            color_resolution < 8,
        ensures
            ({
                let p = HeaderPacked { bits: Self::pack(size, sort, color_resolution, global_table) };
                &&& p.spec_size() == size
                &&& p.spec_sort() == sort
                &&& p.spec_color_resolution() == color_resolution
                &&& p.spec_global_table() == global_table
            }),
    {
    }

    /// All fields zero.
    pub fn new() -> (r: Self)
        ensures
            r.bits == 0,
    {
        HeaderPacked { bits: 0 }
    }

    pub fn from_bits(bits: u8) -> (r: Self)
        ensures
            r.bits == bits,
    {
        HeaderPacked { bits }
    }

    pub fn into_bits(self) -> (r: u8)
        ensures
            r == self.bits,
    {
        self.bits
    }

    pub fn size_of_global_color_table(&self) -> (r: u32)
        ensures
            r as nat == self.spec_size(),
    {
        (self.bits % 8) as u32
    }

    pub fn sort_flag(&self) -> (r: bool)
        ensures
            r == self.spec_sort(),
    {
        (self.bits / 8) % 2 == 1
    }

    pub fn color_resolution(&self) -> (r: usize)
        ensures
            r as nat == self.spec_color_resolution(),
    {
        ((self.bits / 16) % 8) as usize
    }

    pub fn global_color_table_flag(&self) -> (r: bool)
        ensures
            r == self.spec_global_table(),
    {
        self.bits / 128 == 1
    }

    pub fn with_size_of_global_color_table(self, v: u32) -> (r: Self)
        requires
            v < 8,
        ensures
            r.bits == Self::pack(
                v as nat,
                self.spec_sort(),
                self.spec_color_resolution(),
                self.spec_global_table(),
            ),
    {
        HeaderPacked { bits: self.bits - self.bits % 8 + v as u8 }
    }

    pub fn with_sort_flag(self, v: bool) -> (r: Self)
        ensures
            r.bits == Self::pack(
                self.spec_size(),
                v,
                self.spec_color_resolution(),
                self.spec_global_table(),
            ),
    {
        let low = self.bits % 8;
        let high = self.bits - self.bits % 16;
        HeaderPacked { bits: high + if v { 8 } else { 0 } + low }
    }

    pub fn with_color_resolution(self, v: usize) -> (r: Self)
        requires
            v < 8,
        ensures
            r.bits == Self::pack(self.spec_size(), self.spec_sort(), v as nat, self.spec_global_table()),
    {
        let low = self.bits % 16;
        let high = self.bits - self.bits % 128;
        HeaderPacked { bits: high + 16 * (v as u8) + low }
    }

    pub fn with_global_color_table_flag(self, v: bool) -> (r: Self)
        ensures
            r.bits == Self::pack(self.spec_size(), self.spec_sort(), self.spec_color_resolution(), v),
    {
        let low = self.bits % 128;
        let b = self.bits;
        assert(low % 8 == b % 8 && (low / 8) % 2 == (b / 8) % 2 && (low / 16) % 8 == (b / 16) % 8)
            by (bit_vector)
            requires
                low == b % 128,
        ;
        HeaderPacked { bits: low + if v { 128 } else { 0 } }
    }

    /// Reads the flags from the first byte of `input`.
    pub fn read_options(input: &[u8]) -> (r: Result<Self, DecodeError>)
        ensures
            input@.len() == 0 ==> r == Err::<Self, DecodeError>(DecodeError::UnexpectedEnd),
            input@.len() > 0 ==> r == Ok::<Self, DecodeError>(HeaderPacked { bits: input@[0] }),
    {
        match read_byte(input) {
            Ok(b) => Ok(Self::from_bits(b)),
            Err(e) => Err(e),
        }
    }

    /// Appends the flags byte, its present-flag and size code taken from the
    /// length of the global color table.
    pub fn write_options(&self, out: &mut Vec<u8>, args: HeaderPackedWriteArgs)
        requires
            is_table_len(args.global_color_table_length as nat),
        ensures
            final(out)@ == old(out)@.push(
                Self::pack(
                    table_size_code(args.global_color_table_length as nat),
                    self.spec_sort(),
                    self.spec_color_resolution(),
                    args.global_color_table_length > 0,
                ),
            ),
    {
        out.push(self.for_table(args.global_color_table_length).into_bits());
    }

    /// These flags with the present-flag and size code that a global color
    /// table of `len` entries calls for.
    pub fn for_table(self, len: usize) -> (r: Self)
        requires
            is_table_len(len as nat),
        ensures
            r.bits == Self::pack(
                table_size_code(len as nat),
                self.spec_sort(),
                self.spec_color_resolution(),
                len > 0,
            ),
    {
        let code = size_code_of_table(len);
        self.with_global_color_table_flag(len != 0).with_size_of_global_color_table(code as u32)
    }
}

/// Flags of an image descriptor. From the highest bit down: local color
/// table flag (1 bit), interlace flag (1 bit), sort flag (1 bit), reserved
/// (2 bits), size of the local color table (3 bits).
#[derive(Clone, Copy, Debug, PartialEq, Eq, Structural)]
pub struct ImagePacked {
    pub bits: u8,
}

impl ImagePacked {
    pub open spec fn spec_size(self) -> nat {
        (self.bits % 8) as nat
    }

    pub open spec fn spec_reserved(self) -> nat {
        ((self.bits / 8) % 4) as nat
    }

    pub open spec fn spec_sort(self) -> bool {
        (self.bits / 32) % 2 == 1
    }

    pub open spec fn spec_interlace(self) -> bool {
        (self.bits / 64) % 2 == 1
    }

    pub open spec fn spec_local_table(self) -> bool {
        self.bits / 128 == 1
    }

    /// The byte whose fields are the given ones.
    pub open spec fn pack(size: nat, reserved: nat, sort: bool, interlace: bool, local_table: bool) -> u8 {
        (size + 8 * reserved + 32 * bit(sort) + 64 * bit(interlace) + 128 * bit(local_table)) as u8
    }

    pub proof fn lemma_pack(size: nat, reserved: nat, sort: bool, interlace: bool, local_table: bool)
        requires
            size < 8,
            reserved < 4,
        ensures
            ({
                let p = ImagePacked { bits: Self::pack(size, reserved, sort, interlace, local_table) };
                &&& p.spec_size() == size
                &&& p.spec_reserved() == reserved
                &&& p.spec_sort() == sort
                &&& p.spec_interlace() == interlace
                &&& p.spec_local_table() == local_table
            }),
    {
    }

    fn packed(size: u8, reserved: u8, sort: bool, interlace: bool, local_table: bool) -> (r: Self)
        requires
            size < 8,
            reserved < 4,
        ensures
            r.bits == Self::pack(size as nat, reserved as nat, sort, interlace, local_table),
    {
        let s: u8 = if sort { 32 } else { 0 };
        let i: u8 = if interlace { 64 } else { 0 };
        let l: u8 = if local_table { 128 } else { 0 };
        ImagePacked { bits: size + 8 * reserved + s + i + l }
    }

    /// All fields zero.
    pub fn new() -> (r: Self)
        ensures
            r.bits == 0,
    {
        ImagePacked { bits: 0 }
    }

    pub fn from_bits(bits: u8) -> (r: Self)
        ensures
            r.bits == bits,
    {
        ImagePacked { bits }
    }

    pub fn into_bits(self) -> (r: u8)
        ensures
            r == self.bits,
    {
        self.bits
    }

    pub fn size_of_local_color_table(&self) -> (r: u32)
        ensures
            r as nat == self.spec_size(),
    {
        (self.bits % 8) as u32
    }

    pub fn reserved(&self) -> (r: usize)
        ensures
            r as nat == self.spec_reserved(),
    {
        ((self.bits / 8) % 4) as usize
    }

    pub fn sort_flag(&self) -> (r: bool)
        ensures
            r == self.spec_sort(),
    {
        (self.bits / 32) % 2 == 1
    }

    pub fn interlace_flag(&self) -> (r: bool)
        ensures
            r == self.spec_interlace(),
    {
        (self.bits / 64) % 2 == 1
    }

    pub fn local_color_table_flag(&self) -> (r: bool)
        ensures
            r == self.spec_local_table(),
    {
        self.bits / 128 == 1
    }

    pub fn with_size_of_local_color_table(self, v: u32) -> (r: Self)
        requires
            v < 8,
        ensures
            r.bits == Self::pack(
                v as nat,
                self.spec_reserved(),
                self.spec_sort(),
                self.spec_interlace(),
                self.spec_local_table(),
            ),
    {
        Self::packed(
            v as u8,
            (self.bits / 8) % 4,
            self.sort_flag(),
            self.interlace_flag(),
            self.local_color_table_flag(),
        )
    }

    pub fn with_reserved(self, v: usize) -> (r: Self)
        requires
            v < 4,
        ensures
            r.bits == Self::pack(
                self.spec_size(),
                v as nat,
                self.spec_sort(),
                self.spec_interlace(),
                self.spec_local_table(),
            ),
    {
        Self::packed(
            self.bits % 8,
            v as u8,
            self.sort_flag(),
            self.interlace_flag(),
            self.local_color_table_flag(),
        )
    }

    pub fn with_sort_flag(self, v: bool) -> (r: Self)
        ensures
            r.bits == Self::pack(
                self.spec_size(),
                self.spec_reserved(),
                v,
                self.spec_interlace(),
                self.spec_local_table(),
            ),
    {
        Self::packed(
            self.bits % 8,
            (self.bits / 8) % 4,
            v,
            self.interlace_flag(),
            self.local_color_table_flag(),
        )
    }

    pub fn with_interlace_flag(self, v: bool) -> (r: Self)
        ensures
            r.bits == Self::pack(
                self.spec_size(),
                self.spec_reserved(),
                self.spec_sort(),
                v,
                self.spec_local_table(),
            ),
    {
        Self::packed(
            self.bits % 8,
            (self.bits / 8) % 4,
            self.sort_flag(),
            v,
            self.local_color_table_flag(),
        )
    }

    pub fn with_local_color_table_flag(self, v: bool) -> (r: Self)
        ensures
            r.bits == Self::pack(
                self.spec_size(),
                self.spec_reserved(),
                self.spec_sort(),
                self.spec_interlace(),
                v,
            ),
    {
        Self::packed(
            self.bits % 8,
            (self.bits / 8) % 4,
            self.sort_flag(),
            self.interlace_flag(),
            v,
        )
    }

    /// Reads the flags from the first byte of `input`.
    pub fn read_options(input: &[u8]) -> (r: Result<Self, DecodeError>)
        ensures
            input@.len() == 0 ==> r == Err::<Self, DecodeError>(DecodeError::UnexpectedEnd),
            input@.len() > 0 ==> r == Ok::<Self, DecodeError>(ImagePacked { bits: input@[0] }),
    {
        match read_byte(input) {
            Ok(b) => Ok(Self::from_bits(b)),
            Err(e) => Err(e),
        }
    }

    /// Appends the flags byte, its present-flag and size code taken from the
    /// length of the local color table.
    pub fn write_options(&self, out: &mut Vec<u8>, args: ImagePackedWriteArgs)
        requires
            is_table_len(args.local_color_table_length as nat),
        ensures
            final(out)@ == old(out)@.push(
                Self::pack(
                    table_size_code(args.local_color_table_length as nat),
                    self.spec_reserved(),
                    self.spec_sort(),
                    self.spec_interlace(),
                    args.local_color_table_length > 0,
                ),
            ),
    {
        out.push(self.for_table(args.local_color_table_length).into_bits());
    }

    /// These flags with the present-flag and size code that a local color
    /// table of `len` entries calls for.
    pub fn for_table(self, len: usize) -> (r: Self)
        requires
            is_table_len(len as nat),
        ensures
            r.bits == Self::pack(
                table_size_code(len as nat),
                self.spec_reserved(),
                self.spec_sort(),
                self.spec_interlace(),
                len > 0,
            ),
    {
        let code = size_code_of_table(len);
        Self::packed(code, (self.bits / 8) % 4, self.sort_flag(), self.interlace_flag(), len != 0)
    }
}

/// What a decoder does with an image once its delay has passed.
#[derive(Clone, Copy, Debug, PartialEq, Eq, Structural)]
pub enum DisposalMethod {
    NoDisposalSpecified,
    DoNotDispose,
    RestoreToBackgroundColor,
    RestoreToPrevious,
}

/// The three-bit code of a disposal method.
pub open spec fn disposal_code(d: DisposalMethod) -> u8 {
    match d {
        DisposalMethod::NoDisposalSpecified => 0,
        DisposalMethod::DoNotDispose => 1,
        DisposalMethod::RestoreToBackgroundColor => 2,
        DisposalMethod::RestoreToPrevious => 3,
    }
}

/// The disposal method a code stands for; codes without a meaning read as
/// "no disposal specified".
pub open spec fn disposal_of(v: u8) -> DisposalMethod {
    if v == 1 {
        DisposalMethod::DoNotDispose
    } else if v == 2 {
        DisposalMethod::RestoreToBackgroundColor
    } else if v == 3 {
        DisposalMethod::RestoreToPrevious
    } else {
        DisposalMethod::NoDisposalSpecified
    }
}

impl DisposalMethod {
    pub fn into_bits(self) -> (r: u8)
        ensures
            r == disposal_code(self),
    {
        match self {
            DisposalMethod::NoDisposalSpecified => 0,
            DisposalMethod::DoNotDispose => 1,
            DisposalMethod::RestoreToBackgroundColor => 2,
            DisposalMethod::RestoreToPrevious => 3,
        }
    }

    pub fn from_bits(value: u8) -> (r: Self)
        ensures
            r == disposal_of(value),
    {
        match value {
            1 => DisposalMethod::DoNotDispose,
            2 => DisposalMethod::RestoreToBackgroundColor,
            3 => DisposalMethod::RestoreToPrevious,
            _ => DisposalMethod::NoDisposalSpecified,
        }
    }
}

/// Flags of a graphic control extension. From the highest bit down: reserved
/// (3 bits), disposal method (3 bits), user input flag (1 bit), transparent
/// color flag (1 bit). The reserved bits cannot be set through this type and
/// are always written as zero; a disposal code without a meaning is written
/// as "no disposal specified", the method it reads as.
#[derive(Clone, Copy, Debug, PartialEq, Eq, Structural)]
pub struct GraphicControlExtensionPacked {
    pub bits: u8,
}

impl GraphicControlExtensionPacked {
    pub open spec fn spec_transparent(self) -> bool {
        self.bits % 2 == 1
    }

    pub open spec fn spec_user_input(self) -> bool {
        (self.bits / 2) % 2 == 1
    }

    pub open spec fn spec_disposal(self) -> u8 {
        ((self.bits / 4) % 8) as u8
    }

    /// The byte whose fields are the given ones, reserved bits zero.
    pub open spec fn pack(disposal: nat, user_input: bool, transparent: bool) -> u8 {
        (bit(transparent) + 2 * bit(user_input) + 4 * disposal) as u8
    }

    /// The byte written for these flags: the named fields packed again,
    /// reserved bits zero.
    pub open spec fn wire_byte(self) -> u8 {
        Self::pack(
            disposal_code(disposal_of(self.spec_disposal())) as nat,
            self.spec_user_input(),
            self.spec_transparent(),
        )
    }

    pub proof fn lemma_pack(disposal: nat, user_input: bool, transparent: bool)
        requires
            disposal < 8,
        ensures
            ({
                let p = GraphicControlExtensionPacked { bits: Self::pack(disposal, user_input, transparent) };
                &&& p.spec_disposal() == disposal
                &&& p.spec_user_input() == user_input
                &&& p.spec_transparent() == transparent
                &&& disposal < 4 ==> p.wire_byte() == p.bits
            }),
    {
    }

    fn packed(disposal: u8, user_input: bool, transparent: bool) -> (r: Self)
        requires
            disposal < 8,
        ensures
            r.bits == Self::pack(disposal as nat, user_input, transparent),
    {
        let t: u8 = if transparent { 1 } else { 0 };
        let u: u8 = if user_input { 2 } else { 0 };
        GraphicControlExtensionPacked { bits: t + u + 4 * disposal }
    }

    /// All fields zero.
    pub fn new() -> (r: Self)
        ensures
            r.bits == 0,
    {
        GraphicControlExtensionPacked { bits: 0 }
    }

    pub fn from_bits(bits: u8) -> (r: Self)
        ensures
            r.bits == bits,
    {
        GraphicControlExtensionPacked { bits }
    }

    pub fn into_bits(self) -> (r: u8)
        ensures
            r == self.wire_byte(),
    {
        Self::packed(
            self.disposal_method().into_bits(),
            self.user_input_flag(),
            self.transpalent_color_flag(),
        ).bits
    }

    /// Reads the flags from the first byte of `input`.
    pub fn read_options(input: &[u8]) -> (r: Result<Self, DecodeError>)
        ensures
            input@.len() == 0 ==> r == Err::<Self, DecodeError>(DecodeError::UnexpectedEnd),
            input@.len() > 0 ==> r == Ok::<Self, DecodeError>(
                GraphicControlExtensionPacked { bits: input@[0] },
            ),
    {
        match read_byte(input) {
            Ok(b) => Ok(Self::from_bits(b)),
            Err(e) => Err(e),
        }
    }

    /// Appends the flags byte, reserved bits cleared.
    pub fn write_options(&self, out: &mut Vec<u8>)
        ensures
            final(out)@ == old(out)@.push(self.wire_byte()),
    {
        out.push(self.into_bits());
    }

    pub fn disposal_method(&self) -> (r: DisposalMethod)
        ensures
            r == disposal_of(self.spec_disposal()),
    {
        DisposalMethod::from_bits((self.bits / 4) % 8)
    }

    pub fn user_input_flag(&self) -> (r: bool)
        ensures
            r == self.spec_user_input(),
    {
        (self.bits / 2) % 2 == 1
    }

    pub fn transpalent_color_flag(&self) -> (r: bool)
        ensures
            r == self.spec_transparent(),
    {
        self.bits % 2 == 1
    }

    pub fn with_disposal_method(self, v: DisposalMethod) -> (r: Self)
        ensures
            r.bits == Self::pack(disposal_code(v) as nat, self.spec_user_input(), self.spec_transparent()),
    {
        Self::packed(v.into_bits(), self.user_input_flag(), self.transpalent_color_flag())
    }

    pub fn with_user_input_flag(self, v: bool) -> (r: Self)
        ensures
            r.bits == Self::pack(self.spec_disposal() as nat, v, self.spec_transparent()),
    {
        Self::packed((self.bits / 4) % 8, v, self.transpalent_color_flag())
    }

    pub fn with_transpalent_color_flag(self, v: bool) -> (r: Self)
        ensures
            r.bits == Self::pack(self.spec_disposal() as nat, self.spec_user_input(), v),
    {
        Self::packed((self.bits / 4) % 8, self.user_input_flag(), v)
    }
}

} // verus!
