//! Typed reads from a foreign address space.

use crate::text::{hex_string, hexadecimal};
use crate::utf16::{decode_utf16, utf16_chars};
use vstd::prelude::*;
use vstd::string::StringExecFns;
use vstd::slice::slice_subrange;

verus! {

/// Why an operation on foreign memory failed.
#[derive(Debug, Clone, Copy, PartialEq, Eq, Structural)]
pub enum MemoryError {
    /// No running process has the name sought.
    ProcessNotFound,
    /// The process has loaded no module with its own file name.
    ModuleNotFound,
    /// The read that began at this address was refused.
    ReadFailed(usize),
    /// A pointer that was to be followed is null.
    NullPointer,
    /// The sweep of the address space ended with signatures still unlocated.
    PatternsNotFound,
    /// A string's code units are not well-formed UTF-16.
    StringDecodeFailed,
    /// The session was closed before.
    AlreadyClosed,
}

impl MemoryError {
    /// What the failure is called.
    pub open spec fn text(self) -> Seq<char> {
        match self {
            MemoryError::ProcessNotFound => "Failed to find process"@,
            MemoryError::ModuleNotFound => "Unable to find module"@,
            MemoryError::ReadFailed(addr) => "Failed to read address "@ + hexadecimal(addr as nat),
            MemoryError::NullPointer => "Read null pointer"@,
            MemoryError::PatternsNotFound => "Unable to find all patterns"@,
            MemoryError::StringDecodeFailed => "Unicode decoding failed"@,
            MemoryError::AlreadyClosed => "MemoryClient has already been closed"@,
        }
    }

    /// Says what failed.
    pub fn message(&self) -> (r: String)
        ensures
            r@ == self.text(),
    {
        match self {
            MemoryError::ProcessNotFound => "Failed to find process".to_owned(),
            MemoryError::ModuleNotFound => "Unable to find module".to_owned(),
            MemoryError::ReadFailed(addr) => {
                let mut text = "Failed to read address ".to_owned();
                text.append(hex_string(*addr).as_str());
                text
            },
            MemoryError::NullPointer => "Read null pointer".to_owned(),
            MemoryError::PatternsNotFound => "Unable to find all patterns".to_owned(),
            MemoryError::StringDecodeFailed => "Unicode decoding failed".to_owned(),
            MemoryError::AlreadyClosed => "MemoryClient has already been closed".to_owned(),
        }
    }
}

/// The little-endian value of two bytes.
pub open spec fn u16_le(b: Seq<u8>) -> u16 {
    (b[0] + b[1] * 0x100) as u16
}

/// The little-endian value of four bytes.
pub open spec fn u32_le(b: Seq<u8>) -> u32 {
    (b[0] + b[1] * 0x100 + b[2] * 0x1_0000 + b[3] * 0x100_0000) as u32
}

/// The little-endian value of eight bytes.
pub open spec fn u64_le(b: Seq<u8>) -> u64 {
    (u32_le(b) + u32_le(b.skip(4)) * 0x1_0000_0000) as u64
}

/// Decodes two little-endian bytes.
pub fn decode_u16(b: &[u8]) -> (r: u16)
    requires
        b@.len() >= 2,
    ensures
        r == u16_le(b@),
{
    b[0] as u16 + b[1] as u16 * 0x100
}

/// Decodes four little-endian bytes.
pub fn decode_u32(b: &[u8]) -> (r: u32)
    requires
        b@.len() >= 4,
    ensures
        r == u32_le(b@),
{
    b[0] as u32 + b[1] as u32 * 0x100 + b[2] as u32 * 0x1_0000 + b[3] as u32 * 0x100_0000
}

/// Decodes eight little-endian bytes.
pub fn decode_u64(b: &[u8]) -> (r: u64)
    requires
        b@.len() >= 8,
    ensures
        r == u64_le(b@),
{
    let lo = b[0] as u64 + b[1] as u64 * 0x100 + b[2] as u64 * 0x1_0000 + b[3] as u64 * 0x100_0000;
    let hi = b[4] as u64 + b[5] as u64 * 0x100 + b[6] as u64 * 0x1_0000 + b[7] as u64 * 0x100_0000;
    lo + hi * 0x1_0000_0000
}

/// A value that is decoded from the bytes at the start of a buffer.
pub trait FromBytes: Sized {
    /// The value that the first bytes of `bytes` encode.
    spec fn decoded(bytes: Seq<u8>) -> Self;

    /// Decodes the value at the start of `bytes`.
    fn from_bytes(bytes: &[u8]) -> (r: Self)
        requires
            bytes@.len() >= vstd::layout::size_of::<Self>(),
        ensures
            r == Self::decoded(bytes@),
    ;
}

impl FromBytes for u16 {
    open spec fn decoded(bytes: Seq<u8>) -> u16 {
        u16_le(bytes)
    }

    fn from_bytes(bytes: &[u8]) -> (r: u16) {
        broadcast use vstd::layout::layout_of_primitives;

        decode_u16(bytes)
    }
}

impl FromBytes for i32 {
    open spec fn decoded(bytes: Seq<u8>) -> i32 {
        u32_le(bytes) as i32
    }

    fn from_bytes(bytes: &[u8]) -> (r: i32) {
        broadcast use vstd::layout::layout_of_primitives;

        decode_u32(bytes) as i32
    }
}

/// The protection flag of a region that admits no access.
pub const PAGE_NOACCESS: u32 = 0x01;

/// The protection flag of a guard region.
pub const PAGE_GUARD: u32 = 0x100;

/// Whether a region with these protection flags may be read: the flags are
/// not null and hold neither `PAGE_NOACCESS` nor `PAGE_GUARD`.
pub open spec fn readable(protect: u32) -> bool {
    protect != 0 && protect & PAGE_NOACCESS == 0 && protect & PAGE_GUARD == 0
}

/// One region of an address space, as a page query reports it.
#[derive(Debug, Clone, Copy, PartialEq, Eq, Structural)]
pub struct MemoryRegion {
    /// The address of the region's first byte.
    pub base: usize,
    /// The number of bytes in the region.
    pub size: usize,
    /// The region's protection flags.
    pub protect: u32,
}

impl MemoryRegion {
    /// Whether the region's contents may be read.
    pub fn is_readable(&self) -> (r: bool)
        ensures
            r == readable(self.protect),
    {
        self.protect != 0 && self.protect & PAGE_NOACCESS == 0 && self.protect & PAGE_GUARD == 0
    }
}

/// What a read of a `u32` at `addr` comes to, given what the raw read of its
/// four bytes yields. Address 0 stands for an absent value: it gives 0 and
/// nothing is read.
pub open spec fn u32_value(addr: usize, bytes: Option<Seq<u8>>) -> Result<u32, MemoryError> {
    if addr == 0 {
        Ok(0)
    } else {
        match bytes {
            Some(b) => Ok(u32_le(b)),
            None => Err(MemoryError::ReadFailed(addr)),
        }
    }
}

/// What a read of an `i32` at `addr` comes to: the `u32` there, taken as
/// two's complement.
pub open spec fn i32_value(addr: usize, bytes: Option<Seq<u8>>) -> Result<i32, MemoryError> {
    match u32_value(addr, bytes) {
        Ok(v) => Ok(v as i32),
        Err(e) => Err(e),
    }
}

/// What a read of an `i16` at `addr` comes to, given what the raw read of its
/// two bytes yields.
pub open spec fn i16_value(addr: usize, bytes: Option<Seq<u8>>) -> Result<i16, MemoryError> {
    if addr == 0 {
        Ok(0)
    } else {
        match bytes {
            Some(b) => Ok(u16_le(b) as i16),
            None => Err(MemoryError::ReadFailed(addr)),
        }
    }
}

/// What a read of an `i8` at `addr` comes to, given what the raw read of its
/// byte yields.
pub open spec fn i8_value(addr: usize, bytes: Option<Seq<u8>>) -> Result<i8, MemoryError> {
    if addr == 0 {
        Ok(0)
    } else {
        match bytes {
            Some(b) => Ok(b[0] as i8),
            None => Err(MemoryError::ReadFailed(addr)),
        }
    }
}

/// What a read of eight bytes as a `u64` at `addr` comes to.
pub open spec fn u64_value(addr: usize, bytes: Option<Seq<u8>>) -> Result<u64, MemoryError> {
    if addr == 0 {
        Ok(0)
    } else {
        match bytes {
            Some(b) => Ok(u64_le(b)),
            None => Err(MemoryError::ReadFailed(addr)),
        }
    }
}

/// What following the pointer stored at `addr` comes to: the address it
/// holds, or `NullPointer` where it holds none.
pub open spec fn ptr_value(addr: usize, bytes: Option<Seq<u8>>) -> Result<usize, MemoryError> {
    match u32_value(addr, bytes) {
        Ok(v) => if v == 0 {
            Err(MemoryError::NullPointer)
        } else {
            Ok(v as usize)
        },
        Err(e) => Err(e),
    }
}

/// The elements that `count` consecutive encodings of `T` in `payload` decode to.
pub open spec fn decoded_elements<T: FromBytes>(payload: Seq<u8>, count: nat) -> Seq<T> {
    Seq::new(
        count,
        |i: int|
            T::decoded(
                payload.subrange(
                    i * vstd::layout::size_of::<T>(),
                    (i + 1) * vstd::layout::size_of::<T>(),
                ),
            ),
    )
}

/// The number of bytes that the elements of an array take, where `count`
/// holds what the read of the element count yields.
pub open spec fn payload_len<T>(count: Result<u32, MemoryError>) -> int {
    match count {
        Ok(n) => n * vstd::layout::size_of::<T>(),
        Err(_) => 0,
    }
}

/// What a read of the array at `addr` comes to, given the element count
/// stored at `addr + 4` and what the raw read of the elements at `addr + 8`
/// yields.
///
/// Address 0 and a stored count of 0 give the empty array, and the elements
/// are then not read. A payload too long for any read counts as a read that
/// was refused.
pub open spec fn array_value<T: FromBytes>(
    addr: usize,
    count: Result<u32, MemoryError>,
    payload: Option<Seq<u8>>,
) -> Result<Seq<T>, MemoryError> {
    if addr == 0 {
        Ok(Seq::empty())
    } else {
        match count {
            Err(e) => Err(e),
            Ok(n) => if n == 0 {
                Ok(Seq::empty())
            } else if payload_len::<T>(count) > usize::MAX {
                Err(MemoryError::ReadFailed(addr.wrapping_add(8)))
            } else {
                match payload {
                    Some(bytes) => Ok(decoded_elements::<T>(bytes, n as nat)),
                    None => Err(MemoryError::ReadFailed(addr.wrapping_add(8))),
                }
            },
        }
    }
}

/// What a read of a string comes to, given what the read of its array of
/// code units yields: the text that the units encode as UTF-16.
pub open spec fn str_value(units: Result<Seq<u16>, MemoryError>) -> Result<Seq<char>, MemoryError> {
    match units {
        Ok(units) => match utf16_chars(units) {
            Some(chars) => Ok(chars),
            None => Err(MemoryError::StringDecodeFailed),
        },
        Err(e) => Err(e),
    }
}

/// Access to a foreign address space.
///
/// The two required methods are the operations that the operating system
/// offers on a process: a page query and a raw read. Their outcome is modelled
/// by `region_at` and `bytes_at`, which makes a reader stand for one state of
/// the address space; every typed read is verified against that model.
///
/// A reader on a running process meets the model for as long as the process
/// leaves alone what is read. What is proved of a snapshot is proved of the
/// memory as the reads found it.
pub trait MemoryReader: Sized {
    /// The region that a page query at `addr` reports, or `None` past the end
    /// of the address space. Nothing is said of it here: each reader that is
    /// verified says what it holds.
    open spec fn region_at(&self, addr: usize) -> Option<MemoryRegion> {
        arbitrary()
    }

    /// The `len` bytes that a read at `addr` yields, or `None` where the read
    /// is refused. Nothing is said of it here: each reader that is verified
    /// says what it holds.
    open spec fn bytes_at(&self, addr: usize, len: usize) -> Option<Seq<u8>> {
        arbitrary()
    }

    /// Queries the region that holds `addr`.
    fn query_page(&self, addr: usize) -> (r: Option<MemoryRegion>)
        ensures
            r == self.region_at(addr),
    ;

    /// Reads `len` bytes at `addr` in one operation.
    fn read_raw(&self, addr: usize, len: usize) -> (r: Result<Vec<u8>, MemoryError>)
        ensures
            match r {
                Ok(bytes) => self.bytes_at(addr, len) == Some(bytes@) && bytes@.len() == len,
                Err(e) => self.bytes_at(addr, len) is None && e == MemoryError::ReadFailed(addr),
            },
    ;

    /// Reads a `u32`. At address 0, which stands for an absent value, this
    /// and the other reads of one value give 0 and read nothing.
    fn read_u32(&self, addr: usize) -> (r: Result<u32, MemoryError>)
        ensures
            r == u32_value(addr, self.bytes_at(addr, 4)),
    {
        if addr == 0 {
            return Ok(0);
        }
        let bytes = self.read_raw(addr, 4)?;
        Ok(decode_u32(bytes.as_slice()))
    }

    /// Reads an `i8`.
    fn read_i8(&self, addr: usize) -> (r: Result<i8, MemoryError>)
        ensures
            r == i8_value(addr, self.bytes_at(addr, 1)),
    {
        if addr == 0 {
            return Ok(0);
        }
        let bytes = self.read_raw(addr, 1)?;
        Ok(bytes[0] as i8)
    }

    /// Reads an `i16`.
    fn read_i16(&self, addr: usize) -> (r: Result<i16, MemoryError>)
        ensures
            r == i16_value(addr, self.bytes_at(addr, 2)),
    {
        if addr == 0 {
            return Ok(0);
        }
        let bytes = self.read_raw(addr, 2)?;
        Ok(decode_u16(bytes.as_slice()) as i16)
    }

    /// Reads an `i32`.
    fn read_i32(&self, addr: usize) -> (r: Result<i32, MemoryError>)
        ensures
            r == i32_value(addr, self.bytes_at(addr, 4)),
    {
        let v = self.read_u32(addr)?;
        Ok(v as i32)
    }

    /// Reads the bit pattern of a single-precision number.
    fn read_f32_bits(&self, addr: usize) -> (r: Result<u32, MemoryError>)
        ensures
            r == u32_value(addr, self.bytes_at(addr, 4)),
    {
        self.read_u32(addr)
    }

    /// Reads the bit pattern of a double-precision number.
    fn read_f64_bits(&self, addr: usize) -> (r: Result<u64, MemoryError>)
        ensures
            r == u64_value(addr, self.bytes_at(addr, 8)),
    {
        if addr == 0 {
            return Ok(0);
        }
        let bytes = self.read_raw(addr, 8)?;
        Ok(decode_u64(bytes.as_slice()))
    }

    /// Reads the pointer stored at `addr`; a null pointer is a failure.
    fn read_ptr(&self, addr: usize) -> (r: Result<usize, MemoryError>)
        ensures
            r == ptr_value(addr, self.bytes_at(addr, 4)),
    {
        let ptr = self.read_u32(addr)?;
        if ptr == 0 {
            return Err(MemoryError::NullPointer);
        }
        Ok(ptr as usize)
    }

    /// Reads the array at `addr`: an element count at `addr + 4`, then the
    /// elements from `addr + 8` on, fetched in one read.
    fn read_array<T: FromBytes>(&self, addr: usize) -> (r: Result<Vec<T>, MemoryError>)
        ensures
            ({
                let count = u32_value(addr.wrapping_add(4), self.bytes_at(addr.wrapping_add(4), 4));
                let payload = self.bytes_at(addr.wrapping_add(8), payload_len::<T>(count) as usize);
                match array_value::<T>(addr, count, payload) {
                    Ok(elements) => r matches Ok(v) && v@ == elements,
                    Err(e) => r matches Err(x) && x == e,
                }
            }),
    {
        if addr == 0 {
            return Ok(Vec::new());
        }
        let count = self.read_u32(addr.wrapping_add(4))? as usize;
        if count == 0 {
            return Ok(Vec::new());
        }
        let size = core::mem::size_of::<T>();
        let total = match count.checked_mul(size) {
            Some(t) => t,
            None => { return Err(MemoryError::ReadFailed(addr.wrapping_add(8))); },
        };
        let buf = self.read_raw(addr.wrapping_add(8), total)?;
        let mut out: Vec<T> = Vec::new();
        let mut i: usize = 0;
        while i < count
            invariant
                i <= count,
                size == vstd::layout::size_of::<T>(),
                total == count * size,
                buf@.len() == total,
                out@.len() == i,
                forall|k: int| 0 <= k < i ==> out@[k] == T::decoded(
                    #[trigger] buf@.subrange(k * size, (k + 1) * size),
                ),
            decreases count - i,
        {
            assert(i * size + size <= count * size) by (nonlinear_arith)
                requires
                    i < count,
            ;
            assert((i + 1) * size == i * size + size) by (nonlinear_arith);
            let element = T::from_bytes(slice_subrange(buf.as_slice(), i * size, i * size + size));
            out.push(element);
            i += 1;
        }
        assert(out@ =~= decoded_elements::<T>(buf@, count as nat));
        Ok(out)
    }

    /// Reads the string at `addr`: an array of UTF-16 code units.
    fn read_str(&self, addr: usize) -> (r: Result<String, MemoryError>)
        ensures
            ({
                let count = u32_value(addr.wrapping_add(4), self.bytes_at(addr.wrapping_add(4), 4));
                let payload = self.bytes_at(
                    addr.wrapping_add(8),
                    payload_len::<u16>(count) as usize,
                );
                match str_value(array_value::<u16>(addr, count, payload)) {
                    Ok(chars) => r matches Ok(text) && text@ == chars,
                    Err(e) => r matches Err(x) && x == e,
                }
            }),
    {
        if addr == 0 {
            return Ok(String::new());
        }
        let units = self.read_array::<u16>(addr)?;
        match decode_utf16(units.as_slice()) {
            Some(text) => Ok(text),
            None => Err(MemoryError::StringDecodeFailed),
        }
    }
}

/// What `read_u32` yields on `m` at `addr`.
pub open spec fn u32_at<R: MemoryReader>(m: &R, addr: usize) -> Result<u32, MemoryError> {
    u32_value(addr, m.bytes_at(addr, 4))
}

/// What `read_i32` yields on `m` at `addr`.
pub open spec fn i32_at<R: MemoryReader>(m: &R, addr: usize) -> Result<i32, MemoryError> {
    i32_value(addr, m.bytes_at(addr, 4))
}

/// What `read_i16` yields on `m` at `addr`.
pub open spec fn i16_at<R: MemoryReader>(m: &R, addr: usize) -> Result<i16, MemoryError> {
    i16_value(addr, m.bytes_at(addr, 2))
}

/// What `read_i8` yields on `m` at `addr`.
pub open spec fn i8_at<R: MemoryReader>(m: &R, addr: usize) -> Result<i8, MemoryError> {
    i8_value(addr, m.bytes_at(addr, 1))
}

/// What `read_f64_bits` yields on `m` at `addr`.
pub open spec fn u64_at<R: MemoryReader>(m: &R, addr: usize) -> Result<u64, MemoryError> {
    u64_value(addr, m.bytes_at(addr, 8))
}

/// What `read_ptr` yields on `m` at `addr`.
pub open spec fn ptr_at<R: MemoryReader>(m: &R, addr: usize) -> Result<usize, MemoryError> {
    ptr_value(addr, m.bytes_at(addr, 4))
}

/// The elements that `read_array` yields on `m` at `addr`.
pub open spec fn array_at<R: MemoryReader, T: FromBytes>(m: &R, addr: usize) -> Result<
    Seq<T>,
    MemoryError,
> {
    let count = u32_at(m, addr.wrapping_add(4));
    array_value::<T>(
        addr,
        count,
        m.bytes_at(addr.wrapping_add(8), payload_len::<T>(count) as usize),
    )
}

/// Address 0 holds the empty array, whatever the memory holds.
pub proof fn lemma_array_at_null<R: MemoryReader, T: FromBytes>(m: &R)
    ensures
        array_at::<R, T>(m, 0) == Ok::<Seq<T>, MemoryError>(Seq::empty()),
{
}

/// An array with a stored count of 0 is empty, and its elements are not read.
pub proof fn lemma_array_at_empty<R: MemoryReader, T: FromBytes>(m: &R, addr: usize)
    requires
        addr != 0,
        u32_at(m, addr.wrapping_add(4)) == Ok::<u32, MemoryError>(0),
    ensures
        array_at::<R, T>(m, addr) == Ok::<Seq<T>, MemoryError>(Seq::empty()),
{
}

/// The elements of an array with a stored count of `n` are the `n` times the
/// element size bytes from `addr + 8` on, read at once: the array is what
/// they decode to, or the failure of that one read.
pub proof fn lemma_array_at_reads_payload<R: MemoryReader, T: FromBytes>(
    m: &R,
    addr: usize,
    n: u32,
)
    requires
        addr != 0,
        n != 0,
        u32_at(m, addr.wrapping_add(4)) == Ok::<u32, MemoryError>(n),
        n * vstd::layout::size_of::<T>() <= usize::MAX,
    ensures
        array_at::<R, T>(m, addr) == match m.bytes_at(
            addr.wrapping_add(8),
            (n * vstd::layout::size_of::<T>()) as usize,
        ) {
            Some(bytes) => Ok::<Seq<T>, MemoryError>(decoded_elements::<T>(bytes, n as nat)),
            None => Err::<Seq<T>, MemoryError>(MemoryError::ReadFailed(addr.wrapping_add(8))),
        },
{
}

/// The text that `read_str` yields on `m` at `addr`.
pub open spec fn str_at<R: MemoryReader>(m: &R, addr: usize) -> Result<Seq<char>, MemoryError> {
    str_value(array_at::<R, u16>(m, addr))
}

} // verus!
