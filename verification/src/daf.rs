//! The decoded file record of a Double-precision Array File and its derived
//! layout constants.

use vstd::prelude::*;
use vstd::slice::slice_subrange;

use crate::byteorder::ByteOrder;
use crate::byteorder::spec_i32_from_bytes;
use crate::byteorder::spec_resolve;
use crate::DecodeError;

verus! {

/// Copy the `N`-byte window of `bytes` starting at `off` into a fresh array.
fn copy_window<const N: usize>(bytes: &[u8], off: usize) -> (r: [u8; N])
    requires
        off + N <= bytes@.len(),
    ensures
        r@ == bytes@.subrange(off as int, off + N),
{
    let len: usize = bytes.len();
    let mut out: [u8; N] = [0u8; N];
    let mut i: usize = 0;
    while i < N
        invariant
            i <= N,
            len == bytes@.len(),
            off + N <= len,
            forall|j: int| 0 <= j < i ==> out@[j] == bytes@[off + j],
        decreases N - i,
    {
        out[i] = bytes[off + i];
        i = i + 1;
    }
    proof {
        assert(out@ =~= bytes@.subrange(off as int, off + N));
    }
    out
}

/// The bounds on the summary component counts under which the derived layout
/// constants are well defined: a summary must fit in a 125-double-word
/// summary record, counting each pair of integer components (rounded up) as
/// one double-wide slot.
pub open spec fn valid_counts(nd: int, ni: int) -> bool {
    &&& nd + (ni + 1) / 2 <= 125
    &&& 0 <= nd <= 124
    &&& 2 <= ni <= 250
}

/// Validate the number of double and integer components in an array summary.
pub fn valid_nd_ni(nd: i32, ni: i32) -> (r: bool)
    ensures
        r == valid_counts(nd as int, ni as int),
{
    if 0 <= nd && nd <= 124 && 2 <= ni && ni <= 250 {
        nd + (ni + 1) / 2 <= 125
    } else {
        false
    }
}

/// The size, in double-word slots, of one array summary holding `nd` double
/// and `ni` integer components: pairs of integer components share a slot,
/// with an odd count rounded half up.
pub open spec fn spec_single_summary_size(nd: int, ni: int) -> int {
    nd + (ni + 1) / 2
}

/// The decoded file record (header) of a Double-precision Array File.
#[derive(Debug, Clone, Copy)]
pub struct FileRecord {
    /// An identification word (`DAF/xxxx`).
    pub id_word: [u8; 8],

    /// The number of double precision components in each array summary.
    pub n_double: i32,

    /// The number of integer components in each array summary.
    pub n_integer: i32,

    /// The internal name or description of the array file.
    pub description: [u8; 60],

    /// The record number of the initial summary record in the file.
    pub forward: i32,

    /// The record number of the final summary record in the file.
    pub backward: i32,

    /// The first free address in the file: the address at which the first
    /// element of the next array added to the file will be stored.
    pub first_free: i32,

    /// The byte ordering of the numeric binary format of the file.
    pub byte_ordering: ByteOrder,

    /// FTP validation string, retained opaquely byte-for-byte.
    pub ftp_string: [u8; 28],
}

impl FileRecord {
    /// Assemble a file record from its fields.
    pub fn new(
        id_word: [u8; 8],
        n_double: i32,
        n_integer: i32,
        description: [u8; 60],
        forward: i32,
        backward: i32,
        first_free: i32,
        byte_ordering: ByteOrder,
        ftp_string: [u8; 28],
    ) -> (r: FileRecord)
        ensures
            r.id_word == id_word,
            r.n_double == n_double,
            r.n_integer == n_integer,
            r.description == description,
            r.forward == forward,
            r.backward == backward,
            r.first_free == first_free,
            r.byte_ordering == byte_ordering,
            r.ftp_string == ftp_string,
    {
        FileRecord {
            id_word,
            n_double,
            n_integer,
            description,
            forward,
            backward,
            first_free,
            byte_ordering,
            ftp_string,
        }
    }

    /// Size of a single summary within a summary record in the DAF file.
    ///
    /// For an even integer count this is `n_double + n_integer / 2`; for an
    /// odd count the division rounds half up.
    pub fn single_summary_size(&self) -> (r: i32)
        requires
            valid_counts(self.n_double as int, self.n_integer as int),
        ensures
            r == spec_single_summary_size(self.n_double as int, self.n_integer as int),
            1 <= r <= 125,
            self.n_integer % 2 == 0 ==> r == self.n_double + self.n_integer / 2,
            self.n_integer % 2 == 1 ==> r == self.n_double + (self.n_integer + 1) / 2,
    {
        self.n_double + (self.n_integer + 1) / 2
    }

    /// Number of characters in a single name in a name record in the DAF
    /// file: eight per double-word slot of the summary.
    pub fn n_character(&self) -> (r: i32)
        requires
            valid_counts(self.n_double as int, self.n_integer as int),
        ensures
            r == 8 * spec_single_summary_size(self.n_double as int, self.n_integer as int),
    {
        8 * self.single_summary_size()
    }

    /// Number of summaries within a single summary record: how many summaries
    /// of this record's size fit in the 125 double words of one record.
    pub fn summaries_per_record(&self) -> (r: i32)
        requires
            valid_counts(self.n_double as int, self.n_integer as int),
        ensures
            r == 125int / spec_single_summary_size(self.n_double as int, self.n_integer as int),
            1 <= r <= 125,
    {
        let size = self.single_summary_size();
        proof {
            assert(1 <= 125int / (size as int) <= 125) by (nonlinear_arith)
                requires
                    1 <= size <= 125,
            ;
        }
        125 / size
    }

    /// Decode a file record from the first 1024 bytes of a buffer.
    ///
    /// Fails with `BufferTooShort` when fewer than 1024 bytes are supplied
    /// and with `UnknownFormatMarker` when the 8-byte marker window matches
    /// neither recognized byte-ordering string; otherwise every field is
    /// copied or decoded from its fixed window of the buffer, and bytes
    /// beyond the first 1024 are ignored.
    pub fn try_from_bytes(bytes: &[u8]) -> (r: Result<FileRecord, DecodeError>)
        ensures
            bytes@.len() < 1024 ==> r == Err::<FileRecord, DecodeError>(DecodeError::BufferTooShort),
            bytes@.len() >= 1024 ==> match spec_resolve(bytes@.subrange(88, 96)) {
                Ok(o) => {
                    &&& r is Ok
                    &&& r->Ok_0.byte_ordering == o
                    &&& r->Ok_0.id_word@ == bytes@.subrange(0, 8)
                    &&& r->Ok_0.n_double as int == spec_i32_from_bytes(o, bytes@.subrange(8, 12))
                    &&& r->Ok_0.n_integer as int == spec_i32_from_bytes(o, bytes@.subrange(12, 16))
                    &&& r->Ok_0.description@ == bytes@.subrange(16, 76)
                    &&& r->Ok_0.forward as int == spec_i32_from_bytes(o, bytes@.subrange(76, 80))
                    &&& r->Ok_0.backward as int == spec_i32_from_bytes(o, bytes@.subrange(80, 84))
                    &&& r->Ok_0.first_free as int == spec_i32_from_bytes(o, bytes@.subrange(84, 88))
                    &&& r->Ok_0.ftp_string@ == bytes@.subrange(699, 727)
                },
                Err(e) => r == Err::<FileRecord, DecodeError>(e),
            },
    {
        if bytes.len() < 1024 {
            return Err(DecodeError::BufferTooShort);
        }

        let id_word: [u8; 8] = copy_window(bytes, 0);
        let description: [u8; 60] = copy_window(bytes, 16);
        let fmt_string: [u8; 8] = copy_window(bytes, 88);
        let ftp_string: [u8; 28] = copy_window(bytes, 699);

        let byte_ordering = match ByteOrder::resolve(&fmt_string) {
            Ok(o) => o,
            Err(e) => {
                return Err(e);
            },
        };

        let n_double = byte_ordering.i32_from_bytes(slice_subrange(bytes, 8, 12));
        let n_integer = byte_ordering.i32_from_bytes(slice_subrange(bytes, 12, 16));
        let forward = byte_ordering.i32_from_bytes(slice_subrange(bytes, 76, 80));
        let backward = byte_ordering.i32_from_bytes(slice_subrange(bytes, 80, 84));
        let first_free = byte_ordering.i32_from_bytes(slice_subrange(bytes, 84, 88));

        Ok(
            FileRecord {
                id_word,
                n_double,
                n_integer,
                description,
                forward,
                backward,
                first_free,
                byte_ordering,
                ftp_string,
            },
        )
    }
}

/// The decoded header depends only on the first 1024 bytes of the buffer:
/// two buffers that agree on that prefix present the same marker resolution
/// and byte-for-byte identical field windows, so, by the contract of
/// `FileRecord::try_from_bytes`, decoding them gives the same outcome,
/// whatever trails after byte 1023.
pub proof fn lemma_extra_bytes_ignored(b1: Seq<u8>, b2: Seq<u8>)
    requires
        b1.len() >= 1024,
        b2.len() >= 1024,
        b1.subrange(0, 1024) == b2.subrange(0, 1024),
    ensures
        spec_resolve(b1.subrange(88, 96)) == spec_resolve(b2.subrange(88, 96)),
        b1.subrange(0, 8) == b2.subrange(0, 8),
        b1.subrange(8, 12) == b2.subrange(8, 12),
        b1.subrange(12, 16) == b2.subrange(12, 16),
        b1.subrange(16, 76) == b2.subrange(16, 76),
        b1.subrange(76, 80) == b2.subrange(76, 80),
        b1.subrange(80, 84) == b2.subrange(80, 84),
        b1.subrange(84, 88) == b2.subrange(84, 88),
        b1.subrange(88, 96) == b2.subrange(88, 96),
        b1.subrange(699, 727) == b2.subrange(699, 727),
{
    assert forall|i: int| 0 <= i < 1024 implies b1[i] == b2[i] by {
        assert(b1.subrange(0, 1024)[i] == b1[i]);
        assert(b2.subrange(0, 1024)[i] == b2[i]);
    }
    assert(b1.subrange(0, 8) =~= b2.subrange(0, 8));
    assert(b1.subrange(8, 12) =~= b2.subrange(8, 12));
    assert(b1.subrange(12, 16) =~= b2.subrange(12, 16));
    assert(b1.subrange(16, 76) =~= b2.subrange(16, 76));
    assert(b1.subrange(76, 80) =~= b2.subrange(76, 80));
    assert(b1.subrange(80, 84) =~= b2.subrange(80, 84));
    assert(b1.subrange(84, 88) =~= b2.subrange(84, 88));
    assert(b1.subrange(88, 96) =~= b2.subrange(88, 96));
    assert(b1.subrange(699, 727) =~= b2.subrange(699, 727));
}

} // verus!
