//! Codec for a save-file container: a 12-byte header (two little-endian
//! `u32` sizes, a 3-byte magic tag, a one-byte compression mode) followed
//! by a zlib-compressed body, compressed either once or twice.
use vstd::prelude::*;

pub mod zlib;

use crate::zlib::zlib_deflate;
use crate::zlib::zlib_inflate;

verus! {

/// The two legal compression modes of a container: one zlib pass or two.
#[derive(Clone, Copy, Debug, PartialEq, Eq, Structural)]
pub enum CompressMode {
    Single,
    Double,
}

impl CompressMode {
    /// The ASCII byte that stores this mode in the header: `'1'` or `'2'`.
    pub open spec fn spec_byte(self) -> u8 {
        match self {
            CompressMode::Single => 49,
            CompressMode::Double => 50,
        }
    }

    pub fn byte(self) -> (r: u8)
        ensures
            r == self.spec_byte(),
    {
        match self {
            CompressMode::Single => 49,
            CompressMode::Double => 50,
        }
    }

    /// The mode stored as `b`, or `None` for any byte other than `'1'` / `'2'`.
    pub fn from_byte(b: u8) -> (r: Option<CompressMode>)
        ensures
            match r {
                Some(m) => m.spec_byte() == b,
                None => b != 49 && b != 50,
            },
    {
        if b == 49 {
            Some(CompressMode::Single)
        } else if b == 50 {
            Some(CompressMode::Double)
        } else {
            None
        }
    }
}

/// Everything that can go wrong while decoding or recoding a container.
#[derive(Clone, Copy, Debug, PartialEq, Eq, Structural)]
pub enum PalSaveError {
    /// The input buffer is shorter than the 12-byte header.
    TooShort,
    /// The 3-byte tag at offset 8 is not `P`,`l`,`Z`.
    BadMagic,
    /// The mode byte at offset 11 is neither `'1'` nor `'2'`.
    UnsupportedMode,
    /// A declared size field disagrees with an observed buffer length.
    LengthMismatch,
    /// A zlib stream is malformed, or its output cannot be represented.
    CompressionError,
}

/// The fixed 3-byte magic tag: the bytes `P`, `l`, `Z`.
pub open spec fn magic_seq() -> Seq<u8> {
    seq![80u8, 108u8, 90u8]
}

/// The mathematical model of a container: its header fields and body bytes.
#[verifier::ext_equal]
pub ghost struct ContainerView {
    /// Size of the fully decompressed payload.
    pub decompressed_len: u32,
    /// For mode `'1'`: the length of the compressed body. For mode `'2'`:
    /// the length of the payload after exactly one decompression pass.
    pub compressed_len: u32,
    /// The 3-byte magic tag.
    pub magic: Seq<u8>,
    /// How many compression passes the body carries.
    pub mode: CompressMode,
    /// The compressed body as stored on disk.
    pub body: Seq<u8>,
}

impl ContainerView {
    /// The container invariant: the magic tag is the fixed one, and in
    /// single-compression mode the body length matches `compressed_len`.
    pub open spec fn wf(self) -> bool {
        &&& self.magic == magic_seq()
        &&& self.mode == CompressMode::Single ==> self.body.len() == self.compressed_len
    }
}

/// The exact byte encoding of a container: both sizes little-endian, the
/// magic tag, the mode byte, then the body.
pub open spec fn encode_spec(v: ContainerView) -> Seq<u8> {
    vstd::bytes::spec_u32_to_le_bytes(v.decompressed_len)
        + vstd::bytes::spec_u32_to_le_bytes(v.compressed_len) + v.magic + seq![v.mode.spec_byte()]
        + v.body
}

/// What decoding a byte buffer yields: the parsed container, or the first
/// failing structural check.
pub open spec fn decode_spec(data: Seq<u8>) -> Result<ContainerView, PalSaveError> {
    if data.len() < 12 {
        Err(PalSaveError::TooShort)
    } else if !(data[8] == 80 && data[9] == 108 && data[10] == 90) {
        Err(PalSaveError::BadMagic)
    } else if data[11] != 49 && data[11] != 50 {
        Err(PalSaveError::UnsupportedMode)
    } else if data[11] == 49 && data.len() - 12 != vstd::bytes::spec_u32_from_le_bytes(
        data.subrange(4, 8),
    ) {
        Err(PalSaveError::LengthMismatch)
    } else {
        Ok(
            ContainerView {
                decompressed_len: vstd::bytes::spec_u32_from_le_bytes(data.subrange(0, 4)),
                compressed_len: vstd::bytes::spec_u32_from_le_bytes(data.subrange(4, 8)),
                magic: magic_seq(),
                mode: if data[11] == 49 {
                    CompressMode::Single
                } else {
                    CompressMode::Double
                },
                body: data.subrange(12, data.len() as int),
            },
        )
    }
}

/// What decompressing a container's body yields: one zlib pass, the
/// intermediate length check and second pass in double mode, and the final
/// length check against `decompressed_len`.
pub open spec fn payload_spec(v: ContainerView) -> Result<Seq<u8>, PalSaveError> {
    match zlib_inflate(v.body) {
        Option::None => Err(PalSaveError::CompressionError),
        Option::Some(stage1) => match v.mode {
            CompressMode::Single => if stage1.len() == v.decompressed_len {
                Ok(stage1)
            } else {
                Err(PalSaveError::LengthMismatch)
            },
            CompressMode::Double => if stage1.len() != v.compressed_len {
                Err(PalSaveError::LengthMismatch)
            } else {
                match zlib_inflate(stage1) {
                    Option::None => Err(PalSaveError::CompressionError),
                    Option::Some(full) => if full.len() == v.decompressed_len {
                        Ok(full)
                    } else {
                        Err(PalSaveError::LengthMismatch)
                    },
                }
            },
        },
    }
}

/// The container that replacing the whole payload with `payload` leaves
/// behind: both sizes recomputed, the body recompressed once or twice
/// according to the unchanged mode, magic untouched.
pub open spec fn updated_view(v: ContainerView, payload: Seq<u8>) -> ContainerView {
    ContainerView {
        decompressed_len: payload.len() as u32,
        compressed_len: zlib_deflate(payload).len() as u32,
        magic: v.magic,
        mode: v.mode,
        body: if v.mode == CompressMode::Double {
            zlib_deflate(zlib_deflate(payload))
        } else {
            zlib_deflate(payload)
        },
    }
}

/// The provisional container that payload construction starts from, before
/// the payload is compressed in: empty body, zeroed sizes.
pub open spec fn initial_view(mode: CompressMode) -> ContainerView {
    ContainerView {
        decompressed_len: 0,
        compressed_len: 0,
        magic: magic_seq(),
        mode: mode,
        body: Seq::empty(),
    }
}

/// A parsed save-file container. The fields stay consistent with each other:
/// they are only ever set together, by decoding or by whole-payload
/// replacement.
pub struct PalSave {
    decompressed_len: u32,
    compressed_len: u32,
    magic_bytes: [u8; 3],
    mode: CompressMode,
    body: Vec<u8>,
}

impl View for PalSave {
    type V = ContainerView;

    closed spec fn view(&self) -> ContainerView {
        ContainerView {
            decompressed_len: self.decompressed_len,
            compressed_len: self.compressed_len,
            magic: self.magic_bytes@,
            mode: self.mode,
            body: self.body@,
        }
    }
}

impl PalSave {
    /// Decodes a container from raw file bytes: header fields, magic and
    /// mode validation, and (in single mode) the body-length check. No
    /// decompression happens here.
    pub fn from_bytes(data: &[u8]) -> (r: Result<PalSave, PalSaveError>)
        ensures
            match r {
                Ok(c) => decode_spec(data@) == Ok::<ContainerView, PalSaveError>(c@) && c@.wf(),
                Err(e) => decode_spec(data@) == Err::<ContainerView, PalSaveError>(e),
            },
    {
        if data.len() < 12 {
            return Err(PalSaveError::TooShort);
        }
        if !(data[8] == 80 && data[9] == 108 && data[10] == 90) {
            return Err(PalSaveError::BadMagic);
        }
        let mode = match CompressMode::from_byte(data[11]) {
            Some(m) => m,
            None => {
                return Err(PalSaveError::UnsupportedMode);
            },
        };
        let decompressed_len = vstd::bytes::u32_from_le_bytes(vstd::slice::slice_subrange(
            data,
            0,
            4,
        ));
        let compressed_len = vstd::bytes::u32_from_le_bytes(vstd::slice::slice_subrange(
            data,
            4,
            8,
        ));
        if matches!(mode, CompressMode::Single) && data.len() - 12 != compressed_len as usize {
            return Err(PalSaveError::LengthMismatch);
        }
        let body = vstd::slice::slice_to_vec(vstd::slice::slice_subrange(data, 12, data.len()));
        let magic_bytes: [u8; 3] = [data[8], data[9], data[10]];
        let c = PalSave { decompressed_len, compressed_len, magic_bytes, mode, body };
        proof {
            assert(c@.magic =~= magic_seq());
            assert(c@ =~= decode_spec(data@)->Ok_0);
        }
        Ok(c)
    }

    /// Decompresses the body fully: one zlib pass, then in double mode the
    /// intermediate length check and a second pass; the final length must
    /// match `decompressed_len`. Does not mutate the container.
    pub fn get_decompressed_body(&self) -> (r: Result<Vec<u8>, PalSaveError>)
        ensures
            match r {
                Ok(v) => payload_spec(self@) == Ok::<Seq<u8>, PalSaveError>(v@),
                Err(e) => payload_spec(self@) == Err::<Seq<u8>, PalSaveError>(e),
            },
    {
        let stage1 = match crate::zlib::zlib_decompress(&self.body) {
            Some(v) => v,
            None => {
                return Err(PalSaveError::CompressionError);
            },
        };
        let full = match self.mode {
            CompressMode::Single => stage1,
            CompressMode::Double => {
                if stage1.len() != self.compressed_len as usize {
                    return Err(PalSaveError::LengthMismatch);
                }
                match crate::zlib::zlib_decompress(&stage1) {
                    Some(v) => v,
                    None => {
                        return Err(PalSaveError::CompressionError);
                    },
                }
            },
        };
        if full.len() != self.decompressed_len as usize {
            return Err(PalSaveError::LengthMismatch);
        }
        Ok(full)
    }

    /// Replaces the whole payload: recomputes `decompressed_len`, compresses
    /// `modified_body` once to refill `compressed_len`, compresses a second
    /// time in double mode, and overwrites the body. Magic and mode are
    /// untouched. It fails, leaving the container unchanged, exactly when
    /// the compressed stream is too long for the header's 32-bit size field.
    ///
    /// A successful update round-trips: decompressing the new body yields
    /// exactly `modified_body` again.
    pub fn update(&mut self, modified_body: &Vec<u8>) -> (r: Result<(), PalSaveError>)
        requires
            modified_body@.len() <= u32::MAX,
        ensures
            match r {
                Ok(()) => {
                    &&& zlib_deflate(modified_body@).len() <= u32::MAX
                    &&& final(self)@ == updated_view(old(self)@, modified_body@)
                    &&& payload_spec(final(self)@) == Ok::<Seq<u8>, PalSaveError>(modified_body@)
                },
                Err(e) => {
                    &&& e == PalSaveError::CompressionError
                    &&& zlib_deflate(modified_body@).len() > u32::MAX
                    &&& final(self)@ == old(self)@
                },
            },
    {
        let stage1 = crate::zlib::zlib_compress(modified_body);
        if stage1.len() > u32::MAX as usize {
            return Err(PalSaveError::CompressionError);
        }
        let compressed_len = stage1.len() as u32;
        let body = match self.mode {
            CompressMode::Single => stage1,
            CompressMode::Double => crate::zlib::zlib_compress(&stage1),
        };
        self.decompressed_len = modified_body.len() as u32;
        self.compressed_len = compressed_len;
        self.body = body;
        proof {
            assert(self@ =~= updated_view(old(self)@, modified_body@));
        }
        Ok(())
    }

    /// Serializes the container: exactly `12 + body.len()` bytes, both sizes
    /// little-endian, then magic, mode byte and body.
    pub fn to_bytes(&self) -> (r: Vec<u8>)
        ensures
            r@ == encode_spec(self@),
            r@.len() == 12 + self@.body.len(),
    {
        proof {
            vstd::bytes::lemma_auto_spec_u32_to_from_le_bytes();
        }
        let mut out = vstd::bytes::u32_to_le_bytes(self.decompressed_len);
        let mut second = vstd::bytes::u32_to_le_bytes(self.compressed_len);
        out.append(&mut second);
        out.push(self.magic_bytes[0]);
        out.push(self.magic_bytes[1]);
        out.push(self.magic_bytes[2]);
        out.push(self.mode.byte());
        let mut i: usize = 0;
        while i < self.body.len()
            invariant
                i <= self.body@.len(),
                out@ == encode_spec(self@).subrange(0, 12 + i as int),
                encode_spec(self@).len() == 12 + self@.body.len(),
            decreases self.body@.len() - i,
        {
            out.push(self.body[i]);
            proof {
                assert(out@ =~= encode_spec(self@).subrange(0, 12 + i + 1));
            }
            i = i + 1;
        }
        proof {
            assert(out@ =~= encode_spec(self@));
        }
        out
    }

    /// Builds a brand-new container around a raw decompressed payload: fixed
    /// magic, the chosen mode, and the payload compressed in by a whole-payload
    /// replacement. The sole construction path from plaintext. It fails
    /// exactly when the compressed stream is too long for the header's
    /// 32-bit size field.
    ///
    /// A successful construction round-trips: decompressing the container
    /// yields exactly `data` again.
    pub fn from_decompressed_bytes(data: &Vec<u8>, mode: CompressMode) -> (r: Result<
        PalSave,
        PalSaveError,
    >)
        requires
            data@.len() <= u32::MAX,
        ensures
            match r {
                Ok(c) => {
                    &&& zlib_deflate(data@).len() <= u32::MAX
                    &&& c@ == updated_view(initial_view(mode), data@)
                    &&& payload_spec(c@) == Ok::<Seq<u8>, PalSaveError>(data@)
                    &&& c@.wf()
                },
                Err(e) => {
                    &&& e == PalSaveError::CompressionError
                    &&& zlib_deflate(data@).len() > u32::MAX
                },
            },
    {
        let mut c = PalSave {
            decompressed_len: data.len() as u32,
            compressed_len: 0,
            magic_bytes: [80, 108, 90],
            mode,
            body: Vec::new(),
        };
        proof {
            assert(c@.magic =~= magic_seq());
            assert(c@.body =~= initial_view(mode).body);
        }
        match c.update(data) {
            Ok(()) => {
                proof {
                    assert(c@ =~= updated_view(initial_view(mode), data@));
                }
                Ok(c)
            },
            Err(e) => Err(e),
        }
    }

    /// The declared size of the fully decompressed payload.
    pub fn decompressed_len(&self) -> (r: u32)
        ensures
            r == self@.decompressed_len,
    {
        self.decompressed_len
    }

    /// The declared intermediate size: the compressed body's length in
    /// single mode, the once-decompressed length in double mode.
    pub fn compressed_len(&self) -> (r: u32)
        ensures
            r == self@.compressed_len,
    {
        self.compressed_len
    }

    /// How many compression passes the body carries.
    pub fn compress_mode(&self) -> (r: CompressMode)
        ensures
            r == self@.mode,
    {
        self.mode
    }

    /// The compressed body as stored on disk.
    pub fn body(&self) -> (r: &Vec<u8>)
        ensures
            r@ == self@.body,
    {
        &self.body
    }
}

/// Law: decoding the encoding of any well-formed container yields a
/// container with exactly the same field values, body included.
pub proof fn lemma_encode_decode_inverse(v: ContainerView)
    requires
        v.wf(),
    ensures
        decode_spec(encode_spec(v)) == Ok::<ContainerView, PalSaveError>(v),
{
    vstd::bytes::lemma_auto_spec_u32_to_from_le_bytes();
    let e = encode_spec(v);
    assert(e.len() == 12 + v.body.len());
    assert(e.subrange(0, 4) =~= vstd::bytes::spec_u32_to_le_bytes(v.decompressed_len));
    assert(e.subrange(4, 8) =~= vstd::bytes::spec_u32_to_le_bytes(v.compressed_len));
    assert(e[8] == 80 && e[9] == 108 && e[10] == 90);
    assert(e[11] == v.mode.spec_byte());
    assert(e.subrange(12, e.len() as int) =~= v.body);
    assert(decode_spec(e)->Ok_0 =~= v);
}

/// Law: any buffer shorter than the 12-byte header is rejected as too short.
pub proof fn lemma_decode_rejects_short(data: Seq<u8>)
    requires
        data.len() < 12,
    ensures
        decode_spec(data) == Err::<ContainerView, PalSaveError>(PalSaveError::TooShort),
{
}

/// Law: whatever the rest of the header holds, a buffer whose bytes 8 to 10
/// differ from the magic tag is rejected as bad magic.
pub proof fn lemma_decode_rejects_bad_magic(data: Seq<u8>)
    requires
        data.len() >= 12,
        data[8] != 80 || data[9] != 108 || data[10] != 90,
    ensures
        decode_spec(data) == Err::<ContainerView, PalSaveError>(PalSaveError::BadMagic),
{
}

/// Law: a buffer with the right magic but a mode byte outside `'1'` / `'2'`
/// is rejected as an unsupported mode.
pub proof fn lemma_decode_rejects_bad_mode(data: Seq<u8>)
    requires
        data.len() >= 12,
        data[8] == 80 && data[9] == 108 && data[10] == 90,
        data[11] != 49 && data[11] != 50,
    ensures
        decode_spec(data) == Err::<ContainerView, PalSaveError>(PalSaveError::UnsupportedMode),
{
}

/// Law: a single-mode buffer whose body length disagrees with the declared
/// `compressed_len` is rejected as a length mismatch.
pub proof fn lemma_decode_rejects_length_mismatch(data: Seq<u8>)
    requires
        data.len() >= 12,
        data[8] == 80 && data[9] == 108 && data[10] == 90,
        data[11] == 49,
        data.len() - 12 != vstd::bytes::spec_u32_from_le_bytes(data.subrange(4, 8)),
    ensures
        decode_spec(data) == Err::<ContainerView, PalSaveError>(PalSaveError::LengthMismatch),
{
}

/// Law: replacing the payload is idempotent — a second replacement with the
/// same payload leaves every field exactly as the first did.
pub proof fn lemma_update_idempotent(v: ContainerView, payload: Seq<u8>)
    ensures
        updated_view(updated_view(v, payload), payload) == updated_view(v, payload),
{
    assert(updated_view(updated_view(v, payload), payload) =~= updated_view(v, payload));
}

} // verus!
