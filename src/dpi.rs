use vstd::prelude::*;

verus! {

/// The CRC-32 (ISO-HDLC polynomial) checksum of a byte sequence.
pub uninterp spec fn crc32_iso_hdlc(bytes: Seq<u8>) -> u32;

/// Relies on `crc::Crc::<u32>::checksum` with the `CRC_32_ISO_HDLC` algorithm:
/// the result is the checksum of the given bytes and nothing else.
#[verifier::external_body]
fn crc32(bytes: &Vec<u8>) -> (r: u32)
    ensures
        r == crc32_iso_hdlc(bytes@),
{
    crc::Crc::<u32>::new(&crc::CRC_32_ISO_HDLC).checksum(bytes.as_slice())
}

/// The raster formats whose encoded bytes carry resolution metadata.
#[derive(Clone, Copy, Debug, PartialEq, Eq, Structural)]
pub enum RasterFormat {
    Png,
    Jpeg,
}

/// Length of the PNG signature followed by the complete IHDR chunk.
pub const PNG_HEADER_LEN: usize = 33;

/// Offset of the density-unit byte inside a JFIF APP0 segment.
pub const JFIF_DENSITY_AT: usize = 13;

/// Big-endian bytes of a 32-bit value.
pub open spec fn be32(v: u32) -> Seq<u8> {
    seq![
        (v / 0x1000000) as u8,
        ((v / 0x10000) % 0x100) as u8,
        ((v / 0x100) % 0x100) as u8,
        (v % 0x100) as u8,
    ]
}

/// The 32-bit value stored big-endian at `at`.
pub open spec fn read_be32(s: Seq<u8>, at: int) -> int {
    s[at] * 0x1000000 + s[at + 1] * 0x10000 + s[at + 2] * 0x100 + s[at + 3]
}

/// Big-endian bytes of a 16-bit value.
pub open spec fn be16(v: u16) -> Seq<u8> {
    seq![(v / 0x100) as u8, (v % 0x100) as u8]
}

/// Pixels per meter at 72 dots per inch times `density`: `round(72 * density * 39.3701)`.
pub open spec fn pixels_per_meter(density: u32) -> int {
    (density * 28346472 + 5000) / 10000
}

/// Dots per inch at `density`: `72 * density`.
pub open spec fn dots_per_inch(density: u32) -> int {
    72 * density
}

/// Type and payload of the `pHYs` chunk: same x and y resolution, unit meter.
pub open spec fn phys_body(ppm: u32) -> Seq<u8> {
    seq![112u8, 72u8, 89u8, 115u8] + be32(ppm) + be32(ppm) + seq![1u8]
}

/// The complete `pHYs` chunk: length 9, type, payload, checksum over type and payload.
pub open spec fn phys_chunk(ppm: u32) -> Seq<u8> {
    be32(9) + phys_body(ppm) + be32(crc32_iso_hdlc(phys_body(ppm)))
}

/// What the resolution patch makes of encoded bytes.
pub open spec fn dpi_patched(bytes: Seq<u8>, format: RasterFormat, density: u32) -> Seq<u8> {
    if density == 1 {
        bytes
    } else {
        match format {
            RasterFormat::Png => bytes.subrange(0, PNG_HEADER_LEN as int) + phys_chunk(
                pixels_per_meter(density) as u32,
            ) + bytes.subrange(PNG_HEADER_LEN as int, bytes.len() as int),
            RasterFormat::Jpeg => bytes.subrange(0, JFIF_DENSITY_AT as int) + seq![1u8] + be16(
                dots_per_inch(density) as u16,
            ) + be16(dots_per_inch(density) as u16) + bytes.subrange(
                JFIF_DENSITY_AT + 5,
                bytes.len() as int,
            ),
        }
    }
}

/// Whether the resolution patch can be applied: the header it edits is there and
/// the resolution fits its field.
pub open spec fn dpi_patchable(len: int, format: RasterFormat, density: u32) -> bool {
    density == 1 || match format {
        RasterFormat::Png => len >= PNG_HEADER_LEN && pixels_per_meter(density) <= u32::MAX,
        RasterFormat::Jpeg => len >= JFIF_DENSITY_AT + 5 && dots_per_inch(density) <= u16::MAX,
    }
}

fn push_be32(out: &mut Vec<u8>, v: u32)
    ensures
        final(out)@ == old(out)@ + be32(v),
{
    out.push((v / 0x1000000) as u8);
    out.push(((v / 0x10000) % 0x100) as u8);
    out.push(((v / 0x100) % 0x100) as u8);
    out.push((v % 0x100) as u8);
    assert(final(out)@ =~= old(out)@ + be32(v));
}

fn push_range(out: &mut Vec<u8>, src: &Vec<u8>, from: usize, to: usize)
    requires
        from <= to <= src.len(),
    ensures
        final(out)@ == old(out)@ + src@.subrange(from as int, to as int),
{
    let ghost start = out@;
    let mut i: usize = from;
    while i < to
        invariant
            from <= i <= to <= src.len(),
            out@ == start + src@.subrange(from as int, i as int),
        decreases to - i,
    {
        out.push(src[i]);
        i = i + 1;
        assert(out@ =~= start + src@.subrange(from as int, i as int));
    }
}

/// The `pHYs` chunk for `ppm` pixels per meter, checksum included.
pub fn phys_chunk_bytes(ppm: u32) -> (r: Vec<u8>)
    ensures
        r@ == phys_chunk(ppm),
{
    let mut body: Vec<u8> = Vec::new();
    body.push(112u8);
    body.push(72u8);
    body.push(89u8);
    body.push(115u8);
    push_be32(&mut body, ppm);
    push_be32(&mut body, ppm);
    body.push(1u8);
    assert(body@ =~= phys_body(ppm));
    let sum = crc32(&body);
    let mut r: Vec<u8> = Vec::new();
    push_be32(&mut r, 9);
    push_range(&mut r, &body, 0, body.len());
    push_be32(&mut r, sum);
    assert(body@.subrange(0, body@.len() as int) =~= body@);
    r
}

/// Records the output resolution in encoded image bytes. At density 1 the bytes are
/// returned as they are. A PNG gets a `pHYs` chunk right after its header chunk; a
/// JPEG has the density fields of its JFIF segment overwritten with dots per inch.
pub fn with_dpi(bytes: Vec<u8>, format: RasterFormat, density: u32) -> (r: Vec<u8>)
    requires
        dpi_patchable(bytes@.len() as int, format, density),
    ensures
        r@ == dpi_patched(bytes@, format, density),
{
    if density == 1 {
        return bytes;
    }
    match format {
        RasterFormat::Png => {
            let ppm: u64 = (density as u64 * 28346472 + 5000) / 10000;
            let chunk = phys_chunk_bytes(ppm as u32);
            let mut r: Vec<u8> = Vec::new();
            push_range(&mut r, &bytes, 0, PNG_HEADER_LEN);
            push_range(&mut r, &chunk, 0, chunk.len());
            push_range(&mut r, &bytes, PNG_HEADER_LEN, bytes.len());
            assert(chunk@.subrange(0, chunk@.len() as int) =~= chunk@);
            r
        },
        RasterFormat::Jpeg => {
            let dpi: u16 = (72 * density) as u16;
            let hi: u8 = (dpi / 0x100) as u8;
            let lo: u8 = (dpi % 0x100) as u8;
            let mut r = bytes;
            r.set(JFIF_DENSITY_AT, 1u8);
            r.set(JFIF_DENSITY_AT + 1, hi);
            r.set(JFIF_DENSITY_AT + 2, lo);
            r.set(JFIF_DENSITY_AT + 3, hi);
            r.set(JFIF_DENSITY_AT + 4, lo);
            assert(r@ =~= dpi_patched(bytes@, format, density));
            r
        },
    }
}

/// Reading back the four bytes of a big-endian value gives the value.
pub proof fn lemma_be32_round_trip(v: u32)
    ensures
        read_be32(be32(v), 0) == v,
{
    let x = v as int;
    let a = x / 0x1000000;
    let b = (x / 0x10000) % 0x100;
    let c = (x / 0x100) % 0x100;
    let d = x % 0x100;
    assert(0 <= a < 0x100);
    assert(a * 0x1000000 + b * 0x10000 + c * 0x100 + d == x) by (nonlinear_arith)
        requires
            0 <= x,
            a == x / 0x1000000,
            b == (x / 0x10000) % 0x100,
            c == (x / 0x100) % 0x100,
            d == x % 0x100,
    ;
}

/// A PNG patched for a density other than 1 holds, right after its header chunk, a
/// `pHYs` chunk of length 9 whose x and y resolutions read back as the pixels per
/// meter of that density, in meters; at density 1 the bytes are left as they are.
/// At density 2 that resolution is 5669 pixels per meter.
pub proof fn lemma_png_phys_round_trip(bytes: Seq<u8>, density: u32)
    requires
        dpi_patchable(bytes.len() as int, RasterFormat::Png, density),
    ensures
        density == 1 ==> dpi_patched(bytes, RasterFormat::Png, density) == bytes,
        density != 1 ==> ({
            let r = dpi_patched(bytes, RasterFormat::Png, density);
            let at = PNG_HEADER_LEN as int;
            &&& r.subrange(0, at) == bytes.subrange(0, at)
            &&& read_be32(r, at) == 9
            &&& r.subrange(at + 4, at + 8) == seq![112u8, 72u8, 89u8, 115u8]
            &&& read_be32(r, at + 8) == pixels_per_meter(density)
            &&& read_be32(r, at + 12) == pixels_per_meter(density)
            &&& r[at + 16] == 1
            &&& r.subrange(at + 21, r.len() as int) == bytes.subrange(at, bytes.len() as int)
        }),
        pixels_per_meter(2) == 5669,
{
    if density != 1 {
        let ppm = pixels_per_meter(density) as u32;
        let r = dpi_patched(bytes, RasterFormat::Png, density);
        let at = PNG_HEADER_LEN as int;
        let chunk = phys_chunk(ppm);
        assert(chunk.len() == 21);
        assert(r =~= bytes.subrange(0, at) + chunk + bytes.subrange(at, bytes.len() as int));
        lemma_be32_round_trip(9);
        lemma_be32_round_trip(ppm);
        assert(r.subrange(0, at) =~= bytes.subrange(0, at));
        assert(r.subrange(at, at + 4) =~= be32(9));
        assert(r.subrange(at + 8, at + 12) =~= be32(ppm));
        assert(r.subrange(at + 12, at + 16) =~= be32(ppm));
        assert(r.subrange(at + 4, at + 8) =~= seq![112u8, 72u8, 89u8, 115u8]);
        assert(r.subrange(at + 21, r.len() as int) =~= bytes.subrange(at, bytes.len() as int));
        assert(read_be32(r, at) == read_be32(r.subrange(at, at + 4), 0));
        assert(read_be32(r, at + 8) == read_be32(r.subrange(at + 8, at + 12), 0));
        assert(read_be32(r, at + 12) == read_be32(r.subrange(at + 12, at + 16), 0));
    }
}

} // verus!
