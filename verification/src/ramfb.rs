use vstd::prelude::*;

verus! {

/// The pixel layouts the framebuffer device understands. A closed set:
/// any other layout is unrepresentable, so format errors cannot arise at
/// configuration time.
#[derive(Debug, Clone, Copy, PartialEq, Eq, Structural)]
pub enum PixelFormat {
    /// 3 bytes per pixel: blue, green, red.
    B8G8R8,
    /// 4 bytes per pixel: blue, green, red, (unused).
    B8G8R8X8,
    /// 4 bytes per pixel: blue, green, red, alpha.
    B8G8R8A8,
}

/// The four-character code for the 3-byte blue-green-red layout, the
/// ASCII bytes "RG24" read as a little-endian 32-bit value.
pub const FOURCC_RG24: u32 = 0x34324752;

/// The four-character code for the 4-byte blue-green-red-unused layout,
/// the ASCII bytes "AR24" read as a little-endian 32-bit value.
pub const FOURCC_AR24: u32 = 0x34325241;

/// The four-character code for the 4-byte blue-green-red-alpha layout,
/// the ASCII bytes "XR24" read as a little-endian 32-bit value.
pub const FOURCC_XR24: u32 = 0x34325258;

/// The four-character code that names `format` to the device.
pub open spec fn fourcc_spec(format: PixelFormat) -> u32 {
    match format {
        PixelFormat::B8G8R8 => FOURCC_RG24,
        PixelFormat::B8G8R8X8 => FOURCC_AR24,
        PixelFormat::B8G8R8A8 => FOURCC_XR24,
    }
}

/// Maps a pixel format to its four-character code.
pub fn fourcc(format: PixelFormat) -> (r: u32)
    ensures
        r == fourcc_spec(format),
{
    match format {
        PixelFormat::B8G8R8 => FOURCC_RG24,
        PixelFormat::B8G8R8X8 => FOURCC_AR24,
        PixelFormat::B8G8R8A8 => FOURCC_XR24,
    }
}

/// The pixel format a four-character code names, if it names one.
pub open spec fn decode_fourcc_spec(code: u32) -> Option<PixelFormat> {
    if code == FOURCC_RG24 {
        Some(PixelFormat::B8G8R8)
    } else if code == FOURCC_AR24 {
        Some(PixelFormat::B8G8R8X8)
    } else if code == FOURCC_XR24 {
        Some(PixelFormat::B8G8R8A8)
    } else {
        None
    }
}

/// The reverse lookup: recovers the pixel format from its four-character
/// code, or nothing for a code outside the enumerated set.
pub fn decode_fourcc(code: u32) -> (r: Option<PixelFormat>)
    ensures
        r == decode_fourcc_spec(code),
{
    if code == FOURCC_RG24 {
        Some(PixelFormat::B8G8R8)
    } else if code == FOURCC_AR24 {
        Some(PixelFormat::B8G8R8X8)
    } else if code == FOURCC_XR24 {
        Some(PixelFormat::B8G8R8A8)
    } else {
        None
    }
}

/// Encoding a pixel format and decoding the resulting code reproduces the
/// format, for every format of the closed set: the three codes are
/// distinct, so no format can masquerade as another.
pub proof fn lemma_fourcc_round_trip(format: PixelFormat)
    ensures
        decode_fourcc_spec(fourcc_spec(format)) == Some(format),
{
}

/// The requested framebuffer geometry: pixel layout, dimensions in
/// pixels, and the byte stride from one row to the next.
#[derive(Debug, Clone, Copy)]
pub struct RamFbConfig {
    pub pixel_format: PixelFormat,
    pub width_pixels: usize,
    pub height_pixels: usize,
    pub stride_bytes: usize,
}

/// The verdict type of the configuration channel's file write. Declared
/// so the protocol's own error type can carry the channel's verdict
/// through unchanged; the write itself is device I/O and stays with the
/// shell.
#[verifier::external_type_specification]
#[verifier::external_body]
pub struct ExFwCfgWriteError(qemu_fw_cfg::FwCfgWriteError);

/// The ways configuring the framebuffer can fail: the configuration
/// channel lists no framebuffer entry, or the channel's write reported an
/// error.
#[derive(Debug, PartialEq, Eq)]
pub enum RamFbError {
    DeviceNotFound,
    FwCfgWriteError(qemu_fw_cfg::FwCfgWriteError),
}

/// The big-endian encoding of a 32-bit value: most significant byte
/// first, regardless of host byte order.
pub open spec fn be32_spec(x: u32) -> Seq<u8> {
    seq![
        ((x >> 24) & 0xff) as u8,
        ((x >> 16) & 0xff) as u8,
        ((x >> 8) & 0xff) as u8,
        (x & 0xff) as u8,
    ]
}

/// The big-endian encoding of a 64-bit value: most significant byte
/// first, regardless of host byte order.
pub open spec fn be64_spec(x: u64) -> Seq<u8> {
    seq![
        ((x >> 56) & 0xff) as u8,
        ((x >> 48) & 0xff) as u8,
        ((x >> 40) & 0xff) as u8,
        ((x >> 32) & 0xff) as u8,
        ((x >> 24) & 0xff) as u8,
        ((x >> 16) & 0xff) as u8,
        ((x >> 8) & 0xff) as u8,
        (x & 0xff) as u8,
    ]
}

/// The 28-byte configuration descriptor the framebuffer device expects:
/// the frame-buffer address, the four-character format code, a zero flags
/// word, then width, height and stride, each field big-endian, in this
/// order, with no padding.
pub open spec fn descriptor_spec(
    address: u64,
    fourcc_code: u32,
    width: u32,
    height: u32,
    stride: u32,
) -> Seq<u8> {
    be64_spec(address) + be32_spec(fourcc_code) + be32_spec(0) + be32_spec(width) + be32_spec(
        height,
    ) + be32_spec(stride)
}

/// The descriptor that `config` and the frame-buffer address encode to.
/// Dimensions are taken modulo 32 bits; the builders require them to fit.
pub open spec fn config_descriptor_spec(config: RamFbConfig, address: u64) -> Seq<u8> {
    descriptor_spec(
        address,
        fourcc_spec(config.pixel_format),
        config.width_pixels as u32,
        config.height_pixels as u32,
        config.stride_bytes as u32,
    )
}

/// Appends the big-endian encoding of `x`.
fn push_be32(out: &mut Vec<u8>, x: u32)
    ensures
        final(out)@ == old(out)@ + be32_spec(x),
{
    out.push(((x >> 24) & 0xff) as u8);
    out.push(((x >> 16) & 0xff) as u8);
    out.push(((x >> 8) & 0xff) as u8);
    out.push((x & 0xff) as u8);
    proof {
        assert(out@ =~= old(out)@ + be32_spec(x));
    }
}

/// Appends the big-endian encoding of `x`.
fn push_be64(out: &mut Vec<u8>, x: u64)
    ensures
        final(out)@ == old(out)@ + be64_spec(x),
{
    out.push(((x >> 56) & 0xff) as u8);
    out.push(((x >> 48) & 0xff) as u8);
    out.push(((x >> 40) & 0xff) as u8);
    out.push(((x >> 32) & 0xff) as u8);
    out.push(((x >> 24) & 0xff) as u8);
    out.push(((x >> 16) & 0xff) as u8);
    out.push(((x >> 8) & 0xff) as u8);
    out.push((x & 0xff) as u8);
    proof {
        assert(out@ =~= old(out)@ + be64_spec(x));
    }
}

/// Serializes the configuration descriptor: exactly 28 bytes, every
/// multi-byte field big-endian, laid out as the device expects. Pure and
/// pointer-free, separable from the transport that carries it.
pub fn build_descriptor(config: &RamFbConfig, buffer_address: u64) -> (r: Vec<u8>)
    requires
        config.width_pixels <= u32::MAX,
        config.height_pixels <= u32::MAX,
        config.stride_bytes <= u32::MAX,
    ensures
        r@ == config_descriptor_spec(*config, buffer_address),
        r@.len() == 28,
{
    let mut out: Vec<u8> = Vec::new();
    push_be64(&mut out, buffer_address);
    push_be32(&mut out, fourcc(config.pixel_format));
    push_be32(&mut out, 0);
    push_be32(&mut out, config.width_pixels as u32);
    push_be32(&mut out, config.height_pixels as u32);
    push_be32(&mut out, config.stride_bytes as u32);
    proof {
        assert(out@ =~= config_descriptor_spec(*config, buffer_address));
    }
    out
}

/// The protocol's verdict from the configuration channel's answers. The
/// shell looks up the "etc/ramfb" entry and, when it is listed, writes
/// the 28 descriptor bytes to it in one all-or-nothing transfer; this
/// function turns what came back into the protocol's outcome. `None`
/// says the entry was not listed; `Some(verdict)` carries the write's
/// verdict. An absent entry yields `DeviceNotFound`, if and only if; a
/// write error is propagated unchanged inside `FwCfgWriteError`; success
/// is reported exactly when the write succeeded.
pub fn configure_outcome(
    write_result: Option<Result<(), qemu_fw_cfg::FwCfgWriteError>>,
) -> (r: Result<(), RamFbError>)
    ensures
        r is Ok <==> (write_result matches Some(wr) && wr is Ok),
        write_result is None <==> r == Result::<(), RamFbError>::Err(RamFbError::DeviceNotFound),
        write_result matches Some(Result::Err(e)) ==> r == Result::<(), RamFbError>::Err(
            RamFbError::FwCfgWriteError(e),
        ),
{
    match write_result {
        None => Err(RamFbError::DeviceNotFound),
        Some(Ok(())) => Ok(()),
        Some(Err(e)) => Err(RamFbError::FwCfgWriteError(e)),
    }
}

} // verus!
