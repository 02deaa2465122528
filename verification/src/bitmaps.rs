//! Bitmaps of the GPU renderer: decoding JPEG data to RGBA pixels, and the
//! list of registered textures, whose handles are their positions in it.
//! Uploading the pixels to the GPU is left to the caller.
use vstd::prelude::*;

verus! {

/// The handle of a registered bitmap: its position in the texture list.
#[derive(Clone, Copy, Debug, PartialEq, Eq, Structural)]
pub struct BitmapHandle(pub usize);

/// What registering a bitmap tells the movie.
#[derive(Clone, Copy, Debug, PartialEq, Eq, Structural)]
pub struct BitmapInfo {
    pub handle: BitmapHandle,
    pub width: u16,
    pub height: u16,
}

/// A registered texture: the character it was made for and its size.
#[derive(Clone, Copy, Debug, PartialEq, Eq, Structural)]
pub struct TextureEntry {
    pub id: u16,
    pub width: u32,
    pub height: u32,
}

/// A decoded JPEG image: its size, the bytes of one pixel and the pixels.
#[derive(Clone, Debug)]
pub struct DecodedJpeg {
    pub width: u16,
    pub height: u16,
    pub pixel_bytes: usize,
    pub pixels: Vec<u8>,
}

/// What the `jpeg-decoder` crate gives for the given bytes when it decodes
/// them: whether decoding succeeds, and then the width, the height and the
/// bytes per pixel of the image and the number of bytes of its pixels. The
/// pixel values themselves are not named: the crate picks its colour
/// conversion and inverse DCT by the processor it runs on, and those round
/// differently. Their number does not vary.
pub uninterp spec fn jpeg_decode(data: Seq<u8>) -> Option<(u16, u16, usize, nat)>;

/// Decodes `data` with `jpeg_decoder::Decoder`: `decode` and then `info`
/// on one decoder. The contract claims that success, the size, the bytes
/// per pixel and the number of pixel bytes are a function of the bytes
/// alone, named [`jpeg_decode`]; the pixel values and the text of a
/// failure are left free.
#[verifier::external_body]
fn decode_jpeg(data: &[u8]) -> (r: Result<DecodedJpeg, String>)
    ensures
        r is Ok <==> jpeg_decode(data@) is Some,
        r matches Ok(img) ==> jpeg_decode(data@) == Some(
            (img.width, img.height, img.pixel_bytes, img.pixels@.len()),
        ),
{
    let mut decoder = jpeg_decoder::Decoder::new(data);
    match decoder.decode() {
        Ok(pixels) => match decoder.info() {
            Some(info) => Ok(DecodedJpeg {
                width: info.width,
                height: info.height,
                pixel_bytes: info.pixel_format.pixel_bytes(),
                pixels,
            }),
            None => Err(String::new()),
        },
        Err(e) => Err(e.to_string()),
    }
}

/// Whether the four bytes at `i` are the erroneous header (an end-of-image
/// marker followed by a start-of-image marker, `FF D9 FF D8`) that JPEG
/// data of movies before version 8 may carry.
pub open spec fn erroneous_header_at(d: Seq<u8>, i: int) -> bool {
    0 <= i && i + 4 <= d.len() && d[i] == 0xFF && d[i + 1] == 0xD9 && d[i + 2] == 0xFF && d[i + 3]
        == 0xD8
}

/// The first position from `i` on, before the last four bytes, where the
/// erroneous header stands.
pub open spec fn first_header_from(d: Seq<u8>, i: int) -> Option<int>
    decreases d.len() - i,
{
    if i < 0 || i >= d.len() - 4 {
        None
    } else if erroneous_header_at(d, i) {
        Some(i)
    } else {
        first_header_from(d, i + 1)
    }
}

/// JPEG data with the erroneous header removed: once at the very start,
/// and then its first occurrence before the last four bytes.
pub open spec fn spec_remove_invalid_jpeg_data(data: Seq<u8>) -> Seq<u8> {
    let d = if erroneous_header_at(data, 0) {
        data.skip(4)
    } else {
        data
    };
    match first_header_from(d, 0) {
        Some(pos) => d.take(pos) + d.skip(pos + 4),
        None => d,
    }
}

/// Whether the erroneous header stands at `i` of `d`.
fn header_at(d: &[u8], i: usize) -> (r: bool)
    requires
        i + 4 <= d@.len(),
    ensures
        r == erroneous_header_at(d@, i as int),
{
    d[i] == 0xFF && d[i + 1] == 0xD9 && d[i + 2] == 0xFF && d[i + 3] == 0xD8
}

/// Removes the erroneous header from JPEG data: at its start, and then its
/// first occurrence before the last four bytes. Data shorter than a header
/// (or than two, when it starts with one) is not accepted.
pub fn remove_invalid_jpeg_data(data: &[u8]) -> (r: Vec<u8>)
    requires
        data@.len() >= 4,
        erroneous_header_at(data@, 0) ==> data@.len() >= 8,
    ensures
        r@ == spec_remove_invalid_jpeg_data(data@),
{
    let start: usize = if header_at(data, 0) {
        4
    } else {
        0
    };
    let ghost d = if erroneous_header_at(data@, 0) {
        data@.skip(4)
    } else {
        data@
    };
    assert(d =~= data@.subrange(start as int, data@.len() as int));
    let len = data.len() - start;
    let mut pos: usize = 0;
    let mut found = false;
    while pos < len - 4
        invariant_except_break
            pos <= len - 4,
            len == d.len(),
            len >= 4,
            d =~= data@.subrange(start as int, data@.len() as int),
            start + len == data@.len(),
            data@.len() <= usize::MAX,
            first_header_from(d, 0) == first_header_from(d, pos as int),
            !found,
        ensures
            found ==> first_header_from(d, 0) == Some(pos as int) && pos + 4 < len,
            pos <= len,
            !found ==> first_header_from(d, 0) is None,
        decreases len - pos,
    {
        assert(data@[start + pos] == d[pos as int]);
        assert(data@[start + pos + 1] == d[pos + 1]);
        assert(data@[start + pos + 2] == d[pos + 2]);
        assert(data@[start + pos + 3] == d[pos + 3]);
        if header_at(data, start + pos) {
            found = true;
            break;
        }
        pos = pos + 1;
    }
    let mut out: Vec<u8> = Vec::new();
    let mut i: usize = start;
    let skip_from: usize = if found {
        start + pos
    } else {
        data.len()
    };
    while i < data.len()
        invariant
            start <= i <= data@.len(),
            start <= skip_from <= data@.len(),
            found ==> skip_from + 4 <= data@.len(),
            !found ==> skip_from == data@.len(),
            out@ == (if i <= skip_from {
                data@.subrange(start as int, i as int)
            } else {
                data@.subrange(start as int, skip_from as int) + data@.subrange(
                    skip_from + 4,
                    i as int,
                )
            }),
            i <= skip_from || i >= skip_from + 4,
        decreases data@.len() - i,
    {
        if found && i == skip_from {
            i = i + 4;
            assert(data@.subrange(skip_from + 4, i as int) =~= Seq::<u8>::empty());
            assert(out@ =~= data@.subrange(start as int, skip_from as int) + data@.subrange(
                skip_from + 4,
                i as int,
            ));
        } else {
            let ghost before = out@;
            out.push(data[i]);
            i = i + 1;
            if i <= skip_from {
                assert(out@ =~= data@.subrange(start as int, i as int));
            } else {
                assert(out@ =~= data@.subrange(start as int, skip_from as int) + data@.subrange(
                    skip_from + 4,
                    i as int,
                ));
            }
        }
    }
    if found {
        assert(out@ =~= d.take(pos as int) + d.skip(pos + 4));
    } else {
        assert(out@ =~= d);
    }
    out
}

/// RGB pixels widened to RGBA with full alpha.
pub open spec fn rgb_to_rgba_spec(rgb: Seq<u8>) -> Seq<u8> {
    Seq::new(
        (rgb.len() / 3 * 4) as nat,
        |i: int|
            if i % 4 == 3 {
                255u8
            } else {
                rgb[(i / 4) * 3 + i % 4]
            },
    )
}

/// Widens RGB pixels to RGBA, each with alpha 255.
pub fn rgb_to_rgba(rgb: &Vec<u8>) -> (rgba: Vec<u8>)
    requires
        rgb@.len() % 3 == 0,
        rgb@.len() / 3 * 4 <= usize::MAX,
    ensures
        rgba@ == rgb_to_rgba_spec(rgb@),
{
    let mut rgba: Vec<u8> = Vec::new();
    let mut i: usize = 0;
    while i < rgb.len()
        invariant
            i <= rgb@.len(),
            i % 3 == 0,
            rgb@.len() % 3 == 0,
            rgba@.len() == i / 3 * 4,
            forall|k: int|
                0 <= k < rgba@.len() ==> #[trigger] rgba@[k] == (if k % 4 == 3 {
                    255u8
                } else {
                    rgb@[(k / 4) * 3 + k % 4]
                }),
        decreases rgb@.len() - i,
    {
        let ghost before = rgba@;
        rgba.push(rgb[i]);
        rgba.push(rgb[i + 1]);
        rgba.push(rgb[i + 2]);
        rgba.push(255);
        assert forall|k: int| 0 <= k < rgba@.len() implies #[trigger] rgba@[k] == (if k % 4 == 3 {
            255u8
        } else {
            rgb@[(k / 4) * 3 + k % 4]
        }) by {
            if k >= before.len() {
                assert(k / 4 == i / 3);
            } else {
                assert(rgba@[k] == before[k]);
            }
        }
        i = i + 3;
    }
    assert(rgba@ =~= rgb_to_rgba_spec(rgb@));
    rgba
}

/// The textures registered with the renderer, in order.
#[derive(Clone, Debug)]
pub struct TextureRegistry {
    textures: Vec<TextureEntry>,
}

impl TextureRegistry {
    pub closed spec fn spec_textures(&self) -> Seq<TextureEntry> {
        self.textures@
    }

    pub fn new() -> (r: TextureRegistry)
        ensures
            r.spec_textures() == Seq::<TextureEntry>::empty(),
    {
        TextureRegistry { textures: Vec::new() }
    }

    /// The texture with handle `handle`, if there is one.
    pub fn get(&self, handle: BitmapHandle) -> (r: Option<TextureEntry>)
        ensures
            r == (if handle.0 < self.spec_textures().len() {
                Some(self.spec_textures()[handle.0 as int])
            } else {
                None
            }),
    {
        if handle.0 < self.textures.len() {
            Some(self.textures[handle.0])
        } else {
            None
        }
    }

    /// Records a texture for character `id`; its handle is its position.
    pub fn register(&mut self, id: u16, width: u16, height: u16) -> (info: BitmapInfo)
        ensures
            info.handle == BitmapHandle(old(self).spec_textures().len() as usize),
            info.width == width,
            info.height == height,
            final(self).spec_textures() == old(self).spec_textures().push(
                TextureEntry { id, width: width as u32, height: height as u32 },
            ),
    {
        let handle = BitmapHandle(self.textures.len());
        self.textures.push(TextureEntry { id, width: width as u32, height: height as u32 });
        BitmapInfo { handle, width, height }
    }

    /// Registers a bitmap of DefineBitsJPEG2 data: the erroneous header is
    /// removed, the data decoded, its RGB pixels widened to RGBA for upload,
    /// and a texture of the image's size recorded. Data that does not
    /// decode, or whose pixels are not whole RGB triples, registers nothing
    /// and gives the reason.
    pub fn register_bitmap_jpeg_2(&mut self, id: u16, data: &[u8]) -> (r: Result<
        (BitmapInfo, Vec<u8>),
        String,
    >)
        requires
            data@.len() >= 4,
            erroneous_header_at(data@, 0) ==> data@.len() >= 8,
        ensures
            jpeg_decode(spec_remove_invalid_jpeg_data(data@)) is None ==> r is Err,
            jpeg_decode(spec_remove_invalid_jpeg_data(data@)) matches Some((w, h, pb, n)) ==> (if n
                % 3 == 0 && n / 3 * 4 <= usize::MAX {
                r matches Ok((info, rgba)) && info == (BitmapInfo {
                    handle: BitmapHandle(old(self).spec_textures().len() as usize),
                    width: w,
                    height: h,
                }) && rgba@.len() == n / 3 * 4 && final(self).spec_textures() == old(
                    self,
                ).spec_textures().push(TextureEntry { id, width: w as u32, height: h as u32 })
            } else {
                r is Err
            }),
            r is Err ==> final(self).spec_textures() == old(self).spec_textures(),
    {
        let cleaned = remove_invalid_jpeg_data(data);
        match decode_jpeg(cleaned.as_slice()) {
            Ok(img) => self.register_rgb_image(id, img),
            Err(e) => Err(e),
        }
    }

    /// Registers a decoded RGB image: its pixels are widened to RGBA for
    /// upload and a texture of its size is recorded. Pixels that are not
    /// whole RGB triples register nothing.
    pub fn register_rgb_image(&mut self, id: u16, img: DecodedJpeg) -> (r: Result<
        (BitmapInfo, Vec<u8>),
        String,
    >)
        ensures
            img.pixels@.len() % 3 == 0 && img.pixels@.len() / 3 * 4 <= usize::MAX ==> (r matches Ok(
                (info, rgba),
            ) && info.handle == BitmapHandle(old(self).spec_textures().len() as usize)
                && info.width == img.width && info.height == img.height && rgba@
                == rgb_to_rgba_spec(img.pixels@) && final(self).spec_textures() == old(
                self,
            ).spec_textures().push(
                TextureEntry { id, width: img.width as u32, height: img.height as u32 },
            )),
            !(img.pixels@.len() % 3 == 0 && img.pixels@.len() / 3 * 4 <= usize::MAX) ==> (r is Err
                && final(self).spec_textures() == old(self).spec_textures()),
    {
        if img.pixels.len() % 3 != 0 || img.pixels.len() / 3 > usize::MAX / 4 {
            return Err(String::from_str("decoded pixels are not whole RGB triples"));
        }
        let rgba = rgb_to_rgba(&img.pixels);
        let info = self.register(id, img.width, img.height);
        Ok((info, rgba))
    }

    /// Registers a bitmap that was decoded elsewhere (DefineBitsJPEG3 and
    /// lossless data) with its size in pixels.
    pub fn register_decoded(&mut self, id: u16, width: u32, height: u32) -> (info: BitmapInfo)
        requires
            width <= u16::MAX,
            height <= u16::MAX,
        ensures
            info.handle == BitmapHandle(old(self).spec_textures().len() as usize),
            info.width == width,
            info.height == height,
            final(self).spec_textures() == old(self).spec_textures().push(
                TextureEntry { id, width, height },
            ),
    {
        self.register(id, width as u16, height as u16)
    }
}

/// Handles are handed out in order: the handle of a texture registered
/// after `n` others is `n`, and it finds that texture again.
pub proof fn law_handle_finds_its_texture(textures: Seq<TextureEntry>, entry: TextureEntry)
    ensures
        textures.push(entry)[textures.len() as int] == entry,
        textures.push(entry).len() == textures.len() + 1,
{
}

} // verus!
