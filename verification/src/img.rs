use vstd::prelude::*;

verus! {

/// A decoded image in RGBA8 layout: `height` rows of `width` pixels, 4 bytes
/// per pixel, top row first.
#[derive(Debug)]
pub struct ImageData {
    pub width: u32,
    pub height: u32,
    pub pixels: Vec<u8>,
}

impl ImageData {
    /// The pixel buffer holds exactly one RGBA byte quadruple per pixel.
    pub open spec fn wf(&self) -> bool {
        self.pixels@.len() == self.width as nat * self.height as nat * 4
    }
}

/// An image the decoder could not parse, with the decoder's message.
#[derive(Debug)]
pub struct ImageDecodeError {
    pub message: String,
}

#[verifier::external_type_specification]
#[verifier::external_body]
pub struct ExDynamicImage(image::DynamicImage);

#[verifier::external_type_specification]
#[verifier::external_body]
pub struct ExImageError(image::error::ImageError);

/// The RGBA8 pixel bytes of the image decoded from `bytes`, when `bytes` is
/// a well-formed image in a supported format; decoding is a function of the
/// input bytes alone.
pub uninterp spec fn decoded_rgba(bytes: Seq<u8>) -> Option<Seq<u8>>;

/// The (width, height) of the image decoded from `bytes`.
pub uninterp spec fn decoded_dims(bytes: Seq<u8>) -> (nat, nat);

/// The RGBA8 pixel bytes a decoded image converts to.
pub uninterp spec fn image_rgba(img: image::DynamicImage) -> Seq<u8>;

/// The (width, height) of a decoded image.
pub uninterp spec fn image_dims(img: image::DynamicImage) -> (nat, nat);

/// Relies on image::load_from_memory: decodes an image from raw bytes,
/// guessing the container format; succeeds exactly on parseable inputs.
#[verifier::external_body]
fn load_from_memory(bytes: &[u8]) -> (r: Result<image::DynamicImage, image::error::ImageError>)
    ensures
        r is Ok <==> decoded_rgba(bytes@) is Some,
        r is Ok ==> image_rgba(r->Ok_0) == decoded_rgba(bytes@)->Some_0 && image_dims(r->Ok_0)
            == decoded_dims(bytes@),
{
    image::load_from_memory(bytes)
}

/// Relies on image::GenericImageView::dimensions for DynamicImage: returns
/// the image's width and height in pixels.
#[verifier::external_body]
fn image_dimensions(img: &image::DynamicImage) -> (r: (u32, u32))
    ensures
        (r.0 as nat, r.1 as nat) == image_dims(*img),
{
    image::GenericImageView::dimensions(img)
}

/// Relies on image::DynamicImage::into_rgba8: converts any decoded image to
/// an RGBA8 buffer of exactly width * height pixels, 4 bytes each.
#[verifier::external_body]
fn image_into_rgba8(img: image::DynamicImage) -> (r: Vec<u8>)
    ensures
        r@ == image_rgba(img),
        r@.len() == image_dims(img).0 * image_dims(img).1 * 4,
{
    img.into_rgba8().into_raw()
}

/// Relies on std's Display for image::error::ImageError: renders the
/// decoder's diagnostic message.
#[verifier::external_body]
fn image_error_text(e: &image::error::ImageError) -> String {
    format!("{}", e)
}

/// Decodes raw bytes into an RGBA8 image. Succeeds exactly when the bytes
/// are a parseable image; a failure carries the decoder's message.
pub fn decode_rgba(bytes: &[u8]) -> (r: Result<ImageData, ImageDecodeError>)
    ensures
        r is Ok <==> decoded_rgba(bytes@) is Some,
        r is Ok ==> {
            &&& r->Ok_0.pixels@ == decoded_rgba(bytes@)->Some_0
            &&& (r->Ok_0.width as nat, r->Ok_0.height as nat) == decoded_dims(bytes@)
            &&& r->Ok_0.wf()
        },
{
    match load_from_memory(bytes) {
        Ok(img) => {
            let dims = image_dimensions(&img);
            let pixels = image_into_rgba8(img);
            Ok(ImageData { width: dims.0, height: dims.1, pixels })
        },
        Err(e) => Err(ImageDecodeError { message: image_error_text(&e) }),
    }
}

/// One row of an image buffer: row `i` of rows of `row_len` bytes each.
pub open spec fn row_of(pixels: Seq<u8>, i: nat, row_len: nat) -> Seq<u8> {
    pixels.subrange(i as int * row_len as int, i as int * row_len as int + row_len as int)
}

/// The first `height` rows of an image buffer in reverse order: row
/// `height - 1` first, row 0 last.
pub open spec fn flipped_rows(pixels: Seq<u8>, height: nat, row_len: nat) -> Seq<u8>
    decreases height,
{
    if height == 0 {
        Seq::empty()
    } else {
        row_of(pixels, (height - 1) as nat, row_len) + flipped_rows(
            pixels,
            (height - 1) as nat,
            row_len,
        )
    }
}

/// The flipped buffer carries the same number of bytes.
pub proof fn lemma_flipped_rows_len(pixels: Seq<u8>, height: nat, row_len: nat)
    requires
        pixels.len() >= height * row_len,
    ensures
        flipped_rows(pixels, height, row_len).len() == height * row_len,
    decreases height,
{
    if height > 0 {
        assert((height - 1) * row_len + row_len == height * row_len) by (nonlinear_arith);
        assert((height - 1) * row_len >= 0) by (nonlinear_arith)
            requires
                height >= 1,
        ;
        assert(row_of(pixels, (height - 1) as nat, row_len).len() == row_len);
        lemma_flipped_rows_len(pixels, (height - 1) as nat, row_len);
    } else {
        assert(flipped_rows(pixels, height, row_len) == Seq::<u8>::empty());
        assert(height * row_len == 0) by (nonlinear_arith)
            requires
                height == 0,
        ;
    }
}

/// Reverses the row order of an image buffer of `height` rows of `row_len`
/// bytes: used to flip decoded images vertically before upload.
pub fn flip_rows(pixels: &Vec<u8>, height: u32, row_len: u32) -> (r: Vec<u8>)
    requires
        pixels@.len() == height as nat * row_len as nat,
    ensures
        r@ == flipped_rows(pixels@, height as nat, row_len as nat),
{
    let total: usize = pixels.len();
    let mut out: Vec<u8> = Vec::new();
    let mut rows_done: u32 = 0;
    while rows_done < height
        invariant
            rows_done <= height,
            total == pixels@.len(),
            pixels@.len() == height as nat * row_len as nat,
            out@ + flipped_rows(pixels@, (height - rows_done) as nat, row_len as nat)
                =~= flipped_rows(pixels@, height as nat, row_len as nat),
        decreases height - rows_done,
    {
        let src_row: u32 = height - 1 - rows_done;
        proof {
            assert(src_row as nat * row_len as nat + row_len as nat <= height as nat
                * row_len as nat && src_row as nat * row_len as nat >= 0) by (nonlinear_arith)
                requires
                    src_row < height,
            ;
        }
        let base: usize = (src_row as usize) * (row_len as usize);
        let ghost out_at_row = out@;
        let mut c: usize = 0;
        while c < row_len as usize
            invariant
                c <= row_len,
                base == src_row as nat * row_len as nat,
                base + row_len <= total,
                total == pixels@.len(),
                out@ =~= out_at_row + pixels@.subrange(base as int, base as int + c as int),
            decreases row_len as usize - c,
        {
            let b = pixels[base + c];
            out.push(b);
            proof {
                assert(out@ =~= out_at_row + pixels@.subrange(
                    base as int,
                    base as int + c as int + 1,
                ));
            }
            c = c + 1;
        }
        proof {
            assert(pixels@.subrange(base as int, base as int + row_len as int) == row_of(
                pixels@,
                src_row as nat,
                row_len as nat,
            ));
            assert(flipped_rows(pixels@, (height - rows_done) as nat, row_len as nat) == row_of(
                pixels@,
                src_row as nat,
                row_len as nat,
            ) + flipped_rows(pixels@, (height - rows_done - 1) as nat, row_len as nat));
            assert((out_at_row + row_of(pixels@, src_row as nat, row_len as nat)) + flipped_rows(
                pixels@,
                (height - rows_done - 1) as nat,
                row_len as nat,
            ) =~= out_at_row + (row_of(pixels@, src_row as nat, row_len as nat) + flipped_rows(
                pixels@,
                (height - rows_done - 1) as nat,
                row_len as nat,
            )));
        }
        rows_done = rows_done + 1;
    }
    proof {
        assert(out@ + flipped_rows(pixels@, 0, row_len as nat) =~= out@);
    }
    out
}

/// The first `n` pixels of an RGBA8 buffer with the alpha byte of each
/// pixel dropped, leaving tightly packed RGB8: pixel `i` contributes bytes
/// `4i .. 4i + 3`.
pub open spec fn stripped_alpha(pixels: Seq<u8>, n: nat) -> Seq<u8>
    decreases n,
{
    if n == 0 {
        Seq::empty()
    } else {
        stripped_alpha(pixels, (n - 1) as nat) + pixels.subrange(
            (n - 1) as int * 4,
            (n - 1) as int * 4 + 3,
        )
    }
}

/// Drops the alpha channel of an RGBA8 buffer of `n` pixels, producing
/// tightly packed RGB8: used when a texture is uploaded in RGB format.
pub fn strip_alpha(pixels: &Vec<u8>, n: usize) -> (r: Vec<u8>)
    requires
        pixels@.len() >= n as nat * 4,
    ensures
        r@ == stripped_alpha(pixels@, n as nat),
{
    let total: usize = pixels.len();
    let mut out: Vec<u8> = Vec::new();
    let mut i: usize = 0;
    proof {
        assert(n as nat * 4 <= pixels@.len());
    }
    while i < n
        invariant
            i <= n,
            total == pixels@.len(),
            n as nat * 4 <= pixels@.len(),
            out@ =~= stripped_alpha(pixels@, i as nat),
        decreases n - i,
    {
        proof {
            assert(i * 4 + 4 <= n as nat * 4) by (nonlinear_arith)
                requires
                    i < n,
            ;
        }
        let base: usize = i * 4;
        out.push(pixels[base]);
        out.push(pixels[base + 1]);
        out.push(pixels[base + 2]);
        proof {
            assert(out@ =~= stripped_alpha(pixels@, i as nat) + pixels@.subrange(
                base as int,
                base as int + 3,
            ));
        }
        i = i + 1;
    }
    out
}

} // verus!
