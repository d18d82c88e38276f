use crate::error::OcrEngineError;
use crate::text::{chars_of, contains_text, find_text};
use image::DynamicImage;
use image::GenericImageView;
use image::Pixel;
use std::collections::HashMap;
use vstd::prelude::*;
use vstd::std_specs::hash::*;

verus! {

broadcast use group_hash_axioms;

/// A decoded raster image of the `image` crate. Verus sees nothing inside it:
/// what the contracts say of its pixels goes through `image_columns`.
#[verifier::external_type_specification]
#[verifier::external_body]
pub struct ExDynamicImage(image::DynamicImage);

/// What an image holds: one sequence per column, left to right, each giving the
/// red, green and blue channel of its pixels from top to bottom, eight bits each.
pub uninterp spec fn image_columns(img: DynamicImage) -> Seq<Seq<(u8, u8, u8)>>;

/// `DynamicImage::width`: the number of columns.
pub assume_specification[ image::DynamicImage::width ](img: &DynamicImage) -> (w: u32)
    ensures
        w == image_columns(*img).len(),
;

/// `DynamicImage::height`: the number of pixels that every column holds.
pub assume_specification[ image::DynamicImage::height ](img: &DynamicImage) -> (h: u32)
    ensures
        forall|x: int|
            0 <= x < image_columns(*img).len() ==> (#[trigger] image_columns(*img)[x]).len() == h,
;

/// `GenericImageView::get_pixel` on a `DynamicImage`, followed by `Pixel::to_rgb`:
/// the colour at column `x`, row `y`, without its alpha channel. The outside
/// function panics beyond the image's bounds, which `requires` leaves out.
#[verifier::external_body]
fn pixel_rgb(img: &DynamicImage, x: u32, y: u32) -> (p: (u8, u8, u8))
    requires
        x < image_columns(*img).len(),
        y < image_columns(*img)[x as int].len(),
    ensures
        p == image_columns(*img)[x as int][y as int],
{
    let p = img.get_pixel(x, y).to_rgb();
    (p.0[0], p.0[1], p.0[2])
}

/// The columns of `cols` one after the other, as one sequence of pixels.
pub open spec fn concat_columns(cols: Seq<Seq<(u8, u8, u8)>>) -> Seq<(u8, u8, u8)>
    decreases cols.len(),
{
    if cols.len() == 0 {
        Seq::empty()
    } else {
        concat_columns(cols.drop_last()) + cols.last()
    }
}

/// Every pixel of the image, in the order in which it is scanned.
pub open spec fn image_pixels(img: DynamicImage) -> Seq<(u8, u8, u8)> {
    concat_columns(image_columns(img))
}

/// How often the colour `c` occurs among `pixels`.
pub open spec fn occurrences(pixels: Seq<(u8, u8, u8)>, c: (u8, u8, u8)) -> nat
    decreases pixels.len(),
{
    if pixels.len() == 0 {
        0
    } else {
        occurrences(pixels.drop_last(), c) + if pixels.last() == c {
            1nat
        } else {
            0nat
        }
    }
}

/// The place of a colour in the order by red, then green, then blue.
pub open spec fn color_rank(c: (u8, u8, u8)) -> int {
    c.0 * 65536 + c.1 * 256 + c.2
}

/// `c` occurs among `pixels` at least as often as every colour, and of the
/// colours that occur as often as it does it is the first by `color_rank`.
pub open spec fn is_dominant(pixels: Seq<(u8, u8, u8)>, c: (u8, u8, u8)) -> bool {
    &&& occurrences(pixels, c) > 0
    &&& forall|d: (u8, u8, u8)|
        {
            ||| #[trigger] occurrences(pixels, d) < occurrences(pixels, c)
            ||| (occurrences(pixels, d) == occurrences(pixels, c) && color_rank(c) <= color_rank(d))
        }
}

/// Two colours of the same rank are the same colour.
pub proof fn lemma_color_rank_injective(a: (u8, u8, u8), b: (u8, u8, u8))
    requires
        color_rank(a) == color_rank(b),
    ensures
        a == b,
{
}

/// A sequence of pixels has at most one dominant colour.
pub proof fn lemma_dominant_unique(pixels: Seq<(u8, u8, u8)>, a: (u8, u8, u8), b: (u8, u8, u8))
    requires
        is_dominant(pixels, a),
        is_dominant(pixels, b),
    ensures
        a == b,
{
    lemma_color_rank_injective(a, b);
}

/// No colour occurs more often than there are pixels.
pub proof fn lemma_occurrences_bounded(pixels: Seq<(u8, u8, u8)>, c: (u8, u8, u8))
    ensures
        occurrences(pixels, c) <= pixels.len(),
    decreases pixels.len(),
{
    if pixels.len() > 0 {
        lemma_occurrences_bounded(pixels.drop_last(), c);
    }
}

/// Appending one pixel raises the count of its colour by one and leaves the
/// other counts as they were.
pub proof fn lemma_occurrences_push(pixels: Seq<(u8, u8, u8)>, p: (u8, u8, u8), c: (u8, u8, u8))
    ensures
        occurrences(pixels.push(p), c) == occurrences(pixels, c) + (if p == c {
            1nat
        } else {
            0nat
        }),
{
    assert(pixels.push(p).drop_last() =~= pixels);
}

/// An empty sequence of pixels has no dominant colour.
pub proof fn lemma_no_pixels_no_dominant(c: (u8, u8, u8))
    ensures
        !is_dominant(Seq::empty(), c),
{
}

/// The number that stands for a colour in the tally: its rank.
fn color_key(c: (u8, u8, u8)) -> (k: u32)
    ensures
        k == color_rank(c),
{
    (c.0 as u32) * 65536 + (c.1 as u32) * 256 + (c.2 as u32)
}

/// The columns before `x`, followed by the first `y` pixels of column `x`.
spec fn scanned(cols: Seq<Seq<(u8, u8, u8)>>, x: int, y: int) -> Seq<(u8, u8, u8)> {
    concat_columns(cols.take(x)) + cols[x].take(y)
}

/// With a whole column scanned, the scan stands at the top of the next one.
proof fn lemma_scanned_column(cols: Seq<Seq<(u8, u8, u8)>>, x: int)
    requires
        0 <= x < cols.len(),
    ensures
        scanned(cols, x, cols[x].len() as int) == concat_columns(cols.take(x + 1)),
{
    assert(cols.take(x + 1).drop_last() =~= cols.take(x));
}

/// The tally `counts` holds, for every colour among `seen`, how often it occurs,
/// and nothing else.
spec fn tallies(counts: Map<u32, u64>, seen: Seq<(u8, u8, u8)>) -> bool {
    forall|c: (u8, u8, u8)|
        if #[trigger] occurrences(seen, c) > 0 {
            counts.contains_key(color_rank(c) as u32) && counts[color_rank(c) as u32]
                == occurrences(seen, c)
        } else {
            !counts.contains_key(color_rank(c) as u32)
        }
}

/// `best` is the dominant colour of `seen` with its count, or nothing where
/// there is no pixel yet.
spec fn leads(best: Option<((u8, u8, u8), u64)>, seen: Seq<(u8, u8, u8)>) -> bool {
    match best {
        None => seen.len() == 0,
        Some((c, n)) => is_dominant(seen, c) && n == occurrences(seen, c),
    }
}

/// `found` is what the search for the dominant colour of `pixels` gives: the
/// dominant colour, or nothing where there is no pixel.
pub open spec fn dominant_of(pixels: Seq<(u8, u8, u8)>, found: Option<(u8, u8, u8)>) -> bool {
    match found {
        Some(c) => is_dominant(pixels, c),
        None => pixels.len() == 0,
    }
}

/// The most frequent colour of an image: the colour that `is_dominant` among
/// its pixels, or `None` for an image without pixels. Every pixel is read once
/// and tallied under its exact colour.
pub fn get_most_frequent_color(img: &DynamicImage) -> (dominant: Option<(u8, u8, u8)>)
    ensures
        dominant_of(image_pixels(*img), dominant),
{
    let width: u32 = img.width();
    let height: u32 = img.height();
    let ghost cols = image_columns(*img);
    let ghost mut seen: Seq<(u8, u8, u8)> = Seq::empty();
    let mut counts: HashMap<u32, u64> = HashMap::new();
    let mut best: Option<((u8, u8, u8), u64)> = None;
    let mut x: u32 = 0;
    while x < width
        invariant
            cols == image_columns(*img),
            width == cols.len(),
            forall|i: int| 0 <= i < cols.len() ==> (#[trigger] cols[i]).len() == height,
            x <= width,
            seen == concat_columns(cols.take(x as int)),
            seen.len() == x * height,
            tallies(counts@, seen),
            leads(best, seen),
        decreases width - x,
    {
        let mut y: u32 = 0;
        while y < height
            invariant
                cols == image_columns(*img),
                width == cols.len(),
                forall|i: int| 0 <= i < cols.len() ==> (#[trigger] cols[i]).len() == height,
                x < width,
                y <= height,
                seen == scanned(cols, x as int, y as int),
                seen.len() == x * height + y,
                tallies(counts@, seen),
                leads(best, seen),
            decreases height - y,
        {
            let p = pixel_rgb(img, x, y);
            let k = color_key(p);
            let ghost before = seen;
            proof {
                lemma_occurrences_bounded(before, p);
                assert(x * height + y < 0xFFFF_FFFF_FFFF_FFFF) by (nonlinear_arith)
                    requires
                        x < 0xFFFF_FFFF,
                        height <= 0xFFFF_FFFF,
                        y < height,
                ;
            }
            let n: u64 = match counts.get(&k) {
                Some(n) => *n + 1,
                None => 1,
            };
            counts.insert(k, n);
            proof {
                seen = before.push(p);
                assert forall|c: (u8, u8, u8)|
                    #[trigger] occurrences(seen, c) == occurrences(before, c) + if p == c {
                        1nat
                    } else {
                        0nat
                    } by {
                    lemma_occurrences_push(before, p, c);
                }
                assert forall|c: (u8, u8, u8)| c != p implies color_rank(c) as u32 != k by {
                    if color_rank(c) == color_rank(p) {
                        lemma_color_rank_injective(c, p);
                    }
                }
            }
            best =
            match best {
                None => Some((p, n)),
                Some((c, m)) => {
                    if n > m || (n == m && k < color_key(c)) {
                        Some((p, n))
                    } else {
                        Some((c, m))
                    }
                },
            };
            y = y + 1;
        }
        proof {
            lemma_scanned_column(cols, x as int);
            assert(x * height + height == (x + 1) * height) by (nonlinear_arith);
        }
        x = x + 1;
    }
    assert(cols.take(width as int) =~= cols);
    match best {
        None => None,
        Some((c, _)) => Some(c),
    }
}

/// The perceptual distance from the reference colour below which the
/// dominant colour of an image makes it a candidate.
pub const THRESHOLD: u8 = 10;

/// The language model in which text is extracted.
pub const OCR_LANGUAGE: &'static str = "eng";

/// The only characters that the text extraction may recognise: the letters
/// of the ASCII alphabet, small and capital.
pub const OCR_WHITELIST: &'static str = "abcdefghijklmnopqrstuvwxyzABCDEFGHIJKLMNOPQRSTUVWXYZ";

/// The background tone of the screenshots that the bot looks for. The
/// dominant colour of an image is measured against it.
pub fn reference_color() -> (c: (u8, u8, u8))
    ensures
        c == (146u8, 74u8, 96u8),
{
    (146, 74, 96)
}

/// The text holds the keyword, written "Momo" or "momo": exactly so, with no
/// other spelling counted.
pub open spec fn mentions_momo(text: Seq<char>) -> bool {
    contains_text(text, "Momo"@) || contains_text(text, "momo"@)
}

/// What the confirmation by text says of an extraction: of a text, whether it
/// holds the keyword; of a failure of the engine, that failure.
pub open spec fn ocr_outcome(extracted: Result<String, OcrEngineError>) -> Result<
    bool,
    OcrEngineError,
> {
    match extracted {
        Ok(text) => Ok(mentions_momo(text@)),
        Err(e) => Err(e),
    }
}

/// Confirms a candidate by the text extracted from the image. A failure of
/// the engine is handed on: it never counts as "no match".
pub fn ocr_find_momo(extracted: Result<String, OcrEngineError>) -> (found: Result<
    bool,
    OcrEngineError,
>)
    ensures
        found == ocr_outcome(extracted),
{
    match extracted {
        Err(e) => Err(e),
        Ok(text) => {
            let hay = chars_of(text.as_str());
            let capital = chars_of("Momo");
            if find_text(&hay, &capital) {
                return Ok(true);
            }
            let small = chars_of("momo");
            Ok(find_text(&hay, &small))
        },
    }
}

/// The detector's configuration, fixed when the process starts: whether a
/// candidate by colour must be confirmed by text.
#[derive(Clone, Copy, Debug, PartialEq, Eq, Structural)]
pub struct Detector {
    pub use_ocr: bool,
}

/// Where the detector stands once the colour of an image was judged.
#[derive(Clone, Copy, Debug, PartialEq, Eq, Structural)]
pub enum Stage {
    /// The verdict is reached; no text is to be extracted.
    Verdict(bool),
    /// The image is a candidate by colour, and the text decides.
    NeedsOcr,
}

impl Detector {
    /// A detector with the confirmation by text switched on or off.
    pub fn new(use_ocr: bool) -> (detector: Self)
        ensures
            detector.use_ocr == use_ocr,
    {
        Detector { use_ocr }
    }

    /// The stage after the colour was judged: the text is asked for only
    /// where it is switched on and the colour matched.
    pub open spec fn stage(self, color_match: bool) -> Stage {
        if self.use_ocr && color_match {
            Stage::NeedsOcr
        } else {
            Stage::Verdict(color_match)
        }
    }

    /// The verdict on an image whose colour was judged `color_match` and whose
    /// text extraction, were it run, would give `extracted`.
    pub open spec fn verdict(
        self,
        color_match: bool,
        extracted: Result<String, OcrEngineError>,
    ) -> Result<bool, OcrEngineError> {
        match self.stage(color_match) {
            Stage::Verdict(v) => Ok(v),
            Stage::NeedsOcr => ocr_outcome(extracted),
        }
    }
}

/// Judges an image from the verdict on its colour: with the confirmation by
/// text switched off that verdict stands; switched on, a negative one stands
/// too, and a positive one waits for the text, whose outcome `ocr_find_momo`
/// then gives.
pub fn is_momo_screenshot(detector: &Detector, color_match: bool) -> (stage: Stage)
    ensures
        stage == detector.stage(color_match),
{
    if detector.use_ocr && color_match {
        Stage::NeedsOcr
    } else {
        Stage::Verdict(color_match)
    }
}

/// The same pixels give the same dominant colour: what `get_most_frequent_color`
/// returns depends on nothing but the pixels of the image.
pub proof fn lemma_dominant_color_is_determined(
    first: DynamicImage,
    second: DynamicImage,
    a: Option<(u8, u8, u8)>,
    b: Option<(u8, u8, u8)>,
)
    requires
        image_pixels(first) == image_pixels(second),
        dominant_of(image_pixels(first), a),
        dominant_of(image_pixels(second), b),
    ensures
        a == b,
{
    match (a, b) {
        (Some(c), Some(d)) => {
            lemma_dominant_unique(image_pixels(first), c, d);
        },
        (Some(c), None) => {
            lemma_no_pixels_no_dominant(c);
        },
        (None, Some(d)) => {
            lemma_no_pixels_no_dominant(d);
        },
        (None, None) => {},
    }
}

/// With the confirmation by text switched off, the detector's verdict is the
/// verdict on the colour, whatever the image's text.
pub proof fn lemma_without_ocr_color_decides(
    detector: Detector,
    color_match: bool,
    extracted: Result<String, OcrEngineError>,
)
    requires
        !detector.use_ocr,
    ensures
        detector.stage(color_match) == Stage::Verdict(color_match),
        detector.verdict(color_match, extracted) == Ok::<bool, OcrEngineError>(color_match),
{
}

/// A negative verdict on the colour is final: no text is asked for, and what
/// an extraction would have given changes nothing.
pub proof fn lemma_negative_color_skips_ocr(
    detector: Detector,
    extracted: Result<String, OcrEngineError>,
)
    ensures
        detector.stage(false) == Stage::Verdict(false),
        detector.verdict(false, extracted) == Ok::<bool, OcrEngineError>(false),
{
}

/// Where the text was extracted, the verdict is the conjunction of the two
/// stages: the colour matched, and the text, where it is asked for, holds the
/// keyword.
pub proof fn lemma_verdict_is_the_conjunction(detector: Detector, color_match: bool, text: String)
    ensures
        detector.verdict(color_match, Ok(text)) == Ok::<bool, OcrEngineError>(
            color_match && (!detector.use_ocr || mentions_momo(text@)),
        ),
{
}

/// A failure of the engine reaches the caller exactly where the text was
/// asked for: the confirmation is switched on and the colour matched.
pub proof fn lemma_engine_failure_is_handed_on(
    detector: Detector,
    color_match: bool,
    e: OcrEngineError,
)
    ensures
        detector.verdict(color_match, Err(e)) == (if detector.use_ocr && color_match {
            Err::<bool, OcrEngineError>(e)
        } else {
            Ok::<bool, OcrEngineError>(color_match)
        }),
{
}

/// The text only narrows: the detector never finds what the colour did not.
pub proof fn lemma_ocr_only_narrows(
    detector: Detector,
    color_match: bool,
    extracted: Result<String, OcrEngineError>,
)
    requires
        detector.verdict(color_match, extracted) == Ok::<bool, OcrEngineError>(true),
    ensures
        color_match,
{
}

/// A letter of the ASCII alphabet, small or capital.
pub open spec fn is_ascii_letter(c: char) -> bool {
    ('a' <= c && c <= 'z') || ('A' <= c && c <= 'Z')
}

/// The whitelist of the text extraction holds every ASCII letter and nothing
/// else: no digit, no punctuation, no blank.
pub proof fn lemma_whitelist_is_the_letters(c: char)
    ensures
        OCR_WHITELIST@.contains(c) <==> is_ascii_letter(c),
{
    reveal_strlit("abcdefghijklmnopqrstuvwxyzABCDEFGHIJKLMNOPQRSTUVWXYZ");
    let list = OCR_WHITELIST@;
    if 'a' <= c && c <= 'z' {
        assert(list[c as int - 'a' as int] == c);
    }
    if 'A' <= c && c <= 'Z' {
        assert(list[26 + c as int - 'A' as int] == c);
    }
}

} // verus!
