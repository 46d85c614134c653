//! The capture handler's logic: choosing the display to capture, naming the
//! transient file, validating the PNG signature of the bytes read back, and
//! encoding them as a base64 data URL — together with every result and
//! diagnostic string the handler emits.
use vstd::prelude::*;

use base64::Engine;

use crate::decimal::dec_text;
use crate::decimal::int_text;
use crate::decimal::i64_to_string;
use crate::decimal::u64_to_string;
use crate::display::DisplayInfo;
use crate::display::selected_index;
use crate::display::select_display;
use crate::display::lemma_selected_index;
use crate::info::enumerate_failed_text;
use crate::info::enumerate_failed_message;

verus! {

/// The fixed 8-byte prefix identifying a PNG stream.
pub open spec fn png_signature() -> Seq<u8> {
    seq![0x89u8, 0x50u8, 0x4eu8, 0x47u8, 0x0du8, 0x0au8, 0x1au8, 0x0au8]
}

/// Whether a byte sequence is long enough to carry the PNG signature and
/// begins with it.
pub open spec fn valid_png_bytes(b: Seq<u8>) -> bool {
    b.len() >= 8 && b.take(8) == png_signature()
}

/// What the standard base64 engine (RFC 4648 alphabet, with `=` padding,
/// no line breaks) returns for a byte sequence.
pub uninterp spec fn base64_std_of(bytes: Seq<u8>) -> Seq<char>;

/// Relies on base64's `Engine::encode` with the `STANDARD` engine: the
/// encoding depends on the input bytes alone, and the padded output holds
/// four characters for every started group of three input bytes. The
/// length bound keeps the engine's output-size computation from
/// overflowing, on which it panics.
#[verifier::external_body]
fn base64_encode(bytes: &Vec<u8>) -> (r: String)
    requires
        4 * ((bytes@.len() + 2) / 3) <= usize::MAX,
    ensures
        r@ == base64_std_of(bytes@),
        r@.len() == 4 * ((bytes@.len() + 2) / 3),
{
    base64::engine::general_purpose::STANDARD.encode(bytes)
}

/// The error string for an empty enumeration.
pub open spec fn no_screens_text() -> Seq<char> {
    "No screens found"@
}

/// The error string for a failed capture: `Failed to capture screen: <detail>`.
pub open spec fn capture_failed_text(detail: Seq<char>) -> Seq<char> {
    "Failed to capture screen: "@ + detail
}

/// The error string for a failed save: `Failed to save screenshot: <detail>`.
pub open spec fn save_failed_text(detail: Seq<char>) -> Seq<char> {
    "Failed to save screenshot: "@ + detail
}

/// The error string for a failed read-back: `Failed to read screenshot file: <detail>`.
pub open spec fn read_failed_text(detail: Seq<char>) -> Seq<char> {
    "Failed to read screenshot file: "@ + detail
}

/// A successful capture's result: the data-URL prefix, then the base64
/// encoding of the PNG bytes.
pub open spec fn data_url_text(png: Seq<u8>) -> Seq<char> {
    "data:image/png;base64,"@ + base64_std_of(png)
}

/// The decimal renderings of the bytes of `s`, separated by `, `.
pub open spec fn bytes_inner_text(s: Seq<u8>) -> Seq<char>
    decreases s.len(),
{
    if s.len() == 0 {
        Seq::empty()
    } else if s.len() == 1 {
        dec_text(s[0] as int)
    } else {
        dec_text(s[0] as int) + ", "@ + bytes_inner_text(s.drop_first())
    }
}

/// The error string for bytes lacking the PNG signature, listing up to
/// eight leading octets in decimal, bracketed.
pub open spec fn invalid_png_text(png: Seq<u8>) -> Seq<char> {
    "Invalid PNG data generated. First 8 bytes: "@ + "["@ + bytes_inner_text(
        png.take(if png.len() < 8 { png.len() as int } else { 8 }),
    ) + "]"@
}

/// The diagnostic line written before a capture:
/// `Capturing screen: <W>x<H> at (<X>, <Y>)`.
pub open spec fn capturing_line_text(d: DisplayInfo) -> Seq<char> {
    "Capturing screen: "@ + dec_text(d.width as int) + "x"@ + dec_text(d.height as int) + " at ("@
        + int_text(d.x as int) + ", "@ + int_text(d.y as int) + ")"@
}

/// The diagnostic line written after a successful capture:
/// `Captured image dimensions: <W>x<H>`.
pub open spec fn dimensions_line_text(w: int, h: int) -> Seq<char> {
    "Captured image dimensions: "@ + dec_text(w) + "x"@ + dec_text(h)
}

/// The diagnostic line written after encoding:
/// `Screenshot encoded successfully, PNG size: <n> bytes, base64 length: <m>`.
pub open spec fn encoded_line_text(png_len: int, b64_len: int) -> Seq<char> {
    "Screenshot encoded successfully, PNG size: "@ + dec_text(png_len)
        + " bytes, base64 length: "@ + dec_text(b64_len)
}

/// The transient file's name: `loopie_screenshot_<ms>.png`.
pub open spec fn temp_file_name_text(ms: int) -> Seq<char> {
    "loopie_screenshot_"@ + dec_text(ms) + ".png"@
}

/// Checks for the PNG signature.
pub fn validate_png(png: &Vec<u8>) -> (r: bool)
    ensures
        r == valid_png_bytes(png@),
{
    if png.len() < 8 {
        return false;
    }
    let r = png[0] == 0x89u8 && png[1] == 0x50u8 && png[2] == 0x4eu8 && png[3] == 0x47u8 && png[4]
        == 0x0du8 && png[5] == 0x0au8 && png[6] == 0x1au8 && png[7] == 0x0au8;
    proof {
        assert(forall|i: int| 0 <= i < 8 ==> #[trigger] png@.take(8)[i] == png@[i]);
        if r {
            assert(png@.take(8) =~= png_signature());
        } else {
            assert(png@.take(8) != png_signature());
        }
    }
    r
}

/// Appending a byte to a non-empty sequence extends its rendering by a
/// separator and the byte's decimal form.
proof fn lemma_bytes_inner_text_push(s: Seq<u8>, b: u8)
    requires
        s.len() >= 1,
    ensures
        bytes_inner_text(s.push(b)) == bytes_inner_text(s) + ", "@ + dec_text(b as int),
    decreases s.len(),
{
    if s.len() == 1 {
        assert(s.push(b).drop_first() =~= seq![b]);
        assert(bytes_inner_text(seq![b]) == dec_text(b as int));
        assert(bytes_inner_text(s.push(b)) =~= bytes_inner_text(s) + ", "@ + dec_text(b as int));
    } else {
        assert(s.push(b).drop_first() =~= s.drop_first().push(b));
        lemma_bytes_inner_text_push(s.drop_first(), b);
        assert(bytes_inner_text(s.push(b)) =~= bytes_inner_text(s) + ", "@ + dec_text(b as int));
    }
}

/// Builds the invalid-signature error string.
pub fn invalid_png_message(png: &Vec<u8>) -> (r: String)
    ensures
        r@ == invalid_png_text(png@),
{
    let k: usize = if png.len() < 8 {
        png.len()
    } else {
        8
    };
    let mut r = "Invalid PNG data generated. First 8 bytes: ".to_owned();
    r.append("[");
    proof {
        assert(png@.take(0) =~= Seq::<u8>::empty());
    }
    let mut i: usize = 0;
    while i < k
        invariant
            k <= png@.len(),
            0 <= i <= k,
            r@ == "Invalid PNG data generated. First 8 bytes: "@ + "["@ + bytes_inner_text(
                png@.take(i as int),
            ),
        decreases k - i,
    {
        if i > 0 {
            r.append(", ");
        }
        r.append(u64_to_string(png[i] as u64).as_str());
        proof {
            let prefix = png@.take(i as int);
            assert(prefix.push(png@[i as int]) =~= png@.take(i as int + 1));
            if i > 0 {
                lemma_bytes_inner_text_push(prefix, png@[i as int]);
            } else {
                assert(bytes_inner_text(seq![png@[0]]) == dec_text(png@[0] as int));
                assert(png@.take(1) =~= seq![png@[0]]);
            }
            assert(r@ =~= "Invalid PNG data generated. First 8 bytes: "@ + "["@
                + bytes_inner_text(png@.take(i as int + 1)));
        }
        i += 1;
    }
    r.append("]");
    proof {
        assert(r@ =~= invalid_png_text(png@));
    }
    r
}

/// Builds the capture-failure message; the same text goes to the result
/// and, as a diagnostic, to standard error.
pub fn capture_failed_message(detail: &str) -> (r: String)
    ensures
        r@ == capture_failed_text(detail@),
{
    let mut r = "Failed to capture screen: ".to_owned();
    r.append(detail);
    r
}

/// Builds the save-failure message.
pub fn save_failed_message(detail: &str) -> (r: String)
    ensures
        r@ == save_failed_text(detail@),
{
    let mut r = "Failed to save screenshot: ".to_owned();
    r.append(detail);
    r
}

/// Builds the read-failure message.
pub fn read_failed_message(detail: &str) -> (r: String)
    ensures
        r@ == read_failed_text(detail@),
{
    let mut r = "Failed to read screenshot file: ".to_owned();
    r.append(detail);
    r
}

/// Builds the pre-capture diagnostic line.
pub fn capturing_line(d: &DisplayInfo) -> (r: String)
    ensures
        r@ == capturing_line_text(*d),
{
    let mut r = "Capturing screen: ".to_owned();
    r.append(u64_to_string(d.width as u64).as_str());
    r.append("x");
    r.append(u64_to_string(d.height as u64).as_str());
    r.append(" at (");
    r.append(i64_to_string(d.x as i64).as_str());
    r.append(", ");
    r.append(i64_to_string(d.y as i64).as_str());
    r.append(")");
    proof {
        assert(r@ =~= capturing_line_text(*d));
    }
    r
}

/// Builds the post-capture diagnostic line.
pub fn dimensions_line(width: u32, height: u32) -> (r: String)
    ensures
        r@ == dimensions_line_text(width as int, height as int),
{
    let mut r = "Captured image dimensions: ".to_owned();
    r.append(u64_to_string(width as u64).as_str());
    r.append("x");
    r.append(u64_to_string(height as u64).as_str());
    proof {
        assert(r@ =~= dimensions_line_text(width as int, height as int));
    }
    r
}

/// Builds the transient file's name from a millisecond timestamp.
pub fn temp_file_name(timestamp_ms: u64) -> (r: String)
    ensures
        r@ == temp_file_name_text(timestamp_ms as int),
{
    let mut r = "loopie_screenshot_".to_owned();
    r.append(u64_to_string(timestamp_ms).as_str());
    r.append(".png");
    proof {
        assert(r@ =~= temp_file_name_text(timestamp_ms as int));
    }
    r
}

/// The first stage of the capture handler, given the outcome of display
/// enumeration: the index of the display to capture — the first marked
/// primary, or the first enumerated when none is — or the final error
/// string when enumeration failed or listed no displays.
pub fn capture_begin(screens: Result<Vec<DisplayInfo>, String>) -> (r: Result<usize, String>)
    ensures
        screens matches Ok(s) ==> ((s@.len() > 0 ==> (r matches Ok(i) && i as int == selected_index(
            s@,
        ) && i < s@.len())) && (s@.len() == 0 ==> (r matches Err(m) && m@ == no_screens_text()))),
        screens matches Err(detail) ==> (r matches Err(m) && m@ == enumerate_failed_text(detail@)),
{
    match screens {
        Ok(s) => {
            match select_display(&s) {
                Some(i) => {
                    proof {
                        lemma_selected_index(s@);
                    }
                    Ok(i)
                },
                None => Err("No screens found".to_owned()),
            }
        },
        Err(e) => Err(enumerate_failed_message(e.as_str())),
    }
}

/// The final stage of the capture handler, given the PNG bytes read back
/// from the transient file: on a valid PNG signature, the data URL and the
/// diagnostic line reporting the sizes; on a mismatch, the final error
/// string. The length bound — the encoded form must fit in a `usize` — is
/// the machine limit of the base64 engine.
pub fn capture_finish(png: Vec<u8>) -> (r: Result<(String, String), String>)
    requires
        4 * ((png@.len() + 2) / 3) <= usize::MAX,
    ensures
        valid_png_bytes(png@) ==> (r matches Ok(p) && p.0@ == data_url_text(png@) && p.1@
            == encoded_line_text(png@.len() as int, (4 * ((png@.len() + 2) / 3)) as int)),
        !valid_png_bytes(png@) ==> (r matches Err(m) && m@ == invalid_png_text(png@)),
{
    if !validate_png(&png) {
        return Err(invalid_png_message(&png));
    }
    let b64 = base64_encode(&png);
    let b64_len = b64.as_str().unicode_len();
    let mut url = "data:image/png;base64,".to_owned();
    url.append(b64.as_str());
    let mut line = "Screenshot encoded successfully, PNG size: ".to_owned();
    line.append(u64_to_string(png.len() as u64).as_str());
    line.append(" bytes, base64 length: ");
    line.append(u64_to_string(b64_len as u64).as_str());
    proof {
        assert(line@ =~= encoded_line_text(png@.len() as int, (4 * ((png@.len() + 2) / 3)) as int));
    }
    Ok((url, line))
}

/// A successful capture result is the 22-character data-URL prefix followed
/// by the base64 encoding of the PNG bytes, which begin with the signature.
pub proof fn lemma_capture_result_shape(png: Seq<u8>)
    requires
        valid_png_bytes(png),
    ensures
        data_url_text(png).take(22) == "data:image/png;base64,"@,
        data_url_text(png).skip(22) == base64_std_of(png),
        png.len() >= 8,
        png.take(8) == png_signature(),
{
    reveal_strlit("data:image/png;base64,");
    assert(data_url_text(png).take(22) =~= "data:image/png;base64,"@);
    assert(data_url_text(png).skip(22) =~= base64_std_of(png));
}

/// Every failure message either handler can return is non-empty.
pub proof fn lemma_failure_messages_nonempty(detail: Seq<char>, png: Seq<u8>)
    ensures
        enumerate_failed_text(detail).len() > 0,
        no_screens_text().len() > 0,
        capture_failed_text(detail).len() > 0,
        save_failed_text(detail).len() > 0,
        read_failed_text(detail).len() > 0,
        invalid_png_text(png).len() > 0,
{
    reveal_strlit("Failed to get screens: ");
    reveal_strlit("No screens found");
    reveal_strlit("Failed to capture screen: ");
    reveal_strlit("Failed to save screenshot: ");
    reveal_strlit("Failed to read screenshot file: ");
    reveal_strlit("Invalid PNG data generated. First 8 bytes: ");
}

} // verus!
