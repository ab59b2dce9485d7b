//! Single-item converter.
//!
//! One input file is converted in at most three steps: decode and encode
//! (pure, done here), write the payload to the output path, and — only after
//! a fully successful write, and only when the original is not kept — delete
//! the source. The surrounding program performs the file operations; this
//! module decides them. Each step function returns the next
//! [`ConvertAction`], and its contract pins that decision down, so the rules
//! "a failed write never deletes the source" and "keep-original suppresses
//! every delete" are proved here rather than hoped for.

use vstd::prelude::*;

use crate::codec;
use crate::codec::decoded_rgb;
use crate::codec::encodable_dims;
use crate::codec::webp_encoding;

verus! {

/// What went wrong with one item.
#[derive(Clone, Copy, Debug, PartialEq, Eq)]
pub enum ErrorKind {
    /// The input was unreadable, truncated, or not a recognized image.
    DecodeError,
    /// The encoder failed on the decoded pixels.
    EncodeError,
    /// The output file could not be created or written in full.
    WriteError,
    /// The new file was written, but the original could not be removed.
    DeleteError,
}

/// The reported end of one item's conversion.
#[derive(Clone, Debug, PartialEq, Eq)]
pub struct ConversionOutcome {
    pub source_path: String,
    pub output_path: Option<String>,
    pub error: Option<ErrorKind>,
}

/// What the surrounding program is to do next for this item.
#[derive(Debug)]
pub enum ConvertAction {
    /// Create the file at `output_path` and write `payload` in full, then
    /// report back through [`after_write`].
    WriteOutput { output_path: String, payload: Vec<u8> },
    /// Delete the source file, then report back through [`after_delete`].
    DeleteSource,
    /// The item is finished; nothing more may be done to its files.
    Finish(ConversionOutcome),
}

/// An outcome that reports the given error and no output.
pub open spec fn is_failure(o: ConversionOutcome, source: Seq<char>, kind: ErrorKind) -> bool {
    &&& o.source_path@ == source
    &&& o.output_path is None
    &&& o.error == Some(kind)
}

/// An outcome that reports full success: the output exists and nothing
/// went wrong.
pub open spec fn is_success(o: ConversionOutcome, source: Seq<char>, output: Seq<char>) -> bool {
    &&& o.source_path@ == source
    &&& o.output_path matches Some(p) && p@ == output
    &&& o.error is None
}

/// An outcome that reports a converted output whose source could not be
/// cleaned up afterwards: success of the conversion, with the delete
/// failure attached.
pub open spec fn is_partial_success(
    o: ConversionOutcome,
    source: Seq<char>,
    output: Seq<char>,
) -> bool {
    &&& o.source_path@ == source
    &&& o.output_path matches Some(p) && p@ == output
    &&& o.error == Some(ErrorKind::DeleteError)
}

/// The bytes read from the source, as a mathematical value; `None` when the
/// file could not be read.
pub open spec fn bytes_view(o: Option<Vec<u8>>) -> Option<Seq<u8>> {
    match o {
        Option::Some(b) => Option::Some(b@),
        Option::None => Option::None,
    }
}

/// Everything [`process_image`] decides, as a predicate on its result:
/// unreadable or undecodable bytes end the item at once with a decode
/// error; a decoded image that the encoder rejects ends it with an encode
/// error; otherwise the encoder's exact payload is handed out to be written
/// at the output path. No other action — in particular no delete — can come
/// out of this step.
pub open spec fn post_process_image(
    source: Seq<char>,
    output: Seq<char>,
    quality: int,
    bytes: Option<Seq<u8>>,
    r: ConvertAction,
) -> bool {
    match bytes {
        Option::None => r matches ConvertAction::Finish(o) && is_failure(
            o,
            source,
            ErrorKind::DecodeError,
        ),
        Option::Some(b) => match decoded_rgb(b) {
            Option::None => r matches ConvertAction::Finish(o) && is_failure(
                o,
                source,
                ErrorKind::DecodeError,
            ),
            Option::Some(d) => if encodable_dims(d.1, d.2) && webp_encoding(
                d.0,
                d.1,
                d.2,
                quality,
            ) is Some {
                r matches ConvertAction::WriteOutput { output_path: op, payload }
                    && op@ == output
                    && Some(payload@) == webp_encoding(d.0, d.1, d.2, quality)
                    && payload@.len() > 0
            } else {
                r matches ConvertAction::Finish(o) && is_failure(o, source, ErrorKind::EncodeError)
            },
        },
    }
}

fn failure_outcome(source_path: &str, kind: ErrorKind) -> (o: ConversionOutcome)
    ensures
        is_failure(o, source_path@, kind),
{
    ConversionOutcome {
        source_path: String::from_str(source_path),
        output_path: None,
        error: Some(kind),
    }
}

/// Decodes the bytes read from the source and encodes them as WebP at the
/// given quality, deciding the item's first step. `source_bytes` is `None`
/// when the source could not be read at all, which counts as a decode
/// failure.
pub fn process_image(
    source_path: &str,
    output_path: &str,
    quality: u8,
    source_bytes: Option<Vec<u8>>,
) -> (r: ConvertAction)
    requires
        1 <= quality <= 100,
    ensures
        post_process_image(source_path@, output_path@, quality as int, bytes_view(source_bytes), r),
{
    let bytes = match source_bytes {
        Option::None => {
            return ConvertAction::Finish(failure_outcome(source_path, ErrorKind::DecodeError));
        },
        Option::Some(b) => b,
    };
    let img = match codec::decode(&bytes) {
        Option::None => {
            return ConvertAction::Finish(failure_outcome(source_path, ErrorKind::DecodeError));
        },
        Option::Some(img) => img,
    };
    match codec::encode(&img, quality) {
        Option::None => ConvertAction::Finish(failure_outcome(source_path, ErrorKind::EncodeError)),
        Option::Some(payload) => ConvertAction::WriteOutput {
            output_path: String::from_str(output_path),
            payload,
        },
    }
}

/// Everything [`after_write`] decides: a failed write ends the item with a
/// write error and no recorded output; a successful write ends it in
/// success when the original is kept, and asks for the source to be deleted
/// only when the write succeeded and the original is not kept.
pub open spec fn post_after_write(
    source: Seq<char>,
    output: Seq<char>,
    keep_original: bool,
    write_ok: bool,
    r: ConvertAction,
) -> bool {
    if !write_ok {
        r matches ConvertAction::Finish(o) && is_failure(o, source, ErrorKind::WriteError)
    } else if keep_original {
        r matches ConvertAction::Finish(o) && is_success(o, source, output)
    } else {
        r is DeleteSource
    }
}

/// Decides the step after the write of the output file was attempted.
pub fn after_write(
    source_path: &str,
    output_path: &str,
    keep_original: bool,
    write_ok: bool,
) -> (r: ConvertAction)
    ensures
        post_after_write(source_path@, output_path@, keep_original, write_ok, r),
{
    if !write_ok {
        ConvertAction::Finish(failure_outcome(source_path, ErrorKind::WriteError))
    } else if keep_original {
        ConvertAction::Finish(
            ConversionOutcome {
                source_path: String::from_str(source_path),
                output_path: Some(String::from_str(output_path)),
                error: None,
            },
        )
    } else {
        ConvertAction::DeleteSource
    }
}

/// Everything [`after_delete`] decides: a successful delete ends the item
/// in success; a failed delete still reports the converted output, with the
/// cleanup failure attached, and never rolls the new file back.
pub open spec fn post_after_delete(
    source: Seq<char>,
    output: Seq<char>,
    delete_ok: bool,
    o: ConversionOutcome,
) -> bool {
    if delete_ok {
        is_success(o, source, output)
    } else {
        is_partial_success(o, source, output)
    }
}

/// Decides the item's outcome after the delete of the source was attempted.
pub fn after_delete(source_path: &str, output_path: &str, delete_ok: bool) -> (o: ConversionOutcome)
    ensures
        post_after_delete(source_path@, output_path@, delete_ok, o),
{
    ConversionOutcome {
        source_path: String::from_str(source_path),
        output_path: Some(String::from_str(output_path)),
        error: if delete_ok {
            None
        } else {
            Some(ErrorKind::DeleteError)
        },
    }
}

/// With keep-original set, no step of a conversion ever asks for the source
/// file to be deleted, whether the item succeeds or fails: the source file
/// outlives the conversion.
pub proof fn lemma_keep_original_never_deletes(
    source: Seq<char>,
    output: Seq<char>,
    quality: int,
    bytes: Option<Seq<u8>>,
    write_ok: bool,
    r1: ConvertAction,
    r2: ConvertAction,
)
    requires
        post_process_image(source, output, quality, bytes, r1),
        post_after_write(source, output, true, write_ok, r2),
    ensures
        !(r1 is DeleteSource),
        !(r2 is DeleteSource),
{
}

/// Every terminal outcome of an item's conversion names that item's own
/// source, whichever step it ends at: a driver that runs each planned item
/// start to finish therefore collects exactly one outcome per input file,
/// none dropped, none duplicated, none attributed to another input.
pub proof fn lemma_outcome_names_its_source(
    source: Seq<char>,
    output: Seq<char>,
    quality: int,
    bytes: Option<Seq<u8>>,
    keep_original: bool,
    write_ok: bool,
    delete_ok: bool,
    r1: ConvertAction,
    r2: ConvertAction,
    o3: ConversionOutcome,
)
    requires
        post_process_image(source, output, quality, bytes, r1),
        post_after_write(source, output, keep_original, write_ok, r2),
        post_after_delete(source, output, delete_ok, o3),
    ensures
        r1 matches ConvertAction::Finish(o) ==> o.source_path@ == source,
        r2 matches ConvertAction::Finish(o) ==> o.source_path@ == source,
        o3.source_path@ == source,
{
}

/// The source file is deleted only after its replacement was fully and
/// successfully written, and only when the original is not kept; an item
/// that fails at decode, encode or write ends at once, with no output path
/// recorded and no delete requested.
pub proof fn lemma_failure_leaves_source_and_no_output(
    source: Seq<char>,
    output: Seq<char>,
    quality: int,
    bytes: Option<Seq<u8>>,
    keep_original: bool,
    write_ok: bool,
    r1: ConvertAction,
    r2: ConvertAction,
)
    requires
        post_process_image(source, output, quality, bytes, r1),
        post_after_write(source, output, keep_original, write_ok, r2),
    ensures
        !(r1 is DeleteSource),
        r1 matches ConvertAction::Finish(o) ==> o.output_path is None && (o.error == Some(
            ErrorKind::DecodeError,
        ) || o.error == Some(ErrorKind::EncodeError)),
        r2 is DeleteSource ==> write_ok && !keep_original,
        !write_ok ==> (r2 matches ConvertAction::Finish(o) && o.output_path is None && o.error
            == Some(ErrorKind::WriteError)),
{
}

} // verus!
