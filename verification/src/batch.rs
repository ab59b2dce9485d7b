//! Batch orchestration.
//!
//! The request's input list is resolved into one [`BatchItem`] per file,
//! in order — no file is dropped or duplicated — and each item gets the
//! output path the naming policy derives for it, with a fresh token drawn
//! in case no base name was given. A derived path that equals its own
//! source is refused up front, before any item is dispatched: converting
//! such an item would overwrite the source and, without keep-original, then
//! delete the freshly written file. The items of an accepted plan are
//! independent: a driver may convert them concurrently, in any order, each
//! through the step functions of [`crate::convert`], and collect one
//! outcome per item.

use vstd::prelude::*;

use crate::config::ConfigError;
use crate::config::ConversionRequest;
use crate::naming::base_view;
use crate::naming::derive_output_path;
use crate::naming::fresh_token;
use crate::naming::spec_output_path;
use crate::naming::valid_token;

verus! {

/// One dispatched unit of work: an input file, its position in the input
/// list, and the output path derived for it.
#[derive(Clone, Debug)]
pub struct BatchItem {
    /// The input file.
    pub source_path: String,
    /// The file's position in the request's input list.
    pub index: usize,
    /// Where the converted file is to be written.
    pub output_path: String,
    /// The token that stands in for a missing base name.
    pub token: String,
}

/// The plan covers the request exactly: one item per input file, in the
/// input order, each carrying the output path that the naming policy
/// derives for its source, its index, the batch size and its token — and
/// that output path never equals the item's own source.
pub open spec fn is_batch_plan(items: Seq<BatchItem>, req: ConversionRequest) -> bool {
    &&& items.len() == req.files@.len()
    &&& forall|i: int|
        0 <= i < items.len() ==> {
            let it = #[trigger] items[i];
            &&& it.index == i
            &&& it.source_path@ == req.files@[i]@
            &&& valid_token(it.token@)
            &&& it.output_path@ == spec_output_path(
                req.files@[i]@,
                base_view(req.output_base_name),
                i,
                req.files@.len() as int,
                it.token@,
            )
            &&& it.output_path@ != it.source_path@
        }
}

/// Some input's derived output path is the input itself: for one of the
/// files there is a token under which the naming policy maps it onto its
/// own path, so the plan was refused to protect the source.
pub open spec fn some_item_collides(req: ConversionRequest) -> bool {
    exists|i: int, t: Seq<char>|
        0 <= i < req.files@.len() && valid_token(t) && #[trigger] spec_output_path(
            req.files@[i]@,
            base_view(req.output_base_name),
            i,
            req.files@.len() as int,
            t,
        ) == req.files@[i]@
}

/// Resolves the request into one batch item per input file. An accepted
/// plan has exactly as many items as the request has files, in the same
/// order, and no item's output path equals its source, so an outcome
/// collected for each item is an outcome for each input and no source is
/// overwritten by its own conversion. A request under which some file's
/// derived path would be the file itself is refused whole, before any item
/// is dispatched.
pub fn plan_batch(req: &ConversionRequest) -> (r: Result<Vec<BatchItem>, ConfigError>)
    ensures
        r matches Ok(items) ==> is_batch_plan(items@, *req),
        r matches Err(e) ==> e == ConfigError::OutputCollidesWithSource && some_item_collides(
            *req,
        ),
{
    let n = req.files.len();
    let mut items: Vec<BatchItem> = Vec::new();
    let mut i: usize = 0;
    while i < n
        invariant
            i <= n,
            n == req.files@.len(),
            items@.len() == i,
            forall|j: int|
                0 <= j < i ==> {
                    let it = #[trigger] items@[j];
                    &&& it.index == j
                    &&& it.source_path@ == req.files@[j]@
                    &&& valid_token(it.token@)
                    &&& it.output_path@ == spec_output_path(
                        req.files@[j]@,
                        base_view(req.output_base_name),
                        j,
                        n as int,
                        it.token@,
                    )
                    &&& it.output_path@ != it.source_path@
                },
        decreases n - i,
    {
        let token = fresh_token();
        let source = req.files[i].clone();
        let output_path = derive_output_path(
            source.as_str(),
            &req.output_base_name,
            i,
            n,
            token.as_str(),
        );
        if output_path == source {
            proof {
                let wi = i as int;
                let wt = token@;
                assert(spec_output_path(
                    req.files@[wi]@,
                    base_view(req.output_base_name),
                    wi,
                    n as int,
                    wt,
                ) == req.files@[wi]@);
            }
            return Err(ConfigError::OutputCollidesWithSource);
        }
        items.push(BatchItem { source_path: source, index: i, output_path, token });
        i = i + 1;
    }
    Ok(items)
}

} // verus!
