//! The wire-schema decoder: dispatches a parsed JSON object on its `type`
//! discriminator onto the event model, reading the fields under their wire
//! names.  Per field, a key that occurs twice is an error, an unknown key is
//! ignored, a missing optional field (or an explicit `null`) is `None`, a
//! missing list field is empty, and anything else missing or of the wrong
//! shape is an error.  `dv_stream_event` defines the mapping over the ghost
//! JSON tree; the executable decoder is proved to follow it exactly.

use vstd::prelude::*;

use crate::event::{
    AnnotationAddedDataView,
    AnnotationView,
    ContentPartAddedDataView,
    ContentPartDoneDataView,
    ContentPartView,
    FunctionCallArgumentsDeltaDataView,
    FunctionCallArgumentsDoneDataView,
    FunctionCallItemView,
    ItemStatus,
    MessageItemView,
    OutputItemAddedDataView,
    OutputItemDoneDataView,
    OutputItemView,
    OutputTextDeltaDataView,
    OutputTextDoneDataView,
    OutputTextPartView,
    ReasoningItemView,
    ReasoningSummaryPartAddedDataView,
    ReasoningSummaryPartDoneDataView,
    ReasoningSummaryTextDeltaDataView,
    ReasoningSummaryTextDoneDataView,
    ReasoningTextDeltaDataView,
    ReasoningTextDoneDataView,
    ReasoningTextPartView,
    ResponseCompletedDataView,
    ResponseCreatedDataView,
    ResponseInProgressDataView,
    ResponseMetadataView,
    ResponseStatus,
    StreamEventView,
    SummaryContentView,
    SummaryPartView,
    SummaryTextPartView,
    UrlCitationView,
    UsageInfoView,
};
use crate::json::{resolve_arr, resolve_obj, JsonValue, JsonView};
use crate::raw::{
    RawAnnotation,
    RawAnnotationAddedData,
    RawContentPart,
    RawContentPartAddedData,
    RawContentPartDoneData,
    RawFunctionCallArgumentsDeltaData,
    RawFunctionCallArgumentsDoneData,
    RawFunctionCallItem,
    RawMessageItem,
    RawOutputItem,
    RawOutputItemAddedData,
    RawOutputItemDoneData,
    RawOutputTextDeltaData,
    RawOutputTextDoneData,
    RawOutputTextPart,
    RawReasoningItem,
    RawReasoningSummaryPartAddedData,
    RawReasoningSummaryPartDoneData,
    RawReasoningSummaryTextDeltaData,
    RawReasoningSummaryTextDoneData,
    RawReasoningTextDeltaData,
    RawReasoningTextDoneData,
    RawReasoningTextPart,
    RawResponseCompletedData,
    RawResponseCreatedData,
    RawResponseInProgressData,
    RawResponseMetadata,
    RawStreamEvent,
    RawSummaryContent,
    RawSummaryPart,
    RawSummaryTextPart,
    RawUrlCitation,
    RawUsageInfo,
    resolve_seq_annotation,
    resolve_seq_content_part,
    resolve_seq_summary_part,
};
use crate::text::RawText;

verus! {

/// A payload whose JSON shape does not fit the wire schema.
pub struct DecodeFault;

/// Well-formedness of an object's member list against the payload buffer.
pub open spec fn members_wf(m: Seq<(RawText, JsonValue)>, buf: Seq<u8>) -> bool {
    forall|i: int| 0 <= i < m.len() ==> (#[trigger] m[i]).0.wf(buf) && m[i].1.wf(buf)
}

/// Convertibility of an object's member list: every string leaf below it can
/// become an owned handle (what the parser guarantees for a valid-UTF-8
/// payload buffer).
pub open spec fn members_tok(m: Seq<(RawText, JsonValue)>, buf: Seq<u8>) -> bool {
    forall|i: int| 0 <= i < m.len() ==> (#[trigger] m[i]).0.text_ok(buf) && m[i].1.texts_ok(buf)
}

/// Convertibility of a field lookup's result.
pub open spec fn opt_tok(f: Option<&JsonValue>, buf: Seq<u8>) -> bool {
    match f {
        Some(v) => v.texts_ok(buf),
        None => true,
    }
}

/// How often `k` occurs among the member keys.
pub open spec fn key_count(m: Seq<(Seq<u8>, JsonView)>, k: Seq<u8>) -> nat
    decreases m.len(),
{
    if m.len() == 0 {
        0
    } else {
        key_count(m.drop_last(), k) + if m.last().0 == k {
            1nat
        } else {
            0nat
        }
    }
}

/// The value under the first occurrence of `k`.
pub open spec fn key_first(m: Seq<(Seq<u8>, JsonView)>, k: Seq<u8>) -> Option<JsonView>
    decreases m.len(),
{
    if m.len() == 0 {
        None
    } else {
        match key_first(m.drop_last(), k) {
            Some(v) => Some(v),
            None => if m.last().0 == k {
                Some(m.last().1)
            } else {
                None
            },
        }
    }
}

/// Field lookup with the duplicate handling the schema asks for: a key that
/// occurs more than once is an error, otherwise its value (if any).
pub open spec fn spec_find(m: Seq<(Seq<u8>, JsonView)>, k: Seq<u8>) -> Result<
    Option<JsonView>,
    (),
> {
    if key_count(m, k) >= 2 {
        Err(())
    } else {
        Ok(key_first(m, k))
    }
}

pub open spec fn opt_resolve(f: Option<&JsonValue>, buf: Seq<u8>) -> Option<JsonView> {
    match f {
        Some(v) => Some(v.resolve(buf)),
        None => None,
    }
}

proof fn lemma_key_push(m: Seq<(Seq<u8>, JsonView)>, p: (Seq<u8>, JsonView), k: Seq<u8>)
    ensures
        key_count(m.push(p), k) == key_count(m, k) + if p.0 == k {
            1nat
        } else {
            0nat
        },
        key_first(m.push(p), k) == (match key_first(m, k) {
            Some(v) => Some(v),
            None => if p.0 == k {
                Some(p.1)
            } else {
                None
            },
        }),
{
    assert(m.push(p).drop_last() =~= m);
    assert(m.push(p).last() == p);
}

proof fn lemma_resolve_obj_take(m: Seq<(RawText, JsonValue)>, buf: Seq<u8>, i: int)
    requires
        0 <= i < m.len(),
    ensures
        resolve_obj(m.subrange(0, i + 1), buf) == resolve_obj(m.subrange(0, i), buf).push(
            (m[i].0.resolve(buf), m[i].1.resolve(buf)),
        ),
{
    assert(m.subrange(0, i + 1).drop_last() =~= m.subrange(0, i));
    assert(m.subrange(0, i + 1).last() == m[i]);
}

/// A later prefix of the member walk never loses key occurrences.
proof fn lemma_key_count_grow(m: Seq<(RawText, JsonValue)>, buf: Seq<u8>, k: Seq<u8>, j: int)
    requires
        0 <= j <= m.len(),
    ensures
        key_count(resolve_obj(m, buf), k) >= key_count(
            resolve_obj(m.subrange(0, j), buf),
            k,
        ),
    decreases m.len() - j,
{
    if j == m.len() {
        assert(m.subrange(0, j) =~= m);
    } else {
        lemma_resolve_obj_take(m, buf, j);
        lemma_key_push(
            resolve_obj(m.subrange(0, j), buf),
            (m[j].0.resolve(buf), m[j].1.resolve(buf)),
            k,
        );
        lemma_key_count_grow(m, buf, k, j + 1);
    }
}

/// Byte-for-byte slice equality.
pub fn bytes_eq(a: &[u8], b: &[u8]) -> (r: bool)
    ensures
        r <==> a@ == b@,
{
    if a.len() != b.len() {
        return false;
    }
    let mut i: usize = 0;
    while i < a.len()
        invariant
            i <= a@.len(),
            a@.len() == b@.len(),
            forall|j: int| 0 <= j < i ==> a@[j] == b@[j],
        decreases a@.len() - i,
    {
        if a[i] != b[i] {
            return false;
        }
        i = i + 1;
    }
    proof {
        assert(a@ =~= b@);
    }
    true
}

/// A decoded leaf's bytes, read against the payload buffer.
pub fn raw_bytes<'a>(t: &'a RawText, data: &'a [u8]) -> (r: &'a [u8])
    requires
        t.wf(data@),
    ensures
        r@ == t.resolve(data@),
{
    match t {
        RawText::Window { start, end } => &data[*start..*end],
        RawText::Fresh(v) => v.as_slice(),
    }
}

/// Looks a key up among an object's members: its (first) value, nothing when
/// it is absent, an error when it occurs twice.
pub fn find_key<'a>(members: &'a Vec<(RawText, JsonValue)>, data: &[u8], k: &[u8]) -> (r: Result<
    Option<&'a JsonValue>,
    DecodeFault,
>)
    requires
        members_wf(members@, data@),
    ensures
        r matches Ok(f) ==> {
            &&& spec_find(resolve_obj(members@, data@), k@) == Ok::<Option<JsonView>, ()>(
                opt_resolve(f, data@),
            )
            &&& (f matches Some(v) ==> v.wf(data@))
            &&& (members_tok(members@, data@) ==> opt_tok(f, data@))
        },
        r is Err ==> spec_find(resolve_obj(members@, data@), k@) is Err,
{
    let mut found: Option<usize> = None;
    let mut i: usize = 0;
    proof {
        assert(members@.subrange(0, 0) =~= Seq::<(RawText, JsonValue)>::empty());
    }
    while i < members.len()
        invariant
            members_wf(members@, data@),
            i <= members@.len(),
            match found {
                Some(idx) => idx < i && members@[idx as int].1.wf(data@) && key_count(
                    resolve_obj(members@.subrange(0, i as int), data@),
                    k@,
                ) == 1 && key_first(resolve_obj(members@.subrange(0, i as int), data@), k@)
                    == Some(members@[idx as int].1.resolve(data@)),
                None => key_count(resolve_obj(members@.subrange(0, i as int), data@), k@) == 0
                    && key_first(resolve_obj(members@.subrange(0, i as int), data@), k@) is None,
            },
        decreases members@.len() - i,
    {
        let pair = &members[i];
        let hit = bytes_eq(raw_bytes(&pair.0, data), k);
        proof {
            lemma_resolve_obj_take(members@, data@, i as int);
            lemma_key_push(
                resolve_obj(members@.subrange(0, i as int), data@),
                (members@[i as int].0.resolve(data@), members@[i as int].1.resolve(data@)),
                k@,
            );
        }
        if hit {
            if found.is_some() {
                proof {
                    lemma_key_count_grow(members@, data@, k@, i + 1);
                }
                return Err(DecodeFault);
            }
            found = Some(i);
        }
        i = i + 1;
    }
    proof {
        assert(members@.subrange(0, members@.len() as int) =~= members@);
    }
    match found {
        Some(idx) => Ok(Some(&members[idx].1)),
        None => Ok(None),
    }
}

// ---------------------------------------------------------------------------
// Leaves
// ---------------------------------------------------------------------------

pub open spec fn dv_text(j: JsonView) -> Option<Seq<u8>> {
    match j {
        JsonView::Text(c) => Some(c),
        _ => None,
    }
}

pub open spec fn dv_u64(j: JsonView) -> Option<u64> {
    match j {
        JsonView::Num { val, .. } => val,
        _ => None,
    }
}

pub open spec fn dv_u32(j: JsonView) -> Option<u32> {
    match j {
        JsonView::Num { val: Some(v), .. } => if v <= 0xFFFF_FFFF {
            Some(v as u32)
        } else {
            None
        },
        _ => None,
    }
}

pub open spec fn dv_rawnum(j: JsonView) -> Option<Seq<u8>> {
    match j {
        JsonView::Num { raw, .. } => Some(raw),
        _ => None,
    }
}

pub open spec fn dv_rstatus(j: JsonView) -> Option<ResponseStatus> {
    match j {
        JsonView::Text(c) => if c == lit_in_progress_view() {
            Some(ResponseStatus::InProgress)
        } else if c == lit_completed_view() {
            Some(ResponseStatus::Completed)
        } else {
            None
        },
        _ => None,
    }
}

pub open spec fn dv_istatus(j: JsonView) -> Option<ItemStatus> {
    match j {
        JsonView::Text(c) => if c == lit_in_progress_view() {
            Some(ItemStatus::InProgress)
        } else if c == lit_completed_view() {
            Some(ItemStatus::Completed)
        } else {
            None
        },
        _ => None,
    }
}

/// `"annotation"` as bytes.
pub open spec fn key_annotation_view() -> Seq<u8> {
    seq![97u8, 110u8, 110u8, 111u8, 116u8, 97u8, 116u8, 105u8, 111u8, 110u8]
}

fn key_annotation() -> (r: [u8; 10]) 
    ensures
        r@ == key_annotation_view(),
{
    let a = [0x61u8, 0x6Eu8, 0x6Eu8, 0x6Fu8, 0x74u8, 0x61u8, 0x74u8, 0x69u8, 0x6Fu8, 0x6Eu8];
    proof {
        assert(a@ =~= key_annotation_view());
    }
    a
}

/// `"annotation_index"` as bytes.
pub open spec fn key_annotation_index_view() -> Seq<u8> {
    seq![97u8, 110u8, 110u8, 111u8, 116u8, 97u8, 116u8, 105u8, 111u8, 110u8, 95u8, 105u8, 110u8, 100u8, 101u8, 120u8]
}

fn key_annotation_index() -> (r: [u8; 16]) 
    ensures
        r@ == key_annotation_index_view(),
{
    let a = [0x61u8, 0x6Eu8, 0x6Eu8, 0x6Fu8, 0x74u8, 0x61u8, 0x74u8, 0x69u8, 0x6Fu8, 0x6Eu8, 0x5Fu8, 0x69u8, 0x6Eu8, 0x64u8, 0x65u8, 0x78u8];
    proof {
        assert(a@ =~= key_annotation_index_view());
    }
    a
}

/// `"annotations"` as bytes.
pub open spec fn key_annotations_view() -> Seq<u8> {
    seq![97u8, 110u8, 110u8, 111u8, 116u8, 97u8, 116u8, 105u8, 111u8, 110u8, 115u8]
}

fn key_annotations() -> (r: [u8; 11]) 
    ensures
        r@ == key_annotations_view(),
{
    let a = [0x61u8, 0x6Eu8, 0x6Eu8, 0x6Fu8, 0x74u8, 0x61u8, 0x74u8, 0x69u8, 0x6Fu8, 0x6Eu8, 0x73u8];
    proof {
        assert(a@ =~= key_annotations_view());
    }
    a
}

/// `"arguments"` as bytes.
pub open spec fn key_arguments_view() -> Seq<u8> {
    seq![97u8, 114u8, 103u8, 117u8, 109u8, 101u8, 110u8, 116u8, 115u8]
}

fn key_arguments() -> (r: [u8; 9]) 
    ensures
        r@ == key_arguments_view(),
{
    let a = [0x61u8, 0x72u8, 0x67u8, 0x75u8, 0x6Du8, 0x65u8, 0x6Eu8, 0x74u8, 0x73u8];
    proof {
        assert(a@ =~= key_arguments_view());
    }
    a
}

/// `"call_id"` as bytes.
pub open spec fn key_call_id_view() -> Seq<u8> {
    seq![99u8, 97u8, 108u8, 108u8, 95u8, 105u8, 100u8]
}

fn key_call_id() -> (r: [u8; 7]) 
    ensures
        r@ == key_call_id_view(),
{
    let a = [0x63u8, 0x61u8, 0x6Cu8, 0x6Cu8, 0x5Fu8, 0x69u8, 0x64u8];
    proof {
        assert(a@ =~= key_call_id_view());
    }
    a
}

/// `"content"` as bytes.
pub open spec fn key_content_view() -> Seq<u8> {
    seq![99u8, 111u8, 110u8, 116u8, 101u8, 110u8, 116u8]
}

fn key_content() -> (r: [u8; 7]) 
    ensures
        r@ == key_content_view(),
{
    let a = [0x63u8, 0x6Fu8, 0x6Eu8, 0x74u8, 0x65u8, 0x6Eu8, 0x74u8];
    proof {
        assert(a@ =~= key_content_view());
    }
    a
}

/// `"content_index"` as bytes.
pub open spec fn key_content_index_view() -> Seq<u8> {
    seq![99u8, 111u8, 110u8, 116u8, 101u8, 110u8, 116u8, 95u8, 105u8, 110u8, 100u8, 101u8, 120u8]
}

fn key_content_index() -> (r: [u8; 13]) 
    ensures
        r@ == key_content_index_view(),
{
    let a = [0x63u8, 0x6Fu8, 0x6Eu8, 0x74u8, 0x65u8, 0x6Eu8, 0x74u8, 0x5Fu8, 0x69u8, 0x6Eu8, 0x64u8, 0x65u8, 0x78u8];
    proof {
        assert(a@ =~= key_content_index_view());
    }
    a
}

/// `"cost"` as bytes.
pub open spec fn key_cost_view() -> Seq<u8> {
    seq![99u8, 111u8, 115u8, 116u8]
}

fn key_cost() -> (r: [u8; 4]) 
    ensures
        r@ == key_cost_view(),
{
    let a = [0x63u8, 0x6Fu8, 0x73u8, 0x74u8];
    proof {
        assert(a@ =~= key_cost_view());
    }
    a
}

/// `"delta"` as bytes.
pub open spec fn key_delta_view() -> Seq<u8> {
    seq![100u8, 101u8, 108u8, 116u8, 97u8]
}

fn key_delta() -> (r: [u8; 5]) 
    ensures
        r@ == key_delta_view(),
{
    let a = [0x64u8, 0x65u8, 0x6Cu8, 0x74u8, 0x61u8];
    proof {
        assert(a@ =~= key_delta_view());
    }
    a
}

/// `"encrypted_content"` as bytes.
pub open spec fn key_encrypted_content_view() -> Seq<u8> {
    seq![101u8, 110u8, 99u8, 114u8, 121u8, 112u8, 116u8, 101u8, 100u8, 95u8, 99u8, 111u8, 110u8, 116u8, 101u8, 110u8, 116u8]
}

fn key_encrypted_content() -> (r: [u8; 17]) 
    ensures
        r@ == key_encrypted_content_view(),
{
    let a = [0x65u8, 0x6Eu8, 0x63u8, 0x72u8, 0x79u8, 0x70u8, 0x74u8, 0x65u8, 0x64u8, 0x5Fu8, 0x63u8, 0x6Fu8, 0x6Eu8, 0x74u8, 0x65u8, 0x6Eu8, 0x74u8];
    proof {
        assert(a@ =~= key_encrypted_content_view());
    }
    a
}

/// `"end_index"` as bytes.
pub open spec fn key_end_index_view() -> Seq<u8> {
    seq![101u8, 110u8, 100u8, 95u8, 105u8, 110u8, 100u8, 101u8, 120u8]
}

fn key_end_index() -> (r: [u8; 9]) 
    ensures
        r@ == key_end_index_view(),
{
    let a = [0x65u8, 0x6Eu8, 0x64u8, 0x5Fu8, 0x69u8, 0x6Eu8, 0x64u8, 0x65u8, 0x78u8];
    proof {
        assert(a@ =~= key_end_index_view());
    }
    a
}

/// `"id"` as bytes.
pub open spec fn key_id_view() -> Seq<u8> {
    seq![105u8, 100u8]
}

fn key_id() -> (r: [u8; 2]) 
    ensures
        r@ == key_id_view(),
{
    let a = [0x69u8, 0x64u8];
    proof {
        assert(a@ =~= key_id_view());
    }
    a
}

/// `"input_tokens"` as bytes.
pub open spec fn key_input_tokens_view() -> Seq<u8> {
    seq![105u8, 110u8, 112u8, 117u8, 116u8, 95u8, 116u8, 111u8, 107u8, 101u8, 110u8, 115u8]
}

fn key_input_tokens() -> (r: [u8; 12]) 
    ensures
        r@ == key_input_tokens_view(),
{
    let a = [0x69u8, 0x6Eu8, 0x70u8, 0x75u8, 0x74u8, 0x5Fu8, 0x74u8, 0x6Fu8, 0x6Bu8, 0x65u8, 0x6Eu8, 0x73u8];
    proof {
        assert(a@ =~= key_input_tokens_view());
    }
    a
}

/// `"item"` as bytes.
pub open spec fn key_item_view() -> Seq<u8> {
    seq![105u8, 116u8, 101u8, 109u8]
}

fn key_item() -> (r: [u8; 4]) 
    ensures
        r@ == key_item_view(),
{
    let a = [0x69u8, 0x74u8, 0x65u8, 0x6Du8];
    proof {
        assert(a@ =~= key_item_view());
    }
    a
}

/// `"item_id"` as bytes.
pub open spec fn key_item_id_view() -> Seq<u8> {
    seq![105u8, 116u8, 101u8, 109u8, 95u8, 105u8, 100u8]
}

fn key_item_id() -> (r: [u8; 7]) 
    ensures
        r@ == key_item_id_view(),
{
    let a = [0x69u8, 0x74u8, 0x65u8, 0x6Du8, 0x5Fu8, 0x69u8, 0x64u8];
    proof {
        assert(a@ =~= key_item_id_view());
    }
    a
}

/// `"name"` as bytes.
pub open spec fn key_name_view() -> Seq<u8> {
    seq![110u8, 97u8, 109u8, 101u8]
}

fn key_name() -> (r: [u8; 4]) 
    ensures
        r@ == key_name_view(),
{
    let a = [0x6Eu8, 0x61u8, 0x6Du8, 0x65u8];
    proof {
        assert(a@ =~= key_name_view());
    }
    a
}

/// `"output_index"` as bytes.
pub open spec fn key_output_index_view() -> Seq<u8> {
    seq![111u8, 117u8, 116u8, 112u8, 117u8, 116u8, 95u8, 105u8, 110u8, 100u8, 101u8, 120u8]
}

fn key_output_index() -> (r: [u8; 12]) 
    ensures
        r@ == key_output_index_view(),
{
    let a = [0x6Fu8, 0x75u8, 0x74u8, 0x70u8, 0x75u8, 0x74u8, 0x5Fu8, 0x69u8, 0x6Eu8, 0x64u8, 0x65u8, 0x78u8];
    proof {
        assert(a@ =~= key_output_index_view());
    }
    a
}

/// `"output_tokens"` as bytes.
pub open spec fn key_output_tokens_view() -> Seq<u8> {
    seq![111u8, 117u8, 116u8, 112u8, 117u8, 116u8, 95u8, 116u8, 111u8, 107u8, 101u8, 110u8, 115u8]
}

fn key_output_tokens() -> (r: [u8; 13]) 
    ensures
        r@ == key_output_tokens_view(),
{
    let a = [0x6Fu8, 0x75u8, 0x74u8, 0x70u8, 0x75u8, 0x74u8, 0x5Fu8, 0x74u8, 0x6Fu8, 0x6Bu8, 0x65u8, 0x6Eu8, 0x73u8];
    proof {
        assert(a@ =~= key_output_tokens_view());
    }
    a
}

/// `"part"` as bytes.
pub open spec fn key_part_view() -> Seq<u8> {
    seq![112u8, 97u8, 114u8, 116u8]
}

fn key_part() -> (r: [u8; 4]) 
    ensures
        r@ == key_part_view(),
{
    let a = [0x70u8, 0x61u8, 0x72u8, 0x74u8];
    proof {
        assert(a@ =~= key_part_view());
    }
    a
}

/// `"response"` as bytes.
pub open spec fn key_response_view() -> Seq<u8> {
    seq![114u8, 101u8, 115u8, 112u8, 111u8, 110u8, 115u8, 101u8]
}

fn key_response() -> (r: [u8; 8]) 
    ensures
        r@ == key_response_view(),
{
    let a = [0x72u8, 0x65u8, 0x73u8, 0x70u8, 0x6Fu8, 0x6Eu8, 0x73u8, 0x65u8];
    proof {
        assert(a@ =~= key_response_view());
    }
    a
}

/// `"sequence_number"` as bytes.
pub open spec fn key_sequence_number_view() -> Seq<u8> {
    seq![115u8, 101u8, 113u8, 117u8, 101u8, 110u8, 99u8, 101u8, 95u8, 110u8, 117u8, 109u8, 98u8, 101u8, 114u8]
}

fn key_sequence_number() -> (r: [u8; 15]) 
    ensures
        r@ == key_sequence_number_view(),
{
    let a = [0x73u8, 0x65u8, 0x71u8, 0x75u8, 0x65u8, 0x6Eu8, 0x63u8, 0x65u8, 0x5Fu8, 0x6Eu8, 0x75u8, 0x6Du8, 0x62u8, 0x65u8, 0x72u8];
    proof {
        assert(a@ =~= key_sequence_number_view());
    }
    a
}

/// `"start_index"` as bytes.
pub open spec fn key_start_index_view() -> Seq<u8> {
    seq![115u8, 116u8, 97u8, 114u8, 116u8, 95u8, 105u8, 110u8, 100u8, 101u8, 120u8]
}

fn key_start_index() -> (r: [u8; 11]) 
    ensures
        r@ == key_start_index_view(),
{
    let a = [0x73u8, 0x74u8, 0x61u8, 0x72u8, 0x74u8, 0x5Fu8, 0x69u8, 0x6Eu8, 0x64u8, 0x65u8, 0x78u8];
    proof {
        assert(a@ =~= key_start_index_view());
    }
    a
}

/// `"status"` as bytes.
pub open spec fn key_status_view() -> Seq<u8> {
    seq![115u8, 116u8, 97u8, 116u8, 117u8, 115u8]
}

fn key_status() -> (r: [u8; 6]) 
    ensures
        r@ == key_status_view(),
{
    let a = [0x73u8, 0x74u8, 0x61u8, 0x74u8, 0x75u8, 0x73u8];
    proof {
        assert(a@ =~= key_status_view());
    }
    a
}

/// `"summary"` as bytes.
pub open spec fn key_summary_view() -> Seq<u8> {
    seq![115u8, 117u8, 109u8, 109u8, 97u8, 114u8, 121u8]
}

fn key_summary() -> (r: [u8; 7]) 
    ensures
        r@ == key_summary_view(),
{
    let a = [0x73u8, 0x75u8, 0x6Du8, 0x6Du8, 0x61u8, 0x72u8, 0x79u8];
    proof {
        assert(a@ =~= key_summary_view());
    }
    a
}

/// `"summary_index"` as bytes.
pub open spec fn key_summary_index_view() -> Seq<u8> {
    seq![115u8, 117u8, 109u8, 109u8, 97u8, 114u8, 121u8, 95u8, 105u8, 110u8, 100u8, 101u8, 120u8]
}

fn key_summary_index() -> (r: [u8; 13]) 
    ensures
        r@ == key_summary_index_view(),
{
    let a = [0x73u8, 0x75u8, 0x6Du8, 0x6Du8, 0x61u8, 0x72u8, 0x79u8, 0x5Fu8, 0x69u8, 0x6Eu8, 0x64u8, 0x65u8, 0x78u8];
    proof {
        assert(a@ =~= key_summary_index_view());
    }
    a
}

/// `"text"` as bytes.
pub open spec fn key_text_view() -> Seq<u8> {
    seq![116u8, 101u8, 120u8, 116u8]
}

fn key_text() -> (r: [u8; 4]) 
    ensures
        r@ == key_text_view(),
{
    let a = [0x74u8, 0x65u8, 0x78u8, 0x74u8];
    proof {
        assert(a@ =~= key_text_view());
    }
    a
}

/// `"title"` as bytes.
pub open spec fn key_title_view() -> Seq<u8> {
    seq![116u8, 105u8, 116u8, 108u8, 101u8]
}

fn key_title() -> (r: [u8; 5]) 
    ensures
        r@ == key_title_view(),
{
    let a = [0x74u8, 0x69u8, 0x74u8, 0x6Cu8, 0x65u8];
    proof {
        assert(a@ =~= key_title_view());
    }
    a
}

/// `"total_tokens"` as bytes.
pub open spec fn key_total_tokens_view() -> Seq<u8> {
    seq![116u8, 111u8, 116u8, 97u8, 108u8, 95u8, 116u8, 111u8, 107u8, 101u8, 110u8, 115u8]
}

fn key_total_tokens() -> (r: [u8; 12]) 
    ensures
        r@ == key_total_tokens_view(),
{
    let a = [0x74u8, 0x6Fu8, 0x74u8, 0x61u8, 0x6Cu8, 0x5Fu8, 0x74u8, 0x6Fu8, 0x6Bu8, 0x65u8, 0x6Eu8, 0x73u8];
    proof {
        assert(a@ =~= key_total_tokens_view());
    }
    a
}

/// `"type"` as bytes.
pub open spec fn key_type_view() -> Seq<u8> {
    seq![116u8, 121u8, 112u8, 101u8]
}

fn key_type() -> (r: [u8; 4]) 
    ensures
        r@ == key_type_view(),
{
    let a = [0x74u8, 0x79u8, 0x70u8, 0x65u8];
    proof {
        assert(a@ =~= key_type_view());
    }
    a
}

/// `"url"` as bytes.
pub open spec fn key_url_view() -> Seq<u8> {
    seq![117u8, 114u8, 108u8]
}

fn key_url() -> (r: [u8; 3]) 
    ensures
        r@ == key_url_view(),
{
    let a = [0x75u8, 0x72u8, 0x6Cu8];
    proof {
        assert(a@ =~= key_url_view());
    }
    a
}

/// `"usage"` as bytes.
pub open spec fn key_usage_view() -> Seq<u8> {
    seq![117u8, 115u8, 97u8, 103u8, 101u8]
}

fn key_usage() -> (r: [u8; 5]) 
    ensures
        r@ == key_usage_view(),
{
    let a = [0x75u8, 0x73u8, 0x61u8, 0x67u8, 0x65u8];
    proof {
        assert(a@ =~= key_usage_view());
    }
    a
}

/// `"completed"` as bytes.
pub open spec fn lit_completed_view() -> Seq<u8> {
    seq![99u8, 111u8, 109u8, 112u8, 108u8, 101u8, 116u8, 101u8, 100u8]
}

fn lit_completed() -> (r: [u8; 9]) 
    ensures
        r@ == lit_completed_view(),
{
    let a = [0x63u8, 0x6Fu8, 0x6Du8, 0x70u8, 0x6Cu8, 0x65u8, 0x74u8, 0x65u8, 0x64u8];
    proof {
        assert(a@ =~= lit_completed_view());
    }
    a
}

/// `"function_call"` as bytes.
pub open spec fn lit_function_call_view() -> Seq<u8> {
    seq![102u8, 117u8, 110u8, 99u8, 116u8, 105u8, 111u8, 110u8, 95u8, 99u8, 97u8, 108u8, 108u8]
}

fn lit_function_call() -> (r: [u8; 13]) 
    ensures
        r@ == lit_function_call_view(),
{
    let a = [0x66u8, 0x75u8, 0x6Eu8, 0x63u8, 0x74u8, 0x69u8, 0x6Fu8, 0x6Eu8, 0x5Fu8, 0x63u8, 0x61u8, 0x6Cu8, 0x6Cu8];
    proof {
        assert(a@ =~= lit_function_call_view());
    }
    a
}

/// `"in_progress"` as bytes.
pub open spec fn lit_in_progress_view() -> Seq<u8> {
    seq![105u8, 110u8, 95u8, 112u8, 114u8, 111u8, 103u8, 114u8, 101u8, 115u8, 115u8]
}

fn lit_in_progress() -> (r: [u8; 11]) 
    ensures
        r@ == lit_in_progress_view(),
{
    let a = [0x69u8, 0x6Eu8, 0x5Fu8, 0x70u8, 0x72u8, 0x6Fu8, 0x67u8, 0x72u8, 0x65u8, 0x73u8, 0x73u8];
    proof {
        assert(a@ =~= lit_in_progress_view());
    }
    a
}

/// `"message"` as bytes.
pub open spec fn lit_message_view() -> Seq<u8> {
    seq![109u8, 101u8, 115u8, 115u8, 97u8, 103u8, 101u8]
}

fn lit_message() -> (r: [u8; 7]) 
    ensures
        r@ == lit_message_view(),
{
    let a = [0x6Du8, 0x65u8, 0x73u8, 0x73u8, 0x61u8, 0x67u8, 0x65u8];
    proof {
        assert(a@ =~= lit_message_view());
    }
    a
}

/// `"output_text"` as bytes.
pub open spec fn lit_output_text_view() -> Seq<u8> {
    seq![111u8, 117u8, 116u8, 112u8, 117u8, 116u8, 95u8, 116u8, 101u8, 120u8, 116u8]
}

fn lit_output_text() -> (r: [u8; 11]) 
    ensures
        r@ == lit_output_text_view(),
{
    let a = [0x6Fu8, 0x75u8, 0x74u8, 0x70u8, 0x75u8, 0x74u8, 0x5Fu8, 0x74u8, 0x65u8, 0x78u8, 0x74u8];
    proof {
        assert(a@ =~= lit_output_text_view());
    }
    a
}

/// `"reasoning"` as bytes.
pub open spec fn lit_reasoning_view() -> Seq<u8> {
    seq![114u8, 101u8, 97u8, 115u8, 111u8, 110u8, 105u8, 110u8, 103u8]
}

fn lit_reasoning() -> (r: [u8; 9]) 
    ensures
        r@ == lit_reasoning_view(),
{
    let a = [0x72u8, 0x65u8, 0x61u8, 0x73u8, 0x6Fu8, 0x6Eu8, 0x69u8, 0x6Eu8, 0x67u8];
    proof {
        assert(a@ =~= lit_reasoning_view());
    }
    a
}

/// `"reasoning_text"` as bytes.
pub open spec fn lit_reasoning_text_view() -> Seq<u8> {
    seq![114u8, 101u8, 97u8, 115u8, 111u8, 110u8, 105u8, 110u8, 103u8, 95u8, 116u8, 101u8, 120u8, 116u8]
}

fn lit_reasoning_text() -> (r: [u8; 14]) 
    ensures
        r@ == lit_reasoning_text_view(),
{
    let a = [0x72u8, 0x65u8, 0x61u8, 0x73u8, 0x6Fu8, 0x6Eu8, 0x69u8, 0x6Eu8, 0x67u8, 0x5Fu8, 0x74u8, 0x65u8, 0x78u8, 0x74u8];
    proof {
        assert(a@ =~= lit_reasoning_text_view());
    }
    a
}

/// `"response.completed"` as bytes.
pub open spec fn lit_response_completed_view() -> Seq<u8> {
    seq![114u8, 101u8, 115u8, 112u8, 111u8, 110u8, 115u8, 101u8, 46u8, 99u8, 111u8, 109u8, 112u8, 108u8, 101u8, 116u8, 101u8, 100u8]
}

fn lit_response_completed() -> (r: [u8; 18]) 
    ensures
        r@ == lit_response_completed_view(),
{
    let a = [0x72u8, 0x65u8, 0x73u8, 0x70u8, 0x6Fu8, 0x6Eu8, 0x73u8, 0x65u8, 0x2Eu8, 0x63u8, 0x6Fu8, 0x6Du8, 0x70u8, 0x6Cu8, 0x65u8, 0x74u8, 0x65u8, 0x64u8];
    proof {
        assert(a@ =~= lit_response_completed_view());
    }
    a
}

/// `"response.content_part.added"` as bytes.
pub open spec fn lit_response_content_part_added_view() -> Seq<u8> {
    seq![114u8, 101u8, 115u8, 112u8, 111u8, 110u8, 115u8, 101u8, 46u8, 99u8, 111u8, 110u8, 116u8, 101u8, 110u8, 116u8, 95u8, 112u8, 97u8, 114u8, 116u8, 46u8, 97u8, 100u8, 100u8, 101u8, 100u8]
}

fn lit_response_content_part_added() -> (r: [u8; 27]) 
    ensures
        r@ == lit_response_content_part_added_view(),
{
    let a = [0x72u8, 0x65u8, 0x73u8, 0x70u8, 0x6Fu8, 0x6Eu8, 0x73u8, 0x65u8, 0x2Eu8, 0x63u8, 0x6Fu8, 0x6Eu8, 0x74u8, 0x65u8, 0x6Eu8, 0x74u8, 0x5Fu8, 0x70u8, 0x61u8, 0x72u8, 0x74u8, 0x2Eu8, 0x61u8, 0x64u8, 0x64u8, 0x65u8, 0x64u8];
    proof {
        assert(a@ =~= lit_response_content_part_added_view());
    }
    a
}

/// `"response.content_part.done"` as bytes.
pub open spec fn lit_response_content_part_done_view() -> Seq<u8> {
    seq![114u8, 101u8, 115u8, 112u8, 111u8, 110u8, 115u8, 101u8, 46u8, 99u8, 111u8, 110u8, 116u8, 101u8, 110u8, 116u8, 95u8, 112u8, 97u8, 114u8, 116u8, 46u8, 100u8, 111u8, 110u8, 101u8]
}

fn lit_response_content_part_done() -> (r: [u8; 26]) 
    ensures
        r@ == lit_response_content_part_done_view(),
{
    let a = [0x72u8, 0x65u8, 0x73u8, 0x70u8, 0x6Fu8, 0x6Eu8, 0x73u8, 0x65u8, 0x2Eu8, 0x63u8, 0x6Fu8, 0x6Eu8, 0x74u8, 0x65u8, 0x6Eu8, 0x74u8, 0x5Fu8, 0x70u8, 0x61u8, 0x72u8, 0x74u8, 0x2Eu8, 0x64u8, 0x6Fu8, 0x6Eu8, 0x65u8];
    proof {
        assert(a@ =~= lit_response_content_part_done_view());
    }
    a
}

/// `"response.created"` as bytes.
pub open spec fn lit_response_created_view() -> Seq<u8> {
    seq![114u8, 101u8, 115u8, 112u8, 111u8, 110u8, 115u8, 101u8, 46u8, 99u8, 114u8, 101u8, 97u8, 116u8, 101u8, 100u8]
}

fn lit_response_created() -> (r: [u8; 16]) 
    ensures
        r@ == lit_response_created_view(),
{
    let a = [0x72u8, 0x65u8, 0x73u8, 0x70u8, 0x6Fu8, 0x6Eu8, 0x73u8, 0x65u8, 0x2Eu8, 0x63u8, 0x72u8, 0x65u8, 0x61u8, 0x74u8, 0x65u8, 0x64u8];
    proof {
        assert(a@ =~= lit_response_created_view());
    }
    a
}

/// `"response.function_call_arguments.delta"` as bytes.
pub open spec fn lit_response_function_call_arguments_delta_view() -> Seq<u8> {
    seq![114u8, 101u8, 115u8, 112u8, 111u8, 110u8, 115u8, 101u8, 46u8, 102u8, 117u8, 110u8, 99u8, 116u8, 105u8, 111u8, 110u8, 95u8, 99u8, 97u8, 108u8, 108u8, 95u8, 97u8, 114u8, 103u8, 117u8, 109u8, 101u8, 110u8, 116u8, 115u8, 46u8, 100u8, 101u8, 108u8, 116u8, 97u8]
}

fn lit_response_function_call_arguments_delta() -> (r: [u8; 38]) 
    ensures
        r@ == lit_response_function_call_arguments_delta_view(),
{
    let a = [0x72u8, 0x65u8, 0x73u8, 0x70u8, 0x6Fu8, 0x6Eu8, 0x73u8, 0x65u8, 0x2Eu8, 0x66u8, 0x75u8, 0x6Eu8, 0x63u8, 0x74u8, 0x69u8, 0x6Fu8, 0x6Eu8, 0x5Fu8, 0x63u8, 0x61u8, 0x6Cu8, 0x6Cu8, 0x5Fu8, 0x61u8, 0x72u8, 0x67u8, 0x75u8, 0x6Du8, 0x65u8, 0x6Eu8, 0x74u8, 0x73u8, 0x2Eu8, 0x64u8, 0x65u8, 0x6Cu8, 0x74u8, 0x61u8];
    proof {
        assert(a@ =~= lit_response_function_call_arguments_delta_view());
    }
    a
}

/// `"response.function_call_arguments.done"` as bytes.
pub open spec fn lit_response_function_call_arguments_done_view() -> Seq<u8> {
    seq![114u8, 101u8, 115u8, 112u8, 111u8, 110u8, 115u8, 101u8, 46u8, 102u8, 117u8, 110u8, 99u8, 116u8, 105u8, 111u8, 110u8, 95u8, 99u8, 97u8, 108u8, 108u8, 95u8, 97u8, 114u8, 103u8, 117u8, 109u8, 101u8, 110u8, 116u8, 115u8, 46u8, 100u8, 111u8, 110u8, 101u8]
}

fn lit_response_function_call_arguments_done() -> (r: [u8; 37]) 
    ensures
        r@ == lit_response_function_call_arguments_done_view(),
{
    let a = [0x72u8, 0x65u8, 0x73u8, 0x70u8, 0x6Fu8, 0x6Eu8, 0x73u8, 0x65u8, 0x2Eu8, 0x66u8, 0x75u8, 0x6Eu8, 0x63u8, 0x74u8, 0x69u8, 0x6Fu8, 0x6Eu8, 0x5Fu8, 0x63u8, 0x61u8, 0x6Cu8, 0x6Cu8, 0x5Fu8, 0x61u8, 0x72u8, 0x67u8, 0x75u8, 0x6Du8, 0x65u8, 0x6Eu8, 0x74u8, 0x73u8, 0x2Eu8, 0x64u8, 0x6Fu8, 0x6Eu8, 0x65u8];
    proof {
        assert(a@ =~= lit_response_function_call_arguments_done_view());
    }
    a
}

/// `"response.in_progress"` as bytes.
pub open spec fn lit_response_in_progress_view() -> Seq<u8> {
    seq![114u8, 101u8, 115u8, 112u8, 111u8, 110u8, 115u8, 101u8, 46u8, 105u8, 110u8, 95u8, 112u8, 114u8, 111u8, 103u8, 114u8, 101u8, 115u8, 115u8]
}

fn lit_response_in_progress() -> (r: [u8; 20]) 
    ensures
        r@ == lit_response_in_progress_view(),
{
    let a = [0x72u8, 0x65u8, 0x73u8, 0x70u8, 0x6Fu8, 0x6Eu8, 0x73u8, 0x65u8, 0x2Eu8, 0x69u8, 0x6Eu8, 0x5Fu8, 0x70u8, 0x72u8, 0x6Fu8, 0x67u8, 0x72u8, 0x65u8, 0x73u8, 0x73u8];
    proof {
        assert(a@ =~= lit_response_in_progress_view());
    }
    a
}

/// `"response.output_item.added"` as bytes.
pub open spec fn lit_response_output_item_added_view() -> Seq<u8> {
    seq![114u8, 101u8, 115u8, 112u8, 111u8, 110u8, 115u8, 101u8, 46u8, 111u8, 117u8, 116u8, 112u8, 117u8, 116u8, 95u8, 105u8, 116u8, 101u8, 109u8, 46u8, 97u8, 100u8, 100u8, 101u8, 100u8]
}

fn lit_response_output_item_added() -> (r: [u8; 26]) 
    ensures
        r@ == lit_response_output_item_added_view(),
{
    let a = [0x72u8, 0x65u8, 0x73u8, 0x70u8, 0x6Fu8, 0x6Eu8, 0x73u8, 0x65u8, 0x2Eu8, 0x6Fu8, 0x75u8, 0x74u8, 0x70u8, 0x75u8, 0x74u8, 0x5Fu8, 0x69u8, 0x74u8, 0x65u8, 0x6Du8, 0x2Eu8, 0x61u8, 0x64u8, 0x64u8, 0x65u8, 0x64u8];
    proof {
        assert(a@ =~= lit_response_output_item_added_view());
    }
    a
}

/// `"response.output_item.done"` as bytes.
pub open spec fn lit_response_output_item_done_view() -> Seq<u8> {
    seq![114u8, 101u8, 115u8, 112u8, 111u8, 110u8, 115u8, 101u8, 46u8, 111u8, 117u8, 116u8, 112u8, 117u8, 116u8, 95u8, 105u8, 116u8, 101u8, 109u8, 46u8, 100u8, 111u8, 110u8, 101u8]
}

fn lit_response_output_item_done() -> (r: [u8; 25]) 
    ensures
        r@ == lit_response_output_item_done_view(),
{
    let a = [0x72u8, 0x65u8, 0x73u8, 0x70u8, 0x6Fu8, 0x6Eu8, 0x73u8, 0x65u8, 0x2Eu8, 0x6Fu8, 0x75u8, 0x74u8, 0x70u8, 0x75u8, 0x74u8, 0x5Fu8, 0x69u8, 0x74u8, 0x65u8, 0x6Du8, 0x2Eu8, 0x64u8, 0x6Fu8, 0x6Eu8, 0x65u8];
    proof {
        assert(a@ =~= lit_response_output_item_done_view());
    }
    a
}

/// `"response.output_text.annotation.added"` as bytes.
pub open spec fn lit_response_output_text_annotation_added_view() -> Seq<u8> {
    seq![114u8, 101u8, 115u8, 112u8, 111u8, 110u8, 115u8, 101u8, 46u8, 111u8, 117u8, 116u8, 112u8, 117u8, 116u8, 95u8, 116u8, 101u8, 120u8, 116u8, 46u8, 97u8, 110u8, 110u8, 111u8, 116u8, 97u8, 116u8, 105u8, 111u8, 110u8, 46u8, 97u8, 100u8, 100u8, 101u8, 100u8]
}

fn lit_response_output_text_annotation_added() -> (r: [u8; 37]) 
    ensures
        r@ == lit_response_output_text_annotation_added_view(),
{
    let a = [0x72u8, 0x65u8, 0x73u8, 0x70u8, 0x6Fu8, 0x6Eu8, 0x73u8, 0x65u8, 0x2Eu8, 0x6Fu8, 0x75u8, 0x74u8, 0x70u8, 0x75u8, 0x74u8, 0x5Fu8, 0x74u8, 0x65u8, 0x78u8, 0x74u8, 0x2Eu8, 0x61u8, 0x6Eu8, 0x6Eu8, 0x6Fu8, 0x74u8, 0x61u8, 0x74u8, 0x69u8, 0x6Fu8, 0x6Eu8, 0x2Eu8, 0x61u8, 0x64u8, 0x64u8, 0x65u8, 0x64u8];
    proof {
        assert(a@ =~= lit_response_output_text_annotation_added_view());
    }
    a
}

/// `"response.output_text.delta"` as bytes.
pub open spec fn lit_response_output_text_delta_view() -> Seq<u8> {
    seq![114u8, 101u8, 115u8, 112u8, 111u8, 110u8, 115u8, 101u8, 46u8, 111u8, 117u8, 116u8, 112u8, 117u8, 116u8, 95u8, 116u8, 101u8, 120u8, 116u8, 46u8, 100u8, 101u8, 108u8, 116u8, 97u8]
}

fn lit_response_output_text_delta() -> (r: [u8; 26]) 
    ensures
        r@ == lit_response_output_text_delta_view(),
{
    let a = [0x72u8, 0x65u8, 0x73u8, 0x70u8, 0x6Fu8, 0x6Eu8, 0x73u8, 0x65u8, 0x2Eu8, 0x6Fu8, 0x75u8, 0x74u8, 0x70u8, 0x75u8, 0x74u8, 0x5Fu8, 0x74u8, 0x65u8, 0x78u8, 0x74u8, 0x2Eu8, 0x64u8, 0x65u8, 0x6Cu8, 0x74u8, 0x61u8];
    proof {
        assert(a@ =~= lit_response_output_text_delta_view());
    }
    a
}

/// `"response.output_text.done"` as bytes.
pub open spec fn lit_response_output_text_done_view() -> Seq<u8> {
    seq![114u8, 101u8, 115u8, 112u8, 111u8, 110u8, 115u8, 101u8, 46u8, 111u8, 117u8, 116u8, 112u8, 117u8, 116u8, 95u8, 116u8, 101u8, 120u8, 116u8, 46u8, 100u8, 111u8, 110u8, 101u8]
}

fn lit_response_output_text_done() -> (r: [u8; 25]) 
    ensures
        r@ == lit_response_output_text_done_view(),
{
    let a = [0x72u8, 0x65u8, 0x73u8, 0x70u8, 0x6Fu8, 0x6Eu8, 0x73u8, 0x65u8, 0x2Eu8, 0x6Fu8, 0x75u8, 0x74u8, 0x70u8, 0x75u8, 0x74u8, 0x5Fu8, 0x74u8, 0x65u8, 0x78u8, 0x74u8, 0x2Eu8, 0x64u8, 0x6Fu8, 0x6Eu8, 0x65u8];
    proof {
        assert(a@ =~= lit_response_output_text_done_view());
    }
    a
}

/// `"response.reasoning_summary_part.added"` as bytes.
pub open spec fn lit_response_reasoning_summary_part_added_view() -> Seq<u8> {
    seq![114u8, 101u8, 115u8, 112u8, 111u8, 110u8, 115u8, 101u8, 46u8, 114u8, 101u8, 97u8, 115u8, 111u8, 110u8, 105u8, 110u8, 103u8, 95u8, 115u8, 117u8, 109u8, 109u8, 97u8, 114u8, 121u8, 95u8, 112u8, 97u8, 114u8, 116u8, 46u8, 97u8, 100u8, 100u8, 101u8, 100u8]
}

fn lit_response_reasoning_summary_part_added() -> (r: [u8; 37]) 
    ensures
        r@ == lit_response_reasoning_summary_part_added_view(),
{
    let a = [0x72u8, 0x65u8, 0x73u8, 0x70u8, 0x6Fu8, 0x6Eu8, 0x73u8, 0x65u8, 0x2Eu8, 0x72u8, 0x65u8, 0x61u8, 0x73u8, 0x6Fu8, 0x6Eu8, 0x69u8, 0x6Eu8, 0x67u8, 0x5Fu8, 0x73u8, 0x75u8, 0x6Du8, 0x6Du8, 0x61u8, 0x72u8, 0x79u8, 0x5Fu8, 0x70u8, 0x61u8, 0x72u8, 0x74u8, 0x2Eu8, 0x61u8, 0x64u8, 0x64u8, 0x65u8, 0x64u8];
    proof {
        assert(a@ =~= lit_response_reasoning_summary_part_added_view());
    }
    a
}

/// `"response.reasoning_summary_part.done"` as bytes.
pub open spec fn lit_response_reasoning_summary_part_done_view() -> Seq<u8> {
    seq![114u8, 101u8, 115u8, 112u8, 111u8, 110u8, 115u8, 101u8, 46u8, 114u8, 101u8, 97u8, 115u8, 111u8, 110u8, 105u8, 110u8, 103u8, 95u8, 115u8, 117u8, 109u8, 109u8, 97u8, 114u8, 121u8, 95u8, 112u8, 97u8, 114u8, 116u8, 46u8, 100u8, 111u8, 110u8, 101u8]
}

fn lit_response_reasoning_summary_part_done() -> (r: [u8; 36]) 
    ensures
        r@ == lit_response_reasoning_summary_part_done_view(),
{
    let a = [0x72u8, 0x65u8, 0x73u8, 0x70u8, 0x6Fu8, 0x6Eu8, 0x73u8, 0x65u8, 0x2Eu8, 0x72u8, 0x65u8, 0x61u8, 0x73u8, 0x6Fu8, 0x6Eu8, 0x69u8, 0x6Eu8, 0x67u8, 0x5Fu8, 0x73u8, 0x75u8, 0x6Du8, 0x6Du8, 0x61u8, 0x72u8, 0x79u8, 0x5Fu8, 0x70u8, 0x61u8, 0x72u8, 0x74u8, 0x2Eu8, 0x64u8, 0x6Fu8, 0x6Eu8, 0x65u8];
    proof {
        assert(a@ =~= lit_response_reasoning_summary_part_done_view());
    }
    a
}

/// `"response.reasoning_summary_text.delta"` as bytes.
pub open spec fn lit_response_reasoning_summary_text_delta_view() -> Seq<u8> {
    seq![114u8, 101u8, 115u8, 112u8, 111u8, 110u8, 115u8, 101u8, 46u8, 114u8, 101u8, 97u8, 115u8, 111u8, 110u8, 105u8, 110u8, 103u8, 95u8, 115u8, 117u8, 109u8, 109u8, 97u8, 114u8, 121u8, 95u8, 116u8, 101u8, 120u8, 116u8, 46u8, 100u8, 101u8, 108u8, 116u8, 97u8]
}

fn lit_response_reasoning_summary_text_delta() -> (r: [u8; 37]) 
    ensures
        r@ == lit_response_reasoning_summary_text_delta_view(),
{
    let a = [0x72u8, 0x65u8, 0x73u8, 0x70u8, 0x6Fu8, 0x6Eu8, 0x73u8, 0x65u8, 0x2Eu8, 0x72u8, 0x65u8, 0x61u8, 0x73u8, 0x6Fu8, 0x6Eu8, 0x69u8, 0x6Eu8, 0x67u8, 0x5Fu8, 0x73u8, 0x75u8, 0x6Du8, 0x6Du8, 0x61u8, 0x72u8, 0x79u8, 0x5Fu8, 0x74u8, 0x65u8, 0x78u8, 0x74u8, 0x2Eu8, 0x64u8, 0x65u8, 0x6Cu8, 0x74u8, 0x61u8];
    proof {
        assert(a@ =~= lit_response_reasoning_summary_text_delta_view());
    }
    a
}

/// `"response.reasoning_summary_text.done"` as bytes.
pub open spec fn lit_response_reasoning_summary_text_done_view() -> Seq<u8> {
    seq![114u8, 101u8, 115u8, 112u8, 111u8, 110u8, 115u8, 101u8, 46u8, 114u8, 101u8, 97u8, 115u8, 111u8, 110u8, 105u8, 110u8, 103u8, 95u8, 115u8, 117u8, 109u8, 109u8, 97u8, 114u8, 121u8, 95u8, 116u8, 101u8, 120u8, 116u8, 46u8, 100u8, 111u8, 110u8, 101u8]
}

fn lit_response_reasoning_summary_text_done() -> (r: [u8; 36]) 
    ensures
        r@ == lit_response_reasoning_summary_text_done_view(),
{
    let a = [0x72u8, 0x65u8, 0x73u8, 0x70u8, 0x6Fu8, 0x6Eu8, 0x73u8, 0x65u8, 0x2Eu8, 0x72u8, 0x65u8, 0x61u8, 0x73u8, 0x6Fu8, 0x6Eu8, 0x69u8, 0x6Eu8, 0x67u8, 0x5Fu8, 0x73u8, 0x75u8, 0x6Du8, 0x6Du8, 0x61u8, 0x72u8, 0x79u8, 0x5Fu8, 0x74u8, 0x65u8, 0x78u8, 0x74u8, 0x2Eu8, 0x64u8, 0x6Fu8, 0x6Eu8, 0x65u8];
    proof {
        assert(a@ =~= lit_response_reasoning_summary_text_done_view());
    }
    a
}

/// `"response.reasoning_text.delta"` as bytes.
pub open spec fn lit_response_reasoning_text_delta_view() -> Seq<u8> {
    seq![114u8, 101u8, 115u8, 112u8, 111u8, 110u8, 115u8, 101u8, 46u8, 114u8, 101u8, 97u8, 115u8, 111u8, 110u8, 105u8, 110u8, 103u8, 95u8, 116u8, 101u8, 120u8, 116u8, 46u8, 100u8, 101u8, 108u8, 116u8, 97u8]
}

fn lit_response_reasoning_text_delta() -> (r: [u8; 29]) 
    ensures
        r@ == lit_response_reasoning_text_delta_view(),
{
    let a = [0x72u8, 0x65u8, 0x73u8, 0x70u8, 0x6Fu8, 0x6Eu8, 0x73u8, 0x65u8, 0x2Eu8, 0x72u8, 0x65u8, 0x61u8, 0x73u8, 0x6Fu8, 0x6Eu8, 0x69u8, 0x6Eu8, 0x67u8, 0x5Fu8, 0x74u8, 0x65u8, 0x78u8, 0x74u8, 0x2Eu8, 0x64u8, 0x65u8, 0x6Cu8, 0x74u8, 0x61u8];
    proof {
        assert(a@ =~= lit_response_reasoning_text_delta_view());
    }
    a
}

/// `"response.reasoning_text.done"` as bytes.
pub open spec fn lit_response_reasoning_text_done_view() -> Seq<u8> {
    seq![114u8, 101u8, 115u8, 112u8, 111u8, 110u8, 115u8, 101u8, 46u8, 114u8, 101u8, 97u8, 115u8, 111u8, 110u8, 105u8, 110u8, 103u8, 95u8, 116u8, 101u8, 120u8, 116u8, 46u8, 100u8, 111u8, 110u8, 101u8]
}

fn lit_response_reasoning_text_done() -> (r: [u8; 28]) 
    ensures
        r@ == lit_response_reasoning_text_done_view(),
{
    let a = [0x72u8, 0x65u8, 0x73u8, 0x70u8, 0x6Fu8, 0x6Eu8, 0x73u8, 0x65u8, 0x2Eu8, 0x72u8, 0x65u8, 0x61u8, 0x73u8, 0x6Fu8, 0x6Eu8, 0x69u8, 0x6Eu8, 0x67u8, 0x5Fu8, 0x74u8, 0x65u8, 0x78u8, 0x74u8, 0x2Eu8, 0x64u8, 0x6Fu8, 0x6Eu8, 0x65u8];
    proof {
        assert(a@ =~= lit_response_reasoning_text_done_view());
    }
    a
}

/// `"summary_text"` as bytes.
pub open spec fn lit_summary_text_view() -> Seq<u8> {
    seq![115u8, 117u8, 109u8, 109u8, 97u8, 114u8, 121u8, 95u8, 116u8, 101u8, 120u8, 116u8]
}

fn lit_summary_text() -> (r: [u8; 12]) 
    ensures
        r@ == lit_summary_text_view(),
{
    let a = [0x73u8, 0x75u8, 0x6Du8, 0x6Du8, 0x61u8, 0x72u8, 0x79u8, 0x5Fu8, 0x74u8, 0x65u8, 0x78u8, 0x74u8];
    proof {
        assert(a@ =~= lit_summary_text_view());
    }
    a
}

/// `"url_citation"` as bytes.
pub open spec fn lit_url_citation_view() -> Seq<u8> {
    seq![117u8, 114u8, 108u8, 95u8, 99u8, 105u8, 116u8, 97u8, 116u8, 105u8, 111u8, 110u8]
}

fn lit_url_citation() -> (r: [u8; 12]) 
    ensures
        r@ == lit_url_citation_view(),
{
    let a = [0x75u8, 0x72u8, 0x6Cu8, 0x5Fu8, 0x63u8, 0x69u8, 0x74u8, 0x61u8, 0x74u8, 0x69u8, 0x6Fu8, 0x6Eu8];
    proof {
        assert(a@ =~= lit_url_citation_view());
    }
    a
}

pub open spec fn fv_text(f: Result<Option<JsonView>, ()>) -> Option<Seq<u8>> {
    match f {
        Ok(Some(j)) => dv_text(j),
        _ => None,
    }
}

pub open spec fn fv_u64(f: Result<Option<JsonView>, ()>) -> Option<u64> {
    match f {
        Ok(Some(j)) => dv_u64(j),
        _ => None,
    }
}

pub open spec fn fv_u32(f: Result<Option<JsonView>, ()>) -> Option<u32> {
    match f {
        Ok(Some(j)) => dv_u32(j),
        _ => None,
    }
}

pub open spec fn fv_rstatus(f: Result<Option<JsonView>, ()>) -> Option<ResponseStatus> {
    match f {
        Ok(Some(j)) => dv_rstatus(j),
        _ => None,
    }
}

pub open spec fn fv_istatus(f: Result<Option<JsonView>, ()>) -> Option<ItemStatus> {
    match f {
        Ok(Some(j)) => dv_istatus(j),
        _ => None,
    }
}

pub open spec fn fv_opt_text(f: Result<Option<JsonView>, ()>) -> Option<Option<Seq<u8>>> {
    match f {
        Ok(None) => Some(None),
        Ok(Some(JsonView::Null)) => Some(None),
        Ok(Some(j)) => match dv_text(j) {
            Some(c) => Some(Some(c)),
            None => None,
        },
        Err(_) => None,
    }
}

pub open spec fn fv_opt_rawnum(f: Result<Option<JsonView>, ()>) -> Option<Option<Seq<u8>>> {
    match f {
        Ok(None) => Some(None),
        Ok(Some(JsonView::Null)) => Some(None),
        Ok(Some(j)) => match dv_rawnum(j) {
            Some(c) => Some(Some(c)),
            None => None,
        },
        Err(_) => None,
    }
}

pub open spec fn dv_val_response_metadata(j: JsonView) -> Option<ResponseMetadataView> {
    match j {
        JsonView::Obj(m) => dv_response_metadata(m),
        _ => None,
    }
}

pub open spec fn dv_val_summary_part(j: JsonView) -> Option<SummaryPartView> {
    match j {
        JsonView::Obj(m) => dv_summary_part(m),
        _ => None,
    }
}

pub open spec fn dv_val_usage_info(j: JsonView) -> Option<UsageInfoView> {
    match j {
        JsonView::Obj(m) => dv_usage_info(m),
        _ => None,
    }
}

pub open spec fn dv_val_annotation(j: JsonView) -> Option<AnnotationView> {
    match j {
        JsonView::Obj(m) => dv_obj_annotation(m),
        _ => None,
    }
}

pub open spec fn dv_val_content_part(j: JsonView) -> Option<ContentPartView> {
    match j {
        JsonView::Obj(m) => dv_obj_content_part(m),
        _ => None,
    }
}

pub open spec fn dv_val_output_item(j: JsonView) -> Option<OutputItemView> {
    match j {
        JsonView::Obj(m) => dv_obj_output_item(m),
        _ => None,
    }
}

pub open spec fn fv_sub_response_metadata(f: Result<Option<JsonView>, ()>) -> Option<ResponseMetadataView> {
    match f {
        Ok(Some(j)) => dv_val_response_metadata(j),
        _ => None,
    }
}

pub open spec fn fv_sub_summary_part(f: Result<Option<JsonView>, ()>) -> Option<SummaryPartView> {
    match f {
        Ok(Some(j)) => dv_val_summary_part(j),
        _ => None,
    }
}

pub open spec fn fv_opt_sub_usage_info(f: Result<Option<JsonView>, ()>) -> Option<Option<UsageInfoView>> {
    match f {
        Ok(None) => Some(None),
        Ok(Some(JsonView::Null)) => Some(None),
        Ok(Some(j)) => match dv_val_usage_info(j) {
            Some(x) => Some(Some(x)),
            None => None,
        },
        Err(_) => None,
    }
}

pub open spec fn fv_enum_annotation(f: Result<Option<JsonView>, ()>) -> Option<AnnotationView> {
    match f {
        Ok(Some(j)) => dv_val_annotation(j),
        _ => None,
    }
}

pub open spec fn fv_enum_content_part(f: Result<Option<JsonView>, ()>) -> Option<ContentPartView> {
    match f {
        Ok(Some(j)) => dv_val_content_part(j),
        _ => None,
    }
}

pub open spec fn fv_enum_output_item(f: Result<Option<JsonView>, ()>) -> Option<OutputItemView> {
    match f {
        Ok(Some(j)) => dv_val_output_item(j),
        _ => None,
    }
}

pub open spec fn dv_list_content_part(elems: Seq<JsonView>) -> Option<Seq<ContentPartView>>
    decreases elems.len(),
{
    if elems.len() == 0 {
        Some(Seq::empty())
    } else if dv_list_content_part(elems.drop_last()) is Some && dv_val_content_part(elems.last()) is Some {
        Some(dv_list_content_part(elems.drop_last()).unwrap().push(dv_val_content_part(elems.last()).unwrap()))
    } else {
        None
    }
}

pub open spec fn dv_seq_content_part(j: JsonView) -> Option<Seq<ContentPartView>> {
    match j {
        JsonView::Arr(elems) => dv_list_content_part(elems),
        _ => None,
    }
}

pub open spec fn fv_vec_content_part(f: Result<Option<JsonView>, ()>) -> Option<Seq<ContentPartView>> {
    match f {
        Ok(None) => Some(Seq::empty()),
        Ok(Some(j)) => dv_seq_content_part(j),
        Err(_) => None,
    }
}

proof fn lemma_dv_list_content_part_fail(elems: Seq<JsonView>, i: int)
    requires
        0 <= i < elems.len(),
        dv_val_content_part(elems[i]) is None,
    ensures
        dv_list_content_part(elems) is None,
    decreases elems.len(),
{
    if i + 1 < elems.len() {
        assert(elems.drop_last()[i] == elems[i]);
        lemma_dv_list_content_part_fail(elems.drop_last(), i);
    }
}

pub open spec fn dv_list_summary_part(elems: Seq<JsonView>) -> Option<Seq<SummaryPartView>>
    decreases elems.len(),
{
    if elems.len() == 0 {
        Some(Seq::empty())
    } else if dv_list_summary_part(elems.drop_last()) is Some && dv_val_summary_part(elems.last()) is Some {
        Some(dv_list_summary_part(elems.drop_last()).unwrap().push(dv_val_summary_part(elems.last()).unwrap()))
    } else {
        None
    }
}

pub open spec fn dv_seq_summary_part(j: JsonView) -> Option<Seq<SummaryPartView>> {
    match j {
        JsonView::Arr(elems) => dv_list_summary_part(elems),
        _ => None,
    }
}

pub open spec fn fv_vec_summary_part(f: Result<Option<JsonView>, ()>) -> Option<Seq<SummaryPartView>> {
    match f {
        Ok(None) => Some(Seq::empty()),
        Ok(Some(j)) => dv_seq_summary_part(j),
        Err(_) => None,
    }
}

proof fn lemma_dv_list_summary_part_fail(elems: Seq<JsonView>, i: int)
    requires
        0 <= i < elems.len(),
        dv_val_summary_part(elems[i]) is None,
    ensures
        dv_list_summary_part(elems) is None,
    decreases elems.len(),
{
    if i + 1 < elems.len() {
        assert(elems.drop_last()[i] == elems[i]);
        lemma_dv_list_summary_part_fail(elems.drop_last(), i);
    }
}

pub open spec fn dv_list_annotation(elems: Seq<JsonView>) -> Option<Seq<AnnotationView>>
    decreases elems.len(),
{
    if elems.len() == 0 {
        Some(Seq::empty())
    } else if dv_list_annotation(elems.drop_last()) is Some && dv_val_annotation(elems.last()) is Some {
        Some(dv_list_annotation(elems.drop_last()).unwrap().push(dv_val_annotation(elems.last()).unwrap()))
    } else {
        None
    }
}

pub open spec fn dv_seq_annotation(j: JsonView) -> Option<Seq<AnnotationView>> {
    match j {
        JsonView::Arr(elems) => dv_list_annotation(elems),
        _ => None,
    }
}

pub open spec fn fv_vec_annotation(f: Result<Option<JsonView>, ()>) -> Option<Seq<AnnotationView>> {
    match f {
        Ok(None) => Some(Seq::empty()),
        Ok(Some(j)) => dv_seq_annotation(j),
        Err(_) => None,
    }
}

proof fn lemma_dv_list_annotation_fail(elems: Seq<JsonView>, i: int)
    requires
        0 <= i < elems.len(),
        dv_val_annotation(elems[i]) is None,
    ensures
        dv_list_annotation(elems) is None,
    decreases elems.len(),
{
    if i + 1 < elems.len() {
        assert(elems.drop_last()[i] == elems[i]);
        lemma_dv_list_annotation_fail(elems.drop_last(), i);
    }
}

proof fn lemma_resolve_arr_index(elems: Seq<JsonValue>, buf: Seq<u8>, i: int)
    requires
        0 <= i < elems.len(),
    ensures
        resolve_arr(elems, buf).len() == elems.len(),
        resolve_arr(elems, buf)[i] == elems[i].resolve(buf),
    decreases elems.len(),
{
    crate::json::lemma_resolve_arr_len(elems, buf);
    if i + 1 < elems.len() {
        assert(elems.drop_last()[i] == elems[i]);
        lemma_resolve_arr_index(elems.drop_last(), buf, i);
    }
}

fn ev_text(f: Option<&JsonValue>, data: &[u8]) -> (r: Result<RawText, DecodeFault>)
    requires
        f matches Some(v) ==> v.wf(data@),
    ensures
        r matches Ok(t) ==> {
            &&& fv_text(Ok(opt_resolve(f, data@))) == Some(t.resolve(data@))
            &&& t.wf(data@)
            &&& (opt_tok(f, data@) ==> t.text_ok(data@))
        },
        r is Err ==> fv_text(Ok(opt_resolve(f, data@))) is None,
{
    match f {
        Some(JsonValue::Text(t)) => Ok(t.dup()),
        _ => Err(DecodeFault),
    }
}

fn ev_u64(f: Option<&JsonValue>, data: &[u8]) -> (r: Result<u64, DecodeFault>)
    ensures
        r matches Ok(n) ==> fv_u64(Ok(opt_resolve(f, data@))) == Some(n),
        r is Err ==> fv_u64(Ok(opt_resolve(f, data@))) is None,
{
    match f {
        Some(JsonValue::Num { val: Some(n), .. }) => Ok(*n),
        _ => Err(DecodeFault),
    }
}

fn ev_u32(f: Option<&JsonValue>, data: &[u8]) -> (r: Result<u32, DecodeFault>)
    ensures
        r matches Ok(n) ==> fv_u32(Ok(opt_resolve(f, data@))) == Some(n),
        r is Err ==> fv_u32(Ok(opt_resolve(f, data@))) is None,
{
    match f {
        Some(JsonValue::Num { val: Some(n), .. }) => {
            if *n <= 0xFFFF_FFFF {
                Ok(*n as u32)
            } else {
                Err(DecodeFault)
            }
        },
        _ => Err(DecodeFault),
    }
}

fn ev_rstatus(f: Option<&JsonValue>, data: &[u8]) -> (r: Result<ResponseStatus, DecodeFault>)
    requires
        f matches Some(v) ==> v.wf(data@),
    ensures
        r matches Ok(x) ==> fv_rstatus(Ok(opt_resolve(f, data@))) == Some(x),
        r is Err ==> fv_rstatus(Ok(opt_resolve(f, data@))) is None,
{
    match f {
        Some(JsonValue::Text(t)) => {
            let tb = raw_bytes(t, data);
            if bytes_eq(tb, lit_in_progress().as_slice()) {
                Ok(ResponseStatus::InProgress)
            } else if bytes_eq(tb, lit_completed().as_slice()) {
                Ok(ResponseStatus::Completed)
            } else {
                Err(DecodeFault)
            }
        },
        _ => Err(DecodeFault),
    }
}

fn ev_istatus(f: Option<&JsonValue>, data: &[u8]) -> (r: Result<ItemStatus, DecodeFault>)
    requires
        f matches Some(v) ==> v.wf(data@),
    ensures
        r matches Ok(x) ==> fv_istatus(Ok(opt_resolve(f, data@))) == Some(x),
        r is Err ==> fv_istatus(Ok(opt_resolve(f, data@))) is None,
{
    match f {
        Some(JsonValue::Text(t)) => {
            let tb = raw_bytes(t, data);
            if bytes_eq(tb, lit_in_progress().as_slice()) {
                Ok(ItemStatus::InProgress)
            } else if bytes_eq(tb, lit_completed().as_slice()) {
                Ok(ItemStatus::Completed)
            } else {
                Err(DecodeFault)
            }
        },
        _ => Err(DecodeFault),
    }
}

fn ev_opt_text(f: Option<&JsonValue>, data: &[u8]) -> (r: Result<Option<RawText>, DecodeFault>)
    requires
        f matches Some(v) ==> v.wf(data@),
    ensures
        r matches Ok(t) ==> {
            &&& fv_opt_text(Ok(opt_resolve(f, data@))) == Some(
                match t {
                    Some(x) => Some(x.resolve(data@)),
                    None => None::<Seq<u8>>,
                },
            )
            &&& (t matches Some(x) ==> x.wf(data@))
            &&& (opt_tok(f, data@) ==> (t matches Some(x) ==> x.text_ok(data@)))
        },
        r is Err ==> fv_opt_text(Ok(opt_resolve(f, data@))) is None,
{
    match f {
        None => Ok(None),
        Some(JsonValue::Null) => Ok(None),
        Some(JsonValue::Text(t)) => Ok(Some(t.dup())),
        Some(_) => Err(DecodeFault),
    }
}

fn ev_opt_rawnum(f: Option<&JsonValue>, data: &[u8]) -> (r: Result<Option<RawText>, DecodeFault>)
    requires
        f matches Some(v) ==> v.wf(data@),
    ensures
        r matches Ok(t) ==> {
            &&& fv_opt_rawnum(Ok(opt_resolve(f, data@))) == Some(
                match t {
                    Some(x) => Some(x.resolve(data@)),
                    None => None::<Seq<u8>>,
                },
            )
            &&& (t matches Some(x) ==> x.wf(data@))
            &&& (opt_tok(f, data@) ==> (t matches Some(x) ==> x.text_ok(data@)))
        },
        r is Err ==> fv_opt_rawnum(Ok(opt_resolve(f, data@))) is None,
{
    match f {
        None => Ok(None),
        Some(JsonValue::Null) => Ok(None),
        Some(JsonValue::Num { val: _, start, end }) => Ok(
            Some(RawText::Window { start: *start, end: *end }),
        ),
        Some(_) => Err(DecodeFault),
    }
}

fn ev_sub_response_metadata(f: Option<&JsonValue>, data: &[u8]) -> (r: Result<RawResponseMetadata, DecodeFault>)
    requires
        f matches Some(v) ==> v.wf(data@),
    ensures
        r matches Ok(e) ==> {
            &&& fv_sub_response_metadata(Ok(opt_resolve(f, data@))) == Some(e.resolve(data@))
            &&& e.wf(data@)
            &&& (opt_tok(f, data@) ==> e.texts_ok(data@))
        },
        r is Err ==> fv_sub_response_metadata(Ok(opt_resolve(f, data@))) is None,
{
    match f {
        Some(v) => de_val_response_metadata(v, data),
        None => Err(DecodeFault),
    }
}

fn ev_sub_summary_part(f: Option<&JsonValue>, data: &[u8]) -> (r: Result<RawSummaryPart, DecodeFault>)
    requires
        f matches Some(v) ==> v.wf(data@),
    ensures
        r matches Ok(e) ==> {
            &&& fv_sub_summary_part(Ok(opt_resolve(f, data@))) == Some(e.resolve(data@))
            &&& e.wf(data@)
            &&& (opt_tok(f, data@) ==> e.texts_ok(data@))
        },
        r is Err ==> fv_sub_summary_part(Ok(opt_resolve(f, data@))) is None,
{
    match f {
        Some(v) => de_val_summary_part(v, data),
        None => Err(DecodeFault),
    }
}

fn ev_opt_sub_usage_info(f: Option<&JsonValue>, data: &[u8]) -> (r: Result<
    Option<RawUsageInfo>,
    DecodeFault,
>)
    requires
        f matches Some(v) ==> v.wf(data@),
    ensures
        r matches Ok(e) ==> {
            &&& fv_opt_sub_usage_info(Ok(opt_resolve(f, data@))) == Some(
                match e {
                    Some(x) => Some(x.resolve(data@)),
                    None => None::<UsageInfoView>,
                },
            )
            &&& (e matches Some(x) ==> x.wf(data@))
            &&& (opt_tok(f, data@) ==> (e matches Some(x) ==> x.texts_ok(data@)))
        },
        r is Err ==> fv_opt_sub_usage_info(Ok(opt_resolve(f, data@))) is None,
{
    match f {
        None => Ok(None),
        Some(JsonValue::Null) => Ok(None),
        Some(v) => match de_val_usage_info(v, data) {
            Ok(x) => Ok(Some(x)),
            Err(e) => Err(e),
        },
    }
}

fn ev_enum_annotation(f: Option<&JsonValue>, data: &[u8]) -> (r: Result<RawAnnotation, DecodeFault>)
    requires
        f matches Some(v) ==> v.wf(data@),
    ensures
        r matches Ok(e) ==> {
            &&& fv_enum_annotation(Ok(opt_resolve(f, data@))) == Some(e.resolve(data@))
            &&& e.wf(data@)
            &&& (opt_tok(f, data@) ==> e.texts_ok(data@))
        },
        r is Err ==> fv_enum_annotation(Ok(opt_resolve(f, data@))) is None,
{
    match f {
        Some(v) => de_val_annotation(v, data),
        None => Err(DecodeFault),
    }
}

fn ev_enum_content_part(f: Option<&JsonValue>, data: &[u8]) -> (r: Result<RawContentPart, DecodeFault>)
    requires
        f matches Some(v) ==> v.wf(data@),
    ensures
        r matches Ok(e) ==> {
            &&& fv_enum_content_part(Ok(opt_resolve(f, data@))) == Some(e.resolve(data@))
            &&& e.wf(data@)
            &&& (opt_tok(f, data@) ==> e.texts_ok(data@))
        },
        r is Err ==> fv_enum_content_part(Ok(opt_resolve(f, data@))) is None,
{
    match f {
        Some(v) => de_val_content_part(v, data),
        None => Err(DecodeFault),
    }
}

fn ev_enum_output_item(f: Option<&JsonValue>, data: &[u8]) -> (r: Result<RawOutputItem, DecodeFault>)
    requires
        f matches Some(v) ==> v.wf(data@),
    ensures
        r matches Ok(e) ==> {
            &&& fv_enum_output_item(Ok(opt_resolve(f, data@))) == Some(e.resolve(data@))
            &&& e.wf(data@)
            &&& (opt_tok(f, data@) ==> e.texts_ok(data@))
        },
        r is Err ==> fv_enum_output_item(Ok(opt_resolve(f, data@))) is None,
{
    match f {
        Some(v) => de_val_output_item(v, data),
        None => Err(DecodeFault),
    }
}

fn ev_vec_content_part(f: Option<&JsonValue>, data: &[u8]) -> (r: Result<
    Vec<RawContentPart>,
    DecodeFault,
>)
    requires
        f matches Some(v) ==> v.wf(data@),
    ensures
        r matches Ok(items) ==> {
            &&& fv_vec_content_part(Ok(opt_resolve(f, data@))) == Some(
                resolve_seq_content_part(items@, data@),
            )
            &&& forall|i: int| 0 <= i < items@.len() ==> (#[trigger] items@[i]).wf(data@)
            &&& (opt_tok(f, data@) ==> forall|i: int|
                0 <= i < items@.len() ==> (#[trigger] items@[i]).texts_ok(data@))
        },
        r is Err ==> fv_vec_content_part(Ok(opt_resolve(f, data@))) is None,
{
    match f {
        None => {
            let items: Vec<RawContentPart> = Vec::new();
            proof {
                assert(resolve_seq_content_part(items@, data@) =~= Seq::<ContentPartView>::empty());
            }
            Ok(items)
        },
        Some(v) => {
            let elems = match v {
                JsonValue::Arr(elems) => elems,
                _ => {
                    return Err(DecodeFault);
                },
            };
            let ghost evs = resolve_arr(elems@, data@);
            proof {
                crate::json::lemma_resolve_arr_len(elems@, data@);
                assert(evs.subrange(0, 0) =~= Seq::<JsonView>::empty());
            }
            let mut items: Vec<RawContentPart> = Vec::new();
            let mut i: usize = 0;
            proof {
                assert(resolve_seq_content_part(items@, data@) =~= Seq::<ContentPartView>::empty());
            }
            while i < elems.len()
                invariant
                    i <= elems@.len(),
                    fv_vec_content_part(Ok(opt_resolve(f, data@))) == dv_list_content_part(evs),
                    evs == resolve_arr(elems@, data@),
                    evs.len() == elems@.len(),
                    forall|k: int| 0 <= k < elems@.len() ==> (#[trigger] elems@[k]).wf(data@),
                    opt_tok(f, data@) ==> forall|k: int|
                        0 <= k < elems@.len() ==> (#[trigger] elems@[k]).texts_ok(data@),
                    dv_list_content_part(evs.subrange(0, i as int)) == Some(
                        resolve_seq_content_part(items@, data@),
                    ),
                    forall|k: int| 0 <= k < items@.len() ==> (#[trigger] items@[k]).wf(data@),
                    opt_tok(f, data@) ==> forall|k: int|
                        0 <= k < items@.len() ==> (#[trigger] items@[k]).texts_ok(data@),
                decreases elems@.len() - i,
            {
                proof {
                    lemma_resolve_arr_index(elems@, data@, i as int);
                }
                match de_val_content_part(&elems[i], data) {
                    Ok(x) => {
                        let ghost items0 = items@;
                        let ghost xg = x;
                        items.push(x);
                        proof {
                            assert(evs.subrange(0, i as int + 1).drop_last() =~= evs.subrange(
                                0,
                                i as int,
                            ));
                            assert(evs.subrange(0, i as int + 1).last() == evs[i as int]);
                            assert(resolve_seq_content_part(items@, data@) =~= resolve_seq_content_part(
                                items0,
                                data@,
                            ).push(xg.resolve(data@)));
                        }
                    },
                    Err(e) => {
                        proof {
                            lemma_dv_list_content_part_fail(evs, i as int);
                        }
                        return Err(e);
                    },
                }
                i = i + 1;
            }
            proof {
                assert(evs.subrange(0, elems@.len() as int) =~= evs);
            }
            Ok(items)
        },
    }
}

fn ev_vec_summary_part(f: Option<&JsonValue>, data: &[u8]) -> (r: Result<
    Vec<RawSummaryPart>,
    DecodeFault,
>)
    requires
        f matches Some(v) ==> v.wf(data@),
    ensures
        r matches Ok(items) ==> {
            &&& fv_vec_summary_part(Ok(opt_resolve(f, data@))) == Some(
                resolve_seq_summary_part(items@, data@),
            )
            &&& forall|i: int| 0 <= i < items@.len() ==> (#[trigger] items@[i]).wf(data@)
            &&& (opt_tok(f, data@) ==> forall|i: int|
                0 <= i < items@.len() ==> (#[trigger] items@[i]).texts_ok(data@))
        },
        r is Err ==> fv_vec_summary_part(Ok(opt_resolve(f, data@))) is None,
{
    match f {
        None => {
            let items: Vec<RawSummaryPart> = Vec::new();
            proof {
                assert(resolve_seq_summary_part(items@, data@) =~= Seq::<SummaryPartView>::empty());
            }
            Ok(items)
        },
        Some(v) => {
            let elems = match v {
                JsonValue::Arr(elems) => elems,
                _ => {
                    return Err(DecodeFault);
                },
            };
            let ghost evs = resolve_arr(elems@, data@);
            proof {
                crate::json::lemma_resolve_arr_len(elems@, data@);
                assert(evs.subrange(0, 0) =~= Seq::<JsonView>::empty());
            }
            let mut items: Vec<RawSummaryPart> = Vec::new();
            let mut i: usize = 0;
            proof {
                assert(resolve_seq_summary_part(items@, data@) =~= Seq::<SummaryPartView>::empty());
            }
            while i < elems.len()
                invariant
                    i <= elems@.len(),
                    fv_vec_summary_part(Ok(opt_resolve(f, data@))) == dv_list_summary_part(evs),
                    evs == resolve_arr(elems@, data@),
                    evs.len() == elems@.len(),
                    forall|k: int| 0 <= k < elems@.len() ==> (#[trigger] elems@[k]).wf(data@),
                    opt_tok(f, data@) ==> forall|k: int|
                        0 <= k < elems@.len() ==> (#[trigger] elems@[k]).texts_ok(data@),
                    dv_list_summary_part(evs.subrange(0, i as int)) == Some(
                        resolve_seq_summary_part(items@, data@),
                    ),
                    forall|k: int| 0 <= k < items@.len() ==> (#[trigger] items@[k]).wf(data@),
                    opt_tok(f, data@) ==> forall|k: int|
                        0 <= k < items@.len() ==> (#[trigger] items@[k]).texts_ok(data@),
                decreases elems@.len() - i,
            {
                proof {
                    lemma_resolve_arr_index(elems@, data@, i as int);
                }
                match de_val_summary_part(&elems[i], data) {
                    Ok(x) => {
                        let ghost items0 = items@;
                        let ghost xg = x;
                        items.push(x);
                        proof {
                            assert(evs.subrange(0, i as int + 1).drop_last() =~= evs.subrange(
                                0,
                                i as int,
                            ));
                            assert(evs.subrange(0, i as int + 1).last() == evs[i as int]);
                            assert(resolve_seq_summary_part(items@, data@) =~= resolve_seq_summary_part(
                                items0,
                                data@,
                            ).push(xg.resolve(data@)));
                        }
                    },
                    Err(e) => {
                        proof {
                            lemma_dv_list_summary_part_fail(evs, i as int);
                        }
                        return Err(e);
                    },
                }
                i = i + 1;
            }
            proof {
                assert(evs.subrange(0, elems@.len() as int) =~= evs);
            }
            Ok(items)
        },
    }
}

fn ev_vec_annotation(f: Option<&JsonValue>, data: &[u8]) -> (r: Result<
    Vec<RawAnnotation>,
    DecodeFault,
>)
    requires
        f matches Some(v) ==> v.wf(data@),
    ensures
        r matches Ok(items) ==> {
            &&& fv_vec_annotation(Ok(opt_resolve(f, data@))) == Some(
                resolve_seq_annotation(items@, data@),
            )
            &&& forall|i: int| 0 <= i < items@.len() ==> (#[trigger] items@[i]).wf(data@)
            &&& (opt_tok(f, data@) ==> forall|i: int|
                0 <= i < items@.len() ==> (#[trigger] items@[i]).texts_ok(data@))
        },
        r is Err ==> fv_vec_annotation(Ok(opt_resolve(f, data@))) is None,
{
    match f {
        None => {
            let items: Vec<RawAnnotation> = Vec::new();
            proof {
                assert(resolve_seq_annotation(items@, data@) =~= Seq::<AnnotationView>::empty());
            }
            Ok(items)
        },
        Some(v) => {
            let elems = match v {
                JsonValue::Arr(elems) => elems,
                _ => {
                    return Err(DecodeFault);
                },
            };
            let ghost evs = resolve_arr(elems@, data@);
            proof {
                crate::json::lemma_resolve_arr_len(elems@, data@);
                assert(evs.subrange(0, 0) =~= Seq::<JsonView>::empty());
            }
            let mut items: Vec<RawAnnotation> = Vec::new();
            let mut i: usize = 0;
            proof {
                assert(resolve_seq_annotation(items@, data@) =~= Seq::<AnnotationView>::empty());
            }
            while i < elems.len()
                invariant
                    i <= elems@.len(),
                    fv_vec_annotation(Ok(opt_resolve(f, data@))) == dv_list_annotation(evs),
                    evs == resolve_arr(elems@, data@),
                    evs.len() == elems@.len(),
                    forall|k: int| 0 <= k < elems@.len() ==> (#[trigger] elems@[k]).wf(data@),
                    opt_tok(f, data@) ==> forall|k: int|
                        0 <= k < elems@.len() ==> (#[trigger] elems@[k]).texts_ok(data@),
                    dv_list_annotation(evs.subrange(0, i as int)) == Some(
                        resolve_seq_annotation(items@, data@),
                    ),
                    forall|k: int| 0 <= k < items@.len() ==> (#[trigger] items@[k]).wf(data@),
                    opt_tok(f, data@) ==> forall|k: int|
                        0 <= k < items@.len() ==> (#[trigger] items@[k]).texts_ok(data@),
                decreases elems@.len() - i,
            {
                proof {
                    lemma_resolve_arr_index(elems@, data@, i as int);
                }
                match de_val_annotation(&elems[i], data) {
                    Ok(x) => {
                        let ghost items0 = items@;
                        let ghost xg = x;
                        items.push(x);
                        proof {
                            assert(evs.subrange(0, i as int + 1).drop_last() =~= evs.subrange(
                                0,
                                i as int,
                            ));
                            assert(evs.subrange(0, i as int + 1).last() == evs[i as int]);
                            assert(resolve_seq_annotation(items@, data@) =~= resolve_seq_annotation(
                                items0,
                                data@,
                            ).push(xg.resolve(data@)));
                        }
                    },
                    Err(e) => {
                        proof {
                            lemma_dv_list_annotation_fail(evs, i as int);
                        }
                        return Err(e);
                    },
                }
                i = i + 1;
            }
            proof {
                assert(evs.subrange(0, elems@.len() as int) =~= evs);
            }
            Ok(items)
        },
    }
}

/// The `ResponseCreatedData` an object's members denote, if any.
pub open spec fn dv_response_created_data(m: Seq<(Seq<u8>, JsonView)>) -> Option<ResponseCreatedDataView> {
    if fv_sub_response_metadata(spec_find(m, key_response_view())) is Some && fv_u64(spec_find(m, key_sequence_number_view())) is Some {
        Some(ResponseCreatedDataView { response: fv_sub_response_metadata(spec_find(m, key_response_view())).unwrap(), sequence_number: fv_u64(spec_find(m, key_sequence_number_view())).unwrap() })
    } else {
        None
    }
}

/// The `ResponseInProgressData` an object's members denote, if any.
pub open spec fn dv_response_in_progress_data(m: Seq<(Seq<u8>, JsonView)>) -> Option<ResponseInProgressDataView> {
    if fv_u64(spec_find(m, key_sequence_number_view())) is Some {
        Some(ResponseInProgressDataView { sequence_number: fv_u64(spec_find(m, key_sequence_number_view())).unwrap() })
    } else {
        None
    }
}

/// The `ResponseCompletedData` an object's members denote, if any.
pub open spec fn dv_response_completed_data(m: Seq<(Seq<u8>, JsonView)>) -> Option<ResponseCompletedDataView> {
    if fv_sub_response_metadata(spec_find(m, key_response_view())) is Some && fv_u64(spec_find(m, key_sequence_number_view())) is Some {
        Some(ResponseCompletedDataView { response: fv_sub_response_metadata(spec_find(m, key_response_view())).unwrap(), sequence_number: fv_u64(spec_find(m, key_sequence_number_view())).unwrap() })
    } else {
        None
    }
}

/// The `ResponseMetadata` an object's members denote, if any.
pub open spec fn dv_response_metadata(m: Seq<(Seq<u8>, JsonView)>) -> Option<ResponseMetadataView> {
    if fv_text(spec_find(m, key_id_view())) is Some && fv_rstatus(spec_find(m, key_status_view())) is Some && fv_opt_sub_usage_info(spec_find(m, key_usage_view())) is Some {
        Some(ResponseMetadataView { id: fv_text(spec_find(m, key_id_view())).unwrap(), status: fv_rstatus(spec_find(m, key_status_view())).unwrap(), usage: fv_opt_sub_usage_info(spec_find(m, key_usage_view())).unwrap() })
    } else {
        None
    }
}

/// The `UsageInfo` an object's members denote, if any.
pub open spec fn dv_usage_info(m: Seq<(Seq<u8>, JsonView)>) -> Option<UsageInfoView> {
    if fv_u64(spec_find(m, key_input_tokens_view())) is Some && fv_u64(spec_find(m, key_output_tokens_view())) is Some && fv_u64(spec_find(m, key_total_tokens_view())) is Some && fv_opt_rawnum(spec_find(m, key_cost_view())) is Some {
        Some(UsageInfoView { input_tokens: fv_u64(spec_find(m, key_input_tokens_view())).unwrap(), output_tokens: fv_u64(spec_find(m, key_output_tokens_view())).unwrap(), total_tokens: fv_u64(spec_find(m, key_total_tokens_view())).unwrap(), cost: fv_opt_rawnum(spec_find(m, key_cost_view())).unwrap() })
    } else {
        None
    }
}

/// The `OutputItemAddedData` an object's members denote, if any.
pub open spec fn dv_output_item_added_data(m: Seq<(Seq<u8>, JsonView)>) -> Option<OutputItemAddedDataView> {
    if fv_u32(spec_find(m, key_output_index_view())) is Some && fv_enum_output_item(spec_find(m, key_item_view())) is Some && fv_u64(spec_find(m, key_sequence_number_view())) is Some {
        Some(OutputItemAddedDataView { output_index: fv_u32(spec_find(m, key_output_index_view())).unwrap(), item: fv_enum_output_item(spec_find(m, key_item_view())).unwrap(), sequence_number: fv_u64(spec_find(m, key_sequence_number_view())).unwrap() })
    } else {
        None
    }
}

/// The `OutputItemDoneData` an object's members denote, if any.
pub open spec fn dv_output_item_done_data(m: Seq<(Seq<u8>, JsonView)>) -> Option<OutputItemDoneDataView> {
    if fv_u32(spec_find(m, key_output_index_view())) is Some && fv_enum_output_item(spec_find(m, key_item_view())) is Some && fv_u64(spec_find(m, key_sequence_number_view())) is Some {
        Some(OutputItemDoneDataView { output_index: fv_u32(spec_find(m, key_output_index_view())).unwrap(), item: fv_enum_output_item(spec_find(m, key_item_view())).unwrap(), sequence_number: fv_u64(spec_find(m, key_sequence_number_view())).unwrap() })
    } else {
        None
    }
}

/// The `MessageItem` an object's members denote, if any.
pub open spec fn dv_message_item(m: Seq<(Seq<u8>, JsonView)>) -> Option<MessageItemView> {
    if fv_text(spec_find(m, key_id_view())) is Some && fv_istatus(spec_find(m, key_status_view())) is Some && fv_vec_content_part(spec_find(m, key_content_view())) is Some {
        Some(MessageItemView { id: fv_text(spec_find(m, key_id_view())).unwrap(), status: fv_istatus(spec_find(m, key_status_view())).unwrap(), content: fv_vec_content_part(spec_find(m, key_content_view())).unwrap() })
    } else {
        None
    }
}

/// The `ReasoningItem` an object's members denote, if any.
pub open spec fn dv_reasoning_item(m: Seq<(Seq<u8>, JsonView)>) -> Option<ReasoningItemView> {
    if fv_text(spec_find(m, key_id_view())) is Some && fv_vec_summary_part(spec_find(m, key_summary_view())) is Some && fv_opt_text(spec_find(m, key_encrypted_content_view())) is Some {
        Some(ReasoningItemView { id: fv_text(spec_find(m, key_id_view())).unwrap(), summary: fv_vec_summary_part(spec_find(m, key_summary_view())).unwrap(), encrypted_content: fv_opt_text(spec_find(m, key_encrypted_content_view())).unwrap() })
    } else {
        None
    }
}

/// The `FunctionCallItem` an object's members denote, if any.
pub open spec fn dv_function_call_item(m: Seq<(Seq<u8>, JsonView)>) -> Option<FunctionCallItemView> {
    if fv_text(spec_find(m, key_call_id_view())) is Some && fv_text(spec_find(m, key_name_view())) is Some && fv_text(spec_find(m, key_arguments_view())) is Some && fv_istatus(spec_find(m, key_status_view())) is Some {
        Some(FunctionCallItemView { call_id: fv_text(spec_find(m, key_call_id_view())).unwrap(), name: fv_text(spec_find(m, key_name_view())).unwrap(), arguments: fv_text(spec_find(m, key_arguments_view())).unwrap(), status: fv_istatus(spec_find(m, key_status_view())).unwrap() })
    } else {
        None
    }
}

/// The `ContentPartAddedData` an object's members denote, if any.
pub open spec fn dv_content_part_added_data(m: Seq<(Seq<u8>, JsonView)>) -> Option<ContentPartAddedDataView> {
    if fv_text(spec_find(m, key_item_id_view())) is Some && fv_u32(spec_find(m, key_output_index_view())) is Some && fv_u32(spec_find(m, key_content_index_view())) is Some && fv_enum_content_part(spec_find(m, key_part_view())) is Some && fv_u64(spec_find(m, key_sequence_number_view())) is Some {
        Some(ContentPartAddedDataView { item_id: fv_text(spec_find(m, key_item_id_view())).unwrap(), output_index: fv_u32(spec_find(m, key_output_index_view())).unwrap(), content_index: fv_u32(spec_find(m, key_content_index_view())).unwrap(), part: fv_enum_content_part(spec_find(m, key_part_view())).unwrap(), sequence_number: fv_u64(spec_find(m, key_sequence_number_view())).unwrap() })
    } else {
        None
    }
}

/// The `ContentPartDoneData` an object's members denote, if any.
pub open spec fn dv_content_part_done_data(m: Seq<(Seq<u8>, JsonView)>) -> Option<ContentPartDoneDataView> {
    if fv_text(spec_find(m, key_item_id_view())) is Some && fv_u32(spec_find(m, key_output_index_view())) is Some && fv_u32(spec_find(m, key_content_index_view())) is Some && fv_enum_content_part(spec_find(m, key_part_view())) is Some && fv_u64(spec_find(m, key_sequence_number_view())) is Some {
        Some(ContentPartDoneDataView { item_id: fv_text(spec_find(m, key_item_id_view())).unwrap(), output_index: fv_u32(spec_find(m, key_output_index_view())).unwrap(), content_index: fv_u32(spec_find(m, key_content_index_view())).unwrap(), part: fv_enum_content_part(spec_find(m, key_part_view())).unwrap(), sequence_number: fv_u64(spec_find(m, key_sequence_number_view())).unwrap() })
    } else {
        None
    }
}

/// The `OutputTextPart` an object's members denote, if any.
pub open spec fn dv_output_text_part(m: Seq<(Seq<u8>, JsonView)>) -> Option<OutputTextPartView> {
    if fv_text(spec_find(m, key_text_view())) is Some && fv_vec_annotation(spec_find(m, key_annotations_view())) is Some {
        Some(OutputTextPartView { text: fv_text(spec_find(m, key_text_view())).unwrap(), annotations: fv_vec_annotation(spec_find(m, key_annotations_view())).unwrap() })
    } else {
        None
    }
}

/// The `ReasoningTextPart` an object's members denote, if any.
pub open spec fn dv_reasoning_text_part(m: Seq<(Seq<u8>, JsonView)>) -> Option<ReasoningTextPartView> {
    if fv_text(spec_find(m, key_text_view())) is Some {
        Some(ReasoningTextPartView { text: fv_text(spec_find(m, key_text_view())).unwrap() })
    } else {
        None
    }
}

/// The `SummaryPart` an object's members denote, if any.
pub open spec fn dv_summary_part(m: Seq<(Seq<u8>, JsonView)>) -> Option<SummaryPartView> {
    if dv_obj_summary_content(m) is Some {
        Some(SummaryPartView { content: dv_obj_summary_content(m).unwrap() })
    } else {
        None
    }
}

/// The `SummaryTextPart` an object's members denote, if any.
pub open spec fn dv_summary_text_part(m: Seq<(Seq<u8>, JsonView)>) -> Option<SummaryTextPartView> {
    if fv_text(spec_find(m, key_text_view())) is Some {
        Some(SummaryTextPartView { text: fv_text(spec_find(m, key_text_view())).unwrap() })
    } else {
        None
    }
}

/// The `OutputTextDeltaData` an object's members denote, if any.
pub open spec fn dv_output_text_delta_data(m: Seq<(Seq<u8>, JsonView)>) -> Option<OutputTextDeltaDataView> {
    if fv_u32(spec_find(m, key_output_index_view())) is Some && fv_text(spec_find(m, key_item_id_view())) is Some && fv_u32(spec_find(m, key_content_index_view())) is Some && fv_text(spec_find(m, key_delta_view())) is Some && fv_u64(spec_find(m, key_sequence_number_view())) is Some {
        Some(OutputTextDeltaDataView { output_index: fv_u32(spec_find(m, key_output_index_view())).unwrap(), item_id: fv_text(spec_find(m, key_item_id_view())).unwrap(), content_index: fv_u32(spec_find(m, key_content_index_view())).unwrap(), delta: fv_text(spec_find(m, key_delta_view())).unwrap(), sequence_number: fv_u64(spec_find(m, key_sequence_number_view())).unwrap() })
    } else {
        None
    }
}

/// The `OutputTextDoneData` an object's members denote, if any.
pub open spec fn dv_output_text_done_data(m: Seq<(Seq<u8>, JsonView)>) -> Option<OutputTextDoneDataView> {
    if fv_text(spec_find(m, key_item_id_view())) is Some && fv_u32(spec_find(m, key_output_index_view())) is Some && fv_u32(spec_find(m, key_content_index_view())) is Some && fv_text(spec_find(m, key_text_view())) is Some && fv_u64(spec_find(m, key_sequence_number_view())) is Some {
        Some(OutputTextDoneDataView { item_id: fv_text(spec_find(m, key_item_id_view())).unwrap(), output_index: fv_u32(spec_find(m, key_output_index_view())).unwrap(), content_index: fv_u32(spec_find(m, key_content_index_view())).unwrap(), text: fv_text(spec_find(m, key_text_view())).unwrap(), sequence_number: fv_u64(spec_find(m, key_sequence_number_view())).unwrap() })
    } else {
        None
    }
}

/// The `ReasoningTextDeltaData` an object's members denote, if any.
pub open spec fn dv_reasoning_text_delta_data(m: Seq<(Seq<u8>, JsonView)>) -> Option<ReasoningTextDeltaDataView> {
    if fv_u32(spec_find(m, key_output_index_view())) is Some && fv_text(spec_find(m, key_item_id_view())) is Some && fv_u32(spec_find(m, key_content_index_view())) is Some && fv_text(spec_find(m, key_delta_view())) is Some && fv_u64(spec_find(m, key_sequence_number_view())) is Some {
        Some(ReasoningTextDeltaDataView { output_index: fv_u32(spec_find(m, key_output_index_view())).unwrap(), item_id: fv_text(spec_find(m, key_item_id_view())).unwrap(), content_index: fv_u32(spec_find(m, key_content_index_view())).unwrap(), delta: fv_text(spec_find(m, key_delta_view())).unwrap(), sequence_number: fv_u64(spec_find(m, key_sequence_number_view())).unwrap() })
    } else {
        None
    }
}

/// The `ReasoningTextDoneData` an object's members denote, if any.
pub open spec fn dv_reasoning_text_done_data(m: Seq<(Seq<u8>, JsonView)>) -> Option<ReasoningTextDoneDataView> {
    if fv_u32(spec_find(m, key_output_index_view())) is Some && fv_text(spec_find(m, key_item_id_view())) is Some && fv_u32(spec_find(m, key_content_index_view())) is Some && fv_text(spec_find(m, key_text_view())) is Some && fv_u64(spec_find(m, key_sequence_number_view())) is Some {
        Some(ReasoningTextDoneDataView { output_index: fv_u32(spec_find(m, key_output_index_view())).unwrap(), item_id: fv_text(spec_find(m, key_item_id_view())).unwrap(), content_index: fv_u32(spec_find(m, key_content_index_view())).unwrap(), text: fv_text(spec_find(m, key_text_view())).unwrap(), sequence_number: fv_u64(spec_find(m, key_sequence_number_view())).unwrap() })
    } else {
        None
    }
}

/// The `ReasoningSummaryPartAddedData` an object's members denote, if any.
pub open spec fn dv_reasoning_summary_part_added_data(m: Seq<(Seq<u8>, JsonView)>) -> Option<ReasoningSummaryPartAddedDataView> {
    if fv_u32(spec_find(m, key_output_index_view())) is Some && fv_text(spec_find(m, key_item_id_view())) is Some && fv_u32(spec_find(m, key_summary_index_view())) is Some && fv_sub_summary_part(spec_find(m, key_part_view())) is Some && fv_u64(spec_find(m, key_sequence_number_view())) is Some {
        Some(ReasoningSummaryPartAddedDataView { output_index: fv_u32(spec_find(m, key_output_index_view())).unwrap(), item_id: fv_text(spec_find(m, key_item_id_view())).unwrap(), summary_index: fv_u32(spec_find(m, key_summary_index_view())).unwrap(), part: fv_sub_summary_part(spec_find(m, key_part_view())).unwrap(), sequence_number: fv_u64(spec_find(m, key_sequence_number_view())).unwrap() })
    } else {
        None
    }
}

/// The `ReasoningSummaryTextDeltaData` an object's members denote, if any.
pub open spec fn dv_reasoning_summary_text_delta_data(m: Seq<(Seq<u8>, JsonView)>) -> Option<ReasoningSummaryTextDeltaDataView> {
    if fv_text(spec_find(m, key_item_id_view())) is Some && fv_u32(spec_find(m, key_output_index_view())) is Some && fv_u32(spec_find(m, key_summary_index_view())) is Some && fv_text(spec_find(m, key_delta_view())) is Some && fv_u64(spec_find(m, key_sequence_number_view())) is Some {
        Some(ReasoningSummaryTextDeltaDataView { item_id: fv_text(spec_find(m, key_item_id_view())).unwrap(), output_index: fv_u32(spec_find(m, key_output_index_view())).unwrap(), summary_index: fv_u32(spec_find(m, key_summary_index_view())).unwrap(), delta: fv_text(spec_find(m, key_delta_view())).unwrap(), sequence_number: fv_u64(spec_find(m, key_sequence_number_view())).unwrap() })
    } else {
        None
    }
}

/// The `ReasoningSummaryTextDoneData` an object's members denote, if any.
pub open spec fn dv_reasoning_summary_text_done_data(m: Seq<(Seq<u8>, JsonView)>) -> Option<ReasoningSummaryTextDoneDataView> {
    if fv_u32(spec_find(m, key_output_index_view())) is Some && fv_text(spec_find(m, key_item_id_view())) is Some && fv_u32(spec_find(m, key_summary_index_view())) is Some && fv_text(spec_find(m, key_text_view())) is Some && fv_u64(spec_find(m, key_sequence_number_view())) is Some {
        Some(ReasoningSummaryTextDoneDataView { output_index: fv_u32(spec_find(m, key_output_index_view())).unwrap(), item_id: fv_text(spec_find(m, key_item_id_view())).unwrap(), summary_index: fv_u32(spec_find(m, key_summary_index_view())).unwrap(), text: fv_text(spec_find(m, key_text_view())).unwrap(), sequence_number: fv_u64(spec_find(m, key_sequence_number_view())).unwrap() })
    } else {
        None
    }
}

/// The `ReasoningSummaryPartDoneData` an object's members denote, if any.
pub open spec fn dv_reasoning_summary_part_done_data(m: Seq<(Seq<u8>, JsonView)>) -> Option<ReasoningSummaryPartDoneDataView> {
    if fv_u32(spec_find(m, key_output_index_view())) is Some && fv_text(spec_find(m, key_item_id_view())) is Some && fv_u32(spec_find(m, key_summary_index_view())) is Some && fv_sub_summary_part(spec_find(m, key_part_view())) is Some && fv_u64(spec_find(m, key_sequence_number_view())) is Some {
        Some(ReasoningSummaryPartDoneDataView { output_index: fv_u32(spec_find(m, key_output_index_view())).unwrap(), item_id: fv_text(spec_find(m, key_item_id_view())).unwrap(), summary_index: fv_u32(spec_find(m, key_summary_index_view())).unwrap(), part: fv_sub_summary_part(spec_find(m, key_part_view())).unwrap(), sequence_number: fv_u64(spec_find(m, key_sequence_number_view())).unwrap() })
    } else {
        None
    }
}

/// The `FunctionCallArgumentsDeltaData` an object's members denote, if any.
pub open spec fn dv_function_call_arguments_delta_data(m: Seq<(Seq<u8>, JsonView)>) -> Option<FunctionCallArgumentsDeltaDataView> {
    if fv_text(spec_find(m, key_item_id_view())) is Some && fv_u32(spec_find(m, key_output_index_view())) is Some && fv_text(spec_find(m, key_delta_view())) is Some && fv_u64(spec_find(m, key_sequence_number_view())) is Some {
        Some(FunctionCallArgumentsDeltaDataView { item_id: fv_text(spec_find(m, key_item_id_view())).unwrap(), output_index: fv_u32(spec_find(m, key_output_index_view())).unwrap(), delta: fv_text(spec_find(m, key_delta_view())).unwrap(), sequence_number: fv_u64(spec_find(m, key_sequence_number_view())).unwrap() })
    } else {
        None
    }
}

/// The `FunctionCallArgumentsDoneData` an object's members denote, if any.
pub open spec fn dv_function_call_arguments_done_data(m: Seq<(Seq<u8>, JsonView)>) -> Option<FunctionCallArgumentsDoneDataView> {
    if fv_text(spec_find(m, key_item_id_view())) is Some && fv_u32(spec_find(m, key_output_index_view())) is Some && fv_text(spec_find(m, key_name_view())) is Some && fv_text(spec_find(m, key_arguments_view())) is Some && fv_u64(spec_find(m, key_sequence_number_view())) is Some {
        Some(FunctionCallArgumentsDoneDataView { item_id: fv_text(spec_find(m, key_item_id_view())).unwrap(), output_index: fv_u32(spec_find(m, key_output_index_view())).unwrap(), name: fv_text(spec_find(m, key_name_view())).unwrap(), arguments: fv_text(spec_find(m, key_arguments_view())).unwrap(), sequence_number: fv_u64(spec_find(m, key_sequence_number_view())).unwrap() })
    } else {
        None
    }
}

/// The `AnnotationAddedData` an object's members denote, if any.
pub open spec fn dv_annotation_added_data(m: Seq<(Seq<u8>, JsonView)>) -> Option<AnnotationAddedDataView> {
    if fv_u32(spec_find(m, key_output_index_view())) is Some && fv_text(spec_find(m, key_item_id_view())) is Some && fv_u32(spec_find(m, key_content_index_view())) is Some && fv_u64(spec_find(m, key_sequence_number_view())) is Some && fv_u32(spec_find(m, key_annotation_index_view())) is Some && fv_enum_annotation(spec_find(m, key_annotation_view())) is Some {
        Some(AnnotationAddedDataView { output_index: fv_u32(spec_find(m, key_output_index_view())).unwrap(), item_id: fv_text(spec_find(m, key_item_id_view())).unwrap(), content_index: fv_u32(spec_find(m, key_content_index_view())).unwrap(), sequence_number: fv_u64(spec_find(m, key_sequence_number_view())).unwrap(), annotation_index: fv_u32(spec_find(m, key_annotation_index_view())).unwrap(), annotation: fv_enum_annotation(spec_find(m, key_annotation_view())).unwrap() })
    } else {
        None
    }
}

/// The `UrlCitation` an object's members denote, if any.
pub open spec fn dv_url_citation(m: Seq<(Seq<u8>, JsonView)>) -> Option<UrlCitationView> {
    if fv_text(spec_find(m, key_url_view())) is Some && fv_text(spec_find(m, key_title_view())) is Some && fv_u32(spec_find(m, key_start_index_view())) is Some && fv_u32(spec_find(m, key_end_index_view())) is Some {
        Some(UrlCitationView { url: fv_text(spec_find(m, key_url_view())).unwrap(), title: fv_text(spec_find(m, key_title_view())).unwrap(), start_index: fv_u32(spec_find(m, key_start_index_view())).unwrap(), end_index: fv_u32(spec_find(m, key_end_index_view())).unwrap() })
    } else {
        None
    }
}

/// The `OutputItem` an object's members denote, by the `type` tag, if any.
pub open spec fn dv_obj_output_item(m: Seq<(Seq<u8>, JsonView)>) -> Option<OutputItemView> {
    match spec_find(m, key_type_view()) {
        Ok(Some(JsonView::Text(tag))) => {
            if tag == lit_message_view() {
                match dv_message_item(m) {
                    Some(x) => Some(OutputItemView::Message(x)),
                    None => None,
                }
            } else if tag == lit_reasoning_view() {
                match dv_reasoning_item(m) {
                    Some(x) => Some(OutputItemView::Reasoning(x)),
                    None => None,
                }
            } else if tag == lit_function_call_view() {
                match dv_function_call_item(m) {
                    Some(x) => Some(OutputItemView::FunctionCall(x)),
                    None => None,
                }
            } else {
                None
            }
        },
        _ => None,
    }
}

/// The `ContentPart` an object's members denote, by the `type` tag, if any.
pub open spec fn dv_obj_content_part(m: Seq<(Seq<u8>, JsonView)>) -> Option<ContentPartView> {
    match spec_find(m, key_type_view()) {
        Ok(Some(JsonView::Text(tag))) => {
            if tag == lit_output_text_view() {
                match dv_output_text_part(m) {
                    Some(x) => Some(ContentPartView::OutputText(x)),
                    None => None,
                }
            } else if tag == lit_reasoning_text_view() {
                match dv_reasoning_text_part(m) {
                    Some(x) => Some(ContentPartView::ReasoningText(x)),
                    None => None,
                }
            } else if tag == lit_summary_text_view() {
                match dv_summary_text_part(m) {
                    Some(x) => Some(ContentPartView::SummaryText(x)),
                    None => None,
                }
            } else {
                None
            }
        },
        _ => None,
    }
}

/// The `SummaryContent` an object's members denote, by the `type` tag, if any.
pub open spec fn dv_obj_summary_content(m: Seq<(Seq<u8>, JsonView)>) -> Option<SummaryContentView> {
    match spec_find(m, key_type_view()) {
        Ok(Some(JsonView::Text(tag))) => {
            if tag == lit_summary_text_view() {
                match dv_summary_text_part(m) {
                    Some(x) => Some(SummaryContentView::SummaryText(x)),
                    None => None,
                }
            } else {
                None
            }
        },
        _ => None,
    }
}

/// The `Annotation` an object's members denote, by the `type` tag, if any.
pub open spec fn dv_obj_annotation(m: Seq<(Seq<u8>, JsonView)>) -> Option<AnnotationView> {
    match spec_find(m, key_type_view()) {
        Ok(Some(JsonView::Text(tag))) => {
            if tag == lit_url_citation_view() {
                match dv_url_citation(m) {
                    Some(x) => Some(AnnotationView::UrlCitation(x)),
                    None => None,
                }
            } else {
                None
            }
        },
        _ => None,
    }
}

/// The `StreamEvent` an object's members denote, by the `type` tag, if any.
pub open spec fn dv_obj_stream_event(m: Seq<(Seq<u8>, JsonView)>) -> Option<StreamEventView> {
    match spec_find(m, key_type_view()) {
        Ok(Some(JsonView::Text(tag))) => {
            if tag == lit_response_created_view() {
                match dv_response_created_data(m) {
                    Some(x) => Some(StreamEventView::ResponseCreated(x)),
                    None => None,
                }
            } else if tag == lit_response_in_progress_view() {
                match dv_response_in_progress_data(m) {
                    Some(x) => Some(StreamEventView::ResponseInProgress(x)),
                    None => None,
                }
            } else if tag == lit_response_output_item_added_view() {
                match dv_output_item_added_data(m) {
                    Some(x) => Some(StreamEventView::ResponseOutputItemAdded(x)),
                    None => None,
                }
            } else if tag == lit_response_content_part_added_view() {
                match dv_content_part_added_data(m) {
                    Some(x) => Some(StreamEventView::ResponseContentPartAdded(x)),
                    None => None,
                }
            } else if tag == lit_response_output_text_delta_view() {
                match dv_output_text_delta_data(m) {
                    Some(x) => Some(StreamEventView::ResponseOutputTextDelta(x)),
                    None => None,
                }
            } else if tag == lit_response_output_text_annotation_added_view() {
                match dv_annotation_added_data(m) {
                    Some(x) => Some(StreamEventView::ResponseOutputTextAnnotationAdded(x)),
                    None => None,
                }
            } else if tag == lit_response_output_text_done_view() {
                match dv_output_text_done_data(m) {
                    Some(x) => Some(StreamEventView::ResponseOutputTextDone(x)),
                    None => None,
                }
            } else if tag == lit_response_content_part_done_view() {
                match dv_content_part_done_data(m) {
                    Some(x) => Some(StreamEventView::ResponseContentPartDone(x)),
                    None => None,
                }
            } else if tag == lit_response_output_item_done_view() {
                match dv_output_item_done_data(m) {
                    Some(x) => Some(StreamEventView::ResponseOutputItemDone(x)),
                    None => None,
                }
            } else if tag == lit_response_function_call_arguments_delta_view() {
                match dv_function_call_arguments_delta_data(m) {
                    Some(x) => Some(StreamEventView::ResponseFunctionCallArgumentsDelta(x)),
                    None => None,
                }
            } else if tag == lit_response_function_call_arguments_done_view() {
                match dv_function_call_arguments_done_data(m) {
                    Some(x) => Some(StreamEventView::ResponseFunctionCallArgumentsDone(x)),
                    None => None,
                }
            } else if tag == lit_response_reasoning_text_delta_view() {
                match dv_reasoning_text_delta_data(m) {
                    Some(x) => Some(StreamEventView::ResponseReasoningTextDelta(x)),
                    None => None,
                }
            } else if tag == lit_response_reasoning_text_done_view() {
                match dv_reasoning_text_done_data(m) {
                    Some(x) => Some(StreamEventView::ResponseReasoningTextDone(x)),
                    None => None,
                }
            } else if tag == lit_response_reasoning_summary_part_added_view() {
                match dv_reasoning_summary_part_added_data(m) {
                    Some(x) => Some(StreamEventView::ResponseReasoningSummaryPartAdded(x)),
                    None => None,
                }
            } else if tag == lit_response_reasoning_summary_text_delta_view() {
                match dv_reasoning_summary_text_delta_data(m) {
                    Some(x) => Some(StreamEventView::ResponseReasoningSummaryTextDelta(x)),
                    None => None,
                }
            } else if tag == lit_response_reasoning_summary_text_done_view() {
                match dv_reasoning_summary_text_done_data(m) {
                    Some(x) => Some(StreamEventView::ResponseReasoningSummaryTextDone(x)),
                    None => None,
                }
            } else if tag == lit_response_reasoning_summary_part_done_view() {
                match dv_reasoning_summary_part_done_data(m) {
                    Some(x) => Some(StreamEventView::ResponseReasoningSummaryPartDone(x)),
                    None => None,
                }
            } else if tag == lit_response_completed_view() {
                match dv_response_completed_data(m) {
                    Some(x) => Some(StreamEventView::ResponseCompleted(x)),
                    None => None,
                }
            } else {
                None
            }
        },
        _ => None,
    }
}

/// Decodes a `ResponseCreatedData` record from an object's members.
pub fn de_response_created_data(members: &Vec<(RawText, JsonValue)>, data: &[u8]) -> (r: Result<
    RawResponseCreatedData,
    DecodeFault,
>)
    requires
        members_wf(members@, data@),
    ensures
        r matches Ok(e) ==> {
            &&& dv_response_created_data(resolve_obj(members@, data@)) == Some(e.resolve(data@))
            &&& e.wf(data@)
            &&& (members_tok(members@, data@) ==> e.texts_ok(data@))
        },
        r is Err ==> dv_response_created_data(resolve_obj(members@, data@)) is None,
{
    let f = match find_key(members, data, key_response().as_slice()) {
        Ok(f) => f,
        Err(e) => {
            return Err(e);
        },
    };
    let response = match ev_sub_response_metadata(f, data) {
        Ok(x) => x,
        Err(e) => {
            return Err(e);
        },
    };
    let f = match find_key(members, data, key_sequence_number().as_slice()) {
        Ok(f) => f,
        Err(e) => {
            return Err(e);
        },
    };
    let sequence_number = match ev_u64(f, data) {
        Ok(x) => x,
        Err(e) => {
            return Err(e);
        },
    };
    Ok(RawResponseCreatedData { response, sequence_number })
}

/// Decodes a `ResponseInProgressData` record from an object's members.
pub fn de_response_in_progress_data(members: &Vec<(RawText, JsonValue)>, data: &[u8]) -> (r: Result<
    RawResponseInProgressData,
    DecodeFault,
>)
    requires
        members_wf(members@, data@),
    ensures
        r matches Ok(e) ==> {
            &&& dv_response_in_progress_data(resolve_obj(members@, data@)) == Some(e.resolve(data@))
            &&& e.wf(data@)
            &&& (members_tok(members@, data@) ==> e.texts_ok(data@))
        },
        r is Err ==> dv_response_in_progress_data(resolve_obj(members@, data@)) is None,
{
    let f = match find_key(members, data, key_sequence_number().as_slice()) {
        Ok(f) => f,
        Err(e) => {
            return Err(e);
        },
    };
    let sequence_number = match ev_u64(f, data) {
        Ok(x) => x,
        Err(e) => {
            return Err(e);
        },
    };
    Ok(RawResponseInProgressData { sequence_number })
}

/// Decodes a `ResponseCompletedData` record from an object's members.
pub fn de_response_completed_data(members: &Vec<(RawText, JsonValue)>, data: &[u8]) -> (r: Result<
    RawResponseCompletedData,
    DecodeFault,
>)
    requires
        members_wf(members@, data@),
    ensures
        r matches Ok(e) ==> {
            &&& dv_response_completed_data(resolve_obj(members@, data@)) == Some(e.resolve(data@))
            &&& e.wf(data@)
            &&& (members_tok(members@, data@) ==> e.texts_ok(data@))
        },
        r is Err ==> dv_response_completed_data(resolve_obj(members@, data@)) is None,
{
    let f = match find_key(members, data, key_response().as_slice()) {
        Ok(f) => f,
        Err(e) => {
            return Err(e);
        },
    };
    let response = match ev_sub_response_metadata(f, data) {
        Ok(x) => x,
        Err(e) => {
            return Err(e);
        },
    };
    let f = match find_key(members, data, key_sequence_number().as_slice()) {
        Ok(f) => f,
        Err(e) => {
            return Err(e);
        },
    };
    let sequence_number = match ev_u64(f, data) {
        Ok(x) => x,
        Err(e) => {
            return Err(e);
        },
    };
    Ok(RawResponseCompletedData { response, sequence_number })
}

/// Decodes a `ResponseMetadata` record from an object's members.
pub fn de_response_metadata(members: &Vec<(RawText, JsonValue)>, data: &[u8]) -> (r: Result<
    RawResponseMetadata,
    DecodeFault,
>)
    requires
        members_wf(members@, data@),
    ensures
        r matches Ok(e) ==> {
            &&& dv_response_metadata(resolve_obj(members@, data@)) == Some(e.resolve(data@))
            &&& e.wf(data@)
            &&& (members_tok(members@, data@) ==> e.texts_ok(data@))
        },
        r is Err ==> dv_response_metadata(resolve_obj(members@, data@)) is None,
{
    let f = match find_key(members, data, key_id().as_slice()) {
        Ok(f) => f,
        Err(e) => {
            return Err(e);
        },
    };
    let id = match ev_text(f, data) {
        Ok(x) => x,
        Err(e) => {
            return Err(e);
        },
    };
    let f = match find_key(members, data, key_status().as_slice()) {
        Ok(f) => f,
        Err(e) => {
            return Err(e);
        },
    };
    let status = match ev_rstatus(f, data) {
        Ok(x) => x,
        Err(e) => {
            return Err(e);
        },
    };
    let f = match find_key(members, data, key_usage().as_slice()) {
        Ok(f) => f,
        Err(e) => {
            return Err(e);
        },
    };
    let usage = match ev_opt_sub_usage_info(f, data) {
        Ok(x) => x,
        Err(e) => {
            return Err(e);
        },
    };
    Ok(RawResponseMetadata { id, status, usage })
}

/// Decodes a `UsageInfo` record from an object's members.
pub fn de_usage_info(members: &Vec<(RawText, JsonValue)>, data: &[u8]) -> (r: Result<
    RawUsageInfo,
    DecodeFault,
>)
    requires
        members_wf(members@, data@),
    ensures
        r matches Ok(e) ==> {
            &&& dv_usage_info(resolve_obj(members@, data@)) == Some(e.resolve(data@))
            &&& e.wf(data@)
            &&& (members_tok(members@, data@) ==> e.texts_ok(data@))
        },
        r is Err ==> dv_usage_info(resolve_obj(members@, data@)) is None,
{
    let f = match find_key(members, data, key_input_tokens().as_slice()) {
        Ok(f) => f,
        Err(e) => {
            return Err(e);
        },
    };
    let input_tokens = match ev_u64(f, data) {
        Ok(x) => x,
        Err(e) => {
            return Err(e);
        },
    };
    let f = match find_key(members, data, key_output_tokens().as_slice()) {
        Ok(f) => f,
        Err(e) => {
            return Err(e);
        },
    };
    let output_tokens = match ev_u64(f, data) {
        Ok(x) => x,
        Err(e) => {
            return Err(e);
        },
    };
    let f = match find_key(members, data, key_total_tokens().as_slice()) {
        Ok(f) => f,
        Err(e) => {
            return Err(e);
        },
    };
    let total_tokens = match ev_u64(f, data) {
        Ok(x) => x,
        Err(e) => {
            return Err(e);
        },
    };
    let f = match find_key(members, data, key_cost().as_slice()) {
        Ok(f) => f,
        Err(e) => {
            return Err(e);
        },
    };
    let cost = match ev_opt_rawnum(f, data) {
        Ok(x) => x,
        Err(e) => {
            return Err(e);
        },
    };
    Ok(RawUsageInfo { input_tokens, output_tokens, total_tokens, cost })
}

/// Decodes a `OutputItemAddedData` record from an object's members.
pub fn de_output_item_added_data(members: &Vec<(RawText, JsonValue)>, data: &[u8]) -> (r: Result<
    RawOutputItemAddedData,
    DecodeFault,
>)
    requires
        members_wf(members@, data@),
    ensures
        r matches Ok(e) ==> {
            &&& dv_output_item_added_data(resolve_obj(members@, data@)) == Some(e.resolve(data@))
            &&& e.wf(data@)
            &&& (members_tok(members@, data@) ==> e.texts_ok(data@))
        },
        r is Err ==> dv_output_item_added_data(resolve_obj(members@, data@)) is None,
{
    let f = match find_key(members, data, key_output_index().as_slice()) {
        Ok(f) => f,
        Err(e) => {
            return Err(e);
        },
    };
    let output_index = match ev_u32(f, data) {
        Ok(x) => x,
        Err(e) => {
            return Err(e);
        },
    };
    let f = match find_key(members, data, key_item().as_slice()) {
        Ok(f) => f,
        Err(e) => {
            return Err(e);
        },
    };
    let item = match ev_enum_output_item(f, data) {
        Ok(x) => x,
        Err(e) => {
            return Err(e);
        },
    };
    let f = match find_key(members, data, key_sequence_number().as_slice()) {
        Ok(f) => f,
        Err(e) => {
            return Err(e);
        },
    };
    let sequence_number = match ev_u64(f, data) {
        Ok(x) => x,
        Err(e) => {
            return Err(e);
        },
    };
    Ok(RawOutputItemAddedData { output_index, item, sequence_number })
}

/// Decodes a `OutputItemDoneData` record from an object's members.
pub fn de_output_item_done_data(members: &Vec<(RawText, JsonValue)>, data: &[u8]) -> (r: Result<
    RawOutputItemDoneData,
    DecodeFault,
>)
    requires
        members_wf(members@, data@),
    ensures
        r matches Ok(e) ==> {
            &&& dv_output_item_done_data(resolve_obj(members@, data@)) == Some(e.resolve(data@))
            &&& e.wf(data@)
            &&& (members_tok(members@, data@) ==> e.texts_ok(data@))
        },
        r is Err ==> dv_output_item_done_data(resolve_obj(members@, data@)) is None,
{
    let f = match find_key(members, data, key_output_index().as_slice()) {
        Ok(f) => f,
        Err(e) => {
            return Err(e);
        },
    };
    let output_index = match ev_u32(f, data) {
        Ok(x) => x,
        Err(e) => {
            return Err(e);
        },
    };
    let f = match find_key(members, data, key_item().as_slice()) {
        Ok(f) => f,
        Err(e) => {
            return Err(e);
        },
    };
    let item = match ev_enum_output_item(f, data) {
        Ok(x) => x,
        Err(e) => {
            return Err(e);
        },
    };
    let f = match find_key(members, data, key_sequence_number().as_slice()) {
        Ok(f) => f,
        Err(e) => {
            return Err(e);
        },
    };
    let sequence_number = match ev_u64(f, data) {
        Ok(x) => x,
        Err(e) => {
            return Err(e);
        },
    };
    Ok(RawOutputItemDoneData { output_index, item, sequence_number })
}

/// Decodes a `MessageItem` record from an object's members.
pub fn de_message_item(members: &Vec<(RawText, JsonValue)>, data: &[u8]) -> (r: Result<
    RawMessageItem,
    DecodeFault,
>)
    requires
        members_wf(members@, data@),
    ensures
        r matches Ok(e) ==> {
            &&& dv_message_item(resolve_obj(members@, data@)) == Some(e.resolve(data@))
            &&& e.wf(data@)
            &&& (members_tok(members@, data@) ==> e.texts_ok(data@))
        },
        r is Err ==> dv_message_item(resolve_obj(members@, data@)) is None,
{
    let f = match find_key(members, data, key_id().as_slice()) {
        Ok(f) => f,
        Err(e) => {
            return Err(e);
        },
    };
    let id = match ev_text(f, data) {
        Ok(x) => x,
        Err(e) => {
            return Err(e);
        },
    };
    let f = match find_key(members, data, key_status().as_slice()) {
        Ok(f) => f,
        Err(e) => {
            return Err(e);
        },
    };
    let status = match ev_istatus(f, data) {
        Ok(x) => x,
        Err(e) => {
            return Err(e);
        },
    };
    let f = match find_key(members, data, key_content().as_slice()) {
        Ok(f) => f,
        Err(e) => {
            return Err(e);
        },
    };
    let content = match ev_vec_content_part(f, data) {
        Ok(x) => x,
        Err(e) => {
            return Err(e);
        },
    };
    Ok(RawMessageItem { id, status, content })
}

/// Decodes a `ReasoningItem` record from an object's members.
pub fn de_reasoning_item(members: &Vec<(RawText, JsonValue)>, data: &[u8]) -> (r: Result<
    RawReasoningItem,
    DecodeFault,
>)
    requires
        members_wf(members@, data@),
    ensures
        r matches Ok(e) ==> {
            &&& dv_reasoning_item(resolve_obj(members@, data@)) == Some(e.resolve(data@))
            &&& e.wf(data@)
            &&& (members_tok(members@, data@) ==> e.texts_ok(data@))
        },
        r is Err ==> dv_reasoning_item(resolve_obj(members@, data@)) is None,
{
    let f = match find_key(members, data, key_id().as_slice()) {
        Ok(f) => f,
        Err(e) => {
            return Err(e);
        },
    };
    let id = match ev_text(f, data) {
        Ok(x) => x,
        Err(e) => {
            return Err(e);
        },
    };
    let f = match find_key(members, data, key_summary().as_slice()) {
        Ok(f) => f,
        Err(e) => {
            return Err(e);
        },
    };
    let summary = match ev_vec_summary_part(f, data) {
        Ok(x) => x,
        Err(e) => {
            return Err(e);
        },
    };
    let f = match find_key(members, data, key_encrypted_content().as_slice()) {
        Ok(f) => f,
        Err(e) => {
            return Err(e);
        },
    };
    let encrypted_content = match ev_opt_text(f, data) {
        Ok(x) => x,
        Err(e) => {
            return Err(e);
        },
    };
    Ok(RawReasoningItem { id, summary, encrypted_content })
}

/// Decodes a `FunctionCallItem` record from an object's members.
pub fn de_function_call_item(members: &Vec<(RawText, JsonValue)>, data: &[u8]) -> (r: Result<
    RawFunctionCallItem,
    DecodeFault,
>)
    requires
        members_wf(members@, data@),
    ensures
        r matches Ok(e) ==> {
            &&& dv_function_call_item(resolve_obj(members@, data@)) == Some(e.resolve(data@))
            &&& e.wf(data@)
            &&& (members_tok(members@, data@) ==> e.texts_ok(data@))
        },
        r is Err ==> dv_function_call_item(resolve_obj(members@, data@)) is None,
{
    let f = match find_key(members, data, key_call_id().as_slice()) {
        Ok(f) => f,
        Err(e) => {
            return Err(e);
        },
    };
    let call_id = match ev_text(f, data) {
        Ok(x) => x,
        Err(e) => {
            return Err(e);
        },
    };
    let f = match find_key(members, data, key_name().as_slice()) {
        Ok(f) => f,
        Err(e) => {
            return Err(e);
        },
    };
    let name = match ev_text(f, data) {
        Ok(x) => x,
        Err(e) => {
            return Err(e);
        },
    };
    let f = match find_key(members, data, key_arguments().as_slice()) {
        Ok(f) => f,
        Err(e) => {
            return Err(e);
        },
    };
    let arguments = match ev_text(f, data) {
        Ok(x) => x,
        Err(e) => {
            return Err(e);
        },
    };
    let f = match find_key(members, data, key_status().as_slice()) {
        Ok(f) => f,
        Err(e) => {
            return Err(e);
        },
    };
    let status = match ev_istatus(f, data) {
        Ok(x) => x,
        Err(e) => {
            return Err(e);
        },
    };
    Ok(RawFunctionCallItem { call_id, name, arguments, status })
}

/// Decodes a `ContentPartAddedData` record from an object's members.
pub fn de_content_part_added_data(members: &Vec<(RawText, JsonValue)>, data: &[u8]) -> (r: Result<
    RawContentPartAddedData,
    DecodeFault,
>)
    requires
        members_wf(members@, data@),
    ensures
        r matches Ok(e) ==> {
            &&& dv_content_part_added_data(resolve_obj(members@, data@)) == Some(e.resolve(data@))
            &&& e.wf(data@)
            &&& (members_tok(members@, data@) ==> e.texts_ok(data@))
        },
        r is Err ==> dv_content_part_added_data(resolve_obj(members@, data@)) is None,
{
    let f = match find_key(members, data, key_item_id().as_slice()) {
        Ok(f) => f,
        Err(e) => {
            return Err(e);
        },
    };
    let item_id = match ev_text(f, data) {
        Ok(x) => x,
        Err(e) => {
            return Err(e);
        },
    };
    let f = match find_key(members, data, key_output_index().as_slice()) {
        Ok(f) => f,
        Err(e) => {
            return Err(e);
        },
    };
    let output_index = match ev_u32(f, data) {
        Ok(x) => x,
        Err(e) => {
            return Err(e);
        },
    };
    let f = match find_key(members, data, key_content_index().as_slice()) {
        Ok(f) => f,
        Err(e) => {
            return Err(e);
        },
    };
    let content_index = match ev_u32(f, data) {
        Ok(x) => x,
        Err(e) => {
            return Err(e);
        },
    };
    let f = match find_key(members, data, key_part().as_slice()) {
        Ok(f) => f,
        Err(e) => {
            return Err(e);
        },
    };
    let part = match ev_enum_content_part(f, data) {
        Ok(x) => x,
        Err(e) => {
            return Err(e);
        },
    };
    let f = match find_key(members, data, key_sequence_number().as_slice()) {
        Ok(f) => f,
        Err(e) => {
            return Err(e);
        },
    };
    let sequence_number = match ev_u64(f, data) {
        Ok(x) => x,
        Err(e) => {
            return Err(e);
        },
    };
    Ok(RawContentPartAddedData { item_id, output_index, content_index, part, sequence_number })
}

/// Decodes a `ContentPartDoneData` record from an object's members.
pub fn de_content_part_done_data(members: &Vec<(RawText, JsonValue)>, data: &[u8]) -> (r: Result<
    RawContentPartDoneData,
    DecodeFault,
>)
    requires
        members_wf(members@, data@),
    ensures
        r matches Ok(e) ==> {
            &&& dv_content_part_done_data(resolve_obj(members@, data@)) == Some(e.resolve(data@))
            &&& e.wf(data@)
            &&& (members_tok(members@, data@) ==> e.texts_ok(data@))
        },
        r is Err ==> dv_content_part_done_data(resolve_obj(members@, data@)) is None,
{
    let f = match find_key(members, data, key_item_id().as_slice()) {
        Ok(f) => f,
        Err(e) => {
            return Err(e);
        },
    };
    let item_id = match ev_text(f, data) {
        Ok(x) => x,
        Err(e) => {
            return Err(e);
        },
    };
    let f = match find_key(members, data, key_output_index().as_slice()) {
        Ok(f) => f,
        Err(e) => {
            return Err(e);
        },
    };
    let output_index = match ev_u32(f, data) {
        Ok(x) => x,
        Err(e) => {
            return Err(e);
        },
    };
    let f = match find_key(members, data, key_content_index().as_slice()) {
        Ok(f) => f,
        Err(e) => {
            return Err(e);
        },
    };
    let content_index = match ev_u32(f, data) {
        Ok(x) => x,
        Err(e) => {
            return Err(e);
        },
    };
    let f = match find_key(members, data, key_part().as_slice()) {
        Ok(f) => f,
        Err(e) => {
            return Err(e);
        },
    };
    let part = match ev_enum_content_part(f, data) {
        Ok(x) => x,
        Err(e) => {
            return Err(e);
        },
    };
    let f = match find_key(members, data, key_sequence_number().as_slice()) {
        Ok(f) => f,
        Err(e) => {
            return Err(e);
        },
    };
    let sequence_number = match ev_u64(f, data) {
        Ok(x) => x,
        Err(e) => {
            return Err(e);
        },
    };
    Ok(RawContentPartDoneData { item_id, output_index, content_index, part, sequence_number })
}

/// Decodes a `OutputTextPart` record from an object's members.
pub fn de_output_text_part(members: &Vec<(RawText, JsonValue)>, data: &[u8]) -> (r: Result<
    RawOutputTextPart,
    DecodeFault,
>)
    requires
        members_wf(members@, data@),
    ensures
        r matches Ok(e) ==> {
            &&& dv_output_text_part(resolve_obj(members@, data@)) == Some(e.resolve(data@))
            &&& e.wf(data@)
            &&& (members_tok(members@, data@) ==> e.texts_ok(data@))
        },
        r is Err ==> dv_output_text_part(resolve_obj(members@, data@)) is None,
{
    let f = match find_key(members, data, key_text().as_slice()) {
        Ok(f) => f,
        Err(e) => {
            return Err(e);
        },
    };
    let text = match ev_text(f, data) {
        Ok(x) => x,
        Err(e) => {
            return Err(e);
        },
    };
    let f = match find_key(members, data, key_annotations().as_slice()) {
        Ok(f) => f,
        Err(e) => {
            return Err(e);
        },
    };
    let annotations = match ev_vec_annotation(f, data) {
        Ok(x) => x,
        Err(e) => {
            return Err(e);
        },
    };
    Ok(RawOutputTextPart { text, annotations })
}

/// Decodes a `ReasoningTextPart` record from an object's members.
pub fn de_reasoning_text_part(members: &Vec<(RawText, JsonValue)>, data: &[u8]) -> (r: Result<
    RawReasoningTextPart,
    DecodeFault,
>)
    requires
        members_wf(members@, data@),
    ensures
        r matches Ok(e) ==> {
            &&& dv_reasoning_text_part(resolve_obj(members@, data@)) == Some(e.resolve(data@))
            &&& e.wf(data@)
            &&& (members_tok(members@, data@) ==> e.texts_ok(data@))
        },
        r is Err ==> dv_reasoning_text_part(resolve_obj(members@, data@)) is None,
{
    let f = match find_key(members, data, key_text().as_slice()) {
        Ok(f) => f,
        Err(e) => {
            return Err(e);
        },
    };
    let text = match ev_text(f, data) {
        Ok(x) => x,
        Err(e) => {
            return Err(e);
        },
    };
    Ok(RawReasoningTextPart { text })
}

/// Decodes a `SummaryPart` record from an object's members.
pub fn de_summary_part(members: &Vec<(RawText, JsonValue)>, data: &[u8]) -> (r: Result<
    RawSummaryPart,
    DecodeFault,
>)
    requires
        members_wf(members@, data@),
    ensures
        r matches Ok(e) ==> {
            &&& dv_summary_part(resolve_obj(members@, data@)) == Some(e.resolve(data@))
            &&& e.wf(data@)
            &&& (members_tok(members@, data@) ==> e.texts_ok(data@))
        },
        r is Err ==> dv_summary_part(resolve_obj(members@, data@)) is None,
{
    let content = match de_obj_summary_content(members, data) {
        Ok(x) => x,
        Err(e) => {
            return Err(e);
        },
    };
    Ok(RawSummaryPart { content })
}

/// Decodes a `SummaryTextPart` record from an object's members.
pub fn de_summary_text_part(members: &Vec<(RawText, JsonValue)>, data: &[u8]) -> (r: Result<
    RawSummaryTextPart,
    DecodeFault,
>)
    requires
        members_wf(members@, data@),
    ensures
        r matches Ok(e) ==> {
            &&& dv_summary_text_part(resolve_obj(members@, data@)) == Some(e.resolve(data@))
            &&& e.wf(data@)
            &&& (members_tok(members@, data@) ==> e.texts_ok(data@))
        },
        r is Err ==> dv_summary_text_part(resolve_obj(members@, data@)) is None,
{
    let f = match find_key(members, data, key_text().as_slice()) {
        Ok(f) => f,
        Err(e) => {
            return Err(e);
        },
    };
    let text = match ev_text(f, data) {
        Ok(x) => x,
        Err(e) => {
            return Err(e);
        },
    };
    Ok(RawSummaryTextPart { text })
}

/// Decodes a `OutputTextDeltaData` record from an object's members.
pub fn de_output_text_delta_data(members: &Vec<(RawText, JsonValue)>, data: &[u8]) -> (r: Result<
    RawOutputTextDeltaData,
    DecodeFault,
>)
    requires
        members_wf(members@, data@),
    ensures
        r matches Ok(e) ==> {
            &&& dv_output_text_delta_data(resolve_obj(members@, data@)) == Some(e.resolve(data@))
            &&& e.wf(data@)
            &&& (members_tok(members@, data@) ==> e.texts_ok(data@))
        },
        r is Err ==> dv_output_text_delta_data(resolve_obj(members@, data@)) is None,
{
    let f = match find_key(members, data, key_output_index().as_slice()) {
        Ok(f) => f,
        Err(e) => {
            return Err(e);
        },
    };
    let output_index = match ev_u32(f, data) {
        Ok(x) => x,
        Err(e) => {
            return Err(e);
        },
    };
    let f = match find_key(members, data, key_item_id().as_slice()) {
        Ok(f) => f,
        Err(e) => {
            return Err(e);
        },
    };
    let item_id = match ev_text(f, data) {
        Ok(x) => x,
        Err(e) => {
            return Err(e);
        },
    };
    let f = match find_key(members, data, key_content_index().as_slice()) {
        Ok(f) => f,
        Err(e) => {
            return Err(e);
        },
    };
    let content_index = match ev_u32(f, data) {
        Ok(x) => x,
        Err(e) => {
            return Err(e);
        },
    };
    let f = match find_key(members, data, key_delta().as_slice()) {
        Ok(f) => f,
        Err(e) => {
            return Err(e);
        },
    };
    let delta = match ev_text(f, data) {
        Ok(x) => x,
        Err(e) => {
            return Err(e);
        },
    };
    let f = match find_key(members, data, key_sequence_number().as_slice()) {
        Ok(f) => f,
        Err(e) => {
            return Err(e);
        },
    };
    let sequence_number = match ev_u64(f, data) {
        Ok(x) => x,
        Err(e) => {
            return Err(e);
        },
    };
    Ok(RawOutputTextDeltaData { output_index, item_id, content_index, delta, sequence_number })
}

/// Decodes a `OutputTextDoneData` record from an object's members.
pub fn de_output_text_done_data(members: &Vec<(RawText, JsonValue)>, data: &[u8]) -> (r: Result<
    RawOutputTextDoneData,
    DecodeFault,
>)
    requires
        members_wf(members@, data@),
    ensures
        r matches Ok(e) ==> {
            &&& dv_output_text_done_data(resolve_obj(members@, data@)) == Some(e.resolve(data@))
            &&& e.wf(data@)
            &&& (members_tok(members@, data@) ==> e.texts_ok(data@))
        },
        r is Err ==> dv_output_text_done_data(resolve_obj(members@, data@)) is None,
{
    let f = match find_key(members, data, key_item_id().as_slice()) {
        Ok(f) => f,
        Err(e) => {
            return Err(e);
        },
    };
    let item_id = match ev_text(f, data) {
        Ok(x) => x,
        Err(e) => {
            return Err(e);
        },
    };
    let f = match find_key(members, data, key_output_index().as_slice()) {
        Ok(f) => f,
        Err(e) => {
            return Err(e);
        },
    };
    let output_index = match ev_u32(f, data) {
        Ok(x) => x,
        Err(e) => {
            return Err(e);
        },
    };
    let f = match find_key(members, data, key_content_index().as_slice()) {
        Ok(f) => f,
        Err(e) => {
            return Err(e);
        },
    };
    let content_index = match ev_u32(f, data) {
        Ok(x) => x,
        Err(e) => {
            return Err(e);
        },
    };
    let f = match find_key(members, data, key_text().as_slice()) {
        Ok(f) => f,
        Err(e) => {
            return Err(e);
        },
    };
    let text = match ev_text(f, data) {
        Ok(x) => x,
        Err(e) => {
            return Err(e);
        },
    };
    let f = match find_key(members, data, key_sequence_number().as_slice()) {
        Ok(f) => f,
        Err(e) => {
            return Err(e);
        },
    };
    let sequence_number = match ev_u64(f, data) {
        Ok(x) => x,
        Err(e) => {
            return Err(e);
        },
    };
    Ok(RawOutputTextDoneData { item_id, output_index, content_index, text, sequence_number })
}

/// Decodes a `ReasoningTextDeltaData` record from an object's members.
pub fn de_reasoning_text_delta_data(members: &Vec<(RawText, JsonValue)>, data: &[u8]) -> (r: Result<
    RawReasoningTextDeltaData,
    DecodeFault,
>)
    requires
        members_wf(members@, data@),
    ensures
        r matches Ok(e) ==> {
            &&& dv_reasoning_text_delta_data(resolve_obj(members@, data@)) == Some(e.resolve(data@))
            &&& e.wf(data@)
            &&& (members_tok(members@, data@) ==> e.texts_ok(data@))
        },
        r is Err ==> dv_reasoning_text_delta_data(resolve_obj(members@, data@)) is None,
{
    let f = match find_key(members, data, key_output_index().as_slice()) {
        Ok(f) => f,
        Err(e) => {
            return Err(e);
        },
    };
    let output_index = match ev_u32(f, data) {
        Ok(x) => x,
        Err(e) => {
            return Err(e);
        },
    };
    let f = match find_key(members, data, key_item_id().as_slice()) {
        Ok(f) => f,
        Err(e) => {
            return Err(e);
        },
    };
    let item_id = match ev_text(f, data) {
        Ok(x) => x,
        Err(e) => {
            return Err(e);
        },
    };
    let f = match find_key(members, data, key_content_index().as_slice()) {
        Ok(f) => f,
        Err(e) => {
            return Err(e);
        },
    };
    let content_index = match ev_u32(f, data) {
        Ok(x) => x,
        Err(e) => {
            return Err(e);
        },
    };
    let f = match find_key(members, data, key_delta().as_slice()) {
        Ok(f) => f,
        Err(e) => {
            return Err(e);
        },
    };
    let delta = match ev_text(f, data) {
        Ok(x) => x,
        Err(e) => {
            return Err(e);
        },
    };
    let f = match find_key(members, data, key_sequence_number().as_slice()) {
        Ok(f) => f,
        Err(e) => {
            return Err(e);
        },
    };
    let sequence_number = match ev_u64(f, data) {
        Ok(x) => x,
        Err(e) => {
            return Err(e);
        },
    };
    Ok(RawReasoningTextDeltaData { output_index, item_id, content_index, delta, sequence_number })
}

/// Decodes a `ReasoningTextDoneData` record from an object's members.
pub fn de_reasoning_text_done_data(members: &Vec<(RawText, JsonValue)>, data: &[u8]) -> (r: Result<
    RawReasoningTextDoneData,
    DecodeFault,
>)
    requires
        members_wf(members@, data@),
    ensures
        r matches Ok(e) ==> {
            &&& dv_reasoning_text_done_data(resolve_obj(members@, data@)) == Some(e.resolve(data@))
            &&& e.wf(data@)
            &&& (members_tok(members@, data@) ==> e.texts_ok(data@))
        },
        r is Err ==> dv_reasoning_text_done_data(resolve_obj(members@, data@)) is None,
{
    let f = match find_key(members, data, key_output_index().as_slice()) {
        Ok(f) => f,
        Err(e) => {
            return Err(e);
        },
    };
    let output_index = match ev_u32(f, data) {
        Ok(x) => x,
        Err(e) => {
            return Err(e);
        },
    };
    let f = match find_key(members, data, key_item_id().as_slice()) {
        Ok(f) => f,
        Err(e) => {
            return Err(e);
        },
    };
    let item_id = match ev_text(f, data) {
        Ok(x) => x,
        Err(e) => {
            return Err(e);
        },
    };
    let f = match find_key(members, data, key_content_index().as_slice()) {
        Ok(f) => f,
        Err(e) => {
            return Err(e);
        },
    };
    let content_index = match ev_u32(f, data) {
        Ok(x) => x,
        Err(e) => {
            return Err(e);
        },
    };
    let f = match find_key(members, data, key_text().as_slice()) {
        Ok(f) => f,
        Err(e) => {
            return Err(e);
        },
    };
    let text = match ev_text(f, data) {
        Ok(x) => x,
        Err(e) => {
            return Err(e);
        },
    };
    let f = match find_key(members, data, key_sequence_number().as_slice()) {
        Ok(f) => f,
        Err(e) => {
            return Err(e);
        },
    };
    let sequence_number = match ev_u64(f, data) {
        Ok(x) => x,
        Err(e) => {
            return Err(e);
        },
    };
    Ok(RawReasoningTextDoneData { output_index, item_id, content_index, text, sequence_number })
}

/// Decodes a `ReasoningSummaryPartAddedData` record from an object's members.
pub fn de_reasoning_summary_part_added_data(members: &Vec<(RawText, JsonValue)>, data: &[u8]) -> (r: Result<
    RawReasoningSummaryPartAddedData,
    DecodeFault,
>)
    requires
        members_wf(members@, data@),
    ensures
        r matches Ok(e) ==> {
            &&& dv_reasoning_summary_part_added_data(resolve_obj(members@, data@)) == Some(e.resolve(data@))
            &&& e.wf(data@)
            &&& (members_tok(members@, data@) ==> e.texts_ok(data@))
        },
        r is Err ==> dv_reasoning_summary_part_added_data(resolve_obj(members@, data@)) is None,
{
    let f = match find_key(members, data, key_output_index().as_slice()) {
        Ok(f) => f,
        Err(e) => {
            return Err(e);
        },
    };
    let output_index = match ev_u32(f, data) {
        Ok(x) => x,
        Err(e) => {
            return Err(e);
        },
    };
    let f = match find_key(members, data, key_item_id().as_slice()) {
        Ok(f) => f,
        Err(e) => {
            return Err(e);
        },
    };
    let item_id = match ev_text(f, data) {
        Ok(x) => x,
        Err(e) => {
            return Err(e);
        },
    };
    let f = match find_key(members, data, key_summary_index().as_slice()) {
        Ok(f) => f,
        Err(e) => {
            return Err(e);
        },
    };
    let summary_index = match ev_u32(f, data) {
        Ok(x) => x,
        Err(e) => {
            return Err(e);
        },
    };
    let f = match find_key(members, data, key_part().as_slice()) {
        Ok(f) => f,
        Err(e) => {
            return Err(e);
        },
    };
    let part = match ev_sub_summary_part(f, data) {
        Ok(x) => x,
        Err(e) => {
            return Err(e);
        },
    };
    let f = match find_key(members, data, key_sequence_number().as_slice()) {
        Ok(f) => f,
        Err(e) => {
            return Err(e);
        },
    };
    let sequence_number = match ev_u64(f, data) {
        Ok(x) => x,
        Err(e) => {
            return Err(e);
        },
    };
    Ok(RawReasoningSummaryPartAddedData { output_index, item_id, summary_index, part, sequence_number })
}

/// Decodes a `ReasoningSummaryTextDeltaData` record from an object's members.
pub fn de_reasoning_summary_text_delta_data(members: &Vec<(RawText, JsonValue)>, data: &[u8]) -> (r: Result<
    RawReasoningSummaryTextDeltaData,
    DecodeFault,
>)
    requires
        members_wf(members@, data@),
    ensures
        r matches Ok(e) ==> {
            &&& dv_reasoning_summary_text_delta_data(resolve_obj(members@, data@)) == Some(e.resolve(data@))
            &&& e.wf(data@)
            &&& (members_tok(members@, data@) ==> e.texts_ok(data@))
        },
        r is Err ==> dv_reasoning_summary_text_delta_data(resolve_obj(members@, data@)) is None,
{
    let f = match find_key(members, data, key_item_id().as_slice()) {
        Ok(f) => f,
        Err(e) => {
            return Err(e);
        },
    };
    let item_id = match ev_text(f, data) {
        Ok(x) => x,
        Err(e) => {
            return Err(e);
        },
    };
    let f = match find_key(members, data, key_output_index().as_slice()) {
        Ok(f) => f,
        Err(e) => {
            return Err(e);
        },
    };
    let output_index = match ev_u32(f, data) {
        Ok(x) => x,
        Err(e) => {
            return Err(e);
        },
    };
    let f = match find_key(members, data, key_summary_index().as_slice()) {
        Ok(f) => f,
        Err(e) => {
            return Err(e);
        },
    };
    let summary_index = match ev_u32(f, data) {
        Ok(x) => x,
        Err(e) => {
            return Err(e);
        },
    };
    let f = match find_key(members, data, key_delta().as_slice()) {
        Ok(f) => f,
        Err(e) => {
            return Err(e);
        },
    };
    let delta = match ev_text(f, data) {
        Ok(x) => x,
        Err(e) => {
            return Err(e);
        },
    };
    let f = match find_key(members, data, key_sequence_number().as_slice()) {
        Ok(f) => f,
        Err(e) => {
            return Err(e);
        },
    };
    let sequence_number = match ev_u64(f, data) {
        Ok(x) => x,
        Err(e) => {
            return Err(e);
        },
    };
    Ok(RawReasoningSummaryTextDeltaData { item_id, output_index, summary_index, delta, sequence_number })
}

/// Decodes a `ReasoningSummaryTextDoneData` record from an object's members.
pub fn de_reasoning_summary_text_done_data(members: &Vec<(RawText, JsonValue)>, data: &[u8]) -> (r: Result<
    RawReasoningSummaryTextDoneData,
    DecodeFault,
>)
    requires
        members_wf(members@, data@),
    ensures
        r matches Ok(e) ==> {
            &&& dv_reasoning_summary_text_done_data(resolve_obj(members@, data@)) == Some(e.resolve(data@))
            &&& e.wf(data@)
            &&& (members_tok(members@, data@) ==> e.texts_ok(data@))
        },
        r is Err ==> dv_reasoning_summary_text_done_data(resolve_obj(members@, data@)) is None,
{
    let f = match find_key(members, data, key_output_index().as_slice()) {
        Ok(f) => f,
        Err(e) => {
            return Err(e);
        },
    };
    let output_index = match ev_u32(f, data) {
        Ok(x) => x,
        Err(e) => {
            return Err(e);
        },
    };
    let f = match find_key(members, data, key_item_id().as_slice()) {
        Ok(f) => f,
        Err(e) => {
            return Err(e);
        },
    };
    let item_id = match ev_text(f, data) {
        Ok(x) => x,
        Err(e) => {
            return Err(e);
        },
    };
    let f = match find_key(members, data, key_summary_index().as_slice()) {
        Ok(f) => f,
        Err(e) => {
            return Err(e);
        },
    };
    let summary_index = match ev_u32(f, data) {
        Ok(x) => x,
        Err(e) => {
            return Err(e);
        },
    };
    let f = match find_key(members, data, key_text().as_slice()) {
        Ok(f) => f,
        Err(e) => {
            return Err(e);
        },
    };
    let text = match ev_text(f, data) {
        Ok(x) => x,
        Err(e) => {
            return Err(e);
        },
    };
    let f = match find_key(members, data, key_sequence_number().as_slice()) {
        Ok(f) => f,
        Err(e) => {
            return Err(e);
        },
    };
    let sequence_number = match ev_u64(f, data) {
        Ok(x) => x,
        Err(e) => {
            return Err(e);
        },
    };
    Ok(RawReasoningSummaryTextDoneData { output_index, item_id, summary_index, text, sequence_number })
}

/// Decodes a `ReasoningSummaryPartDoneData` record from an object's members.
pub fn de_reasoning_summary_part_done_data(members: &Vec<(RawText, JsonValue)>, data: &[u8]) -> (r: Result<
    RawReasoningSummaryPartDoneData,
    DecodeFault,
>)
    requires
        members_wf(members@, data@),
    ensures
        r matches Ok(e) ==> {
            &&& dv_reasoning_summary_part_done_data(resolve_obj(members@, data@)) == Some(e.resolve(data@))
            &&& e.wf(data@)
            &&& (members_tok(members@, data@) ==> e.texts_ok(data@))
        },
        r is Err ==> dv_reasoning_summary_part_done_data(resolve_obj(members@, data@)) is None,
{
    let f = match find_key(members, data, key_output_index().as_slice()) {
        Ok(f) => f,
        Err(e) => {
            return Err(e);
        },
    };
    let output_index = match ev_u32(f, data) {
        Ok(x) => x,
        Err(e) => {
            return Err(e);
        },
    };
    let f = match find_key(members, data, key_item_id().as_slice()) {
        Ok(f) => f,
        Err(e) => {
            return Err(e);
        },
    };
    let item_id = match ev_text(f, data) {
        Ok(x) => x,
        Err(e) => {
            return Err(e);
        },
    };
    let f = match find_key(members, data, key_summary_index().as_slice()) {
        Ok(f) => f,
        Err(e) => {
            return Err(e);
        },
    };
    let summary_index = match ev_u32(f, data) {
        Ok(x) => x,
        Err(e) => {
            return Err(e);
        },
    };
    let f = match find_key(members, data, key_part().as_slice()) {
        Ok(f) => f,
        Err(e) => {
            return Err(e);
        },
    };
    let part = match ev_sub_summary_part(f, data) {
        Ok(x) => x,
        Err(e) => {
            return Err(e);
        },
    };
    let f = match find_key(members, data, key_sequence_number().as_slice()) {
        Ok(f) => f,
        Err(e) => {
            return Err(e);
        },
    };
    let sequence_number = match ev_u64(f, data) {
        Ok(x) => x,
        Err(e) => {
            return Err(e);
        },
    };
    Ok(RawReasoningSummaryPartDoneData { output_index, item_id, summary_index, part, sequence_number })
}

/// Decodes a `FunctionCallArgumentsDeltaData` record from an object's members.
pub fn de_function_call_arguments_delta_data(members: &Vec<(RawText, JsonValue)>, data: &[u8]) -> (r: Result<
    RawFunctionCallArgumentsDeltaData,
    DecodeFault,
>)
    requires
        members_wf(members@, data@),
    ensures
        r matches Ok(e) ==> {
            &&& dv_function_call_arguments_delta_data(resolve_obj(members@, data@)) == Some(e.resolve(data@))
            &&& e.wf(data@)
            &&& (members_tok(members@, data@) ==> e.texts_ok(data@))
        },
        r is Err ==> dv_function_call_arguments_delta_data(resolve_obj(members@, data@)) is None,
{
    let f = match find_key(members, data, key_item_id().as_slice()) {
        Ok(f) => f,
        Err(e) => {
            return Err(e);
        },
    };
    let item_id = match ev_text(f, data) {
        Ok(x) => x,
        Err(e) => {
            return Err(e);
        },
    };
    let f = match find_key(members, data, key_output_index().as_slice()) {
        Ok(f) => f,
        Err(e) => {
            return Err(e);
        },
    };
    let output_index = match ev_u32(f, data) {
        Ok(x) => x,
        Err(e) => {
            return Err(e);
        },
    };
    let f = match find_key(members, data, key_delta().as_slice()) {
        Ok(f) => f,
        Err(e) => {
            return Err(e);
        },
    };
    let delta = match ev_text(f, data) {
        Ok(x) => x,
        Err(e) => {
            return Err(e);
        },
    };
    let f = match find_key(members, data, key_sequence_number().as_slice()) {
        Ok(f) => f,
        Err(e) => {
            return Err(e);
        },
    };
    let sequence_number = match ev_u64(f, data) {
        Ok(x) => x,
        Err(e) => {
            return Err(e);
        },
    };
    Ok(RawFunctionCallArgumentsDeltaData { item_id, output_index, delta, sequence_number })
}

/// Decodes a `FunctionCallArgumentsDoneData` record from an object's members.
pub fn de_function_call_arguments_done_data(members: &Vec<(RawText, JsonValue)>, data: &[u8]) -> (r: Result<
    RawFunctionCallArgumentsDoneData,
    DecodeFault,
>)
    requires
        members_wf(members@, data@),
    ensures
        r matches Ok(e) ==> {
            &&& dv_function_call_arguments_done_data(resolve_obj(members@, data@)) == Some(e.resolve(data@))
            &&& e.wf(data@)
            &&& (members_tok(members@, data@) ==> e.texts_ok(data@))
        },
        r is Err ==> dv_function_call_arguments_done_data(resolve_obj(members@, data@)) is None,
{
    let f = match find_key(members, data, key_item_id().as_slice()) {
        Ok(f) => f,
        Err(e) => {
            return Err(e);
        },
    };
    let item_id = match ev_text(f, data) {
        Ok(x) => x,
        Err(e) => {
            return Err(e);
        },
    };
    let f = match find_key(members, data, key_output_index().as_slice()) {
        Ok(f) => f,
        Err(e) => {
            return Err(e);
        },
    };
    let output_index = match ev_u32(f, data) {
        Ok(x) => x,
        Err(e) => {
            return Err(e);
        },
    };
    let f = match find_key(members, data, key_name().as_slice()) {
        Ok(f) => f,
        Err(e) => {
            return Err(e);
        },
    };
    let name = match ev_text(f, data) {
        Ok(x) => x,
        Err(e) => {
            return Err(e);
        },
    };
    let f = match find_key(members, data, key_arguments().as_slice()) {
        Ok(f) => f,
        Err(e) => {
            return Err(e);
        },
    };
    let arguments = match ev_text(f, data) {
        Ok(x) => x,
        Err(e) => {
            return Err(e);
        },
    };
    let f = match find_key(members, data, key_sequence_number().as_slice()) {
        Ok(f) => f,
        Err(e) => {
            return Err(e);
        },
    };
    let sequence_number = match ev_u64(f, data) {
        Ok(x) => x,
        Err(e) => {
            return Err(e);
        },
    };
    Ok(RawFunctionCallArgumentsDoneData { item_id, output_index, name, arguments, sequence_number })
}

/// Decodes a `AnnotationAddedData` record from an object's members.
pub fn de_annotation_added_data(members: &Vec<(RawText, JsonValue)>, data: &[u8]) -> (r: Result<
    RawAnnotationAddedData,
    DecodeFault,
>)
    requires
        members_wf(members@, data@),
    ensures
        r matches Ok(e) ==> {
            &&& dv_annotation_added_data(resolve_obj(members@, data@)) == Some(e.resolve(data@))
            &&& e.wf(data@)
            &&& (members_tok(members@, data@) ==> e.texts_ok(data@))
        },
        r is Err ==> dv_annotation_added_data(resolve_obj(members@, data@)) is None,
{
    let f = match find_key(members, data, key_output_index().as_slice()) {
        Ok(f) => f,
        Err(e) => {
            return Err(e);
        },
    };
    let output_index = match ev_u32(f, data) {
        Ok(x) => x,
        Err(e) => {
            return Err(e);
        },
    };
    let f = match find_key(members, data, key_item_id().as_slice()) {
        Ok(f) => f,
        Err(e) => {
            return Err(e);
        },
    };
    let item_id = match ev_text(f, data) {
        Ok(x) => x,
        Err(e) => {
            return Err(e);
        },
    };
    let f = match find_key(members, data, key_content_index().as_slice()) {
        Ok(f) => f,
        Err(e) => {
            return Err(e);
        },
    };
    let content_index = match ev_u32(f, data) {
        Ok(x) => x,
        Err(e) => {
            return Err(e);
        },
    };
    let f = match find_key(members, data, key_sequence_number().as_slice()) {
        Ok(f) => f,
        Err(e) => {
            return Err(e);
        },
    };
    let sequence_number = match ev_u64(f, data) {
        Ok(x) => x,
        Err(e) => {
            return Err(e);
        },
    };
    let f = match find_key(members, data, key_annotation_index().as_slice()) {
        Ok(f) => f,
        Err(e) => {
            return Err(e);
        },
    };
    let annotation_index = match ev_u32(f, data) {
        Ok(x) => x,
        Err(e) => {
            return Err(e);
        },
    };
    let f = match find_key(members, data, key_annotation().as_slice()) {
        Ok(f) => f,
        Err(e) => {
            return Err(e);
        },
    };
    let annotation = match ev_enum_annotation(f, data) {
        Ok(x) => x,
        Err(e) => {
            return Err(e);
        },
    };
    Ok(RawAnnotationAddedData { output_index, item_id, content_index, sequence_number, annotation_index, annotation })
}

/// Decodes a `UrlCitation` record from an object's members.
pub fn de_url_citation(members: &Vec<(RawText, JsonValue)>, data: &[u8]) -> (r: Result<
    RawUrlCitation,
    DecodeFault,
>)
    requires
        members_wf(members@, data@),
    ensures
        r matches Ok(e) ==> {
            &&& dv_url_citation(resolve_obj(members@, data@)) == Some(e.resolve(data@))
            &&& e.wf(data@)
            &&& (members_tok(members@, data@) ==> e.texts_ok(data@))
        },
        r is Err ==> dv_url_citation(resolve_obj(members@, data@)) is None,
{
    let f = match find_key(members, data, key_url().as_slice()) {
        Ok(f) => f,
        Err(e) => {
            return Err(e);
        },
    };
    let url = match ev_text(f, data) {
        Ok(x) => x,
        Err(e) => {
            return Err(e);
        },
    };
    let f = match find_key(members, data, key_title().as_slice()) {
        Ok(f) => f,
        Err(e) => {
            return Err(e);
        },
    };
    let title = match ev_text(f, data) {
        Ok(x) => x,
        Err(e) => {
            return Err(e);
        },
    };
    let f = match find_key(members, data, key_start_index().as_slice()) {
        Ok(f) => f,
        Err(e) => {
            return Err(e);
        },
    };
    let start_index = match ev_u32(f, data) {
        Ok(x) => x,
        Err(e) => {
            return Err(e);
        },
    };
    let f = match find_key(members, data, key_end_index().as_slice()) {
        Ok(f) => f,
        Err(e) => {
            return Err(e);
        },
    };
    let end_index = match ev_u32(f, data) {
        Ok(x) => x,
        Err(e) => {
            return Err(e);
        },
    };
    Ok(RawUrlCitation { url, title, start_index, end_index })
}

/// Decodes a `OutputItem` from an object's members, by the `type` tag.
pub fn de_obj_output_item(members: &Vec<(RawText, JsonValue)>, data: &[u8]) -> (r: Result<
    RawOutputItem,
    DecodeFault,
>)
    requires
        members_wf(members@, data@),
    ensures
        r matches Ok(e) ==> {
            &&& dv_obj_output_item(resolve_obj(members@, data@)) == Some(e.resolve(data@))
            &&& e.wf(data@)
            &&& (members_tok(members@, data@) ==> e.texts_ok(data@))
        },
        r is Err ==> dv_obj_output_item(resolve_obj(members@, data@)) is None,
{
    let f = match find_key(members, data, key_type().as_slice()) {
        Ok(f) => f,
        Err(e) => {
            return Err(e);
        },
    };
    let t = match f {
        Some(JsonValue::Text(t)) => t,
        _ => {
            return Err(DecodeFault);
        },
    };
    let tb = raw_bytes(t, data);
    if bytes_eq(tb, lit_message().as_slice()) {
        match de_message_item(members, data) {
            Ok(x) => Ok(RawOutputItem::Message(x)),
            Err(e) => Err(e),
        }
    } else if bytes_eq(tb, lit_reasoning().as_slice()) {
        match de_reasoning_item(members, data) {
            Ok(x) => Ok(RawOutputItem::Reasoning(x)),
            Err(e) => Err(e),
        }
    } else if bytes_eq(tb, lit_function_call().as_slice()) {
        match de_function_call_item(members, data) {
            Ok(x) => Ok(RawOutputItem::FunctionCall(x)),
            Err(e) => Err(e),
        }
    } else {
        Err(DecodeFault)
    }
}

/// Decodes a `ContentPart` from an object's members, by the `type` tag.
pub fn de_obj_content_part(members: &Vec<(RawText, JsonValue)>, data: &[u8]) -> (r: Result<
    RawContentPart,
    DecodeFault,
>)
    requires
        members_wf(members@, data@),
    ensures
        r matches Ok(e) ==> {
            &&& dv_obj_content_part(resolve_obj(members@, data@)) == Some(e.resolve(data@))
            &&& e.wf(data@)
            &&& (members_tok(members@, data@) ==> e.texts_ok(data@))
        },
        r is Err ==> dv_obj_content_part(resolve_obj(members@, data@)) is None,
{
    let f = match find_key(members, data, key_type().as_slice()) {
        Ok(f) => f,
        Err(e) => {
            return Err(e);
        },
    };
    let t = match f {
        Some(JsonValue::Text(t)) => t,
        _ => {
            return Err(DecodeFault);
        },
    };
    let tb = raw_bytes(t, data);
    if bytes_eq(tb, lit_output_text().as_slice()) {
        match de_output_text_part(members, data) {
            Ok(x) => Ok(RawContentPart::OutputText(x)),
            Err(e) => Err(e),
        }
    } else if bytes_eq(tb, lit_reasoning_text().as_slice()) {
        match de_reasoning_text_part(members, data) {
            Ok(x) => Ok(RawContentPart::ReasoningText(x)),
            Err(e) => Err(e),
        }
    } else if bytes_eq(tb, lit_summary_text().as_slice()) {
        match de_summary_text_part(members, data) {
            Ok(x) => Ok(RawContentPart::SummaryText(x)),
            Err(e) => Err(e),
        }
    } else {
        Err(DecodeFault)
    }
}

/// Decodes a `SummaryContent` from an object's members, by the `type` tag.
pub fn de_obj_summary_content(members: &Vec<(RawText, JsonValue)>, data: &[u8]) -> (r: Result<
    RawSummaryContent,
    DecodeFault,
>)
    requires
        members_wf(members@, data@),
    ensures
        r matches Ok(e) ==> {
            &&& dv_obj_summary_content(resolve_obj(members@, data@)) == Some(e.resolve(data@))
            &&& e.wf(data@)
            &&& (members_tok(members@, data@) ==> e.texts_ok(data@))
        },
        r is Err ==> dv_obj_summary_content(resolve_obj(members@, data@)) is None,
{
    let f = match find_key(members, data, key_type().as_slice()) {
        Ok(f) => f,
        Err(e) => {
            return Err(e);
        },
    };
    let t = match f {
        Some(JsonValue::Text(t)) => t,
        _ => {
            return Err(DecodeFault);
        },
    };
    let tb = raw_bytes(t, data);
    if bytes_eq(tb, lit_summary_text().as_slice()) {
        match de_summary_text_part(members, data) {
            Ok(x) => Ok(RawSummaryContent::SummaryText(x)),
            Err(e) => Err(e),
        }
    } else {
        Err(DecodeFault)
    }
}

/// Decodes a `Annotation` from an object's members, by the `type` tag.
pub fn de_obj_annotation(members: &Vec<(RawText, JsonValue)>, data: &[u8]) -> (r: Result<
    RawAnnotation,
    DecodeFault,
>)
    requires
        members_wf(members@, data@),
    ensures
        r matches Ok(e) ==> {
            &&& dv_obj_annotation(resolve_obj(members@, data@)) == Some(e.resolve(data@))
            &&& e.wf(data@)
            &&& (members_tok(members@, data@) ==> e.texts_ok(data@))
        },
        r is Err ==> dv_obj_annotation(resolve_obj(members@, data@)) is None,
{
    let f = match find_key(members, data, key_type().as_slice()) {
        Ok(f) => f,
        Err(e) => {
            return Err(e);
        },
    };
    let t = match f {
        Some(JsonValue::Text(t)) => t,
        _ => {
            return Err(DecodeFault);
        },
    };
    let tb = raw_bytes(t, data);
    if bytes_eq(tb, lit_url_citation().as_slice()) {
        match de_url_citation(members, data) {
            Ok(x) => Ok(RawAnnotation::UrlCitation(x)),
            Err(e) => Err(e),
        }
    } else {
        Err(DecodeFault)
    }
}

/// Decodes a `StreamEvent` from an object's members, by the `type` tag.
pub fn de_obj_stream_event(members: &Vec<(RawText, JsonValue)>, data: &[u8]) -> (r: Result<
    RawStreamEvent,
    DecodeFault,
>)
    requires
        members_wf(members@, data@),
    ensures
        r matches Ok(e) ==> {
            &&& dv_obj_stream_event(resolve_obj(members@, data@)) == Some(e.resolve(data@))
            &&& e.wf(data@)
            &&& (members_tok(members@, data@) ==> e.texts_ok(data@))
        },
        r is Err ==> dv_obj_stream_event(resolve_obj(members@, data@)) is None,
{
    let f = match find_key(members, data, key_type().as_slice()) {
        Ok(f) => f,
        Err(e) => {
            return Err(e);
        },
    };
    let t = match f {
        Some(JsonValue::Text(t)) => t,
        _ => {
            return Err(DecodeFault);
        },
    };
    let tb = raw_bytes(t, data);
    if bytes_eq(tb, lit_response_created().as_slice()) {
        match de_response_created_data(members, data) {
            Ok(x) => Ok(RawStreamEvent::ResponseCreated(x)),
            Err(e) => Err(e),
        }
    } else if bytes_eq(tb, lit_response_in_progress().as_slice()) {
        match de_response_in_progress_data(members, data) {
            Ok(x) => Ok(RawStreamEvent::ResponseInProgress(x)),
            Err(e) => Err(e),
        }
    } else if bytes_eq(tb, lit_response_output_item_added().as_slice()) {
        match de_output_item_added_data(members, data) {
            Ok(x) => Ok(RawStreamEvent::ResponseOutputItemAdded(x)),
            Err(e) => Err(e),
        }
    } else if bytes_eq(tb, lit_response_content_part_added().as_slice()) {
        match de_content_part_added_data(members, data) {
            Ok(x) => Ok(RawStreamEvent::ResponseContentPartAdded(x)),
            Err(e) => Err(e),
        }
    } else if bytes_eq(tb, lit_response_output_text_delta().as_slice()) {
        match de_output_text_delta_data(members, data) {
            Ok(x) => Ok(RawStreamEvent::ResponseOutputTextDelta(x)),
            Err(e) => Err(e),
        }
    } else if bytes_eq(tb, lit_response_output_text_annotation_added().as_slice()) {
        match de_annotation_added_data(members, data) {
            Ok(x) => Ok(RawStreamEvent::ResponseOutputTextAnnotationAdded(x)),
            Err(e) => Err(e),
        }
    } else if bytes_eq(tb, lit_response_output_text_done().as_slice()) {
        match de_output_text_done_data(members, data) {
            Ok(x) => Ok(RawStreamEvent::ResponseOutputTextDone(x)),
            Err(e) => Err(e),
        }
    } else if bytes_eq(tb, lit_response_content_part_done().as_slice()) {
        match de_content_part_done_data(members, data) {
            Ok(x) => Ok(RawStreamEvent::ResponseContentPartDone(x)),
            Err(e) => Err(e),
        }
    } else if bytes_eq(tb, lit_response_output_item_done().as_slice()) {
        match de_output_item_done_data(members, data) {
            Ok(x) => Ok(RawStreamEvent::ResponseOutputItemDone(x)),
            Err(e) => Err(e),
        }
    } else if bytes_eq(tb, lit_response_function_call_arguments_delta().as_slice()) {
        match de_function_call_arguments_delta_data(members, data) {
            Ok(x) => Ok(RawStreamEvent::ResponseFunctionCallArgumentsDelta(x)),
            Err(e) => Err(e),
        }
    } else if bytes_eq(tb, lit_response_function_call_arguments_done().as_slice()) {
        match de_function_call_arguments_done_data(members, data) {
            Ok(x) => Ok(RawStreamEvent::ResponseFunctionCallArgumentsDone(x)),
            Err(e) => Err(e),
        }
    } else if bytes_eq(tb, lit_response_reasoning_text_delta().as_slice()) {
        match de_reasoning_text_delta_data(members, data) {
            Ok(x) => Ok(RawStreamEvent::ResponseReasoningTextDelta(x)),
            Err(e) => Err(e),
        }
    } else if bytes_eq(tb, lit_response_reasoning_text_done().as_slice()) {
        match de_reasoning_text_done_data(members, data) {
            Ok(x) => Ok(RawStreamEvent::ResponseReasoningTextDone(x)),
            Err(e) => Err(e),
        }
    } else if bytes_eq(tb, lit_response_reasoning_summary_part_added().as_slice()) {
        match de_reasoning_summary_part_added_data(members, data) {
            Ok(x) => Ok(RawStreamEvent::ResponseReasoningSummaryPartAdded(x)),
            Err(e) => Err(e),
        }
    } else if bytes_eq(tb, lit_response_reasoning_summary_text_delta().as_slice()) {
        match de_reasoning_summary_text_delta_data(members, data) {
            Ok(x) => Ok(RawStreamEvent::ResponseReasoningSummaryTextDelta(x)),
            Err(e) => Err(e),
        }
    } else if bytes_eq(tb, lit_response_reasoning_summary_text_done().as_slice()) {
        match de_reasoning_summary_text_done_data(members, data) {
            Ok(x) => Ok(RawStreamEvent::ResponseReasoningSummaryTextDone(x)),
            Err(e) => Err(e),
        }
    } else if bytes_eq(tb, lit_response_reasoning_summary_part_done().as_slice()) {
        match de_reasoning_summary_part_done_data(members, data) {
            Ok(x) => Ok(RawStreamEvent::ResponseReasoningSummaryPartDone(x)),
            Err(e) => Err(e),
        }
    } else if bytes_eq(tb, lit_response_completed().as_slice()) {
        match de_response_completed_data(members, data) {
            Ok(x) => Ok(RawStreamEvent::ResponseCompleted(x)),
            Err(e) => Err(e),
        }
    } else {
        Err(DecodeFault)
    }
}

pub fn de_val_response_metadata(v: &JsonValue, data: &[u8]) -> (r: Result<RawResponseMetadata, DecodeFault>)
    requires
        v.wf(data@),
    ensures
        r matches Ok(e) ==> {
            &&& dv_val_response_metadata(v.resolve(data@)) == Some(e.resolve(data@))
            &&& e.wf(data@)
            &&& (v.texts_ok(data@) ==> e.texts_ok(data@))
        },
        r is Err ==> dv_val_response_metadata(v.resolve(data@)) is None,
{
    match v {
        JsonValue::Obj(members) => de_response_metadata(members, data),
        _ => Err(DecodeFault),
    }
}

pub fn de_val_summary_part(v: &JsonValue, data: &[u8]) -> (r: Result<RawSummaryPart, DecodeFault>)
    requires
        v.wf(data@),
    ensures
        r matches Ok(e) ==> {
            &&& dv_val_summary_part(v.resolve(data@)) == Some(e.resolve(data@))
            &&& e.wf(data@)
            &&& (v.texts_ok(data@) ==> e.texts_ok(data@))
        },
        r is Err ==> dv_val_summary_part(v.resolve(data@)) is None,
{
    match v {
        JsonValue::Obj(members) => de_summary_part(members, data),
        _ => Err(DecodeFault),
    }
}

pub fn de_val_usage_info(v: &JsonValue, data: &[u8]) -> (r: Result<RawUsageInfo, DecodeFault>)
    requires
        v.wf(data@),
    ensures
        r matches Ok(e) ==> {
            &&& dv_val_usage_info(v.resolve(data@)) == Some(e.resolve(data@))
            &&& e.wf(data@)
            &&& (v.texts_ok(data@) ==> e.texts_ok(data@))
        },
        r is Err ==> dv_val_usage_info(v.resolve(data@)) is None,
{
    match v {
        JsonValue::Obj(members) => de_usage_info(members, data),
        _ => Err(DecodeFault),
    }
}

pub fn de_val_annotation(v: &JsonValue, data: &[u8]) -> (r: Result<RawAnnotation, DecodeFault>)
    requires
        v.wf(data@),
    ensures
        r matches Ok(e) ==> {
            &&& dv_val_annotation(v.resolve(data@)) == Some(e.resolve(data@))
            &&& e.wf(data@)
            &&& (v.texts_ok(data@) ==> e.texts_ok(data@))
        },
        r is Err ==> dv_val_annotation(v.resolve(data@)) is None,
{
    match v {
        JsonValue::Obj(members) => de_obj_annotation(members, data),
        _ => Err(DecodeFault),
    }
}

pub fn de_val_content_part(v: &JsonValue, data: &[u8]) -> (r: Result<RawContentPart, DecodeFault>)
    requires
        v.wf(data@),
    ensures
        r matches Ok(e) ==> {
            &&& dv_val_content_part(v.resolve(data@)) == Some(e.resolve(data@))
            &&& e.wf(data@)
            &&& (v.texts_ok(data@) ==> e.texts_ok(data@))
        },
        r is Err ==> dv_val_content_part(v.resolve(data@)) is None,
{
    match v {
        JsonValue::Obj(members) => de_obj_content_part(members, data),
        _ => Err(DecodeFault),
    }
}

pub fn de_val_output_item(v: &JsonValue, data: &[u8]) -> (r: Result<RawOutputItem, DecodeFault>)
    requires
        v.wf(data@),
    ensures
        r matches Ok(e) ==> {
            &&& dv_val_output_item(v.resolve(data@)) == Some(e.resolve(data@))
            &&& e.wf(data@)
            &&& (v.texts_ok(data@) ==> e.texts_ok(data@))
        },
        r is Err ==> dv_val_output_item(v.resolve(data@)) is None,
{
    match v {
        JsonValue::Obj(members) => de_obj_output_item(members, data),
        _ => Err(DecodeFault),
    }
}

/// What a payload's JSON tree denotes as a stream event, if anything: the
/// whole wire schema in one spec function.
pub open spec fn dv_stream_event_of(j: JsonView) -> Option<StreamEventView> {
    match j {
        JsonView::Obj(m) => dv_obj_stream_event(m),
        _ => None,
    }
}

/// Decodes a parsed payload into the (still borrowed) event form.
pub fn decode_event(v: &JsonValue, data: &[u8]) -> (r: Result<RawStreamEvent, DecodeFault>)
    requires
        v.wf(data@),
    ensures
        r matches Ok(e) ==> {
            &&& dv_stream_event_of(v.resolve(data@)) == Some(e.resolve(data@))
            &&& e.wf(data@)
            &&& (v.texts_ok(data@) ==> e.texts_ok(data@))
        },
        r is Err ==> dv_stream_event_of(v.resolve(data@)) is None,
{
    match v {
        JsonValue::Obj(members) => de_obj_stream_event(members, data),
        _ => Err(DecodeFault),
    }
}

} // verus!
