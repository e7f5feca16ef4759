//! The decoded (borrowed) form of the event model: structurally identical to
//! the owned family, but every string leaf is a `RawText` that may still be a
//! window into the record's backing buffer.  `resolve` reads such a value
//! against that buffer; `wf` says the windows lie inside it; `texts_ok` says
//! every leaf can become an owned handle.

use vstd::prelude::*;

use crate::event::{
    AnnotationAddedDataView,
    AnnotationView,
    ContentPartAddedDataView,
    ContentPartDoneDataView,
    ContentPartView,
    FunctionCallArgumentsDeltaDataView,
    FunctionCallArgumentsDoneDataView,
    FunctionCallItemView,
    ItemStatus,
    MessageItemView,
    OutputItemAddedDataView,
    OutputItemDoneDataView,
    OutputItemView,
    OutputTextDeltaDataView,
    OutputTextDoneDataView,
    OutputTextPartView,
    ReasoningItemView,
    ReasoningSummaryPartAddedDataView,
    ReasoningSummaryPartDoneDataView,
    ReasoningSummaryTextDeltaDataView,
    ReasoningSummaryTextDoneDataView,
    ReasoningTextDeltaDataView,
    ReasoningTextDoneDataView,
    ReasoningTextPartView,
    ResponseCompletedDataView,
    ResponseCreatedDataView,
    ResponseInProgressDataView,
    ResponseMetadataView,
    ResponseStatus,
    StreamEventView,
    SummaryContentView,
    SummaryPartView,
    SummaryTextPartView,
    UrlCitationView,
    UsageInfoView,
};
use crate::text::RawText;

verus! {

pub struct RawResponseCreatedData {
    pub response: RawResponseMetadata,
    pub sequence_number: u64,
}

impl RawResponseCreatedData {
    pub open spec fn wf(self, buf: Seq<u8>) -> bool {
        &&& self.response.wf(buf)
    }

    pub open spec fn texts_ok(self, buf: Seq<u8>) -> bool {
        &&& self.response.texts_ok(buf)
    }

    pub open spec fn resolve(self, buf: Seq<u8>) -> ResponseCreatedDataView {
        ResponseCreatedDataView {
            response: self.response.resolve(buf),
            sequence_number: self.sequence_number,
        }
    }
}

pub struct RawResponseInProgressData {
    pub sequence_number: u64,
}

impl RawResponseInProgressData {
    pub open spec fn wf(self, buf: Seq<u8>) -> bool {
        true
    }

    pub open spec fn texts_ok(self, buf: Seq<u8>) -> bool {
        true
    }

    pub open spec fn resolve(self, buf: Seq<u8>) -> ResponseInProgressDataView {
        ResponseInProgressDataView {
            sequence_number: self.sequence_number,
        }
    }
}

pub struct RawResponseCompletedData {
    pub response: RawResponseMetadata,
    pub sequence_number: u64,
}

impl RawResponseCompletedData {
    pub open spec fn wf(self, buf: Seq<u8>) -> bool {
        &&& self.response.wf(buf)
    }

    pub open spec fn texts_ok(self, buf: Seq<u8>) -> bool {
        &&& self.response.texts_ok(buf)
    }

    pub open spec fn resolve(self, buf: Seq<u8>) -> ResponseCompletedDataView {
        ResponseCompletedDataView {
            response: self.response.resolve(buf),
            sequence_number: self.sequence_number,
        }
    }
}

pub struct RawResponseMetadata {
    pub id: RawText,
    pub status: ResponseStatus,
    pub usage: Option<RawUsageInfo>,
}

impl RawResponseMetadata {
    pub open spec fn wf(self, buf: Seq<u8>) -> bool {
        &&& self.id.wf(buf)
        &&& match self.usage { Some(x) => x.wf(buf), None => true }
    }

    pub open spec fn texts_ok(self, buf: Seq<u8>) -> bool {
        &&& self.id.text_ok(buf)
        &&& match self.usage { Some(x) => x.texts_ok(buf), None => true }
    }

    pub open spec fn resolve(self, buf: Seq<u8>) -> ResponseMetadataView {
        ResponseMetadataView {
            id: self.id.resolve(buf),
            status: self.status,
            usage: match self.usage { Some(x) => Some(x.resolve(buf)), None => None },
        }
    }
}

pub struct RawUsageInfo {
    pub input_tokens: u64,
    pub output_tokens: u64,
    pub total_tokens: u64,
    pub cost: Option<RawText>,
}

impl RawUsageInfo {
    pub open spec fn wf(self, buf: Seq<u8>) -> bool {
        &&& match self.cost { Some(x) => x.wf(buf), None => true }
    }

    pub open spec fn texts_ok(self, buf: Seq<u8>) -> bool {
        &&& match self.cost { Some(x) => x.text_ok(buf), None => true }
    }

    pub open spec fn resolve(self, buf: Seq<u8>) -> UsageInfoView {
        UsageInfoView {
            input_tokens: self.input_tokens,
            output_tokens: self.output_tokens,
            total_tokens: self.total_tokens,
            cost: match self.cost { Some(x) => Some(x.resolve(buf)), None => None },
        }
    }
}

pub struct RawOutputItemAddedData {
    pub output_index: u32,
    pub item: RawOutputItem,
    pub sequence_number: u64,
}

impl RawOutputItemAddedData {
    pub open spec fn wf(self, buf: Seq<u8>) -> bool {
        &&& self.item.wf(buf)
    }

    pub open spec fn texts_ok(self, buf: Seq<u8>) -> bool {
        &&& self.item.texts_ok(buf)
    }

    pub open spec fn resolve(self, buf: Seq<u8>) -> OutputItemAddedDataView {
        OutputItemAddedDataView {
            output_index: self.output_index,
            item: self.item.resolve(buf),
            sequence_number: self.sequence_number,
        }
    }
}

pub struct RawOutputItemDoneData {
    pub output_index: u32,
    pub item: RawOutputItem,
    pub sequence_number: u64,
}

impl RawOutputItemDoneData {
    pub open spec fn wf(self, buf: Seq<u8>) -> bool {
        &&& self.item.wf(buf)
    }

    pub open spec fn texts_ok(self, buf: Seq<u8>) -> bool {
        &&& self.item.texts_ok(buf)
    }

    pub open spec fn resolve(self, buf: Seq<u8>) -> OutputItemDoneDataView {
        OutputItemDoneDataView {
            output_index: self.output_index,
            item: self.item.resolve(buf),
            sequence_number: self.sequence_number,
        }
    }
}

pub struct RawMessageItem {
    pub id: RawText,
    pub status: ItemStatus,
    pub content: Vec<RawContentPart>,
}

impl RawMessageItem {
    pub open spec fn wf(self, buf: Seq<u8>) -> bool {
        &&& self.id.wf(buf)
        &&& forall|i: int| 0 <= i < self.content@.len() ==> (#[trigger] self.content@[i]).wf(buf)
    }

    pub open spec fn texts_ok(self, buf: Seq<u8>) -> bool {
        &&& self.id.text_ok(buf)
        &&& forall|i: int| 0 <= i < self.content@.len() ==> (#[trigger] self.content@[i]).texts_ok(buf)
    }

    pub open spec fn resolve(self, buf: Seq<u8>) -> MessageItemView {
        MessageItemView {
            id: self.id.resolve(buf),
            status: self.status,
            content: resolve_seq_content_part(self.content@, buf),
        }
    }
}

pub struct RawReasoningItem {
    pub id: RawText,
    pub summary: Vec<RawSummaryPart>,
    pub encrypted_content: Option<RawText>,
}

impl RawReasoningItem {
    pub open spec fn wf(self, buf: Seq<u8>) -> bool {
        &&& self.id.wf(buf)
        &&& forall|i: int| 0 <= i < self.summary@.len() ==> (#[trigger] self.summary@[i]).wf(buf)
        &&& match self.encrypted_content { Some(x) => x.wf(buf), None => true }
    }

    pub open spec fn texts_ok(self, buf: Seq<u8>) -> bool {
        &&& self.id.text_ok(buf)
        &&& forall|i: int| 0 <= i < self.summary@.len() ==> (#[trigger] self.summary@[i]).texts_ok(buf)
        &&& match self.encrypted_content { Some(x) => x.text_ok(buf), None => true }
    }

    pub open spec fn resolve(self, buf: Seq<u8>) -> ReasoningItemView {
        ReasoningItemView {
            id: self.id.resolve(buf),
            summary: resolve_seq_summary_part(self.summary@, buf),
            encrypted_content: match self.encrypted_content { Some(x) => Some(x.resolve(buf)), None => None },
        }
    }
}

pub struct RawFunctionCallItem {
    pub call_id: RawText,
    pub name: RawText,
    pub arguments: RawText,
    pub status: ItemStatus,
}

impl RawFunctionCallItem {
    pub open spec fn wf(self, buf: Seq<u8>) -> bool {
        &&& self.call_id.wf(buf)
        &&& self.name.wf(buf)
        &&& self.arguments.wf(buf)
    }

    pub open spec fn texts_ok(self, buf: Seq<u8>) -> bool {
        &&& self.call_id.text_ok(buf)
        &&& self.name.text_ok(buf)
        &&& self.arguments.text_ok(buf)
    }

    pub open spec fn resolve(self, buf: Seq<u8>) -> FunctionCallItemView {
        FunctionCallItemView {
            call_id: self.call_id.resolve(buf),
            name: self.name.resolve(buf),
            arguments: self.arguments.resolve(buf),
            status: self.status,
        }
    }
}

pub struct RawContentPartAddedData {
    pub item_id: RawText,
    pub output_index: u32,
    pub content_index: u32,
    pub part: RawContentPart,
    pub sequence_number: u64,
}

impl RawContentPartAddedData {
    pub open spec fn wf(self, buf: Seq<u8>) -> bool {
        &&& self.item_id.wf(buf)
        &&& self.part.wf(buf)
    }

    pub open spec fn texts_ok(self, buf: Seq<u8>) -> bool {
        &&& self.item_id.text_ok(buf)
        &&& self.part.texts_ok(buf)
    }

    pub open spec fn resolve(self, buf: Seq<u8>) -> ContentPartAddedDataView {
        ContentPartAddedDataView {
            item_id: self.item_id.resolve(buf),
            output_index: self.output_index,
            content_index: self.content_index,
            part: self.part.resolve(buf),
            sequence_number: self.sequence_number,
        }
    }
}

pub struct RawContentPartDoneData {
    pub item_id: RawText,
    pub output_index: u32,
    pub content_index: u32,
    pub part: RawContentPart,
    pub sequence_number: u64,
}

impl RawContentPartDoneData {
    pub open spec fn wf(self, buf: Seq<u8>) -> bool {
        &&& self.item_id.wf(buf)
        &&& self.part.wf(buf)
    }

    pub open spec fn texts_ok(self, buf: Seq<u8>) -> bool {
        &&& self.item_id.text_ok(buf)
        &&& self.part.texts_ok(buf)
    }

    pub open spec fn resolve(self, buf: Seq<u8>) -> ContentPartDoneDataView {
        ContentPartDoneDataView {
            item_id: self.item_id.resolve(buf),
            output_index: self.output_index,
            content_index: self.content_index,
            part: self.part.resolve(buf),
            sequence_number: self.sequence_number,
        }
    }
}

pub struct RawOutputTextPart {
    pub text: RawText,
    pub annotations: Vec<RawAnnotation>,
}

impl RawOutputTextPart {
    pub open spec fn wf(self, buf: Seq<u8>) -> bool {
        &&& self.text.wf(buf)
        &&& forall|i: int| 0 <= i < self.annotations@.len() ==> (#[trigger] self.annotations@[i]).wf(buf)
    }

    pub open spec fn texts_ok(self, buf: Seq<u8>) -> bool {
        &&& self.text.text_ok(buf)
        &&& forall|i: int| 0 <= i < self.annotations@.len() ==> (#[trigger] self.annotations@[i]).texts_ok(buf)
    }

    pub open spec fn resolve(self, buf: Seq<u8>) -> OutputTextPartView {
        OutputTextPartView {
            text: self.text.resolve(buf),
            annotations: resolve_seq_annotation(self.annotations@, buf),
        }
    }
}

pub struct RawReasoningTextPart {
    pub text: RawText,
}

impl RawReasoningTextPart {
    pub open spec fn wf(self, buf: Seq<u8>) -> bool {
        &&& self.text.wf(buf)
    }

    pub open spec fn texts_ok(self, buf: Seq<u8>) -> bool {
        &&& self.text.text_ok(buf)
    }

    pub open spec fn resolve(self, buf: Seq<u8>) -> ReasoningTextPartView {
        ReasoningTextPartView {
            text: self.text.resolve(buf),
        }
    }
}

pub struct RawSummaryPart {
    pub content: RawSummaryContent,
}

impl RawSummaryPart {
    pub open spec fn wf(self, buf: Seq<u8>) -> bool {
        &&& self.content.wf(buf)
    }

    pub open spec fn texts_ok(self, buf: Seq<u8>) -> bool {
        &&& self.content.texts_ok(buf)
    }

    pub open spec fn resolve(self, buf: Seq<u8>) -> SummaryPartView {
        SummaryPartView {
            content: self.content.resolve(buf),
        }
    }
}

pub struct RawSummaryTextPart {
    pub text: RawText,
}

impl RawSummaryTextPart {
    pub open spec fn wf(self, buf: Seq<u8>) -> bool {
        &&& self.text.wf(buf)
    }

    pub open spec fn texts_ok(self, buf: Seq<u8>) -> bool {
        &&& self.text.text_ok(buf)
    }

    pub open spec fn resolve(self, buf: Seq<u8>) -> SummaryTextPartView {
        SummaryTextPartView {
            text: self.text.resolve(buf),
        }
    }
}

pub struct RawOutputTextDeltaData {
    pub output_index: u32,
    pub item_id: RawText,
    pub content_index: u32,
    pub delta: RawText,
    pub sequence_number: u64,
}

impl RawOutputTextDeltaData {
    pub open spec fn wf(self, buf: Seq<u8>) -> bool {
        &&& self.item_id.wf(buf)
        &&& self.delta.wf(buf)
    }

    pub open spec fn texts_ok(self, buf: Seq<u8>) -> bool {
        &&& self.item_id.text_ok(buf)
        &&& self.delta.text_ok(buf)
    }

    pub open spec fn resolve(self, buf: Seq<u8>) -> OutputTextDeltaDataView {
        OutputTextDeltaDataView {
            output_index: self.output_index,
            item_id: self.item_id.resolve(buf),
            content_index: self.content_index,
            delta: self.delta.resolve(buf),
            sequence_number: self.sequence_number,
        }
    }
}

pub struct RawOutputTextDoneData {
    pub item_id: RawText,
    pub output_index: u32,
    pub content_index: u32,
    pub text: RawText,
    pub sequence_number: u64,
}

impl RawOutputTextDoneData {
    pub open spec fn wf(self, buf: Seq<u8>) -> bool {
        &&& self.item_id.wf(buf)
        &&& self.text.wf(buf)
    }

    pub open spec fn texts_ok(self, buf: Seq<u8>) -> bool {
        &&& self.item_id.text_ok(buf)
        &&& self.text.text_ok(buf)
    }

    pub open spec fn resolve(self, buf: Seq<u8>) -> OutputTextDoneDataView {
        OutputTextDoneDataView {
            item_id: self.item_id.resolve(buf),
            output_index: self.output_index,
            content_index: self.content_index,
            text: self.text.resolve(buf),
            sequence_number: self.sequence_number,
        }
    }
}

pub struct RawReasoningTextDeltaData {
    pub output_index: u32,
    pub item_id: RawText,
    pub content_index: u32,
    pub delta: RawText,
    pub sequence_number: u64,
}

impl RawReasoningTextDeltaData {
    pub open spec fn wf(self, buf: Seq<u8>) -> bool {
        &&& self.item_id.wf(buf)
        &&& self.delta.wf(buf)
    }

    pub open spec fn texts_ok(self, buf: Seq<u8>) -> bool {
        &&& self.item_id.text_ok(buf)
        &&& self.delta.text_ok(buf)
    }

    pub open spec fn resolve(self, buf: Seq<u8>) -> ReasoningTextDeltaDataView {
        ReasoningTextDeltaDataView {
            output_index: self.output_index,
            item_id: self.item_id.resolve(buf),
            content_index: self.content_index,
            delta: self.delta.resolve(buf),
            sequence_number: self.sequence_number,
        }
    }
}

pub struct RawReasoningTextDoneData {
    pub output_index: u32,
    pub item_id: RawText,
    pub content_index: u32,
    pub text: RawText,
    pub sequence_number: u64,
}

impl RawReasoningTextDoneData {
    pub open spec fn wf(self, buf: Seq<u8>) -> bool {
        &&& self.item_id.wf(buf)
        &&& self.text.wf(buf)
    }

    pub open spec fn texts_ok(self, buf: Seq<u8>) -> bool {
        &&& self.item_id.text_ok(buf)
        &&& self.text.text_ok(buf)
    }

    pub open spec fn resolve(self, buf: Seq<u8>) -> ReasoningTextDoneDataView {
        ReasoningTextDoneDataView {
            output_index: self.output_index,
            item_id: self.item_id.resolve(buf),
            content_index: self.content_index,
            text: self.text.resolve(buf),
            sequence_number: self.sequence_number,
        }
    }
}

pub struct RawReasoningSummaryPartAddedData {
    pub output_index: u32,
    pub item_id: RawText,
    pub summary_index: u32,
    pub part: RawSummaryPart,
    pub sequence_number: u64,
}

impl RawReasoningSummaryPartAddedData {
    pub open spec fn wf(self, buf: Seq<u8>) -> bool {
        &&& self.item_id.wf(buf)
        &&& self.part.wf(buf)
    }

    pub open spec fn texts_ok(self, buf: Seq<u8>) -> bool {
        &&& self.item_id.text_ok(buf)
        &&& self.part.texts_ok(buf)
    }

    pub open spec fn resolve(self, buf: Seq<u8>) -> ReasoningSummaryPartAddedDataView {
        ReasoningSummaryPartAddedDataView {
            output_index: self.output_index,
            item_id: self.item_id.resolve(buf),
            summary_index: self.summary_index,
            part: self.part.resolve(buf),
            sequence_number: self.sequence_number,
        }
    }
}

pub struct RawReasoningSummaryTextDeltaData {
    pub item_id: RawText,
    pub output_index: u32,
    pub summary_index: u32,
    pub delta: RawText,
    pub sequence_number: u64,
}

impl RawReasoningSummaryTextDeltaData {
    pub open spec fn wf(self, buf: Seq<u8>) -> bool {
        &&& self.item_id.wf(buf)
        &&& self.delta.wf(buf)
    }

    pub open spec fn texts_ok(self, buf: Seq<u8>) -> bool {
        &&& self.item_id.text_ok(buf)
        &&& self.delta.text_ok(buf)
    }

    pub open spec fn resolve(self, buf: Seq<u8>) -> ReasoningSummaryTextDeltaDataView {
        ReasoningSummaryTextDeltaDataView {
            item_id: self.item_id.resolve(buf),
            output_index: self.output_index,
            summary_index: self.summary_index,
            delta: self.delta.resolve(buf),
            sequence_number: self.sequence_number,
        }
    }
}

pub struct RawReasoningSummaryTextDoneData {
    pub output_index: u32,
    pub item_id: RawText,
    pub summary_index: u32,
    pub text: RawText,
    pub sequence_number: u64,
}

impl RawReasoningSummaryTextDoneData {
    pub open spec fn wf(self, buf: Seq<u8>) -> bool {
        &&& self.item_id.wf(buf)
        &&& self.text.wf(buf)
    }

    pub open spec fn texts_ok(self, buf: Seq<u8>) -> bool {
        &&& self.item_id.text_ok(buf)
        &&& self.text.text_ok(buf)
    }

    pub open spec fn resolve(self, buf: Seq<u8>) -> ReasoningSummaryTextDoneDataView {
        ReasoningSummaryTextDoneDataView {
            output_index: self.output_index,
            item_id: self.item_id.resolve(buf),
            summary_index: self.summary_index,
            text: self.text.resolve(buf),
            sequence_number: self.sequence_number,
        }
    }
}

pub struct RawReasoningSummaryPartDoneData {
    pub output_index: u32,
    pub item_id: RawText,
    pub summary_index: u32,
    pub part: RawSummaryPart,
    pub sequence_number: u64,
}

impl RawReasoningSummaryPartDoneData {
    pub open spec fn wf(self, buf: Seq<u8>) -> bool {
        &&& self.item_id.wf(buf)
        &&& self.part.wf(buf)
    }

    pub open spec fn texts_ok(self, buf: Seq<u8>) -> bool {
        &&& self.item_id.text_ok(buf)
        &&& self.part.texts_ok(buf)
    }

    pub open spec fn resolve(self, buf: Seq<u8>) -> ReasoningSummaryPartDoneDataView {
        ReasoningSummaryPartDoneDataView {
            output_index: self.output_index,
            item_id: self.item_id.resolve(buf),
            summary_index: self.summary_index,
            part: self.part.resolve(buf),
            sequence_number: self.sequence_number,
        }
    }
}

pub struct RawFunctionCallArgumentsDeltaData {
    pub item_id: RawText,
    pub output_index: u32,
    pub delta: RawText,
    pub sequence_number: u64,
}

impl RawFunctionCallArgumentsDeltaData {
    pub open spec fn wf(self, buf: Seq<u8>) -> bool {
        &&& self.item_id.wf(buf)
        &&& self.delta.wf(buf)
    }

    pub open spec fn texts_ok(self, buf: Seq<u8>) -> bool {
        &&& self.item_id.text_ok(buf)
        &&& self.delta.text_ok(buf)
    }

    pub open spec fn resolve(self, buf: Seq<u8>) -> FunctionCallArgumentsDeltaDataView {
        FunctionCallArgumentsDeltaDataView {
            item_id: self.item_id.resolve(buf),
            output_index: self.output_index,
            delta: self.delta.resolve(buf),
            sequence_number: self.sequence_number,
        }
    }
}

pub struct RawFunctionCallArgumentsDoneData {
    pub item_id: RawText,
    pub output_index: u32,
    pub name: RawText,
    pub arguments: RawText,
    pub sequence_number: u64,
}

impl RawFunctionCallArgumentsDoneData {
    pub open spec fn wf(self, buf: Seq<u8>) -> bool {
        &&& self.item_id.wf(buf)
        &&& self.name.wf(buf)
        &&& self.arguments.wf(buf)
    }

    pub open spec fn texts_ok(self, buf: Seq<u8>) -> bool {
        &&& self.item_id.text_ok(buf)
        &&& self.name.text_ok(buf)
        &&& self.arguments.text_ok(buf)
    }

    pub open spec fn resolve(self, buf: Seq<u8>) -> FunctionCallArgumentsDoneDataView {
        FunctionCallArgumentsDoneDataView {
            item_id: self.item_id.resolve(buf),
            output_index: self.output_index,
            name: self.name.resolve(buf),
            arguments: self.arguments.resolve(buf),
            sequence_number: self.sequence_number,
        }
    }
}

pub struct RawAnnotationAddedData {
    pub output_index: u32,
    pub item_id: RawText,
    pub content_index: u32,
    pub sequence_number: u64,
    pub annotation_index: u32,
    pub annotation: RawAnnotation,
}

impl RawAnnotationAddedData {
    pub open spec fn wf(self, buf: Seq<u8>) -> bool {
        &&& self.item_id.wf(buf)
        &&& self.annotation.wf(buf)
    }

    pub open spec fn texts_ok(self, buf: Seq<u8>) -> bool {
        &&& self.item_id.text_ok(buf)
        &&& self.annotation.texts_ok(buf)
    }

    pub open spec fn resolve(self, buf: Seq<u8>) -> AnnotationAddedDataView {
        AnnotationAddedDataView {
            output_index: self.output_index,
            item_id: self.item_id.resolve(buf),
            content_index: self.content_index,
            sequence_number: self.sequence_number,
            annotation_index: self.annotation_index,
            annotation: self.annotation.resolve(buf),
        }
    }
}

pub struct RawUrlCitation {
    pub url: RawText,
    pub title: RawText,
    pub start_index: u32,
    pub end_index: u32,
}

impl RawUrlCitation {
    pub open spec fn wf(self, buf: Seq<u8>) -> bool {
        &&& self.url.wf(buf)
        &&& self.title.wf(buf)
    }

    pub open spec fn texts_ok(self, buf: Seq<u8>) -> bool {
        &&& self.url.text_ok(buf)
        &&& self.title.text_ok(buf)
    }

    pub open spec fn resolve(self, buf: Seq<u8>) -> UrlCitationView {
        UrlCitationView {
            url: self.url.resolve(buf),
            title: self.title.resolve(buf),
            start_index: self.start_index,
            end_index: self.end_index,
        }
    }
}

pub enum RawOutputItem {
    Message(RawMessageItem),
    Reasoning(RawReasoningItem),
    FunctionCall(RawFunctionCallItem),
}

impl RawOutputItem {
    pub open spec fn wf(self, buf: Seq<u8>) -> bool {
        match self {
            RawOutputItem::Message(d) => d.wf(buf),
            RawOutputItem::Reasoning(d) => d.wf(buf),
            RawOutputItem::FunctionCall(d) => d.wf(buf),
        }
    }

    pub open spec fn texts_ok(self, buf: Seq<u8>) -> bool {
        match self {
            RawOutputItem::Message(d) => d.texts_ok(buf),
            RawOutputItem::Reasoning(d) => d.texts_ok(buf),
            RawOutputItem::FunctionCall(d) => d.texts_ok(buf),
        }
    }

    pub open spec fn resolve(self, buf: Seq<u8>) -> OutputItemView {
        match self {
            RawOutputItem::Message(d) => OutputItemView::Message(d.resolve(buf)),
            RawOutputItem::Reasoning(d) => OutputItemView::Reasoning(d.resolve(buf)),
            RawOutputItem::FunctionCall(d) => OutputItemView::FunctionCall(d.resolve(buf)),
        }
    }
}

pub enum RawContentPart {
    OutputText(RawOutputTextPart),
    ReasoningText(RawReasoningTextPart),
    SummaryText(RawSummaryTextPart),
}

impl RawContentPart {
    pub open spec fn wf(self, buf: Seq<u8>) -> bool {
        match self {
            RawContentPart::OutputText(d) => d.wf(buf),
            RawContentPart::ReasoningText(d) => d.wf(buf),
            RawContentPart::SummaryText(d) => d.wf(buf),
        }
    }

    pub open spec fn texts_ok(self, buf: Seq<u8>) -> bool {
        match self {
            RawContentPart::OutputText(d) => d.texts_ok(buf),
            RawContentPart::ReasoningText(d) => d.texts_ok(buf),
            RawContentPart::SummaryText(d) => d.texts_ok(buf),
        }
    }

    pub open spec fn resolve(self, buf: Seq<u8>) -> ContentPartView {
        match self {
            RawContentPart::OutputText(d) => ContentPartView::OutputText(d.resolve(buf)),
            RawContentPart::ReasoningText(d) => ContentPartView::ReasoningText(d.resolve(buf)),
            RawContentPart::SummaryText(d) => ContentPartView::SummaryText(d.resolve(buf)),
        }
    }
}

pub enum RawSummaryContent {
    SummaryText(RawSummaryTextPart),
}

impl RawSummaryContent {
    pub open spec fn wf(self, buf: Seq<u8>) -> bool {
        match self {
            RawSummaryContent::SummaryText(d) => d.wf(buf),
        }
    }

    pub open spec fn texts_ok(self, buf: Seq<u8>) -> bool {
        match self {
            RawSummaryContent::SummaryText(d) => d.texts_ok(buf),
        }
    }

    pub open spec fn resolve(self, buf: Seq<u8>) -> SummaryContentView {
        match self {
            RawSummaryContent::SummaryText(d) => SummaryContentView::SummaryText(d.resolve(buf)),
        }
    }
}

pub enum RawAnnotation {
    UrlCitation(RawUrlCitation),
}

impl RawAnnotation {
    pub open spec fn wf(self, buf: Seq<u8>) -> bool {
        match self {
            RawAnnotation::UrlCitation(d) => d.wf(buf),
        }
    }

    pub open spec fn texts_ok(self, buf: Seq<u8>) -> bool {
        match self {
            RawAnnotation::UrlCitation(d) => d.texts_ok(buf),
        }
    }

    pub open spec fn resolve(self, buf: Seq<u8>) -> AnnotationView {
        match self {
            RawAnnotation::UrlCitation(d) => AnnotationView::UrlCitation(d.resolve(buf)),
        }
    }
}

pub enum RawStreamEvent {
    ResponseCreated(RawResponseCreatedData),
    ResponseInProgress(RawResponseInProgressData),
    ResponseOutputItemAdded(RawOutputItemAddedData),
    ResponseContentPartAdded(RawContentPartAddedData),
    ResponseOutputTextDelta(RawOutputTextDeltaData),
    ResponseOutputTextAnnotationAdded(RawAnnotationAddedData),
    ResponseOutputTextDone(RawOutputTextDoneData),
    ResponseContentPartDone(RawContentPartDoneData),
    ResponseOutputItemDone(RawOutputItemDoneData),
    ResponseFunctionCallArgumentsDelta(RawFunctionCallArgumentsDeltaData),
    ResponseFunctionCallArgumentsDone(RawFunctionCallArgumentsDoneData),
    ResponseReasoningTextDelta(RawReasoningTextDeltaData),
    ResponseReasoningTextDone(RawReasoningTextDoneData),
    ResponseReasoningSummaryPartAdded(RawReasoningSummaryPartAddedData),
    ResponseReasoningSummaryTextDelta(RawReasoningSummaryTextDeltaData),
    ResponseReasoningSummaryTextDone(RawReasoningSummaryTextDoneData),
    ResponseReasoningSummaryPartDone(RawReasoningSummaryPartDoneData),
    ResponseCompleted(RawResponseCompletedData),
}

impl RawStreamEvent {
    pub open spec fn wf(self, buf: Seq<u8>) -> bool {
        match self {
            RawStreamEvent::ResponseCreated(d) => d.wf(buf),
            RawStreamEvent::ResponseInProgress(d) => d.wf(buf),
            RawStreamEvent::ResponseOutputItemAdded(d) => d.wf(buf),
            RawStreamEvent::ResponseContentPartAdded(d) => d.wf(buf),
            RawStreamEvent::ResponseOutputTextDelta(d) => d.wf(buf),
            RawStreamEvent::ResponseOutputTextAnnotationAdded(d) => d.wf(buf),
            RawStreamEvent::ResponseOutputTextDone(d) => d.wf(buf),
            RawStreamEvent::ResponseContentPartDone(d) => d.wf(buf),
            RawStreamEvent::ResponseOutputItemDone(d) => d.wf(buf),
            RawStreamEvent::ResponseFunctionCallArgumentsDelta(d) => d.wf(buf),
            RawStreamEvent::ResponseFunctionCallArgumentsDone(d) => d.wf(buf),
            RawStreamEvent::ResponseReasoningTextDelta(d) => d.wf(buf),
            RawStreamEvent::ResponseReasoningTextDone(d) => d.wf(buf),
            RawStreamEvent::ResponseReasoningSummaryPartAdded(d) => d.wf(buf),
            RawStreamEvent::ResponseReasoningSummaryTextDelta(d) => d.wf(buf),
            RawStreamEvent::ResponseReasoningSummaryTextDone(d) => d.wf(buf),
            RawStreamEvent::ResponseReasoningSummaryPartDone(d) => d.wf(buf),
            RawStreamEvent::ResponseCompleted(d) => d.wf(buf),
        }
    }

    pub open spec fn texts_ok(self, buf: Seq<u8>) -> bool {
        match self {
            RawStreamEvent::ResponseCreated(d) => d.texts_ok(buf),
            RawStreamEvent::ResponseInProgress(d) => d.texts_ok(buf),
            RawStreamEvent::ResponseOutputItemAdded(d) => d.texts_ok(buf),
            RawStreamEvent::ResponseContentPartAdded(d) => d.texts_ok(buf),
            RawStreamEvent::ResponseOutputTextDelta(d) => d.texts_ok(buf),
            RawStreamEvent::ResponseOutputTextAnnotationAdded(d) => d.texts_ok(buf),
            RawStreamEvent::ResponseOutputTextDone(d) => d.texts_ok(buf),
            RawStreamEvent::ResponseContentPartDone(d) => d.texts_ok(buf),
            RawStreamEvent::ResponseOutputItemDone(d) => d.texts_ok(buf),
            RawStreamEvent::ResponseFunctionCallArgumentsDelta(d) => d.texts_ok(buf),
            RawStreamEvent::ResponseFunctionCallArgumentsDone(d) => d.texts_ok(buf),
            RawStreamEvent::ResponseReasoningTextDelta(d) => d.texts_ok(buf),
            RawStreamEvent::ResponseReasoningTextDone(d) => d.texts_ok(buf),
            RawStreamEvent::ResponseReasoningSummaryPartAdded(d) => d.texts_ok(buf),
            RawStreamEvent::ResponseReasoningSummaryTextDelta(d) => d.texts_ok(buf),
            RawStreamEvent::ResponseReasoningSummaryTextDone(d) => d.texts_ok(buf),
            RawStreamEvent::ResponseReasoningSummaryPartDone(d) => d.texts_ok(buf),
            RawStreamEvent::ResponseCompleted(d) => d.texts_ok(buf),
        }
    }

    pub open spec fn resolve(self, buf: Seq<u8>) -> StreamEventView {
        match self {
            RawStreamEvent::ResponseCreated(d) => StreamEventView::ResponseCreated(d.resolve(buf)),
            RawStreamEvent::ResponseInProgress(d) => StreamEventView::ResponseInProgress(d.resolve(buf)),
            RawStreamEvent::ResponseOutputItemAdded(d) => StreamEventView::ResponseOutputItemAdded(d.resolve(buf)),
            RawStreamEvent::ResponseContentPartAdded(d) => StreamEventView::ResponseContentPartAdded(d.resolve(buf)),
            RawStreamEvent::ResponseOutputTextDelta(d) => StreamEventView::ResponseOutputTextDelta(d.resolve(buf)),
            RawStreamEvent::ResponseOutputTextAnnotationAdded(d) => StreamEventView::ResponseOutputTextAnnotationAdded(d.resolve(buf)),
            RawStreamEvent::ResponseOutputTextDone(d) => StreamEventView::ResponseOutputTextDone(d.resolve(buf)),
            RawStreamEvent::ResponseContentPartDone(d) => StreamEventView::ResponseContentPartDone(d.resolve(buf)),
            RawStreamEvent::ResponseOutputItemDone(d) => StreamEventView::ResponseOutputItemDone(d.resolve(buf)),
            RawStreamEvent::ResponseFunctionCallArgumentsDelta(d) => StreamEventView::ResponseFunctionCallArgumentsDelta(d.resolve(buf)),
            RawStreamEvent::ResponseFunctionCallArgumentsDone(d) => StreamEventView::ResponseFunctionCallArgumentsDone(d.resolve(buf)),
            RawStreamEvent::ResponseReasoningTextDelta(d) => StreamEventView::ResponseReasoningTextDelta(d.resolve(buf)),
            RawStreamEvent::ResponseReasoningTextDone(d) => StreamEventView::ResponseReasoningTextDone(d.resolve(buf)),
            RawStreamEvent::ResponseReasoningSummaryPartAdded(d) => StreamEventView::ResponseReasoningSummaryPartAdded(d.resolve(buf)),
            RawStreamEvent::ResponseReasoningSummaryTextDelta(d) => StreamEventView::ResponseReasoningSummaryTextDelta(d.resolve(buf)),
            RawStreamEvent::ResponseReasoningSummaryTextDone(d) => StreamEventView::ResponseReasoningSummaryTextDone(d.resolve(buf)),
            RawStreamEvent::ResponseReasoningSummaryPartDone(d) => StreamEventView::ResponseReasoningSummaryPartDone(d.resolve(buf)),
            RawStreamEvent::ResponseCompleted(d) => StreamEventView::ResponseCompleted(d.resolve(buf)),
        }
    }
}

pub open spec fn resolve_seq_content_part(v: Seq<RawContentPart>, buf: Seq<u8>) -> Seq<ContentPartView> {
    Seq::new(v.len(), |i: int| v[i].resolve(buf))
}

pub open spec fn resolve_seq_summary_part(v: Seq<RawSummaryPart>, buf: Seq<u8>) -> Seq<SummaryPartView> {
    Seq::new(v.len(), |i: int| v[i].resolve(buf))
}

pub open spec fn resolve_seq_annotation(v: Seq<RawAnnotation>, buf: Seq<u8>) -> Seq<AnnotationView> {
    Seq::new(v.len(), |i: int| v[i].resolve(buf))
}

} // verus!
