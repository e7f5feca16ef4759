//! The event model: the owned form of the discriminated stream events (the
//! form handed to the consumer, every string leaf an owned `Text` handle) and
//! the ghost view family the contracts speak of, with string content as plain
//! byte sequences.

use vstd::prelude::*;

use crate::text::Text;

verus! {

/// A response's lifecycle status on the wire.
#[derive(Debug, Clone, Copy, PartialEq, Eq, Hash, Structural)]
pub enum ResponseStatus {
    InProgress,
    Completed,
}

/// An output item's lifecycle status on the wire.
#[derive(Debug, Clone, Copy, PartialEq, Eq, Hash, Structural)]
pub enum ItemStatus {
    InProgress,
    Completed,
}

pub struct ResponseCreatedData {
    pub response: ResponseMetadata,
    /// Position counter the upstream service attaches; expected, but not
    /// enforced or verified here, to be non-decreasing over one stream.
    pub sequence_number: u64,
}

pub struct ResponseCreatedDataView {
    pub response: ResponseMetadataView,
    pub sequence_number: u64,
}

impl View for ResponseCreatedData {
    type V = ResponseCreatedDataView;

    open spec fn view(&self) -> ResponseCreatedDataView {
        ResponseCreatedDataView {
            response: self.response@,
            sequence_number: self.sequence_number,
        }
    }
}

pub struct ResponseInProgressData {
    /// Position counter the upstream service attaches; expected, but not
    /// enforced or verified here, to be non-decreasing over one stream.
    pub sequence_number: u64,
}

pub struct ResponseInProgressDataView {
    pub sequence_number: u64,
}

impl View for ResponseInProgressData {
    type V = ResponseInProgressDataView;

    open spec fn view(&self) -> ResponseInProgressDataView {
        ResponseInProgressDataView {
            sequence_number: self.sequence_number,
        }
    }
}

pub struct ResponseCompletedData {
    pub response: ResponseMetadata,
    /// Position counter the upstream service attaches; expected, but not
    /// enforced or verified here, to be non-decreasing over one stream.
    pub sequence_number: u64,
}

pub struct ResponseCompletedDataView {
    pub response: ResponseMetadataView,
    pub sequence_number: u64,
}

impl View for ResponseCompletedData {
    type V = ResponseCompletedDataView;

    open spec fn view(&self) -> ResponseCompletedDataView {
        ResponseCompletedDataView {
            response: self.response@,
            sequence_number: self.sequence_number,
        }
    }
}

pub struct ResponseMetadata {
    pub id: Text,
    pub status: ResponseStatus,
    pub usage: Option<UsageInfo>,
}

pub struct ResponseMetadataView {
    pub id: Seq<u8>,
    pub status: ResponseStatus,
    pub usage: Option<UsageInfoView>,
}

impl View for ResponseMetadata {
    type V = ResponseMetadataView;

    open spec fn view(&self) -> ResponseMetadataView {
        ResponseMetadataView {
            id: self.id@,
            status: self.status,
            usage: match self.usage { Some(x) => Some(x@), None => None },
        }
    }
}

pub struct UsageInfo {
    pub input_tokens: u64,
    pub output_tokens: u64,
    pub total_tokens: u64,
    /// The number's literal token text, kept verbatim.
    pub cost: Option<Text>,
}

pub struct UsageInfoView {
    pub input_tokens: u64,
    pub output_tokens: u64,
    pub total_tokens: u64,
    pub cost: Option<Seq<u8>>,
}

impl View for UsageInfo {
    type V = UsageInfoView;

    open spec fn view(&self) -> UsageInfoView {
        UsageInfoView {
            input_tokens: self.input_tokens,
            output_tokens: self.output_tokens,
            total_tokens: self.total_tokens,
            cost: match self.cost { Some(t) => Some(t@), None => None },
        }
    }
}

pub struct OutputItemAddedData {
    pub output_index: u32,
    pub item: OutputItem,
    /// Position counter the upstream service attaches; expected, but not
    /// enforced or verified here, to be non-decreasing over one stream.
    pub sequence_number: u64,
}

pub struct OutputItemAddedDataView {
    pub output_index: u32,
    pub item: OutputItemView,
    pub sequence_number: u64,
}

impl View for OutputItemAddedData {
    type V = OutputItemAddedDataView;

    open spec fn view(&self) -> OutputItemAddedDataView {
        OutputItemAddedDataView {
            output_index: self.output_index,
            item: self.item@,
            sequence_number: self.sequence_number,
        }
    }
}

pub struct OutputItemDoneData {
    pub output_index: u32,
    pub item: OutputItem,
    /// Position counter the upstream service attaches; expected, but not
    /// enforced or verified here, to be non-decreasing over one stream.
    pub sequence_number: u64,
}

pub struct OutputItemDoneDataView {
    pub output_index: u32,
    pub item: OutputItemView,
    pub sequence_number: u64,
}

impl View for OutputItemDoneData {
    type V = OutputItemDoneDataView;

    open spec fn view(&self) -> OutputItemDoneDataView {
        OutputItemDoneDataView {
            output_index: self.output_index,
            item: self.item@,
            sequence_number: self.sequence_number,
        }
    }
}

pub struct MessageItem {
    pub id: Text,
    pub status: ItemStatus,
    pub content: Vec<ContentPart>,
}

pub struct MessageItemView {
    pub id: Seq<u8>,
    pub status: ItemStatus,
    pub content: Seq<ContentPartView>,
}

impl View for MessageItem {
    type V = MessageItemView;

    open spec fn view(&self) -> MessageItemView {
        MessageItemView {
            id: self.id@,
            status: self.status,
            content: view_seq_content_part(self.content@),
        }
    }
}

pub struct ReasoningItem {
    pub id: Text,
    pub summary: Vec<SummaryPart>,
    pub encrypted_content: Option<Text>,
}

pub struct ReasoningItemView {
    pub id: Seq<u8>,
    pub summary: Seq<SummaryPartView>,
    pub encrypted_content: Option<Seq<u8>>,
}

impl View for ReasoningItem {
    type V = ReasoningItemView;

    open spec fn view(&self) -> ReasoningItemView {
        ReasoningItemView {
            id: self.id@,
            summary: view_seq_summary_part(self.summary@),
            encrypted_content: match self.encrypted_content { Some(t) => Some(t@), None => None },
        }
    }
}

pub struct FunctionCallItem {
    pub call_id: Text,
    pub name: Text,
    pub arguments: Text,
    pub status: ItemStatus,
}

pub struct FunctionCallItemView {
    pub call_id: Seq<u8>,
    pub name: Seq<u8>,
    pub arguments: Seq<u8>,
    pub status: ItemStatus,
}

impl View for FunctionCallItem {
    type V = FunctionCallItemView;

    open spec fn view(&self) -> FunctionCallItemView {
        FunctionCallItemView {
            call_id: self.call_id@,
            name: self.name@,
            arguments: self.arguments@,
            status: self.status,
        }
    }
}

pub struct ContentPartAddedData {
    pub item_id: Text,
    pub output_index: u32,
    pub content_index: u32,
    pub part: ContentPart,
    /// Position counter the upstream service attaches; expected, but not
    /// enforced or verified here, to be non-decreasing over one stream.
    pub sequence_number: u64,
}

pub struct ContentPartAddedDataView {
    pub item_id: Seq<u8>,
    pub output_index: u32,
    pub content_index: u32,
    pub part: ContentPartView,
    pub sequence_number: u64,
}

impl View for ContentPartAddedData {
    type V = ContentPartAddedDataView;

    open spec fn view(&self) -> ContentPartAddedDataView {
        ContentPartAddedDataView {
            item_id: self.item_id@,
            output_index: self.output_index,
            content_index: self.content_index,
            part: self.part@,
            sequence_number: self.sequence_number,
        }
    }
}

pub struct ContentPartDoneData {
    pub item_id: Text,
    pub output_index: u32,
    pub content_index: u32,
    pub part: ContentPart,
    /// Position counter the upstream service attaches; expected, but not
    /// enforced or verified here, to be non-decreasing over one stream.
    pub sequence_number: u64,
}

pub struct ContentPartDoneDataView {
    pub item_id: Seq<u8>,
    pub output_index: u32,
    pub content_index: u32,
    pub part: ContentPartView,
    pub sequence_number: u64,
}

impl View for ContentPartDoneData {
    type V = ContentPartDoneDataView;

    open spec fn view(&self) -> ContentPartDoneDataView {
        ContentPartDoneDataView {
            item_id: self.item_id@,
            output_index: self.output_index,
            content_index: self.content_index,
            part: self.part@,
            sequence_number: self.sequence_number,
        }
    }
}

pub struct OutputTextPart {
    pub text: Text,
    pub annotations: Vec<Annotation>,
}

pub struct OutputTextPartView {
    pub text: Seq<u8>,
    pub annotations: Seq<AnnotationView>,
}

impl View for OutputTextPart {
    type V = OutputTextPartView;

    open spec fn view(&self) -> OutputTextPartView {
        OutputTextPartView {
            text: self.text@,
            annotations: view_seq_annotation(self.annotations@),
        }
    }
}

pub struct ReasoningTextPart {
    pub text: Text,
}

pub struct ReasoningTextPartView {
    pub text: Seq<u8>,
}

impl View for ReasoningTextPart {
    type V = ReasoningTextPartView;

    open spec fn view(&self) -> ReasoningTextPartView {
        ReasoningTextPartView {
            text: self.text@,
        }
    }
}

pub struct SummaryPart {
    pub content: SummaryContent,
}

pub struct SummaryPartView {
    pub content: SummaryContentView,
}

impl View for SummaryPart {
    type V = SummaryPartView;

    open spec fn view(&self) -> SummaryPartView {
        SummaryPartView {
            content: self.content@,
        }
    }
}

pub struct SummaryTextPart {
    pub text: Text,
}

pub struct SummaryTextPartView {
    pub text: Seq<u8>,
}

impl View for SummaryTextPart {
    type V = SummaryTextPartView;

    open spec fn view(&self) -> SummaryTextPartView {
        SummaryTextPartView {
            text: self.text@,
        }
    }
}

pub struct OutputTextDeltaData {
    pub output_index: u32,
    pub item_id: Text,
    pub content_index: u32,
    pub delta: Text,
    /// Position counter the upstream service attaches; expected, but not
    /// enforced or verified here, to be non-decreasing over one stream.
    pub sequence_number: u64,
}

pub struct OutputTextDeltaDataView {
    pub output_index: u32,
    pub item_id: Seq<u8>,
    pub content_index: u32,
    pub delta: Seq<u8>,
    pub sequence_number: u64,
}

impl View for OutputTextDeltaData {
    type V = OutputTextDeltaDataView;

    open spec fn view(&self) -> OutputTextDeltaDataView {
        OutputTextDeltaDataView {
            output_index: self.output_index,
            item_id: self.item_id@,
            content_index: self.content_index,
            delta: self.delta@,
            sequence_number: self.sequence_number,
        }
    }
}

pub struct OutputTextDoneData {
    pub item_id: Text,
    pub output_index: u32,
    pub content_index: u32,
    pub text: Text,
    /// Position counter the upstream service attaches; expected, but not
    /// enforced or verified here, to be non-decreasing over one stream.
    pub sequence_number: u64,
}

pub struct OutputTextDoneDataView {
    pub item_id: Seq<u8>,
    pub output_index: u32,
    pub content_index: u32,
    pub text: Seq<u8>,
    pub sequence_number: u64,
}

impl View for OutputTextDoneData {
    type V = OutputTextDoneDataView;

    open spec fn view(&self) -> OutputTextDoneDataView {
        OutputTextDoneDataView {
            item_id: self.item_id@,
            output_index: self.output_index,
            content_index: self.content_index,
            text: self.text@,
            sequence_number: self.sequence_number,
        }
    }
}

pub struct ReasoningTextDeltaData {
    pub output_index: u32,
    pub item_id: Text,
    pub content_index: u32,
    pub delta: Text,
    /// Position counter the upstream service attaches; expected, but not
    /// enforced or verified here, to be non-decreasing over one stream.
    pub sequence_number: u64,
}

pub struct ReasoningTextDeltaDataView {
    pub output_index: u32,
    pub item_id: Seq<u8>,
    pub content_index: u32,
    pub delta: Seq<u8>,
    pub sequence_number: u64,
}

impl View for ReasoningTextDeltaData {
    type V = ReasoningTextDeltaDataView;

    open spec fn view(&self) -> ReasoningTextDeltaDataView {
        ReasoningTextDeltaDataView {
            output_index: self.output_index,
            item_id: self.item_id@,
            content_index: self.content_index,
            delta: self.delta@,
            sequence_number: self.sequence_number,
        }
    }
}

pub struct ReasoningTextDoneData {
    pub output_index: u32,
    pub item_id: Text,
    pub content_index: u32,
    pub text: Text,
    /// Position counter the upstream service attaches; expected, but not
    /// enforced or verified here, to be non-decreasing over one stream.
    pub sequence_number: u64,
}

pub struct ReasoningTextDoneDataView {
    pub output_index: u32,
    pub item_id: Seq<u8>,
    pub content_index: u32,
    pub text: Seq<u8>,
    pub sequence_number: u64,
}

impl View for ReasoningTextDoneData {
    type V = ReasoningTextDoneDataView;

    open spec fn view(&self) -> ReasoningTextDoneDataView {
        ReasoningTextDoneDataView {
            output_index: self.output_index,
            item_id: self.item_id@,
            content_index: self.content_index,
            text: self.text@,
            sequence_number: self.sequence_number,
        }
    }
}

pub struct ReasoningSummaryPartAddedData {
    pub output_index: u32,
    pub item_id: Text,
    pub summary_index: u32,
    pub part: SummaryPart,
    /// Position counter the upstream service attaches; expected, but not
    /// enforced or verified here, to be non-decreasing over one stream.
    pub sequence_number: u64,
}

pub struct ReasoningSummaryPartAddedDataView {
    pub output_index: u32,
    pub item_id: Seq<u8>,
    pub summary_index: u32,
    pub part: SummaryPartView,
    pub sequence_number: u64,
}

impl View for ReasoningSummaryPartAddedData {
    type V = ReasoningSummaryPartAddedDataView;

    open spec fn view(&self) -> ReasoningSummaryPartAddedDataView {
        ReasoningSummaryPartAddedDataView {
            output_index: self.output_index,
            item_id: self.item_id@,
            summary_index: self.summary_index,
            part: self.part@,
            sequence_number: self.sequence_number,
        }
    }
}

pub struct ReasoningSummaryTextDeltaData {
    pub item_id: Text,
    pub output_index: u32,
    pub summary_index: u32,
    pub delta: Text,
    /// Position counter the upstream service attaches; expected, but not
    /// enforced or verified here, to be non-decreasing over one stream.
    pub sequence_number: u64,
}

pub struct ReasoningSummaryTextDeltaDataView {
    pub item_id: Seq<u8>,
    pub output_index: u32,
    pub summary_index: u32,
    pub delta: Seq<u8>,
    pub sequence_number: u64,
}

impl View for ReasoningSummaryTextDeltaData {
    type V = ReasoningSummaryTextDeltaDataView;

    open spec fn view(&self) -> ReasoningSummaryTextDeltaDataView {
        ReasoningSummaryTextDeltaDataView {
            item_id: self.item_id@,
            output_index: self.output_index,
            summary_index: self.summary_index,
            delta: self.delta@,
            sequence_number: self.sequence_number,
        }
    }
}

pub struct ReasoningSummaryTextDoneData {
    pub output_index: u32,
    pub item_id: Text,
    pub summary_index: u32,
    pub text: Text,
    /// Position counter the upstream service attaches; expected, but not
    /// enforced or verified here, to be non-decreasing over one stream.
    pub sequence_number: u64,
}

pub struct ReasoningSummaryTextDoneDataView {
    pub output_index: u32,
    pub item_id: Seq<u8>,
    pub summary_index: u32,
    pub text: Seq<u8>,
    pub sequence_number: u64,
}

impl View for ReasoningSummaryTextDoneData {
    type V = ReasoningSummaryTextDoneDataView;

    open spec fn view(&self) -> ReasoningSummaryTextDoneDataView {
        ReasoningSummaryTextDoneDataView {
            output_index: self.output_index,
            item_id: self.item_id@,
            summary_index: self.summary_index,
            text: self.text@,
            sequence_number: self.sequence_number,
        }
    }
}

pub struct ReasoningSummaryPartDoneData {
    pub output_index: u32,
    pub item_id: Text,
    pub summary_index: u32,
    pub part: SummaryPart,
    /// Position counter the upstream service attaches; expected, but not
    /// enforced or verified here, to be non-decreasing over one stream.
    pub sequence_number: u64,
}

pub struct ReasoningSummaryPartDoneDataView {
    pub output_index: u32,
    pub item_id: Seq<u8>,
    pub summary_index: u32,
    pub part: SummaryPartView,
    pub sequence_number: u64,
}

impl View for ReasoningSummaryPartDoneData {
    type V = ReasoningSummaryPartDoneDataView;

    open spec fn view(&self) -> ReasoningSummaryPartDoneDataView {
        ReasoningSummaryPartDoneDataView {
            output_index: self.output_index,
            item_id: self.item_id@,
            summary_index: self.summary_index,
            part: self.part@,
            sequence_number: self.sequence_number,
        }
    }
}

pub struct FunctionCallArgumentsDeltaData {
    pub item_id: Text,
    pub output_index: u32,
    pub delta: Text,
    /// Position counter the upstream service attaches; expected, but not
    /// enforced or verified here, to be non-decreasing over one stream.
    pub sequence_number: u64,
}

pub struct FunctionCallArgumentsDeltaDataView {
    pub item_id: Seq<u8>,
    pub output_index: u32,
    pub delta: Seq<u8>,
    pub sequence_number: u64,
}

impl View for FunctionCallArgumentsDeltaData {
    type V = FunctionCallArgumentsDeltaDataView;

    open spec fn view(&self) -> FunctionCallArgumentsDeltaDataView {
        FunctionCallArgumentsDeltaDataView {
            item_id: self.item_id@,
            output_index: self.output_index,
            delta: self.delta@,
            sequence_number: self.sequence_number,
        }
    }
}

pub struct FunctionCallArgumentsDoneData {
    pub item_id: Text,
    pub output_index: u32,
    pub name: Text,
    pub arguments: Text,
    /// Position counter the upstream service attaches; expected, but not
    /// enforced or verified here, to be non-decreasing over one stream.
    pub sequence_number: u64,
}

pub struct FunctionCallArgumentsDoneDataView {
    pub item_id: Seq<u8>,
    pub output_index: u32,
    pub name: Seq<u8>,
    pub arguments: Seq<u8>,
    pub sequence_number: u64,
}

impl View for FunctionCallArgumentsDoneData {
    type V = FunctionCallArgumentsDoneDataView;

    open spec fn view(&self) -> FunctionCallArgumentsDoneDataView {
        FunctionCallArgumentsDoneDataView {
            item_id: self.item_id@,
            output_index: self.output_index,
            name: self.name@,
            arguments: self.arguments@,
            sequence_number: self.sequence_number,
        }
    }
}

pub struct AnnotationAddedData {
    pub output_index: u32,
    pub item_id: Text,
    pub content_index: u32,
    /// Position counter the upstream service attaches; expected, but not
    /// enforced or verified here, to be non-decreasing over one stream.
    pub sequence_number: u64,
    pub annotation_index: u32,
    pub annotation: Annotation,
}

pub struct AnnotationAddedDataView {
    pub output_index: u32,
    pub item_id: Seq<u8>,
    pub content_index: u32,
    pub sequence_number: u64,
    pub annotation_index: u32,
    pub annotation: AnnotationView,
}

impl View for AnnotationAddedData {
    type V = AnnotationAddedDataView;

    open spec fn view(&self) -> AnnotationAddedDataView {
        AnnotationAddedDataView {
            output_index: self.output_index,
            item_id: self.item_id@,
            content_index: self.content_index,
            sequence_number: self.sequence_number,
            annotation_index: self.annotation_index,
            annotation: self.annotation@,
        }
    }
}

pub struct UrlCitation {
    pub url: Text,
    pub title: Text,
    pub start_index: u32,
    pub end_index: u32,
}

pub struct UrlCitationView {
    pub url: Seq<u8>,
    pub title: Seq<u8>,
    pub start_index: u32,
    pub end_index: u32,
}

impl View for UrlCitation {
    type V = UrlCitationView;

    open spec fn view(&self) -> UrlCitationView {
        UrlCitationView {
            url: self.url@,
            title: self.title@,
            start_index: self.start_index,
            end_index: self.end_index,
        }
    }
}

pub enum OutputItem {
    Message(MessageItem),
    Reasoning(ReasoningItem),
    FunctionCall(FunctionCallItem),
}

pub enum OutputItemView {
    Message(MessageItemView),
    Reasoning(ReasoningItemView),
    FunctionCall(FunctionCallItemView),
}

impl View for OutputItem {
    type V = OutputItemView;

    open spec fn view(&self) -> OutputItemView {
        match self {
            OutputItem::Message(d) => OutputItemView::Message(d@),
            OutputItem::Reasoning(d) => OutputItemView::Reasoning(d@),
            OutputItem::FunctionCall(d) => OutputItemView::FunctionCall(d@),
        }
    }
}

pub enum ContentPart {
    OutputText(OutputTextPart),
    ReasoningText(ReasoningTextPart),
    SummaryText(SummaryTextPart),
}

pub enum ContentPartView {
    OutputText(OutputTextPartView),
    ReasoningText(ReasoningTextPartView),
    SummaryText(SummaryTextPartView),
}

impl View for ContentPart {
    type V = ContentPartView;

    open spec fn view(&self) -> ContentPartView {
        match self {
            ContentPart::OutputText(d) => ContentPartView::OutputText(d@),
            ContentPart::ReasoningText(d) => ContentPartView::ReasoningText(d@),
            ContentPart::SummaryText(d) => ContentPartView::SummaryText(d@),
        }
    }
}

pub enum SummaryContent {
    SummaryText(SummaryTextPart),
}

pub enum SummaryContentView {
    SummaryText(SummaryTextPartView),
}

impl View for SummaryContent {
    type V = SummaryContentView;

    open spec fn view(&self) -> SummaryContentView {
        match self {
            SummaryContent::SummaryText(d) => SummaryContentView::SummaryText(d@),
        }
    }
}

pub enum Annotation {
    UrlCitation(UrlCitation),
}

pub enum AnnotationView {
    UrlCitation(UrlCitationView),
}

impl View for Annotation {
    type V = AnnotationView;

    open spec fn view(&self) -> AnnotationView {
        match self {
            Annotation::UrlCitation(d) => AnnotationView::UrlCitation(d@),
        }
    }
}

pub enum StreamEvent {
    ResponseCreated(ResponseCreatedData),
    ResponseInProgress(ResponseInProgressData),
    ResponseOutputItemAdded(OutputItemAddedData),
    ResponseContentPartAdded(ContentPartAddedData),
    ResponseOutputTextDelta(OutputTextDeltaData),
    ResponseOutputTextAnnotationAdded(AnnotationAddedData),
    ResponseOutputTextDone(OutputTextDoneData),
    ResponseContentPartDone(ContentPartDoneData),
    ResponseOutputItemDone(OutputItemDoneData),
    ResponseFunctionCallArgumentsDelta(FunctionCallArgumentsDeltaData),
    ResponseFunctionCallArgumentsDone(FunctionCallArgumentsDoneData),
    ResponseReasoningTextDelta(ReasoningTextDeltaData),
    ResponseReasoningTextDone(ReasoningTextDoneData),
    ResponseReasoningSummaryPartAdded(ReasoningSummaryPartAddedData),
    ResponseReasoningSummaryTextDelta(ReasoningSummaryTextDeltaData),
    ResponseReasoningSummaryTextDone(ReasoningSummaryTextDoneData),
    ResponseReasoningSummaryPartDone(ReasoningSummaryPartDoneData),
    ResponseCompleted(ResponseCompletedData),
}

pub enum StreamEventView {
    ResponseCreated(ResponseCreatedDataView),
    ResponseInProgress(ResponseInProgressDataView),
    ResponseOutputItemAdded(OutputItemAddedDataView),
    ResponseContentPartAdded(ContentPartAddedDataView),
    ResponseOutputTextDelta(OutputTextDeltaDataView),
    ResponseOutputTextAnnotationAdded(AnnotationAddedDataView),
    ResponseOutputTextDone(OutputTextDoneDataView),
    ResponseContentPartDone(ContentPartDoneDataView),
    ResponseOutputItemDone(OutputItemDoneDataView),
    ResponseFunctionCallArgumentsDelta(FunctionCallArgumentsDeltaDataView),
    ResponseFunctionCallArgumentsDone(FunctionCallArgumentsDoneDataView),
    ResponseReasoningTextDelta(ReasoningTextDeltaDataView),
    ResponseReasoningTextDone(ReasoningTextDoneDataView),
    ResponseReasoningSummaryPartAdded(ReasoningSummaryPartAddedDataView),
    ResponseReasoningSummaryTextDelta(ReasoningSummaryTextDeltaDataView),
    ResponseReasoningSummaryTextDone(ReasoningSummaryTextDoneDataView),
    ResponseReasoningSummaryPartDone(ReasoningSummaryPartDoneDataView),
    ResponseCompleted(ResponseCompletedDataView),
}

impl View for StreamEvent {
    type V = StreamEventView;

    open spec fn view(&self) -> StreamEventView {
        match self {
            StreamEvent::ResponseCreated(d) => StreamEventView::ResponseCreated(d@),
            StreamEvent::ResponseInProgress(d) => StreamEventView::ResponseInProgress(d@),
            StreamEvent::ResponseOutputItemAdded(d) => StreamEventView::ResponseOutputItemAdded(d@),
            StreamEvent::ResponseContentPartAdded(d) => StreamEventView::ResponseContentPartAdded(d@),
            StreamEvent::ResponseOutputTextDelta(d) => StreamEventView::ResponseOutputTextDelta(d@),
            StreamEvent::ResponseOutputTextAnnotationAdded(d) => StreamEventView::ResponseOutputTextAnnotationAdded(d@),
            StreamEvent::ResponseOutputTextDone(d) => StreamEventView::ResponseOutputTextDone(d@),
            StreamEvent::ResponseContentPartDone(d) => StreamEventView::ResponseContentPartDone(d@),
            StreamEvent::ResponseOutputItemDone(d) => StreamEventView::ResponseOutputItemDone(d@),
            StreamEvent::ResponseFunctionCallArgumentsDelta(d) => StreamEventView::ResponseFunctionCallArgumentsDelta(d@),
            StreamEvent::ResponseFunctionCallArgumentsDone(d) => StreamEventView::ResponseFunctionCallArgumentsDone(d@),
            StreamEvent::ResponseReasoningTextDelta(d) => StreamEventView::ResponseReasoningTextDelta(d@),
            StreamEvent::ResponseReasoningTextDone(d) => StreamEventView::ResponseReasoningTextDone(d@),
            StreamEvent::ResponseReasoningSummaryPartAdded(d) => StreamEventView::ResponseReasoningSummaryPartAdded(d@),
            StreamEvent::ResponseReasoningSummaryTextDelta(d) => StreamEventView::ResponseReasoningSummaryTextDelta(d@),
            StreamEvent::ResponseReasoningSummaryTextDone(d) => StreamEventView::ResponseReasoningSummaryTextDone(d@),
            StreamEvent::ResponseReasoningSummaryPartDone(d) => StreamEventView::ResponseReasoningSummaryPartDone(d@),
            StreamEvent::ResponseCompleted(d) => StreamEventView::ResponseCompleted(d@),
        }
    }
}

pub open spec fn view_seq_content_part(v: Seq<ContentPart>) -> Seq<ContentPartView> {
    Seq::new(v.len(), |i: int| v[i]@)
}

pub open spec fn view_seq_summary_part(v: Seq<SummaryPart>) -> Seq<SummaryPartView> {
    Seq::new(v.len(), |i: int| v[i]@)
}

pub open spec fn view_seq_annotation(v: Seq<Annotation>) -> Seq<AnnotationView> {
    Seq::new(v.len(), |i: int| v[i]@)
}

} // verus!
