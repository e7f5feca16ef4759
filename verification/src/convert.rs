//! The borrowed-to-owned converter: one structural traversal that rewrites
//! every string leaf as `own_text` does (sharing the record buffer for
//! windows, adopting fresh allocations) and copies everything else verbatim.
//! The `ensures` state that the conversion is value-preserving: the owned
//! event's view equals the decoded event resolved against its buffer.

use vstd::prelude::*;

use crate::event::{
    Annotation,
    AnnotationAddedData,
    ContentPart,
    ContentPartAddedData,
    ContentPartDoneData,
    FunctionCallArgumentsDeltaData,
    FunctionCallArgumentsDoneData,
    FunctionCallItem,
    ItemStatus,
    MessageItem,
    OutputItem,
    OutputItemAddedData,
    OutputItemDoneData,
    OutputTextDeltaData,
    OutputTextDoneData,
    OutputTextPart,
    ReasoningItem,
    ReasoningSummaryPartAddedData,
    ReasoningSummaryPartDoneData,
    ReasoningSummaryTextDeltaData,
    ReasoningSummaryTextDoneData,
    ReasoningTextDeltaData,
    ReasoningTextDoneData,
    ReasoningTextPart,
    ResponseCompletedData,
    ResponseCreatedData,
    ResponseInProgressData,
    ResponseMetadata,
    ResponseStatus,
    StreamEvent,
    SummaryContent,
    SummaryPart,
    SummaryTextPart,
    UrlCitation,
    UsageInfo,
    view_seq_annotation,
    view_seq_content_part,
    view_seq_summary_part,
};
use crate::raw::{
    RawAnnotation,
    RawAnnotationAddedData,
    RawContentPart,
    RawContentPartAddedData,
    RawContentPartDoneData,
    RawFunctionCallArgumentsDeltaData,
    RawFunctionCallArgumentsDoneData,
    RawFunctionCallItem,
    RawMessageItem,
    RawOutputItem,
    RawOutputItemAddedData,
    RawOutputItemDoneData,
    RawOutputTextDeltaData,
    RawOutputTextDoneData,
    RawOutputTextPart,
    RawReasoningItem,
    RawReasoningSummaryPartAddedData,
    RawReasoningSummaryPartDoneData,
    RawReasoningSummaryTextDeltaData,
    RawReasoningSummaryTextDoneData,
    RawReasoningTextDeltaData,
    RawReasoningTextDoneData,
    RawReasoningTextPart,
    RawResponseCompletedData,
    RawResponseCreatedData,
    RawResponseInProgressData,
    RawResponseMetadata,
    RawStreamEvent,
    RawSummaryContent,
    RawSummaryPart,
    RawSummaryTextPart,
    RawUrlCitation,
    RawUsageInfo,
    resolve_seq_annotation,
    resolve_seq_content_part,
    resolve_seq_summary_part,
};
use crate::text::{own_text, Text, TextFault};

verus! {

impl RawResponseCreatedData {
    /// Rewrites every string leaf to an owned handle; value-preserving.
    pub fn convert_to_owned(self, buf: &Text) -> (r: Result<ResponseCreatedData, TextFault>)
        requires
            self.wf(buf@),
        ensures
            r matches Ok(o) ==> o@ == self.resolve(buf@),
            r is Ok <==> self.texts_ok(buf@),
    {
        let ghost s0 = self;
        let RawResponseCreatedData { response, sequence_number } = self;
        let response = match response.convert_to_owned(buf) {
            Ok(o) => o,
            Err(e) => {
                return Err(e);
            },
        };
        Ok(ResponseCreatedData { response, sequence_number })
    }
}

impl RawResponseInProgressData {
    /// Rewrites every string leaf to an owned handle; value-preserving.
    pub fn convert_to_owned(self, buf: &Text) -> (r: Result<ResponseInProgressData, TextFault>)
        requires
            self.wf(buf@),
        ensures
            r matches Ok(o) ==> o@ == self.resolve(buf@),
            r is Ok <==> self.texts_ok(buf@),
    {
        let ghost s0 = self;
        let RawResponseInProgressData { sequence_number } = self;
        Ok(ResponseInProgressData { sequence_number })
    }
}

impl RawResponseCompletedData {
    /// Rewrites every string leaf to an owned handle; value-preserving.
    pub fn convert_to_owned(self, buf: &Text) -> (r: Result<ResponseCompletedData, TextFault>)
        requires
            self.wf(buf@),
        ensures
            r matches Ok(o) ==> o@ == self.resolve(buf@),
            r is Ok <==> self.texts_ok(buf@),
    {
        let ghost s0 = self;
        let RawResponseCompletedData { response, sequence_number } = self;
        let response = match response.convert_to_owned(buf) {
            Ok(o) => o,
            Err(e) => {
                return Err(e);
            },
        };
        Ok(ResponseCompletedData { response, sequence_number })
    }
}

impl RawResponseMetadata {
    /// Rewrites every string leaf to an owned handle; value-preserving.
    pub fn convert_to_owned(self, buf: &Text) -> (r: Result<ResponseMetadata, TextFault>)
        requires
            self.wf(buf@),
        ensures
            r matches Ok(o) ==> o@ == self.resolve(buf@),
            r is Ok <==> self.texts_ok(buf@),
    {
        let ghost s0 = self;
        let RawResponseMetadata { id, status, usage } = self;
        let id = match own_text(id, buf) {
            Ok(x) => x,
            Err(e) => {
                return Err(e);
            },
        };
        let usage = match usage {
            Some(x) => match x.convert_to_owned(buf) {
                Ok(o) => Some(o),
                Err(e) => {
                    return Err(e);
                },
            },
            None => None,
        };
        Ok(ResponseMetadata { id, status, usage })
    }
}

impl RawUsageInfo {
    /// Rewrites every string leaf to an owned handle; value-preserving.
    pub fn convert_to_owned(self, buf: &Text) -> (r: Result<UsageInfo, TextFault>)
        requires
            self.wf(buf@),
        ensures
            r matches Ok(o) ==> o@ == self.resolve(buf@),
            r is Ok <==> self.texts_ok(buf@),
    {
        let ghost s0 = self;
        let RawUsageInfo { input_tokens, output_tokens, total_tokens, cost } = self;
        let cost = match cost {
            Some(t) => match own_text(t, buf) {
                Ok(x) => Some(x),
                Err(e) => {
                    return Err(e);
                },
            },
            None => None,
        };
        Ok(UsageInfo { input_tokens, output_tokens, total_tokens, cost })
    }
}

impl RawOutputItemAddedData {
    /// Rewrites every string leaf to an owned handle; value-preserving.
    pub fn convert_to_owned(self, buf: &Text) -> (r: Result<OutputItemAddedData, TextFault>)
        requires
            self.wf(buf@),
        ensures
            r matches Ok(o) ==> o@ == self.resolve(buf@),
            r is Ok <==> self.texts_ok(buf@),
    {
        let ghost s0 = self;
        let RawOutputItemAddedData { output_index, item, sequence_number } = self;
        let item = match item.convert_to_owned(buf) {
            Ok(o) => o,
            Err(e) => {
                return Err(e);
            },
        };
        Ok(OutputItemAddedData { output_index, item, sequence_number })
    }
}

impl RawOutputItemDoneData {
    /// Rewrites every string leaf to an owned handle; value-preserving.
    pub fn convert_to_owned(self, buf: &Text) -> (r: Result<OutputItemDoneData, TextFault>)
        requires
            self.wf(buf@),
        ensures
            r matches Ok(o) ==> o@ == self.resolve(buf@),
            r is Ok <==> self.texts_ok(buf@),
    {
        let ghost s0 = self;
        let RawOutputItemDoneData { output_index, item, sequence_number } = self;
        let item = match item.convert_to_owned(buf) {
            Ok(o) => o,
            Err(e) => {
                return Err(e);
            },
        };
        Ok(OutputItemDoneData { output_index, item, sequence_number })
    }
}

impl RawMessageItem {
    /// Rewrites every string leaf to an owned handle; value-preserving.
    pub fn convert_to_owned(self, buf: &Text) -> (r: Result<MessageItem, TextFault>)
        requires
            self.wf(buf@),
        ensures
            r matches Ok(o) ==> o@ == self.resolve(buf@),
            r is Ok <==> self.texts_ok(buf@),
    {
        let ghost s0 = self;
        let RawMessageItem { id, status, content } = self;
        let id = match own_text(id, buf) {
            Ok(x) => x,
            Err(e) => {
                return Err(e);
            },
        };
        let ghost orig_content = content@;
        proof {
            assert(orig_content == s0.content@);
        }
        let mut rest = content;
        let mut content: Vec<ContentPart> = Vec::new();
        proof {
            assert(rest@ =~= orig_content.subrange(0, orig_content.len() as int));
            assert(view_seq_content_part(content@) =~= resolve_seq_content_part(orig_content.subrange(0, 0), buf@));
        }
        while rest.len() > 0
            invariant
                s0 == self,
                orig_content == s0.content@,
                content@.len() + rest@.len() == orig_content.len(),
                rest@ =~= orig_content.subrange(content@.len() as int, orig_content.len() as int),
                forall|k: int| 0 <= k < orig_content.len() ==> (#[trigger] orig_content[k]).wf(buf@),
                forall|k: int|
                    0 <= k < content@.len() ==> (#[trigger] orig_content[k]).texts_ok(buf@),
                view_seq_content_part(content@) == resolve_seq_content_part(orig_content.subrange(0, content@.len() as int), buf@),
            decreases rest@.len(),
        {
            let ghost done = content@.len() as int;
            let x = rest.remove(0);
            proof {
                assert(x == orig_content[done]);
            }
            match x.convert_to_owned(buf) {
                Ok(o) => {
                    let ghost acc0 = content@;
                    let ghost og = o;
                    content.push(o);
                    proof {
                        assert(rest@ =~= orig_content.subrange(content@.len() as int, orig_content.len() as int));
                        let n = content@.len() as int;
                        assert forall|k: int| 0 <= k < n implies view_seq_content_part(content@)[k] == resolve_seq_content_part(
                            orig_content.subrange(0, n),
                            buf@,
                        )[k] by {
                            assert(content@[k] == if k < done { acc0[k] } else { og });
                            if k < done {
                                assert(view_seq_content_part(acc0)[k] == resolve_seq_content_part(orig_content.subrange(0, done), buf@)[k]);
                            }
                        }
                        assert(view_seq_content_part(content@) =~= resolve_seq_content_part(orig_content.subrange(0, content@.len() as int), buf@));
                    }
                },
                Err(e) => {
                    proof {
                        assert(s0.content@[done] == x);
                        assert(!s0.texts_ok(buf@));
                    }
                    return Err(e);
                },
            }
        }
        proof {
            assert(orig_content.subrange(0, orig_content.len() as int) =~= orig_content);
        }
        Ok(MessageItem { id, status, content })
    }
}

impl RawReasoningItem {
    /// Rewrites every string leaf to an owned handle; value-preserving.
    pub fn convert_to_owned(self, buf: &Text) -> (r: Result<ReasoningItem, TextFault>)
        requires
            self.wf(buf@),
        ensures
            r matches Ok(o) ==> o@ == self.resolve(buf@),
            r is Ok <==> self.texts_ok(buf@),
    {
        let ghost s0 = self;
        let RawReasoningItem { id, summary, encrypted_content } = self;
        let id = match own_text(id, buf) {
            Ok(x) => x,
            Err(e) => {
                return Err(e);
            },
        };
        let ghost orig_summary = summary@;
        proof {
            assert(orig_summary == s0.summary@);
        }
        let mut rest = summary;
        let mut summary: Vec<SummaryPart> = Vec::new();
        proof {
            assert(rest@ =~= orig_summary.subrange(0, orig_summary.len() as int));
            assert(view_seq_summary_part(summary@) =~= resolve_seq_summary_part(orig_summary.subrange(0, 0), buf@));
        }
        while rest.len() > 0
            invariant
                s0 == self,
                orig_summary == s0.summary@,
                summary@.len() + rest@.len() == orig_summary.len(),
                rest@ =~= orig_summary.subrange(summary@.len() as int, orig_summary.len() as int),
                forall|k: int| 0 <= k < orig_summary.len() ==> (#[trigger] orig_summary[k]).wf(buf@),
                forall|k: int|
                    0 <= k < summary@.len() ==> (#[trigger] orig_summary[k]).texts_ok(buf@),
                view_seq_summary_part(summary@) == resolve_seq_summary_part(orig_summary.subrange(0, summary@.len() as int), buf@),
            decreases rest@.len(),
        {
            let ghost done = summary@.len() as int;
            let x = rest.remove(0);
            proof {
                assert(x == orig_summary[done]);
            }
            match x.convert_to_owned(buf) {
                Ok(o) => {
                    let ghost acc0 = summary@;
                    let ghost og = o;
                    summary.push(o);
                    proof {
                        assert(rest@ =~= orig_summary.subrange(summary@.len() as int, orig_summary.len() as int));
                        let n = summary@.len() as int;
                        assert forall|k: int| 0 <= k < n implies view_seq_summary_part(summary@)[k] == resolve_seq_summary_part(
                            orig_summary.subrange(0, n),
                            buf@,
                        )[k] by {
                            assert(summary@[k] == if k < done { acc0[k] } else { og });
                            if k < done {
                                assert(view_seq_summary_part(acc0)[k] == resolve_seq_summary_part(orig_summary.subrange(0, done), buf@)[k]);
                            }
                        }
                        assert(view_seq_summary_part(summary@) =~= resolve_seq_summary_part(orig_summary.subrange(0, summary@.len() as int), buf@));
                    }
                },
                Err(e) => {
                    proof {
                        assert(s0.summary@[done] == x);
                        assert(!s0.texts_ok(buf@));
                    }
                    return Err(e);
                },
            }
        }
        proof {
            assert(orig_summary.subrange(0, orig_summary.len() as int) =~= orig_summary);
        }
        let encrypted_content = match encrypted_content {
            Some(t) => match own_text(t, buf) {
                Ok(x) => Some(x),
                Err(e) => {
                    return Err(e);
                },
            },
            None => None,
        };
        Ok(ReasoningItem { id, summary, encrypted_content })
    }
}

impl RawFunctionCallItem {
    /// Rewrites every string leaf to an owned handle; value-preserving.
    pub fn convert_to_owned(self, buf: &Text) -> (r: Result<FunctionCallItem, TextFault>)
        requires
            self.wf(buf@),
        ensures
            r matches Ok(o) ==> o@ == self.resolve(buf@),
            r is Ok <==> self.texts_ok(buf@),
    {
        let ghost s0 = self;
        let RawFunctionCallItem { call_id, name, arguments, status } = self;
        let call_id = match own_text(call_id, buf) {
            Ok(x) => x,
            Err(e) => {
                return Err(e);
            },
        };
        let name = match own_text(name, buf) {
            Ok(x) => x,
            Err(e) => {
                return Err(e);
            },
        };
        let arguments = match own_text(arguments, buf) {
            Ok(x) => x,
            Err(e) => {
                return Err(e);
            },
        };
        Ok(FunctionCallItem { call_id, name, arguments, status })
    }
}

impl RawContentPartAddedData {
    /// Rewrites every string leaf to an owned handle; value-preserving.
    pub fn convert_to_owned(self, buf: &Text) -> (r: Result<ContentPartAddedData, TextFault>)
        requires
            self.wf(buf@),
        ensures
            r matches Ok(o) ==> o@ == self.resolve(buf@),
            r is Ok <==> self.texts_ok(buf@),
    {
        let ghost s0 = self;
        let RawContentPartAddedData { item_id, output_index, content_index, part, sequence_number } = self;
        let item_id = match own_text(item_id, buf) {
            Ok(x) => x,
            Err(e) => {
                return Err(e);
            },
        };
        let part = match part.convert_to_owned(buf) {
            Ok(o) => o,
            Err(e) => {
                return Err(e);
            },
        };
        Ok(ContentPartAddedData { item_id, output_index, content_index, part, sequence_number })
    }
}

impl RawContentPartDoneData {
    /// Rewrites every string leaf to an owned handle; value-preserving.
    pub fn convert_to_owned(self, buf: &Text) -> (r: Result<ContentPartDoneData, TextFault>)
        requires
            self.wf(buf@),
        ensures
            r matches Ok(o) ==> o@ == self.resolve(buf@),
            r is Ok <==> self.texts_ok(buf@),
    {
        let ghost s0 = self;
        let RawContentPartDoneData { item_id, output_index, content_index, part, sequence_number } = self;
        let item_id = match own_text(item_id, buf) {
            Ok(x) => x,
            Err(e) => {
                return Err(e);
            },
        };
        let part = match part.convert_to_owned(buf) {
            Ok(o) => o,
            Err(e) => {
                return Err(e);
            },
        };
        Ok(ContentPartDoneData { item_id, output_index, content_index, part, sequence_number })
    }
}

impl RawOutputTextPart {
    /// Rewrites every string leaf to an owned handle; value-preserving.
    pub fn convert_to_owned(self, buf: &Text) -> (r: Result<OutputTextPart, TextFault>)
        requires
            self.wf(buf@),
        ensures
            r matches Ok(o) ==> o@ == self.resolve(buf@),
            r is Ok <==> self.texts_ok(buf@),
    {
        let ghost s0 = self;
        let RawOutputTextPart { text, annotations } = self;
        let text = match own_text(text, buf) {
            Ok(x) => x,
            Err(e) => {
                return Err(e);
            },
        };
        let ghost orig_annotations = annotations@;
        proof {
            assert(orig_annotations == s0.annotations@);
        }
        let mut rest = annotations;
        let mut annotations: Vec<Annotation> = Vec::new();
        proof {
            assert(rest@ =~= orig_annotations.subrange(0, orig_annotations.len() as int));
            assert(view_seq_annotation(annotations@) =~= resolve_seq_annotation(orig_annotations.subrange(0, 0), buf@));
        }
        while rest.len() > 0
            invariant
                s0 == self,
                orig_annotations == s0.annotations@,
                annotations@.len() + rest@.len() == orig_annotations.len(),
                rest@ =~= orig_annotations.subrange(annotations@.len() as int, orig_annotations.len() as int),
                forall|k: int| 0 <= k < orig_annotations.len() ==> (#[trigger] orig_annotations[k]).wf(buf@),
                forall|k: int|
                    0 <= k < annotations@.len() ==> (#[trigger] orig_annotations[k]).texts_ok(buf@),
                view_seq_annotation(annotations@) == resolve_seq_annotation(orig_annotations.subrange(0, annotations@.len() as int), buf@),
            decreases rest@.len(),
        {
            let ghost done = annotations@.len() as int;
            let x = rest.remove(0);
            proof {
                assert(x == orig_annotations[done]);
            }
            match x.convert_to_owned(buf) {
                Ok(o) => {
                    let ghost acc0 = annotations@;
                    let ghost og = o;
                    annotations.push(o);
                    proof {
                        assert(rest@ =~= orig_annotations.subrange(annotations@.len() as int, orig_annotations.len() as int));
                        let n = annotations@.len() as int;
                        assert forall|k: int| 0 <= k < n implies view_seq_annotation(annotations@)[k] == resolve_seq_annotation(
                            orig_annotations.subrange(0, n),
                            buf@,
                        )[k] by {
                            assert(annotations@[k] == if k < done { acc0[k] } else { og });
                            if k < done {
                                assert(view_seq_annotation(acc0)[k] == resolve_seq_annotation(orig_annotations.subrange(0, done), buf@)[k]);
                            }
                        }
                        assert(view_seq_annotation(annotations@) =~= resolve_seq_annotation(orig_annotations.subrange(0, annotations@.len() as int), buf@));
                    }
                },
                Err(e) => {
                    proof {
                        assert(s0.annotations@[done] == x);
                        assert(!s0.texts_ok(buf@));
                    }
                    return Err(e);
                },
            }
        }
        proof {
            assert(orig_annotations.subrange(0, orig_annotations.len() as int) =~= orig_annotations);
        }
        Ok(OutputTextPart { text, annotations })
    }
}

impl RawReasoningTextPart {
    /// Rewrites every string leaf to an owned handle; value-preserving.
    pub fn convert_to_owned(self, buf: &Text) -> (r: Result<ReasoningTextPart, TextFault>)
        requires
            self.wf(buf@),
        ensures
            r matches Ok(o) ==> o@ == self.resolve(buf@),
            r is Ok <==> self.texts_ok(buf@),
    {
        let ghost s0 = self;
        let RawReasoningTextPart { text } = self;
        let text = match own_text(text, buf) {
            Ok(x) => x,
            Err(e) => {
                return Err(e);
            },
        };
        Ok(ReasoningTextPart { text })
    }
}

impl RawSummaryPart {
    /// Rewrites every string leaf to an owned handle; value-preserving.
    pub fn convert_to_owned(self, buf: &Text) -> (r: Result<SummaryPart, TextFault>)
        requires
            self.wf(buf@),
        ensures
            r matches Ok(o) ==> o@ == self.resolve(buf@),
            r is Ok <==> self.texts_ok(buf@),
    {
        let ghost s0 = self;
        let RawSummaryPart { content } = self;
        let content = match content.convert_to_owned(buf) {
            Ok(o) => o,
            Err(e) => {
                return Err(e);
            },
        };
        Ok(SummaryPart { content })
    }
}

impl RawSummaryTextPart {
    /// Rewrites every string leaf to an owned handle; value-preserving.
    pub fn convert_to_owned(self, buf: &Text) -> (r: Result<SummaryTextPart, TextFault>)
        requires
            self.wf(buf@),
        ensures
            r matches Ok(o) ==> o@ == self.resolve(buf@),
            r is Ok <==> self.texts_ok(buf@),
    {
        let ghost s0 = self;
        let RawSummaryTextPart { text } = self;
        let text = match own_text(text, buf) {
            Ok(x) => x,
            Err(e) => {
                return Err(e);
            },
        };
        Ok(SummaryTextPart { text })
    }
}

impl RawOutputTextDeltaData {
    /// Rewrites every string leaf to an owned handle; value-preserving.
    pub fn convert_to_owned(self, buf: &Text) -> (r: Result<OutputTextDeltaData, TextFault>)
        requires
            self.wf(buf@),
        ensures
            r matches Ok(o) ==> o@ == self.resolve(buf@),
            r is Ok <==> self.texts_ok(buf@),
    {
        let ghost s0 = self;
        let RawOutputTextDeltaData { output_index, item_id, content_index, delta, sequence_number } = self;
        let item_id = match own_text(item_id, buf) {
            Ok(x) => x,
            Err(e) => {
                return Err(e);
            },
        };
        let delta = match own_text(delta, buf) {
            Ok(x) => x,
            Err(e) => {
                return Err(e);
            },
        };
        Ok(OutputTextDeltaData { output_index, item_id, content_index, delta, sequence_number })
    }
}

impl RawOutputTextDoneData {
    /// Rewrites every string leaf to an owned handle; value-preserving.
    pub fn convert_to_owned(self, buf: &Text) -> (r: Result<OutputTextDoneData, TextFault>)
        requires
            self.wf(buf@),
        ensures
            r matches Ok(o) ==> o@ == self.resolve(buf@),
            r is Ok <==> self.texts_ok(buf@),
    {
        let ghost s0 = self;
        let RawOutputTextDoneData { item_id, output_index, content_index, text, sequence_number } = self;
        let item_id = match own_text(item_id, buf) {
            Ok(x) => x,
            Err(e) => {
                return Err(e);
            },
        };
        let text = match own_text(text, buf) {
            Ok(x) => x,
            Err(e) => {
                return Err(e);
            },
        };
        Ok(OutputTextDoneData { item_id, output_index, content_index, text, sequence_number })
    }
}

impl RawReasoningTextDeltaData {
    /// Rewrites every string leaf to an owned handle; value-preserving.
    pub fn convert_to_owned(self, buf: &Text) -> (r: Result<ReasoningTextDeltaData, TextFault>)
        requires
            self.wf(buf@),
        ensures
            r matches Ok(o) ==> o@ == self.resolve(buf@),
            r is Ok <==> self.texts_ok(buf@),
    {
        let ghost s0 = self;
        let RawReasoningTextDeltaData { output_index, item_id, content_index, delta, sequence_number } = self;
        let item_id = match own_text(item_id, buf) {
            Ok(x) => x,
            Err(e) => {
                return Err(e);
            },
        };
        let delta = match own_text(delta, buf) {
            Ok(x) => x,
            Err(e) => {
                return Err(e);
            },
        };
        Ok(ReasoningTextDeltaData { output_index, item_id, content_index, delta, sequence_number })
    }
}

impl RawReasoningTextDoneData {
    /// Rewrites every string leaf to an owned handle; value-preserving.
    pub fn convert_to_owned(self, buf: &Text) -> (r: Result<ReasoningTextDoneData, TextFault>)
        requires
            self.wf(buf@),
        ensures
            r matches Ok(o) ==> o@ == self.resolve(buf@),
            r is Ok <==> self.texts_ok(buf@),
    {
        let ghost s0 = self;
        let RawReasoningTextDoneData { output_index, item_id, content_index, text, sequence_number } = self;
        let item_id = match own_text(item_id, buf) {
            Ok(x) => x,
            Err(e) => {
                return Err(e);
            },
        };
        let text = match own_text(text, buf) {
            Ok(x) => x,
            Err(e) => {
                return Err(e);
            },
        };
        Ok(ReasoningTextDoneData { output_index, item_id, content_index, text, sequence_number })
    }
}

impl RawReasoningSummaryPartAddedData {
    /// Rewrites every string leaf to an owned handle; value-preserving.
    pub fn convert_to_owned(self, buf: &Text) -> (r: Result<ReasoningSummaryPartAddedData, TextFault>)
        requires
            self.wf(buf@),
        ensures
            r matches Ok(o) ==> o@ == self.resolve(buf@),
            r is Ok <==> self.texts_ok(buf@),
    {
        let ghost s0 = self;
        let RawReasoningSummaryPartAddedData { output_index, item_id, summary_index, part, sequence_number } = self;
        let item_id = match own_text(item_id, buf) {
            Ok(x) => x,
            Err(e) => {
                return Err(e);
            },
        };
        let part = match part.convert_to_owned(buf) {
            Ok(o) => o,
            Err(e) => {
                return Err(e);
            },
        };
        Ok(ReasoningSummaryPartAddedData { output_index, item_id, summary_index, part, sequence_number })
    }
}

impl RawReasoningSummaryTextDeltaData {
    /// Rewrites every string leaf to an owned handle; value-preserving.
    pub fn convert_to_owned(self, buf: &Text) -> (r: Result<ReasoningSummaryTextDeltaData, TextFault>)
        requires
            self.wf(buf@),
        ensures
            r matches Ok(o) ==> o@ == self.resolve(buf@),
            r is Ok <==> self.texts_ok(buf@),
    {
        let ghost s0 = self;
        let RawReasoningSummaryTextDeltaData { item_id, output_index, summary_index, delta, sequence_number } = self;
        let item_id = match own_text(item_id, buf) {
            Ok(x) => x,
            Err(e) => {
                return Err(e);
            },
        };
        let delta = match own_text(delta, buf) {
            Ok(x) => x,
            Err(e) => {
                return Err(e);
            },
        };
        Ok(ReasoningSummaryTextDeltaData { item_id, output_index, summary_index, delta, sequence_number })
    }
}

impl RawReasoningSummaryTextDoneData {
    /// Rewrites every string leaf to an owned handle; value-preserving.
    pub fn convert_to_owned(self, buf: &Text) -> (r: Result<ReasoningSummaryTextDoneData, TextFault>)
        requires
            self.wf(buf@),
        ensures
            r matches Ok(o) ==> o@ == self.resolve(buf@),
            r is Ok <==> self.texts_ok(buf@),
    {
        let ghost s0 = self;
        let RawReasoningSummaryTextDoneData { output_index, item_id, summary_index, text, sequence_number } = self;
        let item_id = match own_text(item_id, buf) {
            Ok(x) => x,
            Err(e) => {
                return Err(e);
            },
        };
        let text = match own_text(text, buf) {
            Ok(x) => x,
            Err(e) => {
                return Err(e);
            },
        };
        Ok(ReasoningSummaryTextDoneData { output_index, item_id, summary_index, text, sequence_number })
    }
}

impl RawReasoningSummaryPartDoneData {
    /// Rewrites every string leaf to an owned handle; value-preserving.
    pub fn convert_to_owned(self, buf: &Text) -> (r: Result<ReasoningSummaryPartDoneData, TextFault>)
        requires
            self.wf(buf@),
        ensures
            r matches Ok(o) ==> o@ == self.resolve(buf@),
            r is Ok <==> self.texts_ok(buf@),
    {
        let ghost s0 = self;
        let RawReasoningSummaryPartDoneData { output_index, item_id, summary_index, part, sequence_number } = self;
        let item_id = match own_text(item_id, buf) {
            Ok(x) => x,
            Err(e) => {
                return Err(e);
            },
        };
        let part = match part.convert_to_owned(buf) {
            Ok(o) => o,
            Err(e) => {
                return Err(e);
            },
        };
        Ok(ReasoningSummaryPartDoneData { output_index, item_id, summary_index, part, sequence_number })
    }
}

impl RawFunctionCallArgumentsDeltaData {
    /// Rewrites every string leaf to an owned handle; value-preserving.
    pub fn convert_to_owned(self, buf: &Text) -> (r: Result<FunctionCallArgumentsDeltaData, TextFault>)
        requires
            self.wf(buf@),
        ensures
            r matches Ok(o) ==> o@ == self.resolve(buf@),
            r is Ok <==> self.texts_ok(buf@),
    {
        let ghost s0 = self;
        let RawFunctionCallArgumentsDeltaData { item_id, output_index, delta, sequence_number } = self;
        let item_id = match own_text(item_id, buf) {
            Ok(x) => x,
            Err(e) => {
                return Err(e);
            },
        };
        let delta = match own_text(delta, buf) {
            Ok(x) => x,
            Err(e) => {
                return Err(e);
            },
        };
        Ok(FunctionCallArgumentsDeltaData { item_id, output_index, delta, sequence_number })
    }
}

impl RawFunctionCallArgumentsDoneData {
    /// Rewrites every string leaf to an owned handle; value-preserving.
    pub fn convert_to_owned(self, buf: &Text) -> (r: Result<FunctionCallArgumentsDoneData, TextFault>)
        requires
            self.wf(buf@),
        ensures
            r matches Ok(o) ==> o@ == self.resolve(buf@),
            r is Ok <==> self.texts_ok(buf@),
    {
        let ghost s0 = self;
        let RawFunctionCallArgumentsDoneData { item_id, output_index, name, arguments, sequence_number } = self;
        let item_id = match own_text(item_id, buf) {
            Ok(x) => x,
            Err(e) => {
                return Err(e);
            },
        };
        let name = match own_text(name, buf) {
            Ok(x) => x,
            Err(e) => {
                return Err(e);
            },
        };
        let arguments = match own_text(arguments, buf) {
            Ok(x) => x,
            Err(e) => {
                return Err(e);
            },
        };
        Ok(FunctionCallArgumentsDoneData { item_id, output_index, name, arguments, sequence_number })
    }
}

impl RawAnnotationAddedData {
    /// Rewrites every string leaf to an owned handle; value-preserving.
    pub fn convert_to_owned(self, buf: &Text) -> (r: Result<AnnotationAddedData, TextFault>)
        requires
            self.wf(buf@),
        ensures
            r matches Ok(o) ==> o@ == self.resolve(buf@),
            r is Ok <==> self.texts_ok(buf@),
    {
        let ghost s0 = self;
        let RawAnnotationAddedData { output_index, item_id, content_index, sequence_number, annotation_index, annotation } = self;
        let item_id = match own_text(item_id, buf) {
            Ok(x) => x,
            Err(e) => {
                return Err(e);
            },
        };
        let annotation = match annotation.convert_to_owned(buf) {
            Ok(o) => o,
            Err(e) => {
                return Err(e);
            },
        };
        Ok(AnnotationAddedData { output_index, item_id, content_index, sequence_number, annotation_index, annotation })
    }
}

impl RawUrlCitation {
    /// Rewrites every string leaf to an owned handle; value-preserving.
    pub fn convert_to_owned(self, buf: &Text) -> (r: Result<UrlCitation, TextFault>)
        requires
            self.wf(buf@),
        ensures
            r matches Ok(o) ==> o@ == self.resolve(buf@),
            r is Ok <==> self.texts_ok(buf@),
    {
        let ghost s0 = self;
        let RawUrlCitation { url, title, start_index, end_index } = self;
        let url = match own_text(url, buf) {
            Ok(x) => x,
            Err(e) => {
                return Err(e);
            },
        };
        let title = match own_text(title, buf) {
            Ok(x) => x,
            Err(e) => {
                return Err(e);
            },
        };
        Ok(UrlCitation { url, title, start_index, end_index })
    }
}

impl RawOutputItem {
    /// Rewrites every string leaf to an owned handle; value-preserving.
    pub fn convert_to_owned(self, buf: &Text) -> (r: Result<OutputItem, TextFault>)
        requires
            self.wf(buf@),
        ensures
            r matches Ok(o) ==> o@ == self.resolve(buf@),
            r is Ok <==> self.texts_ok(buf@),
    {
        match self {
            RawOutputItem::Message(x) => match x.convert_to_owned(buf) {
                Ok(o) => Ok(OutputItem::Message(o)),
                Err(e) => Err(e),
            },
            RawOutputItem::Reasoning(x) => match x.convert_to_owned(buf) {
                Ok(o) => Ok(OutputItem::Reasoning(o)),
                Err(e) => Err(e),
            },
            RawOutputItem::FunctionCall(x) => match x.convert_to_owned(buf) {
                Ok(o) => Ok(OutputItem::FunctionCall(o)),
                Err(e) => Err(e),
            },
        }
    }
}

impl RawContentPart {
    /// Rewrites every string leaf to an owned handle; value-preserving.
    pub fn convert_to_owned(self, buf: &Text) -> (r: Result<ContentPart, TextFault>)
        requires
            self.wf(buf@),
        ensures
            r matches Ok(o) ==> o@ == self.resolve(buf@),
            r is Ok <==> self.texts_ok(buf@),
    {
        match self {
            RawContentPart::OutputText(x) => match x.convert_to_owned(buf) {
                Ok(o) => Ok(ContentPart::OutputText(o)),
                Err(e) => Err(e),
            },
            RawContentPart::ReasoningText(x) => match x.convert_to_owned(buf) {
                Ok(o) => Ok(ContentPart::ReasoningText(o)),
                Err(e) => Err(e),
            },
            RawContentPart::SummaryText(x) => match x.convert_to_owned(buf) {
                Ok(o) => Ok(ContentPart::SummaryText(o)),
                Err(e) => Err(e),
            },
        }
    }
}

impl RawSummaryContent {
    /// Rewrites every string leaf to an owned handle; value-preserving.
    pub fn convert_to_owned(self, buf: &Text) -> (r: Result<SummaryContent, TextFault>)
        requires
            self.wf(buf@),
        ensures
            r matches Ok(o) ==> o@ == self.resolve(buf@),
            r is Ok <==> self.texts_ok(buf@),
    {
        match self {
            RawSummaryContent::SummaryText(x) => match x.convert_to_owned(buf) {
                Ok(o) => Ok(SummaryContent::SummaryText(o)),
                Err(e) => Err(e),
            },
        }
    }
}

impl RawAnnotation {
    /// Rewrites every string leaf to an owned handle; value-preserving.
    pub fn convert_to_owned(self, buf: &Text) -> (r: Result<Annotation, TextFault>)
        requires
            self.wf(buf@),
        ensures
            r matches Ok(o) ==> o@ == self.resolve(buf@),
            r is Ok <==> self.texts_ok(buf@),
    {
        match self {
            RawAnnotation::UrlCitation(x) => match x.convert_to_owned(buf) {
                Ok(o) => Ok(Annotation::UrlCitation(o)),
                Err(e) => Err(e),
            },
        }
    }
}

impl RawStreamEvent {
    /// Rewrites every string leaf to an owned handle; value-preserving.
    pub fn convert_to_owned(self, buf: &Text) -> (r: Result<StreamEvent, TextFault>)
        requires
            self.wf(buf@),
        ensures
            r matches Ok(o) ==> o@ == self.resolve(buf@),
            r is Ok <==> self.texts_ok(buf@),
    {
        match self {
            RawStreamEvent::ResponseCreated(x) => match x.convert_to_owned(buf) {
                Ok(o) => Ok(StreamEvent::ResponseCreated(o)),
                Err(e) => Err(e),
            },
            RawStreamEvent::ResponseInProgress(x) => match x.convert_to_owned(buf) {
                Ok(o) => Ok(StreamEvent::ResponseInProgress(o)),
                Err(e) => Err(e),
            },
            RawStreamEvent::ResponseOutputItemAdded(x) => match x.convert_to_owned(buf) {
                Ok(o) => Ok(StreamEvent::ResponseOutputItemAdded(o)),
                Err(e) => Err(e),
            },
            RawStreamEvent::ResponseContentPartAdded(x) => match x.convert_to_owned(buf) {
                Ok(o) => Ok(StreamEvent::ResponseContentPartAdded(o)),
                Err(e) => Err(e),
            },
            RawStreamEvent::ResponseOutputTextDelta(x) => match x.convert_to_owned(buf) {
                Ok(o) => Ok(StreamEvent::ResponseOutputTextDelta(o)),
                Err(e) => Err(e),
            },
            RawStreamEvent::ResponseOutputTextAnnotationAdded(x) => match x.convert_to_owned(buf) {
                Ok(o) => Ok(StreamEvent::ResponseOutputTextAnnotationAdded(o)),
                Err(e) => Err(e),
            },
            RawStreamEvent::ResponseOutputTextDone(x) => match x.convert_to_owned(buf) {
                Ok(o) => Ok(StreamEvent::ResponseOutputTextDone(o)),
                Err(e) => Err(e),
            },
            RawStreamEvent::ResponseContentPartDone(x) => match x.convert_to_owned(buf) {
                Ok(o) => Ok(StreamEvent::ResponseContentPartDone(o)),
                Err(e) => Err(e),
            },
            RawStreamEvent::ResponseOutputItemDone(x) => match x.convert_to_owned(buf) {
                Ok(o) => Ok(StreamEvent::ResponseOutputItemDone(o)),
                Err(e) => Err(e),
            },
            RawStreamEvent::ResponseFunctionCallArgumentsDelta(x) => match x.convert_to_owned(buf) {
                Ok(o) => Ok(StreamEvent::ResponseFunctionCallArgumentsDelta(o)),
                Err(e) => Err(e),
            },
            RawStreamEvent::ResponseFunctionCallArgumentsDone(x) => match x.convert_to_owned(buf) {
                Ok(o) => Ok(StreamEvent::ResponseFunctionCallArgumentsDone(o)),
                Err(e) => Err(e),
            },
            RawStreamEvent::ResponseReasoningTextDelta(x) => match x.convert_to_owned(buf) {
                Ok(o) => Ok(StreamEvent::ResponseReasoningTextDelta(o)),
                Err(e) => Err(e),
            },
            RawStreamEvent::ResponseReasoningTextDone(x) => match x.convert_to_owned(buf) {
                Ok(o) => Ok(StreamEvent::ResponseReasoningTextDone(o)),
                Err(e) => Err(e),
            },
            RawStreamEvent::ResponseReasoningSummaryPartAdded(x) => match x.convert_to_owned(buf) {
                Ok(o) => Ok(StreamEvent::ResponseReasoningSummaryPartAdded(o)),
                Err(e) => Err(e),
            },
            RawStreamEvent::ResponseReasoningSummaryTextDelta(x) => match x.convert_to_owned(buf) {
                Ok(o) => Ok(StreamEvent::ResponseReasoningSummaryTextDelta(o)),
                Err(e) => Err(e),
            },
            RawStreamEvent::ResponseReasoningSummaryTextDone(x) => match x.convert_to_owned(buf) {
                Ok(o) => Ok(StreamEvent::ResponseReasoningSummaryTextDone(o)),
                Err(e) => Err(e),
            },
            RawStreamEvent::ResponseReasoningSummaryPartDone(x) => match x.convert_to_owned(buf) {
                Ok(o) => Ok(StreamEvent::ResponseReasoningSummaryPartDone(o)),
                Err(e) => Err(e),
            },
            RawStreamEvent::ResponseCompleted(x) => match x.convert_to_owned(buf) {
                Ok(o) => Ok(StreamEvent::ResponseCompleted(o)),
                Err(e) => Err(e),
            },
        }
    }
}

} // verus!
