use vstd::prelude::*;
use async_openai::types::{ChatChoice, ChatChoiceStream, Choice, CompletionUsage};
use crate::error::ProtocolError;

verus! {

#[verifier::external_type_specification]
#[verifier::external_body]
pub struct ExCompletionUsage(CompletionUsage);

#[verifier::external_type_specification]
#[verifier::external_body]
pub struct ExChatChoice(ChatChoice);

#[verifier::external_type_specification]
#[verifier::external_body]
pub struct ExChatChoiceStream(ChatChoiceStream);

#[verifier::external_type_specification]
#[verifier::external_body]
pub struct ExChoice(Choice);

/// One frame of a server-sent-event stream.
///
/// The `data:` field of a frame is always a response delta `R`; comment lines carry
/// side-channel notes (performance metrics and the like), never a payload.
#[derive(Debug)]
pub enum StreamingDelta<R> {
    /// A response delta.
    Delta(R),
    /// An out-of-band annotation.
    Comment(String),
}

/// A response delta together with the event metadata that travels with it.
#[derive(Debug)]
pub struct AnnotatedDelta<R> {
    pub delta: R,
    pub id: Option<String>,
    pub event: Option<String>,
    pub comment: Option<String>,
}

/// A choice record of a completion response, with the `object` discriminator that
/// envelopes holding it carry.
pub trait CompletionChoice: Sized {
    spec fn spec_object_type() -> Seq<char>;

    fn object_type() -> (r: String)
        ensures
            r@ == Self::spec_object_type(),
    ;
}

impl CompletionChoice for ChatChoice {
    open spec fn spec_object_type() -> Seq<char> {
        "chat.completion"@
    }

    fn object_type() -> (r: String) {
        String::from_str("chat.completion")
    }
}

impl CompletionChoice for ChatChoiceStream {
    open spec fn spec_object_type() -> Seq<char> {
        "chat.completion.chunk"@
    }

    fn object_type() -> (r: String) {
        String::from_str("chat.completion.chunk")
    }
}

impl CompletionChoice for Choice {
    open spec fn spec_object_type() -> Seq<char> {
        "text_completion"@
    }

    fn object_type() -> (r: String) {
        String::from_str("text_completion")
    }
}

/// The response envelope shared by streaming and non-streaming completions; only
/// the choice type differs between the two.
#[derive(Debug, Clone)]
pub struct GenericCompletionResponse<C> {
    /// A unique identifier of the completion.
    pub id: String,
    /// The completion choices; more than one only when several were requested.
    pub choices: Vec<C>,
    /// When the completion was created, in Unix seconds.
    pub created: u64,
    /// The model that produced the completion.
    pub model: String,
    /// The object type, fixed by the choice type: `chat.completion` for
    /// `ChatChoice`, `chat.completion.chunk` for `ChatChoiceStream`.
    pub object: String,
    /// Token accounting, on the last frame of a stream or on a whole response.
    pub usage: Option<CompletionUsage>,
    /// The backend configuration the model ran with.
    pub system_fingerprint: Option<String>,
}

impl<C: CompletionChoice> GenericCompletionResponse<C> {
    /// The envelope's `object` is the one its choice type calls for.
    pub open spec fn wf(&self) -> bool {
        self.object@ == C::spec_object_type()
    }

    /// An envelope over `choices`, its `object` set from the choice type.
    pub fn new(
        id: String,
        choices: Vec<C>,
        created: u64,
        model: String,
        usage: Option<CompletionUsage>,
        system_fingerprint: Option<String>,
    ) -> (r: Self)
        ensures
            r.wf(),
            r.id == id,
            r.choices == choices,
            r.created == created,
            r.model == model,
            r.usage == usage,
            r.system_fingerprint == system_fingerprint,
    {
        GenericCompletionResponse {
            id,
            choices,
            created,
            model,
            object: C::object_type(),
            usage,
            system_fingerprint,
        }
    }
}

/// A streaming envelope never carries the non-streaming discriminator: one over
/// stream chunks is always a `chat.completion.chunk`.
pub proof fn lemma_chunk_envelope_object(r: GenericCompletionResponse<ChatChoiceStream>)
    requires
        r.wf(),
    ensures
        r.object@ == "chat.completion.chunk"@,
        r.object@ != "chat.completion"@,
{
    reveal_strlit("chat.completion.chunk");
    reveal_strlit("chat.completion");
    assert(r.object@.len() != "chat.completion"@.len());
}

/// Why the backend stopped producing tokens for a sequence.
#[derive(Clone, Debug, PartialEq, Eq)]
pub enum FinishReason {
    EoS,
    Length,
    Stop,
    Error(String),
    Cancelled,
}

/// One unit of raw inference output from the backend.
#[derive(Clone, Debug)]
pub struct BackendOutput {
    pub token_ids: Vec<u32>,
    pub text: Option<String>,
    pub finish_reason: Option<FinishReason>,
    pub index: Option<u32>,
}

/// Turns backend output into wire-format response deltas, one per unit, for one
/// request/response exchange.
pub trait DeltaGeneratorExt<ResponseType: Send + Sync + 'static + std::fmt::Debug>: Send +
    Sync + 'static {
    /// The response delta for one unit of backend output; fails with
    /// `InconsistentBackendOutput` when the unit contradicts the state built so far.
    fn choice_from_postprocessor(&mut self, response: BackendOutput) -> Result<
        ResponseType,
        ProtocolError,
    >;

    /// The prompt token count (input sequence length), where it is known.
    fn get_isl(&self) -> Option<u32>;
}

} // verus!
