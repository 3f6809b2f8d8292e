use vstd::prelude::*;
use crate::error::{ProtocolError, SamplingField};
use crate::fixed::{fixed_text, Fixed};
use crate::range::validate_range;

verus! {

/// Least allowed `temperature`, in millionths.
pub const MIN_TEMPERATURE: i64 = 0;

/// Greatest allowed `temperature`, in millionths.
pub const MAX_TEMPERATURE: i64 = 2_000_000;

/// Least allowed `top_p`, in millionths.
pub const MIN_TOP_P: i64 = 0;

/// Greatest allowed `top_p`, in millionths.
pub const MAX_TOP_P: i64 = 1_000_000;

/// Least allowed `frequency_penalty`, in millionths.
pub const MIN_FREQUENCY_PENALTY: i64 = -2_000_000;

/// Greatest allowed `frequency_penalty`, in millionths.
pub const MAX_FREQUENCY_PENALTY: i64 = 2_000_000;

/// Least allowed `presence_penalty`, in millionths.
pub const MIN_PRESENCE_PENALTY: i64 = -2_000_000;

/// Greatest allowed `presence_penalty`, in millionths.
pub const MAX_PRESENCE_PENALTY: i64 = 2_000_000;

/// Most explicit stop strings that a request may carry.
pub const MAX_STOP_SEQUENCES: usize = 4;

/// The vendor extension fields that normalization reads.
#[derive(Clone, Copy, Debug, PartialEq, Eq, Structural)]
pub struct NvExt {
    /// Greedy decoding: temperature and top_p are dropped when set.
    pub greedy_sampling: Option<bool>,
    /// Generation continues past the end-of-sequence token when set.
    pub ignore_eos: Option<bool>,
}

/// Canonical sampling configuration handed to the backend.
#[derive(Clone, Copy, Debug, PartialEq, Eq, Structural)]
pub struct SamplingOptions {
    pub n: Option<u8>,
    pub best_of: Option<u8>,
    pub frequency_penalty: Option<Fixed>,
    pub presence_penalty: Option<Fixed>,
    pub repetition_penalty: Option<Fixed>,
    pub temperature: Option<Fixed>,
    pub top_p: Option<Fixed>,
    pub top_k: Option<i32>,
    pub min_p: Option<Fixed>,
    pub seed: Option<i64>,
    pub use_beam_search: Option<bool>,
    pub length_penalty: Option<Fixed>,
}

/// Canonical stop configuration handed to the backend.
#[derive(Clone, Debug, PartialEq, Eq)]
pub struct StopConditions {
    pub max_tokens: Option<u32>,
    pub min_tokens: Option<u32>,
    pub stop: Option<Vec<String>>,
    pub stop_token_ids_hidden: Option<Vec<u32>>,
    pub ignore_eos: Option<bool>,
}

/// The least allowed value of a sampling parameter, in millionths.
pub open spec fn field_min(f: SamplingField) -> int {
    match f {
        SamplingField::Temperature => MIN_TEMPERATURE as int,
        SamplingField::TopP => MIN_TOP_P as int,
        SamplingField::FrequencyPenalty => MIN_FREQUENCY_PENALTY as int,
        SamplingField::PresencePenalty => MIN_PRESENCE_PENALTY as int,
    }
}

/// The greatest allowed value of a sampling parameter, in millionths.
pub open spec fn field_max(f: SamplingField) -> int {
    match f {
        SamplingField::Temperature => MAX_TEMPERATURE as int,
        SamplingField::TopP => MAX_TOP_P as int,
        SamplingField::FrequencyPenalty => MAX_FREQUENCY_PENALTY as int,
        SamplingField::PresencePenalty => MAX_PRESENCE_PENALTY as int,
    }
}

/// Whether an optional value of a sampling parameter is acceptable: absent, or
/// within the parameter's inclusive range.
pub open spec fn field_valid(f: SamplingField, v: Option<Fixed>) -> bool {
    match v {
        None => true,
        Some(x) => field_min(f) <= x.micros && x.micros <= field_max(f),
    }
}

/// Whether all four sampling parameters are acceptable.
pub open spec fn sampling_valid(
    t: Option<Fixed>,
    p: Option<Fixed>,
    fp: Option<Fixed>,
    pp: Option<Fixed>,
) -> bool {
    field_valid(SamplingField::Temperature, t) && field_valid(SamplingField::TopP, p)
        && field_valid(SamplingField::FrequencyPenalty, fp) && field_valid(
        SamplingField::PresencePenalty,
        pp,
    )
}

/// The first parameter, in the order temperature, top_p, frequency_penalty,
/// presence_penalty, that is out of its range.
pub open spec fn first_invalid(
    t: Option<Fixed>,
    p: Option<Fixed>,
    fp: Option<Fixed>,
    pp: Option<Fixed>,
) -> SamplingField {
    if !field_valid(SamplingField::Temperature, t) {
        SamplingField::Temperature
    } else if !field_valid(SamplingField::TopP, p) {
        SamplingField::TopP
    } else if !field_valid(SamplingField::FrequencyPenalty, fp) {
        SamplingField::FrequencyPenalty
    } else {
        SamplingField::PresencePenalty
    }
}

/// The value given for one of the four sampling parameters.
pub open spec fn field_value(
    f: SamplingField,
    t: Option<Fixed>,
    p: Option<Fixed>,
    fp: Option<Fixed>,
    pp: Option<Fixed>,
) -> Option<Fixed> {
    match f {
        SamplingField::Temperature => t,
        SamplingField::TopP => p,
        SamplingField::FrequencyPenalty => fp,
        SamplingField::PresencePenalty => pp,
    }
}

/// Whether the vendor extension asks for greedy decoding.
pub open spec fn is_greedy(nvext: Option<NvExt>) -> bool {
    nvext matches Some(e) && e.greedy_sampling == Some(true)
}

/// The canonical options for valid parameters: greedy decoding drops temperature
/// and top_p, the penalties pass through, and nothing else is set.
pub open spec fn canonical_sampling(
    t: Option<Fixed>,
    p: Option<Fixed>,
    fp: Option<Fixed>,
    pp: Option<Fixed>,
    nvext: Option<NvExt>,
) -> SamplingOptions {
    SamplingOptions {
        n: None,
        best_of: None,
        frequency_penalty: fp,
        presence_penalty: pp,
        repetition_penalty: None,
        temperature: if is_greedy(nvext) {
            None
        } else {
            t
        },
        top_p: if is_greedy(nvext) {
            None
        } else {
            p
        },
        top_k: None,
        min_p: None,
        seed: None,
        use_beam_search: None,
        length_penalty: None,
    }
}

/// Whether `r` reports `v`, the value of parameter `f`, as out of its range.
pub open spec fn reports_out_of_range(
    r: Result<SamplingOptions, ProtocolError>,
    f: SamplingField,
    v: Option<Fixed>,
) -> bool {
    r matches Err(ProtocolError::ValueOutOfRange { field, error }) && field == f && v is Some
        && error.value@ == fixed_text(v->Some_0.micros as int) && error.min@ == fixed_text(
        field_min(f),
    ) && error.max@ == fixed_text(field_max(f))
}

/// Checks one sampling parameter against its range.
fn check_field(f: SamplingField, v: Option<Fixed>) -> (r: Result<Option<Fixed>, ProtocolError>)
    ensures
        r is Ok <==> field_valid(f, v),
        r is Ok ==> r->Ok_0 == v,
        r is Err ==> (r matches Err(ProtocolError::ValueOutOfRange { field, error }) && field == f
            && v is Some && error.value@ == fixed_text(v->Some_0.micros as int) && error.min@
            == fixed_text(field_min(f)) && error.max@ == fixed_text(field_max(f))),
{
    let range: (Fixed, Fixed) = match f {
        SamplingField::Temperature => (
            Fixed::from_micros(MIN_TEMPERATURE),
            Fixed::from_micros(MAX_TEMPERATURE),
        ),
        SamplingField::TopP => (Fixed::from_micros(MIN_TOP_P), Fixed::from_micros(MAX_TOP_P)),
        SamplingField::FrequencyPenalty => (
            Fixed::from_micros(MIN_FREQUENCY_PENALTY),
            Fixed::from_micros(MAX_FREQUENCY_PENALTY),
        ),
        SamplingField::PresencePenalty => (
            Fixed::from_micros(MIN_PRESENCE_PENALTY),
            Fixed::from_micros(MAX_PRESENCE_PENALTY),
        ),
    };
    match validate_range(v, &range) {
        Ok(x) => Ok(x),
        Err(error) => Err(ProtocolError::ValueOutOfRange { field: f, error }),
    }
}

/// Access to the sampling fields of an OpenAI-style request.
pub trait OpenAISamplingOptionsProvider {
    spec fn spec_temperature(&self) -> Option<Fixed>;

    spec fn spec_top_p(&self) -> Option<Fixed>;

    spec fn spec_frequency_penalty(&self) -> Option<Fixed>;

    spec fn spec_presence_penalty(&self) -> Option<Fixed>;

    spec fn spec_sampling_nvext(&self) -> Option<NvExt>;

    fn get_temperature(&self) -> (r: Option<Fixed>)
        ensures
            r == self.spec_temperature(),
    ;

    fn get_top_p(&self) -> (r: Option<Fixed>)
        ensures
            r == self.spec_top_p(),
    ;

    fn get_frequency_penalty(&self) -> (r: Option<Fixed>)
        ensures
            r == self.spec_frequency_penalty(),
    ;

    fn get_presence_penalty(&self) -> (r: Option<Fixed>)
        ensures
            r == self.spec_presence_penalty(),
    ;

    fn nvext(&self) -> (r: Option<NvExt>)
        ensures
            r == self.spec_sampling_nvext(),
    ;

    /// Validates the sampling fields and builds the canonical options.
    ///
    /// The first field out of range, in the order temperature, top_p,
    /// frequency_penalty, presence_penalty, is reported. Greedy decoding in the
    /// vendor extension drops temperature and top_p after they were checked.
    fn extract_sampling_options(&self) -> (r: Result<SamplingOptions, ProtocolError>)
        ensures
            r is Ok <==> sampling_valid(
                self.spec_temperature(),
                self.spec_top_p(),
                self.spec_frequency_penalty(),
                self.spec_presence_penalty(),
            ),
            r is Ok ==> r->Ok_0 == canonical_sampling(
                self.spec_temperature(),
                self.spec_top_p(),
                self.spec_frequency_penalty(),
                self.spec_presence_penalty(),
                self.spec_sampling_nvext(),
            ),
            r is Err ==> ({
                let f = first_invalid(
                    self.spec_temperature(),
                    self.spec_top_p(),
                    self.spec_frequency_penalty(),
                    self.spec_presence_penalty(),
                );
                reports_out_of_range(
                    r,
                    f,
                    field_value(
                        f,
                        self.spec_temperature(),
                        self.spec_top_p(),
                        self.spec_frequency_penalty(),
                        self.spec_presence_penalty(),
                    ),
                )
            }),
    {
        let mut temperature = check_field(SamplingField::Temperature, self.get_temperature())?;
        let mut top_p = check_field(SamplingField::TopP, self.get_top_p())?;
        let frequency_penalty = check_field(
            SamplingField::FrequencyPenalty,
            self.get_frequency_penalty(),
        )?;
        let presence_penalty = check_field(
            SamplingField::PresencePenalty,
            self.get_presence_penalty(),
        )?;
        if let Some(ext) = self.nvext() {
            let greedy = match ext.greedy_sampling {
                Some(g) => g,
                None => false,
            };
            if greedy {
                top_p = None;
                temperature = None;
            }
        }
        Ok(
            SamplingOptions {
                n: None,
                best_of: None,
                frequency_penalty,
                presence_penalty,
                repetition_penalty: None,
                temperature,
                top_p,
                top_k: None,
                min_p: None,
                seed: None,
                use_beam_search: None,
                length_penalty: None,
            },
        )
    }
}

} // verus!

verus! {

/// Access to the stop fields of an OpenAI-style request.
pub trait OpenAIStopConditionsProvider {
    spec fn spec_max_tokens(&self) -> Option<u32>;

    spec fn spec_min_tokens(&self) -> Option<u32>;

    spec fn spec_stop(&self) -> Option<Seq<String>>;

    spec fn spec_stop_nvext(&self) -> Option<NvExt>;

    fn get_max_tokens(&self) -> (r: Option<u32>)
        ensures
            r == self.spec_max_tokens(),
    ;

    fn get_min_tokens(&self) -> (r: Option<u32>)
        ensures
            r == self.spec_min_tokens(),
    ;

    fn get_stop(&self) -> (r: Option<Vec<String>>)
        ensures
            r is None <==> self.spec_stop() is None,
            r is Some ==> self.spec_stop() == Some(r->Some_0@),
    ;

    fn nvext(&self) -> (r: Option<NvExt>)
        ensures
            r == self.spec_stop_nvext(),
    ;

    /// Reads the stop fields into the canonical conditions.
    ///
    /// Token bounds and stop strings are taken as given; more than four stop strings
    /// are refused. `ignore_eos` comes from the vendor extension.
    fn extract_stop_conditions(&self) -> (r: Result<StopConditions, ProtocolError>)
        ensures
            r is Ok <==> match self.spec_stop() {
                None => true,
                Some(s) => s.len() <= MAX_STOP_SEQUENCES,
            },
            r is Err ==> (r matches Err(ProtocolError::TooManyStopSequences { count })
                && self.spec_stop() is Some && count == self.spec_stop()->Some_0.len()),
            r is Ok ==> ({
                let c = r->Ok_0;
                &&& c.max_tokens == self.spec_max_tokens()
                &&& c.min_tokens == self.spec_min_tokens()
                &&& (c.stop is None <==> self.spec_stop() is None)
                &&& (c.stop is Some ==> self.spec_stop() == Some(c.stop->Some_0@))
                &&& c.stop_token_ids_hidden is None
                &&& c.ignore_eos == match self.spec_stop_nvext() {
                    None => None,
                    Some(e) => e.ignore_eos,
                }
            }),
    {
        let max_tokens = self.get_max_tokens();
        let min_tokens = self.get_min_tokens();
        let stop = self.get_stop();
        if let Some(s) = &stop {
            if s.len() > MAX_STOP_SEQUENCES {
                return Err(ProtocolError::TooManyStopSequences { count: s.len() });
            }
        }
        let mut ignore_eos = None;
        if let Some(ext) = self.nvext() {
            ignore_eos = ext.ignore_eos;
        }
        Ok(
            StopConditions {
                max_tokens,
                min_tokens,
                stop,
                stop_token_ids_hidden: None,
                ignore_eos,
            },
        )
    }
}

/// The raw sampling and stop fields of a request, as a client sent them.
#[derive(Clone, Debug)]
pub struct CompletionParams {
    pub temperature: Option<Fixed>,
    pub top_p: Option<Fixed>,
    pub frequency_penalty: Option<Fixed>,
    pub presence_penalty: Option<Fixed>,
    pub max_tokens: Option<u32>,
    pub min_tokens: Option<u32>,
    pub stop: Option<Vec<String>>,
    pub nvext: Option<NvExt>,
}

impl OpenAISamplingOptionsProvider for CompletionParams {
    open spec fn spec_temperature(&self) -> Option<Fixed> {
        self.temperature
    }

    open spec fn spec_top_p(&self) -> Option<Fixed> {
        self.top_p
    }

    open spec fn spec_frequency_penalty(&self) -> Option<Fixed> {
        self.frequency_penalty
    }

    open spec fn spec_presence_penalty(&self) -> Option<Fixed> {
        self.presence_penalty
    }

    open spec fn spec_sampling_nvext(&self) -> Option<NvExt> {
        self.nvext
    }

    fn get_temperature(&self) -> (r: Option<Fixed>) {
        self.temperature
    }

    fn get_top_p(&self) -> (r: Option<Fixed>) {
        self.top_p
    }

    fn get_frequency_penalty(&self) -> (r: Option<Fixed>) {
        self.frequency_penalty
    }

    fn get_presence_penalty(&self) -> (r: Option<Fixed>) {
        self.presence_penalty
    }

    fn nvext(&self) -> (r: Option<NvExt>) {
        self.nvext
    }
}

impl OpenAIStopConditionsProvider for CompletionParams {
    open spec fn spec_max_tokens(&self) -> Option<u32> {
        self.max_tokens
    }

    open spec fn spec_min_tokens(&self) -> Option<u32> {
        self.min_tokens
    }

    open spec fn spec_stop(&self) -> Option<Seq<String>> {
        match self.stop {
            None => None,
            Some(v) => Some(v@),
        }
    }

    open spec fn spec_stop_nvext(&self) -> Option<NvExt> {
        self.nvext
    }

    fn get_max_tokens(&self) -> (r: Option<u32>) {
        self.max_tokens
    }

    fn get_min_tokens(&self) -> (r: Option<u32>) {
        self.min_tokens
    }

    fn get_stop(&self) -> (r: Option<Vec<String>>) {
        match &self.stop {
            None => None,
            Some(v) => {
                let mut out: Vec<String> = Vec::new();
                let mut i: usize = 0;
                while i < v.len()
                    invariant
                        i <= v.len(),
                        out@ == v@.subrange(0, i as int),
                    decreases v.len() - i,
                {
                    out.push(v[i].clone());
                    i += 1;
                    assert(out@ =~= v@.subrange(0, i as int));
                }
                assert(out@ =~= v@);
                Some(out)
            },
        }
    }

    fn nvext(&self) -> (r: Option<NvExt>) {
        self.nvext
    }
}

/// Extraction is idempotent: once valid parameters have been extracted, extracting
/// again from the canonical values, under the same vendor extension, accepts them
/// and gives the same options.
pub proof fn lemma_sampling_extraction_idempotent(
    t: Option<Fixed>,
    p: Option<Fixed>,
    fp: Option<Fixed>,
    pp: Option<Fixed>,
    nvext: Option<NvExt>,
)
    requires
        sampling_valid(t, p, fp, pp),
    ensures
        ({
            let o = canonical_sampling(t, p, fp, pp, nvext);
            &&& sampling_valid(o.temperature, o.top_p, o.frequency_penalty, o.presence_penalty)
            &&& canonical_sampling(
                o.temperature,
                o.top_p,
                o.frequency_penalty,
                o.presence_penalty,
                nvext,
            ) == o
        }),
{
}

} // verus!
