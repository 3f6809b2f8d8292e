use vstd::prelude::*;
use crate::range::{out_of_range_message, RangeError};
use crate::text::{digits_of, push_digits, string_from_chars};

verus! {

/// The sampling parameter that a range check was made on.
#[derive(Clone, Copy, Debug, PartialEq, Eq, Structural)]
pub enum SamplingField {
    Temperature,
    TopP,
    FrequencyPenalty,
    PresencePenalty,
}

/// Which of the two ranges handed to a rescaling has zero width.
#[derive(Clone, Copy, Debug, PartialEq, Eq, Structural)]
pub enum RangeAxis {
    Source,
    Destination,
}

/// What request normalization, rescaling and delta generation can fail with.
#[derive(Debug)]
pub enum ProtocolError {
    /// A sampling parameter lies outside its inclusive range.
    ValueOutOfRange { field: SamplingField, error: RangeError },
    /// A rescaling was asked for from or onto a range of zero width.
    DegenerateRange { axis: RangeAxis },
    /// More explicit stop strings were given than are allowed.
    TooManyStopSequences { count: usize },
    /// Backend output that does not fit the state a delta generator has built up.
    InconsistentBackendOutput { detail: String },
}

} // verus!

verus! {

/// The request field name of a sampling parameter.
pub open spec fn field_name(f: SamplingField) -> Seq<char> {
    match f {
        SamplingField::Temperature => "temperature"@,
        SamplingField::TopP => "top_p"@,
        SamplingField::FrequencyPenalty => "frequency_penalty"@,
        SamplingField::PresencePenalty => "presence_penalty"@,
    }
}

/// The human-readable message of an error.
pub open spec fn error_message(e: ProtocolError) -> Seq<char> {
    match e {
        ProtocolError::ValueOutOfRange { field, error } => "Error validating "@ + field_name(field)
            + ": "@ + out_of_range_message(error.value@, error.min@, error.max@),
        ProtocolError::DegenerateRange { axis } => match axis {
            RangeAxis::Source => "src range is 0"@,
            RangeAxis::Destination => "dst range is 0"@,
        },
        ProtocolError::TooManyStopSequences { count } => "at most 4 stop conditions are allowed, got "@
            + digits_of(count as nat),
        ProtocolError::InconsistentBackendOutput { detail } => "inconsistent backend output: "@
            + detail@,
    }
}

impl SamplingField {
    /// The request field name: `temperature`, `top_p`, `frequency_penalty` or
    /// `presence_penalty`.
    pub fn name(&self) -> (r: &'static str)
        ensures
            r@ == field_name(*self),
    {
        match self {
            SamplingField::Temperature => "temperature",
            SamplingField::TopP => "top_p",
            SamplingField::FrequencyPenalty => "frequency_penalty",
            SamplingField::PresencePenalty => "presence_penalty",
        }
    }
}

impl ProtocolError {
    /// The human-readable message, as a client sees it.
    pub fn to_string(&self) -> (r: String)
        ensures
            r@ == error_message(*self),
    {
        match self {
            ProtocolError::ValueOutOfRange { field, error } => {
                let mut s = String::from_str("Error validating ");
                s.append(field.name());
                s.append(": ");
                let m = error.to_string();
                s.append(m.as_str());
                s
            },
            ProtocolError::DegenerateRange { axis } => match axis {
                RangeAxis::Source => String::from_str("src range is 0"),
                RangeAxis::Destination => String::from_str("dst range is 0"),
            },
            ProtocolError::TooManyStopSequences { count } => {
                let mut s = String::from_str("at most 4 stop conditions are allowed, got ");
                let mut digits: Vec<char> = Vec::new();
                push_digits(*count as u64, &mut digits);
                let d = string_from_chars(&digits);
                s.append(d.as_str());
                s
            },
            ProtocolError::InconsistentBackendOutput { detail } => {
                let mut s = String::from_str("inconsistent backend output: ");
                s.append(detail.as_str());
                s
            },
        }
    }
}

} // verus!
