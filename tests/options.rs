use openai_protocols::error::{ProtocolError, SamplingField};
use openai_protocols::fixed::Fixed;
use openai_protocols::options::{
    CompletionParams, NvExt, OpenAISamplingOptionsProvider, OpenAIStopConditionsProvider,
};

fn fx(micros: i64) -> Fixed {
    Fixed::from_micros(micros)
}

fn params() -> CompletionParams {
    CompletionParams {
        temperature: None,
        top_p: None,
        frequency_penalty: None,
        presence_penalty: None,
        max_tokens: None,
        min_tokens: None,
        stop: None,
        nvext: None,
    }
}

fn strings(n: usize) -> Vec<String> {
    (0..n).map(|i| format!("stop{}", i)).collect()
}

#[test]
fn greedy_sampling_drops_temperature_and_top_p() {
    let mut p = params();
    p.temperature = Some(fx(700_000));
    p.top_p = Some(fx(900_000));
    p.frequency_penalty = Some(fx(-1_500_000));
    p.presence_penalty = Some(fx(500_000));
    p.nvext = Some(NvExt { greedy_sampling: Some(true), ignore_eos: None });
    let o = p.extract_sampling_options().unwrap();
    assert_eq!(o.temperature, None);
    assert_eq!(o.top_p, None);
    assert_eq!(o.frequency_penalty, Some(fx(-1_500_000)));
    assert_eq!(o.presence_penalty, Some(fx(500_000)));
}

#[test]
fn sampling_passes_values_without_greedy() {
    let mut p = params();
    p.temperature = Some(fx(700_000));
    p.top_p = Some(fx(900_000));
    p.nvext = Some(NvExt { greedy_sampling: Some(false), ignore_eos: Some(true) });
    let o = p.extract_sampling_options().unwrap();
    assert_eq!(o.temperature, Some(fx(700_000)));
    assert_eq!(o.top_p, Some(fx(900_000)));
    assert_eq!(o.n, None);
    assert_eq!(o.best_of, None);
    assert_eq!(o.top_k, None);
    assert_eq!(o.seed, None);
    assert_eq!(o.use_beam_search, None);
    assert_eq!(o.length_penalty, None);
}

#[test]
fn sampling_extraction_idempotent() {
    let mut p = params();
    p.temperature = Some(fx(2_000_000));
    p.top_p = Some(fx(0));
    p.frequency_penalty = Some(fx(-2_000_000));
    p.presence_penalty = Some(fx(1_250_000));
    let first = p.extract_sampling_options().unwrap();
    let mut again = params();
    again.temperature = first.temperature;
    again.top_p = first.top_p;
    again.frequency_penalty = first.frequency_penalty;
    again.presence_penalty = first.presence_penalty;
    let second = again.extract_sampling_options().unwrap();
    assert_eq!(first, second);
    assert_eq!(second.temperature, Some(fx(2_000_000)));
}

#[test]
fn sampling_reports_first_bad_field() {
    let mut p = params();
    p.temperature = Some(fx(2_100_000));
    p.top_p = Some(fx(1_100_000));
    match p.extract_sampling_options() {
        Err(ProtocolError::ValueOutOfRange { field, error }) => {
            assert_eq!(field, SamplingField::Temperature);
            assert_eq!(error.to_string(), "Value 2.1 is out of range [0, 2]");
        }
        other => panic!("unexpected {:?}", other),
    }
    p.temperature = Some(fx(1_000_000));
    match p.extract_sampling_options() {
        Err(ProtocolError::ValueOutOfRange { field, error }) => {
            assert_eq!(field, SamplingField::TopP);
            assert_eq!(error.to_string(), "Value 1.1 is out of range [0, 1]");
        }
        other => panic!("unexpected {:?}", other),
    }
    p.top_p = None;
    p.frequency_penalty = Some(fx(-3_000_000));
    p.presence_penalty = Some(fx(3_000_000));
    match p.extract_sampling_options() {
        Err(ProtocolError::ValueOutOfRange { field, error }) => {
            assert_eq!(field, SamplingField::FrequencyPenalty);
            assert_eq!(error.to_string(), "Value -3 is out of range [-2, 2]");
        }
        other => panic!("unexpected {:?}", other),
    }
    p.frequency_penalty = None;
    match p.extract_sampling_options() {
        Err(ProtocolError::ValueOutOfRange { field, error }) => {
            assert_eq!(field, SamplingField::PresencePenalty);
            assert_eq!(error.value, "3");
        }
        other => panic!("unexpected {:?}", other),
    }
}

#[test]
fn greedy_does_not_hide_range_errors() {
    let mut p = params();
    p.temperature = Some(fx(5_000_000));
    p.nvext = Some(NvExt { greedy_sampling: Some(true), ignore_eos: None });
    assert!(p.extract_sampling_options().is_err());
}

#[test]
fn stop_conditions_four_kept_in_order() {
    let mut p = params();
    p.stop = Some(strings(4));
    p.max_tokens = Some(128);
    p.min_tokens = Some(3);
    let c = p.extract_stop_conditions().unwrap();
    assert_eq!(c.stop, Some(strings(4)));
    assert_eq!(c.max_tokens, Some(128));
    assert_eq!(c.min_tokens, Some(3));
    assert_eq!(c.stop_token_ids_hidden, None);
    assert_eq!(c.ignore_eos, None);
}

#[test]
fn stop_conditions_five_refused() {
    let mut p = params();
    p.stop = Some(strings(5));
    match p.extract_stop_conditions() {
        Err(ProtocolError::TooManyStopSequences { count }) => assert_eq!(count, 5),
        other => panic!("unexpected {:?}", other),
    }
}

#[test]
fn stop_conditions_ignore_eos_from_extension() {
    let mut p = params();
    p.nvext = Some(NvExt { greedy_sampling: None, ignore_eos: Some(true) });
    let c = p.extract_stop_conditions().unwrap();
    assert_eq!(c.ignore_eos, Some(true));
    assert_eq!(c.stop, None);
    p.stop = Some(Vec::new());
    assert_eq!(p.extract_stop_conditions().unwrap().stop, Some(Vec::new()));
}

#[test]
fn sampling_error_message_names_field() {
    let mut p = params();
    p.top_p = Some(fx(-100_000));
    let e = p.extract_sampling_options().unwrap_err();
    assert_eq!(e.to_string(), "Error validating top_p: Value -0.1 is out of range [0, 1]");
    assert_eq!(SamplingField::FrequencyPenalty.name(), "frequency_penalty");
}
