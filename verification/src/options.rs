use vstd::prelude::*;

verus! {

/// Per-request configuration for one generation call, immutable once built.
///
/// Temperatures are carried in thousandths so that the value stays a plain
/// integer: `sampling_temperature == 100` means a temperature of 0.1. A
/// language, when present, is an opaque key into a process-wide language
/// registry that lives outside this crate; the key is only handed through to
/// backends, never interpreted here.
#[derive(Clone, Copy, Debug, PartialEq, Eq)]
pub struct TextGenerationOptions {
    /// Upper bound on the prompt size a backend accepts.
    pub max_input_length: usize,
    /// Upper bound on the generated length.
    pub max_decoding_length: usize,
    /// Sampling randomness control, in thousandths.
    pub sampling_temperature: u32,
    /// Reproducibility control; callers needing deterministic output must
    /// set it explicitly.
    pub seed: u64,
    /// Opaque key into an external language registry; `None` means
    /// language-agnostic.
    pub language: Option<u64>,
}

impl TextGenerationOptions {
    /// The seed used when a request does not fix one: the current wall-clock
    /// time in milliseconds, or 0 when the clock is unreadable. Nothing is
    /// promised of the value; a caller who needs reproducibility sets the
    /// seed itself.
    pub fn default_seed() -> u64 {
        unix_time_millis_or_zero()
    }
}

/// Relies on std::time::SystemTime::now and SystemTime::duration_since for
/// the milliseconds elapsed since the Unix epoch, falling back to 0 when the
/// clock reads earlier than the epoch. The result depends on the clock, so
/// nothing is stated of it.
#[verifier::external_body]
fn unix_time_millis_or_zero() -> u64 {
    std::time::SystemTime::now()
        .duration_since(std::time::UNIX_EPOCH)
        .map(|x| x.as_millis() as u64)
        .unwrap_or_default()
}

/// Builder for `TextGenerationOptions`: each field left unset falls back to
/// its documented default (1024, 256, a temperature of 0.1 in thousandths,
/// a clock-derived seed, no language).
#[derive(Clone, Copy, Debug)]
pub struct TextGenerationOptionsBuilder {
    pub max_input_length: Option<usize>,
    pub max_decoding_length: Option<usize>,
    pub sampling_temperature: Option<u32>,
    pub seed: Option<u64>,
    pub language: Option<Option<u64>>,
}

impl Default for TextGenerationOptionsBuilder {
    /// A builder with every field unset.
    fn default() -> (r: Self)
        ensures
            r.max_input_length is None,
            r.max_decoding_length is None,
            r.sampling_temperature is None,
            r.seed is None,
            r.language is None,
    {
        TextGenerationOptionsBuilder {
            max_input_length: None,
            max_decoding_length: None,
            sampling_temperature: None,
            seed: None,
            language: None,
        }
    }
}

impl TextGenerationOptionsBuilder {
    pub fn max_input_length(self, v: usize) -> (r: Self)
        ensures
            r == (TextGenerationOptionsBuilder { max_input_length: Some(v), ..self }),
    {
        TextGenerationOptionsBuilder { max_input_length: Some(v), ..self }
    }

    pub fn max_decoding_length(self, v: usize) -> (r: Self)
        ensures
            r == (TextGenerationOptionsBuilder { max_decoding_length: Some(v), ..self }),
    {
        TextGenerationOptionsBuilder { max_decoding_length: Some(v), ..self }
    }

    /// Sets the sampling temperature, in thousandths.
    pub fn sampling_temperature(self, v: u32) -> (r: Self)
        ensures
            r == (TextGenerationOptionsBuilder { sampling_temperature: Some(v), ..self }),
    {
        TextGenerationOptionsBuilder { sampling_temperature: Some(v), ..self }
    }

    pub fn seed(self, v: u64) -> (r: Self)
        ensures
            r == (TextGenerationOptionsBuilder { seed: Some(v), ..self }),
    {
        TextGenerationOptionsBuilder { seed: Some(v), ..self }
    }

    pub fn language(self, v: Option<u64>) -> (r: Self)
        ensures
            r == (TextGenerationOptionsBuilder { language: Some(v), ..self }),
    {
        TextGenerationOptionsBuilder { language: Some(v), ..self }
    }

    /// Finalizes the options: every set field keeps exactly the given value,
    /// every unset field takes its documented default. The seed, when unset,
    /// is clock-derived (`TextGenerationOptions::default_seed`), so nothing
    /// beyond the set case is stated of it.
    pub fn build(self) -> (r: TextGenerationOptions)
        ensures
            self.max_input_length matches Some(v) ==> r.max_input_length == v,
            self.max_input_length is None ==> r.max_input_length == 1024,
            self.max_decoding_length matches Some(v) ==> r.max_decoding_length == v,
            self.max_decoding_length is None ==> r.max_decoding_length == 256,
            self.sampling_temperature matches Some(v) ==> r.sampling_temperature == v,
            self.sampling_temperature is None ==> r.sampling_temperature == 100,
            self.seed matches Some(v) ==> r.seed == v,
            self.language matches Some(v) ==> r.language == v,
            self.language is None ==> r.language is None,
    {
        TextGenerationOptions {
            max_input_length: match self.max_input_length {
                Some(v) => v,
                None => 1024,
            },
            max_decoding_length: match self.max_decoding_length {
                Some(v) => v,
                None => 256,
            },
            sampling_temperature: match self.sampling_temperature {
                Some(v) => v,
                None => 100,
            },
            seed: match self.seed {
                Some(v) => v,
                None => TextGenerationOptions::default_seed(),
            },
            language: match self.language {
                Some(v) => v,
                None => None,
            },
        }
    }
}

} // verus!
