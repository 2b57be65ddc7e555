use tabby_inference::first_final_step;
use tabby_inference::first_final_text;
use tabby_inference::helpers::string_to_stream;
use tabby_inference::make_text_generation;
use tabby_inference::merge_raw_stream;
use tabby_inference::FragmentMerger;
use tabby_inference::GenerationStream;
use tabby_inference::TextGeneration;
use tabby_inference::TextGenerationOptions;
use tabby_inference::TextGenerationOptionsBuilder;
use tabby_inference::TextGenerationStream;
use tabby_inference::TextStream;

fn options() -> TextGenerationOptions {
    TextGenerationOptionsBuilder::default().seed(0).build()
}

fn pairs(frags: &[(bool, &str)]) -> Vec<(bool, String)> {
    frags.iter().map(|(f, t)| (*f, t.to_string())).collect()
}

/// A rich backend with a fixed fragment sequence, independent of the prompt;
/// it keeps the default `generate`.
struct FixedGeneration {
    frags: Vec<(bool, String)>,
}

impl TextGeneration for FixedGeneration {
    fn generate_stream(&self, _prompt: &str, _options: TextGenerationOptions) -> GenerationStream {
        GenerationStream::new(self.frags.clone())
    }
}

/// A minimal backend that streams its prompt one character at a time.
struct EchoStream;

impl TextGenerationStream for EchoStream {
    fn generate(&self, prompt: &str, _options: TextGenerationOptions) -> TextStream {
        TextStream::new(prompt.chars().map(|c| c.to_string()).collect())
    }
}

#[test]
fn generate_returns_first_final() {
    let backend = FixedGeneration {
        frags: pairs(&[(false, "a"), (false, "ab"), (true, "abc")]),
    };
    assert_eq!(backend.generate("p", options()), "abc");
}

#[test]
fn generate_without_final_returns_empty() {
    let backend = FixedGeneration {
        frags: pairs(&[(false, "a"), (false, "ab")]),
    };
    assert_eq!(backend.generate("p", options()), "");
}

#[test]
fn generate_first_final_wins() {
    let backend = FixedGeneration {
        frags: pairs(&[(true, "x"), (true, "y")]),
    };
    assert_eq!(backend.generate("p", options()), "x");
}

#[test]
fn first_final_text_matches_generate() {
    assert_eq!(
        first_final_text(GenerationStream::new(pairs(&[
            (false, "a"),
            (false, "ab"),
            (true, "abc")
        ]))),
        "abc"
    );
    assert_eq!(
        first_final_text(GenerationStream::new(pairs(&[(false, "a"), (false, "ab")]))),
        ""
    );
    assert_eq!(
        first_final_text(GenerationStream::new(pairs(&[(true, "x"), (true, "y")]))),
        "x"
    );
    assert_eq!(first_final_text(GenerationStream::new(Vec::new())), "");
}

#[test]
fn first_final_step_decides_per_fragment() {
    assert_eq!(first_final_step(false, "live".to_string()), None);
    assert_eq!(first_final_step(true, "done".to_string()), Some("done".to_string()));
}

#[test]
fn singleton_stream_yields_once() {
    let mut stream = string_to_stream("hello".to_string());
    assert_eq!(stream.next(), Some("hello".to_string()));
    assert_eq!(stream.next(), None);
    assert_eq!(stream.next(), None);
}

#[test]
fn adapter_generates_concatenation() {
    let generation = make_text_generation(EchoStream);
    assert_eq!(generation.generate("abc", options()), "abc");
    assert_eq!(generation.generate("", options()), "");
}

#[test]
fn adapter_stream_shape() {
    let generation = make_text_generation(EchoStream);
    let mut stream = generation.generate_stream("ab", options());
    assert_eq!(stream.next(), Some((false, "a".to_string())));
    assert_eq!(stream.next(), Some((false, "ab".to_string())));
    assert_eq!(stream.next(), Some((true, "ab".to_string())));
    assert_eq!(stream.next(), None);
}

#[test]
fn merge_of_empty_raw_stream_still_settles() {
    let mut stream = merge_raw_stream(TextStream::new(Vec::new()));
    assert_eq!(stream.next(), Some((true, String::new())));
    assert_eq!(stream.next(), None);
}

#[test]
fn merger_accumulates_fragments() {
    let mut merger = FragmentMerger::new();
    assert_eq!(merger.push_fragment("he"), (false, "he".to_string()));
    assert_eq!(merger.push_fragment("llo"), (false, "hello".to_string()));
    assert_eq!(merger.finish(), (true, "hello".to_string()));
}

#[test]
fn concurrent_requests_stay_independent() {
    // Two in-flight requests against the same generator instance, with
    // different prompts: their streams are polled alternately and each
    // yields exactly the sequence a lone call would.
    let generation = make_text_generation(EchoStream);
    let mut first = generation.generate_stream("ab", options());
    let mut second = generation.generate_stream("xy", options());

    assert_eq!(first.next(), Some((false, "a".to_string())));
    assert_eq!(second.next(), Some((false, "x".to_string())));
    assert_eq!(first.next(), Some((false, "ab".to_string())));
    assert_eq!(second.next(), Some((false, "xy".to_string())));
    assert_eq!(first.next(), Some((true, "ab".to_string())));
    assert_eq!(second.next(), Some((true, "xy".to_string())));
    assert_eq!(first.next(), None);
    assert_eq!(second.next(), None);
}

#[test]
fn raw_stream_yields_in_order_once() {
    let mut stream = TextStream::new(vec!["a".to_string(), "b".to_string()]);
    assert_eq!(stream.next(), Some("a".to_string()));
    assert_eq!(stream.next(), Some("b".to_string()));
    assert_eq!(stream.next(), None);
}
