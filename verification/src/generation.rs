use vstd::prelude::*;

use crate::options::TextGenerationOptions;
use crate::streams::GenerationStream;
use crate::streams::TextStream;

verus! {

/// First-final-wins: the text of the first settled fragment of the sequence,
/// or the empty text when the sequence holds no settled fragment. This is
/// the one fixed algorithm of this layer; live fragments are discarded, and
/// any settled fragment after the first is never observed.
pub open spec fn spec_first_final(frags: Seq<(bool, Seq<char>)>) -> Seq<char>
    decreases frags.len(),
{
    if frags.len() == 0 {
        Seq::empty()
    } else if frags[0].0 {
        frags[0].1
    } else {
        spec_first_final(frags.drop_first())
    }
}

/// The concatenation of a sequence of texts, in order.
pub open spec fn spec_concat(frags: Seq<Seq<char>>) -> Seq<char>
    decreases frags.len(),
{
    if frags.len() == 0 {
        Seq::empty()
    } else {
        frags[0] + spec_concat(frags.drop_first())
    }
}

/// What the adapter makes of a raw fragment sequence: one live fragment per
/// raw fragment, each carrying the text produced so far, closed by exactly
/// one settled fragment carrying the full concatenation.
pub open spec fn spec_merge(raw: Seq<Seq<char>>) -> Seq<(bool, Seq<char>)> {
    Seq::new(raw.len(), |i: int| (false, spec_concat(raw.take(i + 1)))).push(
        (true, spec_concat(raw)),
    )
}

proof fn lemma_concat_push(s: Seq<Seq<char>>, x: Seq<char>)
    ensures
        spec_concat(s.push(x)) == spec_concat(s) + x,
    decreases s.len(),
{
    if s.len() == 0 {
        assert(s.push(x)[0] == x);
        assert(s.push(x).drop_first() =~= Seq::<Seq<char>>::empty());
        assert(spec_concat(s.push(x)) == x + spec_concat(Seq::<Seq<char>>::empty()));
        assert(x + Seq::<char>::empty() =~= x);
        assert(Seq::<char>::empty() + x =~= x);
    } else {
        lemma_concat_push(s.drop_first(), x);
        assert(s.push(x)[0] == s[0]);
        assert(s.push(x).drop_first() =~= s.drop_first().push(x));
        assert(spec_concat(s.push(x)) == s[0] + spec_concat(s.drop_first().push(x)));
        assert((s[0] + spec_concat(s.drop_first())) + x =~= s[0] + (spec_concat(s.drop_first())
            + x));
    }
}

/// Minimal backend capability: produce the raw fragment sequence of one
/// generation request. Termination (stop condition, length limit) is
/// backend-defined and opaque to this layer, as is the content of the
/// fragments; one returned stream corresponds to exactly one in-flight
/// request and is consumed once. Concurrent requests against one implementor
/// must be independently safe, so an implementor keeps no state that one
/// request could observe another through.
pub trait TextGenerationStream: Sync + Send {
    fn generate(&self, prompt: &str, options: TextGenerationOptions) -> TextStream;
}

/// Rich backend capability: produce the (is-final, text) fragment sequence
/// of one generation request, and derive from it the single-string result.
/// `generate_stream` is backend-defined; `generate` comes for free and every
/// implementor that keeps the default gets exactly the first-final-wins
/// algorithm of `first_final_text`.
pub trait TextGeneration: Sync + Send {
    fn generate_stream(&self, prompt: &str, options: TextGenerationOptions) -> GenerationStream;

    /// Aggregate result of one request: drive a fresh stream, discard live
    /// fragments, stop at the first settled fragment and return its text,
    /// or the empty string when the stream ends without one.
    fn generate(&self, prompt: &str, options: TextGenerationOptions) -> (r: String) {
        let stream = self.generate_stream(prompt, options);
        first_final_text(stream)
    }
}

/// The fixed algorithm behind `TextGeneration::generate`: consume the
/// stream, discard every live fragment, and return the text of the first
/// settled fragment, or the empty string when the stream holds none. The
/// stream is consumed only up to the first settled fragment; anything after
/// it is never polled.
pub fn first_final_text(stream: GenerationStream) -> (r: String)
    ensures
        r@ == spec_first_final(stream@),
{
    let ghost orig = stream@;
    let mut s = stream;
    let mut result = String::new();
    loop
        invariant_except_break
            result@ == Seq::<char>::empty(),
            spec_first_final(s@) == spec_first_final(orig),
        ensures
            result@ == spec_first_final(orig),
        decreases s@.len(),
    {
        match s.next() {
            Some(frag) => {
                if frag.0 {
                    result = frag.1;
                    break;
                }
            },
            None => {
                break;
            },
        }
    }
    result
}

/// Per-fragment decision of the fixed aggregate algorithm, for drivers that
/// consume a live fragment stream one element at a time: a settled fragment
/// ends the scan with its text, a live fragment is discarded.
pub fn first_final_step(is_final: bool, text: String) -> (r: Option<String>)
    ensures
        is_final ==> (r matches Some(t) && t@ == text@),
        !is_final ==> r is None,
{
    if is_final {
        Some(text)
    } else {
        None
    }
}

/// Incremental form of the adapter's merge: fed the raw fragments of one
/// request in order, it hands back the live fragment for each, and `finish`
/// closes the request with the one settled fragment carrying the full
/// concatenation.
pub struct FragmentMerger {
    acc: String,
}

impl View for FragmentMerger {
    type V = Seq<char>;

    /// The concatenation of the fragments fed so far.
    closed spec fn view(&self) -> Seq<char> {
        self.acc@
    }
}

impl FragmentMerger {
    /// A merger that has seen no fragment yet.
    pub fn new() -> (r: Self)
        ensures
            r@ == Seq::<char>::empty(),
    {
        FragmentMerger { acc: String::new() }
    }

    /// Takes the next raw fragment and hands back the live fragment that
    /// mirrors the progress: the text produced so far, settled marker off.
    pub fn push_fragment(&mut self, frag: &str) -> (r: (bool, String))
        ensures
            final(self)@ == old(self)@ + frag@,
            r.0 == false,
            r.1@ == old(self)@ + frag@,
    {
        self.acc.push_str(frag);
        (false, self.acc.clone())
    }

    /// Closes the request: the one settled fragment, carrying the full
    /// concatenation as the authoritative final text.
    pub fn finish(self) -> (r: (bool, String))
        ensures
            r.0 == true,
            r.1@ == self@,
    {
        (true, self.acc)
    }
}

/// Relies on String::push_str: appends the given string slice onto the end
/// of the string.
pub assume_specification[ String::push_str ](s: &mut String, other: &str)
    ensures
        final(s)@ == old(s)@ + other@,
;

/// The merge behind the adapter: the raw fragments are consumed strictly in
/// order; each yields one live fragment carrying the text so far, and
/// exactly one settled fragment carrying the full concatenation closes the
/// stream.
pub fn merge_raw_stream(raw: TextStream) -> (r: GenerationStream)
    ensures
        r@ == spec_merge(raw@),
{
    let ghost orig = raw@;
    let mut s = raw;
    let mut merger = FragmentMerger::new();
    let mut out: Vec<(bool, String)> = Vec::new();
    loop
        invariant
            out@.len() <= orig.len(),
            s@ == orig.skip(out@.len() as int),
            merger@ == spec_concat(orig.take(out@.len() as int)),
            forall|i: int|
                0 <= i < out@.len() ==> ((#[trigger] out@[i]).0 == false && out@[i].1@
                    == spec_concat(orig.take(i + 1))),
        ensures
            out@.len() == orig.len(),
            merger@ == spec_concat(orig),
            forall|i: int|
                0 <= i < out@.len() ==> ((#[trigger] out@[i]).0 == false && out@[i].1@
                    == spec_concat(orig.take(i + 1))),
        decreases s@.len(),
    {
        let ghost k = out@.len() as int;
        match s.next() {
            Some(frag) => {
                proof {
                    lemma_concat_push(orig.take(k), orig[k]);
                    assert(orig.take(k).push(orig[k]) =~= orig.take(k + 1));
                    assert(orig.skip(k).drop_first() =~= orig.skip(k + 1));
                }
                let pair = merger.push_fragment(frag.as_str());
                out.push(pair);
            },
            None => {
                proof {
                    assert(orig.take(k) =~= orig);
                }
                break;
            },
        }
    }
    let settled = merger.finish();
    out.push(settled);
    let r = GenerationStream::new(out);
    proof {
        assert(r@ =~= spec_merge(orig));
    }
    r
}

/// The adapter: lifts any implementor of the minimal raw-streaming
/// capability to the rich one. Its stream is the merge of the backend's raw
/// fragments, so a consumer observes the rich contract uniformly whatever
/// backend underlies it.
pub struct TextGenerationImpl<T: TextGenerationStream> {
    imp: T,
}

impl<T: TextGenerationStream> TextGeneration for TextGenerationImpl<T> {
    /// The merged stream: one live fragment per raw fragment, each carrying
    /// the text so far, closed by exactly one settled fragment carrying the
    /// full concatenation.
    fn generate_stream(&self, prompt: &str, options: TextGenerationOptions) -> (r:
        GenerationStream)
        ensures
            exists|raw: Seq<Seq<char>>| r@ == spec_merge(raw),
    {
        let rawstream = self.imp.generate(prompt, options);
        merge_raw_stream(rawstream)
    }
}

/// Lifts a minimal raw-streaming backend into the rich generation
/// capability.
pub fn make_text_generation<T: TextGenerationStream>(imp: T) -> (r: TextGenerationImpl<T>) {
    TextGenerationImpl { imp }
}

proof fn lemma_first_final_live_prefix(frags: Seq<(bool, Seq<char>)>)
    requires
        frags.len() > 0,
        frags.last().0,
        forall|i: int| 0 <= i < frags.len() - 1 ==> !(#[trigger] frags[i]).0,
    ensures
        spec_first_final(frags) == frags.last().1,
    decreases frags.len(),
{
    if frags.len() > 1 {
        lemma_first_final_live_prefix(frags.drop_first());
    }
}

/// Law: the aggregate result observed through the adapter is exactly the
/// concatenation of the raw fragments the backend produced — first-final-
/// wins over a merged stream recovers the full raw text.
pub proof fn lemma_first_final_of_merge(raw: Seq<Seq<char>>)
    ensures
        spec_first_final(spec_merge(raw)) == spec_concat(raw),
{
    lemma_first_final_live_prefix(spec_merge(raw));
}

} // verus!

