//! The rules around a transcription run: the language handed to the model,
//! how the recognised segments become the transcript, and the texts that
//! failures of the run are reported with.

use vstd::prelude::*;
use crate::text::{concat_text, same_text, trim, trimmed};

verus! {

/// The language the model is told to use: none (automatic detection) for
/// `auto`, otherwise the given code.
pub open spec fn whisper_language_spec(language: Seq<char>) -> Option<Seq<char>> {
    if language == "auto"@ {
        None
    } else {
        Some(language)
    }
}

/// The language setting for the model.
pub fn whisper_language(language: &str) -> (r: Option<String>)
    ensures
        match r {
            Some(s) => whisper_language_spec(language@) == Some(s@),
            None => whisper_language_spec(language@) is None,
        },
{
    if same_text(language, "auto") {
        None
    } else {
        Some(String::from_str(language))
    }
}

/// The segments written one after another.
pub open spec fn joined(segments: Seq<Seq<char>>) -> Seq<char>
    decreases segments.len(),
{
    if segments.len() == 0 {
        Seq::empty()
    } else {
        joined(segments.drop_last()) + segments.last()
    }
}

/// The views of a list of texts.
pub open spec fn texts_view(v: Seq<String>) -> Seq<Seq<char>> {
    v.map_values(|s: String| s@)
}

/// The transcript of a run: the recognised segments joined, with the
/// surrounding whitespace removed.
pub fn assemble_transcript(segments: &Vec<String>) -> (t: String)
    ensures
        t@ == trimmed(joined(texts_view(segments@))),
{
    let mut all = String::from_str("");
    proof {
        reveal_strlit("");
        assert(""@ =~= Seq::<char>::empty());
        assert(texts_view(segments@.take(0)) =~= Seq::<Seq<char>>::empty());
    }
    let n: usize = segments.len();
    let mut i: usize = 0;
    while i < n
        invariant
            n == segments@.len(),
            i <= n,
            all@ == joined(texts_view(segments@.take(i as int))),
        decreases n - i,
    {
        all.append(segments[i].as_str());
        proof {
            let prev = texts_view(segments@.take(i as int));
            let next = texts_view(segments@.take(i + 1));
            assert(next.drop_last() =~= prev);
            assert(next.last() == segments@[i as int]@);
        }
        i = i + 1;
    }
    assert(segments@.take(n as int) =~= segments@);
    trim(all.as_str())
}

/// A step of the transcription run that failed, reported with the error's own text.
#[derive(Clone, Copy, PartialEq, Eq, Debug)]
pub enum RunFailure {
    StateCreation,
    Inference,
    SegmentCount,
    SegmentText,
}

/// The text a failure of `stage` starts with.
pub open spec fn run_failure_prefix(stage: RunFailure) -> Seq<char> {
    match stage {
        RunFailure::StateCreation => "Failed to create whisper state: "@,
        RunFailure::Inference => "Whisper inference error: "@,
        RunFailure::SegmentCount => "Failed to get segments: "@,
        RunFailure::SegmentText => "Failed to get segment text: "@,
    }
}

fn run_failure_text(stage: RunFailure) -> (s: &'static str)
    ensures
        s@ == run_failure_prefix(stage),
{
    match stage {
        RunFailure::StateCreation => "Failed to create whisper state: ",
        RunFailure::Inference => "Whisper inference error: ",
        RunFailure::SegmentCount => "Failed to get segments: ",
        RunFailure::SegmentText => "Failed to get segment text: ",
    }
}

/// The message for a failure of `stage` whose error reads `detail`.
pub fn run_failure_message(stage: RunFailure, detail: &str) -> (m: String)
    ensures
        m@ == run_failure_prefix(stage) + detail@,
{
    concat_text(run_failure_text(stage), detail)
}

/// Joining writes every segment, in order and nothing else: no segments
/// give the empty text, one segment gives itself, a segment added at the end
/// is written after the others, and joining two runs of segments gives the
/// two joined texts one after the other.
pub proof fn law_join_is_concatenation(s: Seq<Seq<char>>, t: Seq<Seq<char>>, x: Seq<char>)
    ensures
        joined(Seq::<Seq<char>>::empty()) == Seq::<char>::empty(),
        joined(seq![x]) == x,
        joined(s.push(x)) == joined(s) + x,
        joined(s + t) == joined(s) + joined(t),
    decreases t.len(),
{
    let one = seq![x];
    assert(one.len() == 1 && one.last() == x);
    assert(one.drop_last() =~= Seq::<Seq<char>>::empty());
    assert(joined(one.drop_last()) == Seq::<char>::empty());
    assert(joined(one) =~= x);
    assert(s.push(x).drop_last() =~= s);
    if t.len() == 0 {
        assert(s + t =~= s);
        assert(joined(s) + joined(t) =~= joined(s));
    } else {
        law_join_is_concatenation(s, t.drop_last(), x);
        assert((s + t).drop_last() =~= s + t.drop_last());
        assert((s + t).last() == t.last());
        assert(joined(s + t) =~= joined(s) + joined(t));
    }
}

} // verus!
