//! Properties that hold across the scanner, the classifier and rendering.

use crate::error::{
    assembled, cause_of, classified, rendered, tail_cause, BuildOutput, CauseView,
    RunnerOutputView, TAIL_WINDOW,
};
use crate::signature::line_cause;
use crate::text::{all_white_space, joined, lemma_trimmed_padding, trimmed};
use vstd::prelude::*;

verus! {

/// Whether `w` occurs in `s`.
pub open spec fn contains(s: Seq<char>, w: Seq<char>) -> bool {
    exists|i: int| 0 <= i && i + w.len() <= s.len() && #[trigger] s.subrange(i, i + w.len()) == w
}

proof fn lemma_tail_cause_at(lines: Seq<Seq<char>>, budget: nat, i: int)
    requires
        0 <= i < lines.len(),
        lines.len() - budget <= i,
        line_cause(lines[i]) is Some,
        forall|j: int| i < j < lines.len() ==> line_cause(#[trigger] lines[j]) is None,
    ensures
        tail_cause(lines, budget) == line_cause(lines[i]),
    decreases budget,
{
    if i < lines.len() - 1 {
        assert(line_cause(lines[lines.len() - 1]) is None);
        let rest = lines.drop_last();
        assert forall|j: int| i < j < rest.len() implies line_cause(#[trigger] rest[j]) is None by {
            assert(rest[j] == lines[j]);
        }
        lemma_tail_cause_at(rest, (budget - 1) as nat, i);
    }
}

proof fn lemma_tail_cause_none(lines: Seq<Seq<char>>, budget: nat)
    requires
        forall|j: int|
            0 <= j < lines.len() && lines.len() - budget <= j ==> line_cause(#[trigger] lines[j])
                is None,
    ensures
        tail_cause(lines, budget) is None,
    decreases budget,
{
    if budget > 0 && lines.len() > 0 {
        assert(line_cause(lines[lines.len() - 1]) is None);
        let rest = lines.drop_last();
        assert forall|j: int|
            0 <= j < rest.len() && rest.len() - (budget - 1) <= j implies line_cause(
            #[trigger] rest[j],
        ) is None by {
            assert(rest[j] == lines[j]);
        }
        lemma_tail_cause_none(rest, (budget - 1) as nat);
    }
}

/// Among the last lines of stderr, the most recent one that points to a
/// cause decides the cause, whatever the less recent lines point to.
pub proof fn lemma_most_recent_match_wins(lines: Seq<Seq<char>>, i: int)
    requires
        0 <= i < lines.len(),
        lines.len() - TAIL_WINDOW <= i,
        line_cause(lines[i]) is Some,
        forall|j: int| i < j < lines.len() ==> line_cause(#[trigger] lines[j]) is None,
    ensures
        tail_cause(lines, TAIL_WINDOW as nat) == line_cause(lines[i]),
{
    lemma_tail_cause_at(lines, TAIL_WINDOW as nat, i);
}

/// A last line that matches a signature, padded with whitespace on either
/// side and preceded by lines that match none, gives the cause of that
/// signature, as found on the line without its padding.
pub proof fn lemma_single_match_in_window(
    before: Seq<Seq<char>>,
    pad_before: Seq<char>,
    line: Seq<char>,
    pad_after: Seq<char>,
)
    requires
        forall|j: int| 0 <= j < before.len() ==> line_cause(#[trigger] before[j]) is None,
        all_white_space(pad_before),
        all_white_space(pad_after),
        line_cause(line) is Some,
    ensures
        tail_cause(before.push(pad_before + line + pad_after), TAIL_WINDOW as nat) == line_cause(
            line,
        ),
{
    let padded = pad_before + line + pad_after;
    lemma_trimmed_padding(pad_before, line, pad_after);
    assert(trimmed(padded) == trimmed(line));
    let lines = before.push(padded);
    assert(lines[before.len() as int] == padded);
    assert forall|j: int| before.len() < j < lines.len() implies line_cause(
        #[trigger] lines[j],
    ) is None by {}
    lemma_most_recent_match_wins(lines, before.len() as int);
}

/// When no line among the last lines of stderr matches a signature, the
/// error is the generic one, with no cause.
pub proof fn lemma_no_match_is_generic(
    message: Seq<char>,
    output: RunnerOutputView,
    level: BuildOutput,
    version_id: Seq<char>,
)
    requires
        forall|j: int|
            0 <= j < output.stderr.len() && output.stderr.len() - TAIL_WINDOW <= j
                ==> line_cause(#[trigger] output.stderr[j]) is None,
    ensures
        classified(message, output, level, version_id) == assembled(message, output, level, None),
        cause_of(classified(message, output, level, version_id)) is None,
{
    lemma_tail_cause_none(output.stderr, TAIL_WINDOW as nat);
}

proof fn lemma_word_not_across_with(m: Seq<char>, e: Seq<char>, w: Seq<char>)
    requires
        w.len() == 6,
        forall|k: int| 0 <= k < w.len() ==> w[k] != ' ',
        !contains(m, w),
        !contains(e, w),
    ensures
        !contains(m + " with "@ + e, w),
{
    reveal_strlit(" with ");
    let t = m + " with "@ + e;
    let n = m.len() as int;
    if contains(t, w) {
        let i = choose|i: int| 0 <= i && i + w.len() <= t.len() && #[trigger] t.subrange(i, i + w.len()) == w;
        if i + 6 <= n {
            assert(m.subrange(i, i + w.len()) =~= t.subrange(i, i + 6));
            assert(contains(m, w));
        } else if i >= n + 6 {
            let k = i - n - 6;
            assert(e.subrange(k, k + w.len()) =~= t.subrange(i, i + 6));
            assert(contains(e, w));
        } else if i <= n {
            assert(t.subrange(i, i + 6)[n - i] == t[n]);
            assert(w[n - i] == ' ');
        } else {
            assert(t.subrange(i, i + 6)[n + 5 - i] == t[n + 5]);
            assert(w[n + 5 - i] == ' ');
        }
    }
}

/// The short form of an error holds neither `stdout` nor `stderr`, where
/// its message and exit status do not.
pub proof fn lemma_terse_hides_output(
    message: Seq<char>,
    output: RunnerOutputView,
    cause: Option<CauseView>,
)
    requires
        !contains(message, "stdout"@),
        !contains(message, "stderr"@),
        !contains(output.status, "stdout"@),
        !contains(output.status, "stderr"@),
    ensures
        !contains(rendered(assembled(message, output, BuildOutput::Stderr, cause)), "stdout"@),
        !contains(rendered(assembled(message, output, BuildOutput::Stderr, cause)), "stderr"@),
{
    reveal_strlit("stdout");
    reveal_strlit("stderr");
    lemma_word_not_across_with(message, output.status, "stdout"@);
    lemma_word_not_across_with(message, output.status, "stderr"@);
}

/// The long form of an error holds the stdout section and then the stderr
/// section, each with the joined lines of its stream as they were.
pub proof fn lemma_verbose_keeps_output(
    message: Seq<char>,
    output: RunnerOutputView,
    cause: Option<CauseView>,
)
    ensures
        ({
            let r = rendered(assembled(message, output, BuildOutput::Debug, cause));
            let out = joined(output.stdout);
            let err = joined(output.stderr);
            let p = message.len() + 6 + output.status.len() as int;
            let q = p + 13 + out.len() as int;
            &&& r.subrange(0, message.len() as int) == message
            &&& r.subrange(p, p + 13) == "\n--- stdout:\n"@
            &&& r.subrange(p + 13, q) == out
            &&& r.subrange(q, q + 13) == "\n--- stderr:\n"@
            &&& r.subrange(q + 13, q + 13 + err.len()) == err
            &&& r.len() == q + 13 + err.len() + 4
        }),
{
    reveal_strlit(" with ");
    reveal_strlit("\n--- stdout:\n");
    reveal_strlit("\n--- stderr:\n");
    reveal_strlit("\n---");
    let r = rendered(assembled(message, output, BuildOutput::Debug, cause));
    let out = joined(output.stdout);
    let err = joined(output.stderr);
    let p = message.len() + 6 + output.status.len() as int;
    let q = p + 13 + out.len() as int;
    assert(r.subrange(0, message.len() as int) =~= message);
    assert(r.subrange(p, p + 13) =~= "\n--- stdout:\n"@);
    assert(r.subrange(p + 13, q) =~= out);
    assert(r.subrange(q, q + 13) =~= "\n--- stderr:\n"@);
    assert(r.subrange(q + 13, q + 13 + err.len()) =~= err);
}

/// Classifying the same run twice gives the same error, which renders to the
/// same text with the same cause.
pub proof fn lemma_classification_deterministic(
    message: Seq<char>,
    output: RunnerOutputView,
    level: BuildOutput,
    version_id: Seq<char>,
    first: crate::error::ErrorView,
    second: crate::error::ErrorView,
)
    requires
        first == classified(message, output, level, version_id),
        second == classified(message, output, level, version_id),
    ensures
        rendered(first) == rendered(second),
        cause_of(first) == cause_of(second),
{
}

} // verus!
