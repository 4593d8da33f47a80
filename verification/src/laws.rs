//! What holds of every cleaning, whatever the engine does: stated over the
//! models of the run and of the guard, for an engine whose passes are any
//! function, and proved from the definitions.

use vstd::prelude::*;

use crate::cleaner::{clean_from, clean_model, guarded, Cleaning, CleaningModel};
use crate::error::ErrorKind;
use crate::guard::{finalize_model, LINE_FEED};
use crate::options::{NodeSvgCleanerFlags, SvgCleanerOptions};
use crate::pass::{run_from, run_model, PassModel, RunModel};

verus! {

/// A text is stable when a pass leaves it as it is: the engine writes the same
/// bytes again, or parses the text and gives up cleaning it.
pub open spec fn stable(pass: spec_fn(Seq<u8>) -> PassModel, data: Seq<u8>) -> bool {
    match pass(data) {
        PassModel::ParseFailed => false,
        PassModel::CleanFailed => true,
        PassModel::Written(bytes) => bytes == data,
    }
}

/// The passes over `content` end on exactly as many bytes as `content` has.
pub open spec fn keeps_length(
    pass: spec_fn(Seq<u8>) -> PassModel,
    content: Seq<u8>,
    flags: NodeSvgCleanerFlags,
    max_passes: nat,
) -> bool {
    match run_model(pass, content, flags.multipass, max_passes) {
        Some(candidate) => candidate.len() == content.len(),
        None => false,
    }
}

/// The resolution of a record loses nothing: two records that resolve to the
/// same three option groups and the same flags are the same record.
pub proof fn lemma_split_loses_nothing(a: SvgCleanerOptions, b: SvgCleanerOptions)
    requires
        a.parse_options() == b.parse_options(),
        a.cleaning_options() == b.cleaning_options(),
        a.write_options() == b.write_options(),
        a.flags() == b.flags(),
    ensures
        a == b,
{
}

/// Stepping a cleaning from any state ends where the run from that state
/// ends, with the guard applied once, at the end.
pub proof fn lemma_steps_end_on_the_guarded_run(
    pass: spec_fn(Seq<u8>) -> PassModel,
    state: CleaningModel,
)
    ensures
        clean_from(pass, state) == guarded(
            run_from(pass, state.run),
            state.original_length,
            state.flags,
        ),
    decreases state.run.passes_left,
{
    match crate::cleaner::progress_model(state, pass(state.run.text)) {
        crate::cleaner::ProgressModel::Finished(_) => {},
        crate::cleaner::ProgressModel::Again(next) => {
            lemma_steps_end_on_the_guarded_run(pass, next);
        },
    }
}

/// A cleaning that is started on `content` and stepped with the outcomes of
/// the engine's passes ends on `clean_model`.
pub proof fn lemma_steps_give_the_clean_model(
    pass: spec_fn(Seq<u8>) -> PassModel,
    content: Seq<u8>,
    flags: NodeSvgCleanerFlags,
    max_passes: nat,
)
    ensures
        clean_from(pass, Cleaning::start_model(content, flags, max_passes)) == clean_model(
            pass,
            content,
            flags,
            max_passes,
        ),
{
    lemma_steps_end_on_the_guarded_run(pass, Cleaning::start_model(content, flags, max_passes));
}

/// Without multipass a run is its first pass: a parse failure fails the run,
/// a cleaning failure returns the input, and what the pass wrote is returned
/// otherwise.
pub proof fn lemma_single_pass(
    pass: spec_fn(Seq<u8>) -> PassModel,
    input: Seq<u8>,
    max_passes: nat,
)
    ensures
        run_model(pass, input, false, max_passes) == match pass(input) {
            PassModel::ParseFailed => None,
            PassModel::CleanFailed => Some(input),
            PassModel::Written(bytes) => Some(bytes),
        },
{
}

/// A limit of no passes counts as a limit of one: a run always makes its
/// first pass.
pub proof fn lemma_limit_of_zero_counts_as_one(
    pass: spec_fn(Seq<u8>) -> PassModel,
    input: Seq<u8>,
    multipass: bool,
)
    ensures
        run_model(pass, input, multipass, 0) == run_model(pass, input, multipass, 1),
{
}

/// A run on a stable text returns that text, with or without multipass and
/// whatever the limit.
pub proof fn lemma_run_keeps_stable_text(
    pass: spec_fn(Seq<u8>) -> PassModel,
    data: Seq<u8>,
    multipass: bool,
    max_passes: nat,
)
    requires
        stable(pass, data),
    ensures
        run_model(pass, data, multipass, max_passes) == Some(data),
{
    reveal_with_fuel(run_from, 2);
}

/// What a pass over `data` leaves as the text: what it wrote, or `data` where
/// it wrote nothing.
pub open spec fn text_after(pass: spec_fn(Seq<u8>) -> PassModel, data: Seq<u8>) -> Seq<u8> {
    match pass(data) {
        PassModel::Written(bytes) => bytes,
        _ => data,
    }
}

/// The text after `k` passes in a row, the first of them over `input`.
pub open spec fn text_after_passes(
    pass: spec_fn(Seq<u8>) -> PassModel,
    input: Seq<u8>,
    k: nat,
) -> Seq<u8>
    decreases k,
{
    if k == 0 {
        input
    } else {
        text_after(pass, text_after_passes(pass, input, (k - 1) as nat))
    }
}

/// The length that the pass after `k` passes is compared with: that of the
/// text after `k` passes, and 0 before the first pass.
pub open spec fn size_before(pass: spec_fn(Seq<u8>) -> PassModel, input: Seq<u8>, k: nat) -> nat {
    if k == 0 {
        0
    } else {
        text_after_passes(pass, input, k).len()
    }
}

/// Every pass in a row writes: none fails to parse or to clean.
pub open spec fn every_pass_writes(pass: spec_fn(Seq<u8>) -> PassModel, input: Seq<u8>) -> bool {
    forall|k: nat| #[trigger] pass(text_after_passes(pass, input, k)) is Written
}

/// A multipass run that has made `done` passes, all of which wrote, and may
/// make `passes_left` more, ends on the text after `n` passes, where `n` is
/// the first pass after `done` that keeps the length or uses up the limit.
pub proof fn lemma_multipass_goes_on_from(
    pass: spec_fn(Seq<u8>) -> PassModel,
    input: Seq<u8>,
    done: nat,
    passes_left: nat,
) -> (n: nat)
    requires
        every_pass_writes(pass, input),
    ensures
        done < n,
        n - done <= passes_left || n == done + 1,
        run_from(
            pass,
            RunModel {
                text: text_after_passes(pass, input, done),
                prev_size: size_before(pass, input, done),
                passes_left,
                multipass: true,
            },
        ) == Some(text_after_passes(pass, input, n)),
        forall|k: nat|
            done < k < n ==> #[trigger] text_after_passes(pass, input, k).len() != size_before(
                pass,
                input,
                (k - 1) as nat,
            ),
        text_after_passes(pass, input, n).len() == size_before(pass, input, (n - 1) as nat) || n
            - done >= passes_left,
    decreases passes_left,
{
    let text = text_after_passes(pass, input, done);
    let next = text_after_passes(pass, input, done + 1);
    assert(pass(text) is Written);
    assert(pass(text) == PassModel::Written(next));
    if next.len() == size_before(pass, input, done) || passes_left <= 1 {
        done + 1
    } else {
        let n = lemma_multipass_goes_on_from(pass, input, done + 1, (passes_left - 1) as nat);
        assert forall|k: nat| done < k < n implies #[trigger] text_after_passes(
            pass,
            input,
            k,
        ).len() != size_before(pass, input, (k - 1) as nat) by {
            if k == done + 1 {
            }
        }
        n
    }
}

/// Where every pass writes, a multipass run ends on the text after `n`
/// passes, where `n` is the first pass that keeps the length of the pass
/// before it (for the first pass: that writes nothing) or uses up the limit.
pub proof fn lemma_multipass_ends_on_first_kept_length(
    pass: spec_fn(Seq<u8>) -> PassModel,
    input: Seq<u8>,
    max_passes: nat,
) -> (n: nat)
    requires
        every_pass_writes(pass, input),
    ensures
        1 <= n,
        n <= max_passes || n == 1,
        run_model(pass, input, true, max_passes) == Some(text_after_passes(pass, input, n)),
        forall|k: nat|
            1 <= k < n ==> #[trigger] text_after_passes(pass, input, k).len() != size_before(
                pass,
                input,
                (k - 1) as nat,
            ),
        text_after_passes(pass, input, n).len() == size_before(pass, input, (n - 1) as nat) || n
            >= max_passes,
{
    lemma_multipass_goes_on_from(pass, input, 0, max_passes)
}

/// Where no pass after the first makes the text longer, the text after a
/// later pass is no longer than the text after an earlier one.
pub proof fn lemma_passes_do_not_grow(
    pass: spec_fn(Seq<u8>) -> PassModel,
    input: Seq<u8>,
    earlier: nat,
    later: nat,
)
    requires
        1 <= earlier <= later,
        forall|k: nat|
            1 <= k ==> #[trigger] text_after_passes(pass, input, k + 1).len() <= text_after_passes(
                pass,
                input,
                k,
            ).len(),
    ensures
        text_after_passes(pass, input, later).len() <= text_after_passes(
            pass,
            input,
            earlier,
        ).len(),
    decreases later - earlier,
{
    if earlier < later {
        lemma_passes_do_not_grow(pass, input, earlier, (later - 1) as nat);
        let k = (later - 1) as nat;
        assert(text_after_passes(pass, input, k + 1).len() <= text_after_passes(
            pass,
            input,
            k,
        ).len());
    }
}

/// Single pass against multipass, for any number of passes: where every pass
/// writes, no pass after the first makes the text longer, and the second pass
/// makes it shorter, a single-pass run returns what the first pass wrote, and
/// a multipass run that may make two passes returns the text after some later
/// pass, which is shorter.
pub proof fn lemma_multipass_result_is_smaller(
    pass: spec_fn(Seq<u8>) -> PassModel,
    input: Seq<u8>,
    max_passes: nat,
) -> (n: nat)
    requires
        max_passes >= 2,
        every_pass_writes(pass, input),
        forall|k: nat|
            1 <= k ==> #[trigger] text_after_passes(pass, input, k + 1).len() <= text_after_passes(
                pass,
                input,
                k,
            ).len(),
        text_after_passes(pass, input, 2).len() < text_after_passes(pass, input, 1).len(),
    ensures
        2 <= n <= max_passes,
        run_model(pass, input, false, max_passes) == Some(text_after_passes(pass, input, 1)),
        run_model(pass, input, true, max_passes) == Some(text_after_passes(pass, input, n)),
        text_after_passes(pass, input, n).len() <= text_after_passes(pass, input, 2).len(),
        text_after_passes(pass, input, n).len() < text_after_passes(pass, input, 1).len(),
{
    reveal_with_fuel(text_after_passes, 3);
    assert(pass(text_after_passes(pass, input, 0)) is Written);
    let n = lemma_multipass_ends_on_first_kept_length(pass, input, max_passes);
    lemma_passes_do_not_grow(pass, input, 2, n);
    n
}

/// Single pass and multipass part ways where the first pass leaves work
/// undone: if the second pass still changes the length and what it writes is
/// stable, a single-pass run returns what the first pass wrote, and a
/// multipass run that may make two passes returns what the second wrote.
pub proof fn lemma_multipass_goes_beyond_first_pass(
    pass: spec_fn(Seq<u8>) -> PassModel,
    input: Seq<u8>,
    max_passes: nat,
    first: Seq<u8>,
    second: Seq<u8>,
)
    requires
        max_passes >= 2,
        pass(input) == PassModel::Written(first),
        first.len() != 0,
        pass(first) == PassModel::Written(second),
        second.len() != first.len(),
        stable(pass, second),
    ensures
        run_model(pass, input, false, max_passes) == Some(first),
        run_model(pass, input, true, max_passes) == Some(second),
        second != first,
{
    reveal_with_fuel(run_from, 4);
}

/// Cleaning a result again keeps it, under any flags, where the run over the
/// result ends on what the first run ended on. With a trailing line feed that
/// is: where the run over the result ends on the result without its last
/// byte.
pub proof fn lemma_clean_again_keeps_result(
    pass: spec_fn(Seq<u8>) -> PassModel,
    content: Seq<u8>,
    flags: NodeSvgCleanerFlags,
    max_passes: nat,
)
    requires
        clean_model(pass, content, flags, max_passes) matches Ok(first) && run_model(
            pass,
            first,
            flags.multipass,
            max_passes,
        ) == run_model(pass, content, flags.multipass, max_passes),
    ensures
        clean_model(pass, clean_model(pass, content, flags, max_passes).unwrap(), flags, max_passes)
            == clean_model(pass, content, flags, max_passes),
{
}

/// And only there: where cleaning a result again keeps it, the run over the
/// result ended on what the first run ended on.
pub proof fn lemma_clean_again_keeps_result_only_there(
    pass: spec_fn(Seq<u8>) -> PassModel,
    content: Seq<u8>,
    flags: NodeSvgCleanerFlags,
    max_passes: nat,
)
    requires
        clean_model(pass, content, flags, max_passes) matches Ok(first) && clean_model(
            pass,
            first,
            flags,
            max_passes,
        ) == clean_model(pass, content, flags, max_passes),
    ensures
        run_model(
            pass,
            clean_model(pass, content, flags, max_passes).unwrap(),
            flags.multipass,
            max_passes,
        ) == run_model(pass, content, flags.multipass, max_passes),
{
    let first = clean_model(pass, content, flags, max_passes).unwrap();
    let ended = run_model(pass, content, flags.multipass, max_passes).unwrap();
    let ended_again = run_model(pass, first, flags.multipass, max_passes).unwrap();
    if flags.append_newline {
        assert(ended_again.push(LINE_FEED) == ended.push(LINE_FEED));
        assert(ended_again.push(LINE_FEED).drop_last() =~= ended_again);
        assert(ended.push(LINE_FEED).drop_last() =~= ended);
    }
}

/// Without a trailing line feed, cleaning is idempotent on converged results:
/// where a cleaning ends on a stable text, cleaning that result again returns
/// it byte for byte.
pub proof fn lemma_clean_again_is_identity(
    pass: spec_fn(Seq<u8>) -> PassModel,
    content: Seq<u8>,
    flags: NodeSvgCleanerFlags,
    max_passes: nat,
)
    requires
        !flags.append_newline,
        clean_model(pass, content, flags, max_passes) matches Ok(first) && stable(pass, first),
    ensures
        clean_model(pass, clean_model(pass, content, flags, max_passes).unwrap(), flags, max_passes)
            == clean_model(pass, content, flags, max_passes),
{
    let first = clean_model(pass, content, flags, max_passes).unwrap();
    lemma_run_keeps_stable_text(pass, first, flags.multipass, max_passes);
    lemma_clean_again_keeps_result(pass, content, flags, max_passes);
}

/// With a trailing line feed, cleaning is idempotent where the engine drops
/// the line feed again: where the first run ended on a stable text, and a
/// pass over that text with the line feed writes the text without it,
/// cleaning the result again returns it byte for byte.
pub proof fn lemma_clean_again_with_line_feed(
    pass: spec_fn(Seq<u8>) -> PassModel,
    content: Seq<u8>,
    flags: NodeSvgCleanerFlags,
    max_passes: nat,
)
    requires
        flags.append_newline,
        clean_model(pass, content, flags, max_passes) is Ok,
        run_model(pass, content, flags.multipass, max_passes) matches Some(ended) && stable(
            pass,
            ended,
        ) && pass(ended.push(LINE_FEED)) == PassModel::Written(ended),
    ensures
        clean_model(pass, clean_model(pass, content, flags, max_passes).unwrap(), flags, max_passes)
            == clean_model(pass, content, flags, max_passes),
{
    reveal_with_fuel(run_from, 3);
    lemma_clean_again_keeps_result(pass, content, flags, max_passes);
}

/// An engine that keeps shortening what it is given, except that it rewrites
/// one text of two bytes into another of two bytes first.
pub open spec fn wandering_pass(data: Seq<u8>) -> PassModel {
    if data.len() == 3 {
        PassModel::Written(seq![2u8, 2u8])
    } else if data.len() == 2 && data[0] == 2u8 {
        PassModel::Written(seq![3u8, 3u8])
    } else if data.len() == 2 {
        PassModel::Written(seq![4u8])
    } else {
        PassModel::Written(data)
    }
}

/// Equal length is not a fixed point, so idempotence needs the stable result
/// that `lemma_clean_again_is_identity` asks for. With the engine
/// `wandering_pass`, a multipass cleaning of three bytes stops on the second
/// pass, which kept the length of the first; cleaning that result again ends
/// on a shorter text.
pub proof fn lemma_equal_length_is_no_fixed_point()
    ensures
        ({
            let pass = |data: Seq<u8>| wandering_pass(data);
            let flags = NodeSvgCleanerFlags {
                multipass: true,
                allow_bigger_file: false,
                append_newline: false,
            };
            &&& clean_model(pass, seq![1u8, 1u8, 1u8], flags, 10) matches Ok(first)
            &&& first == seq![3u8, 3u8]
            &&& !stable(pass, first)
            &&& clean_model(pass, first, flags, 10) matches Ok(second)
            &&& second == seq![4u8]
        }),
{
    let pass = |data: Seq<u8>| wandering_pass(data);
    let a = seq![1u8, 1u8, 1u8];
    let b = seq![2u8, 2u8];
    let c = seq![3u8, 3u8];
    let d = seq![4u8];
    assert(a.len() == 3 && b.len() == 2 && c.len() == 2 && d.len() == 1);
    assert(b[0] == 2u8 && c[0] == 3u8);
    assert(pass(a) == PassModel::Written(b));
    assert(pass(b) == PassModel::Written(c));
    assert(pass(c) == PassModel::Written(d));
    assert(pass(d) == PassModel::Written(d));
    reveal_with_fuel(run_from, 3);
    assert(run_model(pass, a, true, 10) == Some(c));
    assert(run_model(pass, c, true, 10) == Some(d));
}

/// The guard lets nothing grow: where growth is not allowed, an accepted
/// candidate is no longer than the input, and the result is longer than the
/// candidate by the line feed alone.
pub proof fn lemma_guard_no_growth(original_length: nat, candidate: Seq<u8>, append_newline: bool)
    ensures
        finalize_model(original_length, candidate, false, append_newline) matches Some(out) ==> {
            &&& candidate.len() <= original_length
            &&& append_newline ==> out.len() == candidate.len() + 1
            &&& !append_newline ==> out.len() == candidate.len()
        },
{
}

/// No growth: where growth is not allowed, a cleaning that succeeds returns no
/// more bytes than it was given. Left out are the cleanings that ask for a
/// trailing line feed and whose passes end on exactly as many bytes as the
/// input has: their result is one byte longer.
pub proof fn lemma_no_growth(
    pass: spec_fn(Seq<u8>) -> PassModel,
    content: Seq<u8>,
    flags: NodeSvgCleanerFlags,
    max_passes: nat,
)
    requires
        !flags.allow_bigger_file,
        !(flags.append_newline && keeps_length(pass, content, flags, max_passes)),
    ensures
        clean_model(pass, content, flags, max_passes) matches Ok(out) ==> out.len()
            <= content.len(),
{
}

/// Where growth is not allowed, a cleaning that succeeds returns at most one
/// byte more than it was given, and that only where a trailing line feed is
/// asked for.
pub proof fn lemma_growth_is_the_line_feed(
    pass: spec_fn(Seq<u8>) -> PassModel,
    content: Seq<u8>,
    flags: NodeSvgCleanerFlags,
    max_passes: nat,
)
    requires
        !flags.allow_bigger_file,
    ensures
        clean_model(pass, content, flags, max_passes) matches Ok(out) ==> {
            &&& out.len() <= content.len() + 1
            &&& !flags.append_newline ==> out.len() <= content.len()
        },
{
}

/// Growth override: where growth is allowed the guard accepts every
/// candidate, however long.
pub proof fn lemma_growth_override(original_length: nat, candidate: Seq<u8>, append_newline: bool)
    ensures
        finalize_model(original_length, candidate, true, append_newline) == Some(
            if append_newline {
                candidate.push(LINE_FEED)
            } else {
                candidate
            },
        ),
{
}

/// Where growth is allowed, a cleaning never fails for the size of its
/// result.
pub proof fn lemma_allowed_growth_never_fails(
    pass: spec_fn(Seq<u8>) -> PassModel,
    content: Seq<u8>,
    flags: NodeSvgCleanerFlags,
    max_passes: nat,
)
    requires
        flags.allow_bigger_file,
    ensures
        !(clean_model(pass, content, flags, max_passes) matches Err(ErrorKind::OutputTooLarge)),
{
}

/// The line feed does not count against the size: a candidate of exactly the
/// input's length is accepted with a trailing line feed, and the result is one
/// byte longer than the input and ends in that line feed.
pub proof fn lemma_line_feed_is_not_counted(
    original_length: nat,
    candidate: Seq<u8>,
    allow_bigger_file: bool,
)
    requires
        candidate.len() == original_length,
    ensures
        finalize_model(original_length, candidate, allow_bigger_file, true) == Some(
            candidate.push(LINE_FEED),
        ),
        candidate.push(LINE_FEED).len() == original_length + 1,
        candidate.push(LINE_FEED).last() == LINE_FEED,
        candidate.push(LINE_FEED).drop_last() == candidate,
{
    assert(candidate.push(LINE_FEED).drop_last() =~= candidate);
}

/// The same of a whole cleaning: where the passes end on exactly as many
/// bytes as the input has and a trailing line feed is asked for, the cleaning
/// succeeds with those bytes and the line feed.
pub proof fn lemma_clean_appends_line_feed(
    pass: spec_fn(Seq<u8>) -> PassModel,
    content: Seq<u8>,
    flags: NodeSvgCleanerFlags,
    max_passes: nat,
)
    requires
        flags.append_newline,
        keeps_length(pass, content, flags, max_passes),
    ensures
        clean_model(pass, content, flags, max_passes) matches Ok(out) && out == run_model(
            pass,
            content,
            flags.multipass,
            max_passes,
        ).unwrap().push(LINE_FEED),
{
}

} // verus!
