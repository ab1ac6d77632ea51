//! What follows from the contracts of the two dispatchers, for every sink and
//! every command.

use vstd::prelude::*;
use crate::command::{executed, queued, sequence_bytes, Command, ControlSequence};
use crate::sink::{flushed, SinkState};

verus! {

/// Rendering is repeatable: whatever two renderings of one command return,
/// the two texts are the same, and they are the sequence of the command.
pub proof fn lemma_rendering_is_repeatable<C: Command>(command: C, once: String, again: String)
    requires
        call_ensures(C::ansi_code, (&command,), once),
        call_ensures(C::ansi_code, (&command,), again),
    ensures
        once@ == again@,
        once@ == command.ansi_text(),
{
}

/// The bytes of two sequences written one after the other are the bytes of
/// the two texts joined.
pub proof fn lemma_sequence_bytes_concat(first: ControlSequence, second: ControlSequence)
    ensures
        sequence_bytes(first + second) == sequence_bytes(first) + sequence_bytes(second),
    decreases first.len(),
{
    if first.len() > 0 {
        assert((first + second).drop_first() =~= first.drop_first() + second);
        lemma_sequence_bytes_concat(first.drop_first(), second);
    }
}

/// After a successful execute the sink holds nothing back, and what it has
/// transmitted ends with the sequence of the command.
pub proof fn lemma_execute_transmits(pre: SinkState, text: ControlSequence, post: SinkState)
    requires
        executed(true, pre, text, post, true),
    ensures
        post.pending.len() == 0,
        post.transmitted == pre.transmitted + pre.pending + sequence_bytes(text),
        post.stream() == post.transmitted,
        sequence_bytes(text).is_suffix_of(post.transmitted),
{
    let bytes = sequence_bytes(text);
    assert(post.transmitted.subrange(
        post.transmitted.len() - bytes.len(),
        post.transmitted.len() as int,
    ) =~= bytes);
}

/// A successful queue leaves it to the sink when the sequence is
/// transmitted: an open sink that keeps the sequence behind all it held back
/// and transmits nothing has queued it, and so has one that transmits
/// everything at once.
pub proof fn lemma_queue_may_hold(pre: SinkState, text: ControlSequence)
    requires
        !pre.closed,
    ensures
        queued(
            true,
            pre,
            text,
            (SinkState { pending: pre.pending + sequence_bytes(text), ..pre }),
            true,
        ),
        queued(
            true,
            pre,
            text,
            (SinkState {
                transmitted: pre.stream() + sequence_bytes(text),
                pending: Seq::empty(),
                ..pre
            }),
            true,
        ),
{
    let holding = SinkState { pending: pre.pending + sequence_bytes(text), ..pre };
    assert(holding.stream() =~= pre.stream() + sequence_bytes(text));
}

/// What a successful queue leaves pending, a flush transmits: the two
/// together do what a successful execute does.
pub proof fn lemma_flush_completes_queue(
    pre: SinkState,
    text: ControlSequence,
    held: SinkState,
    post: SinkState,
)
    requires
        queued(true, pre, text, held, true),
        flushed(held, post),
    ensures
        executed(true, pre, text, post, true),
{
}

/// Two commands queued one after the other and then flushed are transmitted
/// in the order in which they were queued, behind all that the sink had
/// taken before and with nothing between or after them. On a sink that was
/// empty, what has been transmitted is the two sequences joined.
pub proof fn lemma_chain_keeps_order(
    pre: SinkState,
    first: ControlSequence,
    mid: SinkState,
    second: ControlSequence,
    held: SinkState,
    post: SinkState,
)
    requires
        queued(true, pre, first, mid, true),
        queued(true, mid, second, held, true),
        flushed(held, post),
    ensures
        post.pending.len() == 0,
        post.transmitted == pre.stream() + sequence_bytes(first) + sequence_bytes(second),
        post.transmitted == pre.stream() + sequence_bytes(first + second),
        pre.stream().len() == 0 ==> post.transmitted == sequence_bytes(first) + sequence_bytes(
            second,
        ),
{
    lemma_sequence_bytes_concat(first, second);
}

/// Where control sequences are not honoured the two dispatchers do the same:
/// each leaves the sink as it was, whether the direct call succeeds or fails.
pub proof fn lemma_legacy_dispatchers_agree(
    pre: SinkState,
    text: ControlSequence,
    post: SinkState,
    ok: bool,
)
    ensures
        queued(false, pre, text, post, ok) <==> executed(false, pre, text, post, ok),
        queued(false, pre, text, post, ok) <==> post == pre,
{
}

/// A sink that has shut takes no sequence: where control sequences are
/// honoured, both dispatchers fail on it and leave it as it was.
pub proof fn lemma_closed_sink_is_left_alone(
    pre: SinkState,
    text: ControlSequence,
    post: SinkState,
    ok: bool,
)
    requires
        pre.closed,
        queued(true, pre, text, post, ok) || executed(true, pre, text, post, ok),
    ensures
        !ok,
        post == pre,
{
}

/// A queue that fails has changed nothing in the sink, whichever way of
/// delivery was due.
pub proof fn lemma_failed_queue_changes_nothing(
    supports_ansi: bool,
    pre: SinkState,
    text: ControlSequence,
    post: SinkState,
)
    requires
        queued(supports_ansi, pre, text, post, false),
    ensures
        post == pre,
{
}

/// No dispatch, successful or failed, takes back or reorders a byte: what
/// the sink had taken is the beginning of what it has taken afterwards, and
/// what it had transmitted is the beginning of what it has transmitted
/// afterwards.
pub proof fn lemma_dispatch_only_appends(
    supports_ansi: bool,
    pre: SinkState,
    text: ControlSequence,
    post: SinkState,
    ok: bool,
)
    requires
        queued(supports_ansi, pre, text, post, ok) || executed(supports_ansi, pre, text, post, ok),
    ensures
        pre.stream().is_prefix_of(post.stream()),
        pre.transmitted.is_prefix_of(post.transmitted),
{
}

} // verus!
