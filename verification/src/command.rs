//! Commands and the two dispatchers.

use vstd::prelude::*;
use vstd::utf8::encode_utf8;
use crate::error::ErrorKind;
use crate::sink::{accepted, Sink, SinkState};

verus! {

/// The text of a control sequence, as the verifier sees it.
pub type ControlSequence = Seq<char>;

/// The bytes that carry a control sequence to the terminal: the UTF-8
/// encoding of its text.
pub open spec fn sequence_bytes(text: ControlSequence) -> Seq<u8> {
    encode_utf8(text)
}

/// A successful write of `bytes` followed by a successful flush: the sink was
/// open, all that was written before has been transmitted and `bytes` after
/// it, and the sink holds nothing back.
pub open spec fn delivered(pre: SinkState, bytes: Seq<u8>, post: SinkState) -> bool {
    &&& !pre.closed
    &&& post.transmitted == pre.stream() + bytes
    &&& post.pending == Seq::<u8>::empty()
}

/// What queuing a command whose sequence is `text` does to a sink, from `pre`
/// to `post`; `ok` tells whether the dispatch succeeded.
///
/// Where sequences are honoured a success means that the sink has accepted
/// the sequence, and a failure that it has refused it and is as before. Where
/// they are not, the sink plays no part.
pub open spec fn queued(
    supports_ansi: bool,
    pre: SinkState,
    text: ControlSequence,
    post: SinkState,
    ok: bool,
) -> bool {
    if supports_ansi && ok {
        accepted(pre, sequence_bytes(text), post)
    } else {
        post == pre
    }
}

/// What executing a command whose sequence is `text` does to a sink, from
/// `pre` to `post`; `ok` tells whether the dispatch succeeded.
///
/// Where sequences are honoured a success means that the sequence has been
/// transmitted with all that came before it. A failure leaves the sink as it
/// was if the write was refused, and with the sequence accepted if the flush
/// failed. Where sequences are not honoured, the sink plays no part.
pub open spec fn executed(
    supports_ansi: bool,
    pre: SinkState,
    text: ControlSequence,
    post: SinkState,
    ok: bool,
) -> bool {
    if !supports_ansi {
        post == pre
    } else if ok {
        delivered(pre, sequence_bytes(text), post)
    } else {
        post == pre || accepted(pre, sequence_bytes(text), post)
    }
}

/// One terminal operation, which can be delivered in two ways.
///
/// An implementor has to see to it that the two ways change the terminal
/// alike; nothing here can check that.
pub trait Command {
    /// The control sequence that stands for this command.
    spec fn ansi_text(&self) -> ControlSequence;

    /// Renders the control sequence. The result depends on the command alone,
    /// so two calls on one command return the same text.
    fn ansi_code(&self) -> (code: String)
        ensures
            code@ == self.ansi_text(),
    ;

    /// Carries the command out by a direct call on the console, for consoles
    /// that do not honour control sequences.
    fn execute_winapi(&self) -> (res: Result<(), ErrorKind>);
}

/// How a dispatch ended, the sink left aside: with success, or with the
/// failure that `res` holds.
pub open spec fn outcome_of<S>(res: Result<S, ErrorKind>) -> Result<(), ErrorKind> {
    match res {
        Ok(_) => Ok(()),
        Err(failure) => Err(failure),
    }
}

/// The sink as a dispatch leaves it to its caller: the one that a success
/// hands back, and `otherwise` after a failure.
pub open spec fn sink_after<W>(res: Result<&mut W, ErrorKind>, otherwise: W) -> W {
    match res {
        Ok(sink) => *sink,
        Err(_) => otherwise,
    }
}

/// Turns the outcome of a delivery into the result of a dispatch: the sink
/// itself after a success, so that dispatches can be chained, and the failure
/// as it came otherwise. The sink is not touched.
pub fn conclude<W>(sink: &mut W, outcome: Result<(), ErrorKind>) -> (res: Result<
    &mut W,
    ErrorKind,
>)
    ensures
        outcome_of(res) == outcome,
        sink_after(res, *final(sink)) == *old(sink),
        res matches Ok(same) ==> *final(sink) == *final(same),
{
    match outcome {
        Ok(unit) => {
            assert(unit == ());
            Ok(sink)
        },
        Err(failure) => Err(failure),
    }
}

/// Sinks into which commands can be queued.
pub trait QueueableCommand: Sink + Sized {
    /// Queues `command`.
    ///
    /// Where control sequences are honoured (`supports_ansi`), the sequence of
    /// the command is written into the sink, which transmits it when it is
    /// flushed or sees fit. Where they are not, nothing can be put off: the
    /// command is carried out at once by its direct call, as
    /// [`ExecutableCommand::execute`] does it, and the sink is left alone.
    ///
    /// The dispatch ends as the write or the direct call ends: it succeeds
    /// where that succeeds, and fails with the failure of that. A success
    /// returns the sink, for the next dispatch.
    fn queue<C: Command>(&mut self, command: C, supports_ansi: bool) -> (res: Result<
        &mut Self,
        ErrorKind,
    >)
        ensures
            // The sink that a success returns is the one that was given.
            res matches Ok(sink) ==> *final(self) == *final(sink),
            // What the sink has taken.
            queued(
                supports_ansi,
                old(self).state(),
                command.ansi_text(),
                sink_after(res, *final(self)).state(),
                res is Ok,
            ),
            // The dispatch ends as one write of the sequence into the sink
            // ends, by the contract that the sink has for its writes.
            supports_ansi ==> (exists|sink: &mut Self, bytes: &[u8]|
                {
                    &&& *sink == *old(self)
                    &&& *final(sink) == sink_after(res, *final(self))
                    &&& bytes@ == sequence_bytes(command.ansi_text())
                    &&& #[trigger] call_ensures(Self::write_all, (sink, bytes), outcome_of(res))
                }),
            // Or as the direct call ends, by the contract that the command
            // has for it; the sink is as it was.
            !supports_ansi ==> sink_after(res, *final(self)) == *old(self),
            !supports_ansi ==> call_ensures(C::execute_winapi, (&command,), outcome_of(res)),
    ;
}

/// Sinks on which commands can be executed.
pub trait ExecutableCommand: Sink + Sized {
    /// Executes `command`.
    ///
    /// Where control sequences are honoured (`supports_ansi`), the sequence of
    /// the command is written into the sink and the sink is flushed, so that
    /// the sequence has been transmitted when the call returns. Where they are
    /// not, the command is carried out at once by its direct call, and the
    /// sink is left alone.
    ///
    /// The dispatch ends as the write ends if that fails, and no flush is
    /// tried; else as the flush ends. Without control sequences it ends as
    /// the direct call ends. A success returns the sink, for the next
    /// dispatch.
    fn execute<C: Command>(&mut self, command: C, supports_ansi: bool) -> (res: Result<
        &mut Self,
        ErrorKind,
    >)
        ensures
            // The sink that a success returns is the one that was given.
            res matches Ok(sink) ==> *final(self) == *final(sink),
            // What the sink has taken and transmitted.
            executed(
                supports_ansi,
                old(self).state(),
                command.ansi_text(),
                sink_after(res, *final(self)).state(),
                res is Ok,
            ),
            // The dispatch ends as one write of the sequence into the sink
            // ends if that fails, and else as one flush after it ends, each
            // by the contract that the sink has for it.
            supports_ansi ==> (exists|sink: &mut Self, bytes: &[u8], written: Result<(), ErrorKind>|
                {
                    &&& *sink == *old(self)
                    &&& bytes@ == sequence_bytes(command.ansi_text())
                    &&& #[trigger] call_ensures(Self::write_all, (sink, bytes), written)
                    &&& written is Err ==> {
                        &&& *final(sink) == sink_after(res, *final(self))
                        &&& outcome_of(res) == written
                    }
                    &&& written is Ok ==> (exists|held: &mut Self|
                        {
                            &&& *held == *final(sink)
                            &&& *final(held) == sink_after(res, *final(self))
                            &&& #[trigger] call_ensures(Self::flush, (held,), outcome_of(res))
                        })
                }),
            // Or as the direct call ends, by the contract that the command
            // has for it; the sink is as it was.
            !supports_ansi ==> sink_after(res, *final(self)) == *old(self),
            !supports_ansi ==> call_ensures(C::execute_winapi, (&command,), outcome_of(res)),
    ;
}

impl<W: Sink> QueueableCommand for W {
    fn queue<C: Command>(&mut self, command: C, supports_ansi: bool) -> (res: Result<
        &mut Self,
        ErrorKind,
    >) {
        if supports_ansi {
            let code = command.ansi_code();
            let written = self.write_all(code.as_str().as_bytes());
            conclude(self, written)
        } else {
            let done = command.execute_winapi();
            conclude(self, done)
        }
    }
}

impl<W: Sink> ExecutableCommand for W {
    fn execute<C: Command>(&mut self, command: C, supports_ansi: bool) -> (res: Result<
        &mut Self,
        ErrorKind,
    >) {
        if supports_ansi {
            let code = command.ansi_code();
            match self.write_all(code.as_str().as_bytes()) {
                Ok(()) => {
                    let flushed = self.flush();
                    conclude(self, flushed)
                },
                Err(refused) => conclude(self, Err(refused)),
            }
        } else {
            let done = command.execute_winapi();
            conclude(self, done)
        }
    }
}

} // verus!
