//! Fault containment: how the outcome of a run is classified and rendered into the
//! single message that crosses into the host as a typed exception.
use vstd::prelude::*;
use vstd::string::StringExecFns;

verus! {

#[verifier::external_type_specification]
#[verifier::external_body]
pub struct ExBwtError(bwt::Error);

/// Separator placed between two causes of an error chain.
pub open spec fn cause_separator() -> Seq<char> {
    seq![':', ' ']
}

/// The causes of an error chain, outermost first, joined by the separator.
pub open spec fn joined(parts: Seq<Seq<char>>) -> Seq<char>
    decreases parts.len(),
{
    if parts.len() == 0 {
        Seq::empty()
    } else if parts.len() == 1 {
        parts[0]
    } else {
        joined(parts.drop_last()) + cause_separator() + parts.last()
    }
}

/// The text views of a list of strings.
pub open spec fn texts(v: Seq<String>) -> Seq<Seq<char>> {
    v.map_values(|s: String| s@)
}

/// Message used when a fault carries no readable payload.
pub open spec fn unknown_panic_text() -> Seq<char> {
    seq!['u', 'n', 'k', 'n', 'o', 'w', 'n', ' ', 'p', 'a', 'n', 'i', 'c']
}

/// What an unwinding fault carried, as far as the bridge can read it.
pub enum PanicPayload {
    /// The payload was a string (borrowed or owned).
    Text(String),
    /// The payload was of some other type.
    Opaque,
}

/// A failed run, before it is rendered for the host.
pub enum Failure {
    /// The host asked for the run to stop; not surfaced as an error.
    Canceled,
    /// A propagated error, as its chain of causes, outermost first.
    Causes(Vec<String>),
    /// An unwinding fault inside the bridge or the engine.
    Panic(PanicPayload),
}

/// The message reported for a fault payload.
pub open spec fn panic_text(p: PanicPayload) -> Seq<char> {
    match p {
        PanicPayload::Text(s) => s@,
        PanicPayload::Opaque => unknown_panic_text(),
    }
}

/// What the host observes for an outcome: `None` for a normal return, or the
/// message of the typed exception.
pub open spec fn reported(outcome: Result<(), Failure>) -> Option<Seq<char>> {
    match outcome {
        Ok(()) => None,
        Err(Failure::Canceled) => None,
        Err(Failure::Causes(c)) => Some(joined(texts(c@))),
        Err(Failure::Panic(p)) => Some(panic_text(p)),
    }
}

/// Only success and cooperative cancellation return normally: an engine error or a
/// fault always reaches the host as an exception.
pub proof fn lemma_only_cancel_absorbed(outcome: Result<(), Failure>)
    ensures
        reported(outcome) is None <==> (outcome is Ok || outcome == Err::<(), Failure>(
            Failure::Canceled,
        )),
{
}

/// Renders an error chain as one line, causes joined by `": "`.
pub fn fmt_error(causes: &Vec<String>) -> (r: String)
    ensures
        r@ == joined(texts(causes@)),
{
    let mut out = String::new();
    let mut i: usize = 0;
    while i < causes.len()
        invariant
            i <= causes.len(),
            out@ == joined(texts(causes@.subrange(0, i as int))),
        decreases causes.len() - i,
    {
        proof {
            reveal_strlit(": ");
            let pre = texts(causes@.subrange(0, i as int));
            let next = texts(causes@.subrange(0, i as int + 1));
            assert(next.drop_last() =~= pre);
            assert(next.last() == causes@[i as int]@);
        }
        if i > 0 {
            out.append(": ");
        }
        out.append(causes[i].as_str());
        i = i + 1;
    }
    assert(causes@.subrange(0, causes.len() as int) =~= causes@);
    out
}

/// Renders the payload of an unwinding fault: its text when it carried a string,
/// else `unknown panic`.
pub fn fmt_panic(err: &PanicPayload) -> (r: String)
    ensures
        r@ == panic_text(*err),
{
    match err {
        PanicPayload::Text(s) => s.clone(),
        PanicPayload::Opaque => {
            proof {
                reveal_strlit("unknown panic");
            }
            String::from_str("unknown panic")
        },
    }
}

/// Classifies the outcome of a run: success and cooperative cancellation return
/// normally; every other failure becomes the exception's message.
pub fn classify_outcome(outcome: &Result<(), Failure>) -> (r: Result<(), String>)
    ensures
        r is Ok <==> reported(*outcome) is None,
        r is Err ==> reported(*outcome) == Some(r->Err_0@),
{
    match outcome {
        Ok(()) => Ok(()),
        Err(Failure::Canceled) => Ok(()),
        Err(Failure::Causes(c)) => Err(fmt_error(c)),
        Err(Failure::Panic(p)) => Err(fmt_panic(p)),
    }
}

/// The failure for an engine error, from what was read of it: whether it is the
/// cancellation marker, and its causes.
pub fn failure_of(canceled: bool, causes: Vec<String>) -> (r: Failure)
    ensures
        canceled ==> r is Canceled,
        !canceled ==> r == Failure::Causes(causes),
{
    if canceled {
        Failure::Canceled
    } else {
        Failure::Causes(causes)
    }
}

/// Whether an engine error is bwt's cooperative-cancellation marker, as
/// `downcast_ref::<BwtError>` finds it.
pub uninterp spec fn canceled_of(e: bwt::Error) -> bool;

/// Relies on `anyhow::Error::downcast_ref::<bwt::error::BwtError>`: whether the error
/// is bwt's cooperative-cancellation marker; it depends on the error alone.
#[verifier::external_body]
fn is_canceled(e: &bwt::Error) -> (r: bool)
    ensures
        r == canceled_of(*e),
{
    matches!(e.downcast_ref::<bwt::error::BwtError>(), Some(bwt::error::BwtError::Canceled))
}

/// Relies on `anyhow::Error::chain` and each cause's `Display`: the rendered causes,
/// outermost first; the chain always starts with the error itself. The text of a
/// cause may depend on the process (an OS error is described in the locale), so
/// nothing more is stated of it.
#[verifier::external_body]
fn error_causes(e: &bwt::Error) -> (r: Vec<String>)
    ensures
        r@.len() >= 1,
{
    e.chain().map(|cause| cause.to_string()).collect()
}

/// The failure for an error propagated out of the engine: the cancellation marker,
/// or the error's chain of causes.
pub fn failure_of_error(e: &bwt::Error) -> (r: Failure)
    ensures
        r is Canceled <==> canceled_of(*e),
        !(r is Panic),
        r is Causes ==> r->Causes_0@.len() >= 1,
{
    let canceled = is_canceled(e);
    let causes = error_causes(e);
    failure_of(canceled, causes)
}

} // verus!
