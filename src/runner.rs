use vstd::prelude::*;
use vstd::string::StringExecFns;

verus! {

/// How a stage's run logic ended.
#[derive(Debug)]
pub enum StageExit {
    /// It returned, with success or its own failure message.
    Returned(Result<(), String>),
    /// It panicked; the payload's text, where the payload was a string.
    Panicked(Option<String>),
}

/// The failure message reported for a panic whose payload reads `payload`.
pub open spec fn panic_reason(payload: Option<Seq<char>>) -> Seq<char> {
    match payload {
        Some(text) => "Panicked: "@ + text,
        None => "Panicked: Unknown error"@,
    }
}

/// The view of a panic payload's text.
pub open spec fn payload_view(payload: Option<String>) -> Option<Seq<char>> {
    match payload {
        Some(text) => Some(text@),
        None => None,
    }
}

/// The outcome that a stage's completion signal reports for `exit`: what the
/// run logic returned, or a failure describing the panic.
pub fn stage_report(exit: StageExit) -> (r: Result<(), String>)
    ensures
        exit matches StageExit::Returned(res) ==> r == res,
        exit matches StageExit::Panicked(payload) ==> r is Err
            && r->Err_0@ == panic_reason(payload_view(payload)),
{
    match exit {
        StageExit::Returned(res) => res,
        StageExit::Panicked(Some(text)) => {
            let mut reason = String::from_str("Panicked: ");
            reason.append(text.as_str());
            Err(reason)
        },
        StageExit::Panicked(None) => Err(String::from_str("Panicked: Unknown error")),
    }
}

/// A panic is always reported with a non-empty reason.
pub proof fn lemma_panic_reason_nonempty(payload: Option<Seq<char>>)
    ensures
        panic_reason(payload).len() > 0,
{
    reveal_strlit("Panicked: ");
    reveal_strlit("Panicked: Unknown error");
}

} // verus!
