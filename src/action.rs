//! Actions: goal, result and feedback messages, and the wrapper messages of
//! the two-phase goal protocol, under the action's namespace.
use vstd::prelude::*;
use crate::ident::{is_ident, plain_name_verdict, validate_plain_name, NameError};
use crate::message::{message_text, message_wf, Message};

verus! {

/// A goal/result/feedback triple.
#[derive(Debug, Clone)]
pub struct Action {
    pub name: String,
    pub goal: Message,
    pub result: Message,
    pub feedback: Message,
}

pub open spec fn action_wf(a: Action) -> bool {
    is_ident(a.name@) && message_wf(a.goal) && message_wf(a.result) && message_wf(a.feedback)
}

/// A derived struct with the given field lines, and its interop struct when
/// `interop` is set.
pub open spec fn wrapper(name: Seq<char>, native: Seq<char>, ffi: Seq<char>, interop: bool) -> Seq<
    char,
> {
    "#[derive(Debug, Clone, PartialEq)]\npub struct "@ + name + " {\n"@ + native + "}\n"@ + (if interop {
        "#[repr(C)]\npub struct "@ + name + "Ffi {\n"@ + ffi + "}\n"@
    } else {
        Seq::empty()
    })
}

/// A derived struct whose last field holds the message `target`.
pub open spec fn wrapper_with_ref(
    name: Seq<char>,
    lead: Seq<char>,
    field: Seq<char>,
    target: Seq<char>,
    interop: bool,
) -> Seq<char> {
    wrapper(
        name,
        lead + "pub "@ + field + ": "@ + target + ",\n"@,
        lead + "pub "@ + field + ": "@ + target + "Ffi,\n"@,
        interop,
    )
}

pub open spec fn goal_id_line() -> Seq<char> {
    "pub goal_id: [u8; 16],\n"@
}

pub open spec fn accepted_lines() -> Seq<char> {
    "pub accepted: bool,\npub stamp_sec: i32,\npub stamp_nanosec: u32,\n"@
}

/// The wrapper messages of the goal protocol: the send-goal request and
/// response, the get-result request and response, and the feedback message.
pub open spec fn synthesized_text(a: Action, interop: bool) -> Seq<char> {
    wrapper_with_ref("SendGoalRequest"@, goal_id_line(), "goal"@, a.goal.name@, interop)
        + wrapper("SendGoalResponse"@, accepted_lines(), accepted_lines(), interop) + wrapper(
        "GetResultRequest"@,
        goal_id_line(),
        goal_id_line(),
        interop,
    ) + wrapper_with_ref("GetResultResponse"@, "pub status: i8,\n"@, "result"@, a.result.name@, interop)
        + wrapper_with_ref("FeedbackMessage"@, goal_id_line(), "feedback"@, a.feedback.name@, interop)
}

/// A module named after the action: goal, result, feedback, then the
/// wrapper messages.
pub open spec fn action_text(a: Action, slice: Seq<char>, interop: bool) -> Seq<char> {
    "pub mod "@ + a.name@ + " {\n"@ + message_text(a.goal, ""@, slice, interop) + message_text(
        a.result,
        ""@,
        slice,
        interop,
    ) + message_text(a.feedback, ""@, slice, interop) + synthesized_text(a, interop) + "}\n"@
}

fn push_wrapper(out: &mut String, name: &str, native: &str, ffi: &str, interop: bool)
    ensures
        final(out)@ == old(out)@ + wrapper(name@, native@, ffi@, interop),
{
    let ghost start = out@;
    out.append("#[derive(Debug, Clone, PartialEq)]\npub struct ");
    out.append(name);
    out.append(" {\n");
    out.append(native);
    out.append("}\n");
    if interop {
        out.append("#[repr(C)]\npub struct ");
        out.append(name);
        out.append("Ffi {\n");
        out.append(ffi);
        out.append("}\n");
    }
    assert(out@ =~= start + wrapper(name@, native@, ffi@, interop));
}

fn push_wrapper_with_ref(
    out: &mut String,
    name: &str,
    lead: &str,
    field: &str,
    target: &str,
    interop: bool,
)
    ensures
        final(out)@ == old(out)@ + wrapper_with_ref(name@, lead@, field@, target@, interop),
{
    let mut native = String::new();
    native.append(lead);
    native.append("pub ");
    native.append(field);
    native.append(": ");
    native.append(target);
    native.append(",\n");
    let mut ffi = String::new();
    ffi.append(lead);
    ffi.append("pub ");
    ffi.append(field);
    ffi.append(": ");
    ffi.append(target);
    ffi.append("Ffi,\n");
    assert(native@ =~= lead@ + "pub "@ + field@ + ": "@ + target@ + ",\n"@);
    assert(ffi@ =~= lead@ + "pub "@ + field@ + ": "@ + target@ + "Ffi,\n"@);
    push_wrapper(out, name, native.as_str(), ffi.as_str(), interop);
}

impl Action {
    /// An action, once its name is checked (free of `/`, ASCII).
    pub fn new(name: String, goal: Message, result: Message, feedback: Message) -> (r: Result<
        Action,
        NameError,
    >)
        ensures
            r is Ok <==> plain_name_verdict(name@) is None,
            r matches Err(e) ==> plain_name_verdict(name@) == Some(e),
            r matches Ok(a) ==> a.name@ == name@ && a.goal == goal && a.result == result
                && a.feedback == feedback && (is_ident(name@) && message_wf(goal) && message_wf(
                result,
            ) && message_wf(feedback) ==> action_wf(a)),
    {
        validate_plain_name(name.as_str())?;
        Ok(Action { name, goal, result, feedback })
    }

    /// Appends the wrapper messages of the goal protocol.
    pub fn push_synthesized(&self, out: &mut String, interop: bool)
        ensures
            final(out)@ == old(out)@ + synthesized_text(*self, interop),
    {
        let ghost start = out@;
        let goal_id = "pub goal_id: [u8; 16],\n";
        let accepted = "pub accepted: bool,\npub stamp_sec: i32,\npub stamp_nanosec: u32,\n";
        push_wrapper_with_ref(
            out,
            "SendGoalRequest",
            goal_id,
            "goal",
            self.goal.name.as_str(),
            interop,
        );
        push_wrapper(out, "SendGoalResponse", accepted, accepted, interop);
        push_wrapper(out, "GetResultRequest", goal_id, goal_id, interop);
        push_wrapper_with_ref(
            out,
            "GetResultResponse",
            "pub status: i8,\n",
            "result",
            self.result.name.as_str(),
            interop,
        );
        push_wrapper_with_ref(
            out,
            "FeedbackMessage",
            goal_id,
            "feedback",
            self.feedback.name.as_str(),
            interop,
        );
        assert(out@ =~= start + synthesized_text(*self, interop));
    }

    /// Appends the action's module.
    pub fn push_text(&self, out: &mut String, slice: &str, interop: bool)
        ensures
            final(out)@ == old(out)@ + action_text(*self, slice@, interop),
    {
        let ghost start = out@;
        out.append("pub mod ");
        out.append(self.name.as_str());
        out.append(" {\n");
        self.goal.push_text(out, "", slice, interop);
        self.result.push_text(out, "", slice, interop);
        self.feedback.push_text(out, "", slice, interop);
        self.push_synthesized(out, interop);
        out.append("}\n");
        assert(out@ =~= start + action_text(*self, slice@, interop));
    }
}

} // verus!
