//! Services: a request and a response message under the service's namespace.
use vstd::prelude::*;
use crate::ident::{is_ident, plain_name_verdict, validate_plain_name, NameError};
use crate::message::{message_text, message_wf, Message};

verus! {

/// A request/response pair.
#[derive(Debug, Clone)]
pub struct Service {
    pub name: String,
    pub request: Message,
    pub response: Message,
}

pub open spec fn service_wf(s: Service) -> bool {
    is_ident(s.name@) && message_wf(s.request) && message_wf(s.response)
}

/// A module named after the service holding both messages, request first.
pub open spec fn service_text(s: Service, slice: Seq<char>, interop: bool) -> Seq<char> {
    "pub mod "@ + s.name@ + " {\n"@ + message_text(s.request, ""@, slice, interop) + message_text(
        s.response,
        ""@,
        slice,
        interop,
    ) + "}\n"@
}

impl Service {
    /// A service, once its name is checked (free of `/`, ASCII).
    pub fn new(name: String, request: Message, response: Message) -> (r: Result<
        Service,
        NameError,
    >)
        ensures
            r is Ok <==> plain_name_verdict(name@) is None,
            r matches Err(e) ==> plain_name_verdict(name@) == Some(e),
            r matches Ok(s) ==> s.name@ == name@ && s.request == request && s.response
                == response && (is_ident(name@) && message_wf(request) && message_wf(response)
                ==> service_wf(s)),
    {
        validate_plain_name(name.as_str())?;
        Ok(Service { name, request, response })
    }

    /// Appends the service's module.
    pub fn push_text(&self, out: &mut String, slice: &str, interop: bool)
        ensures
            final(out)@ == old(out)@ + service_text(*self, slice@, interop),
    {
        let ghost start = out@;
        out.append("pub mod ");
        out.append(self.name.as_str());
        out.append(" {\n");
        self.request.push_text(out, "", slice, interop);
        self.response.push_text(out, "", slice, interop);
        out.append("}\n");
        assert(out@ =~= start + service_text(*self, slice@, interop));
    }
}

} // verus!
