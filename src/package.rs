//! Packages: the unit of emission. A package becomes one module that nests a
//! `msg`, a `srv` and an `action` module, or, in the flat form, plain struct
//! definitions together with a module of aliases to them.
use vstd::prelude::*;
use crate::action::{action_text, action_wf, Action};
use crate::ident::{ident_text, is_ident, plain_name_verdict, validate_plain_name, NameError};
use crate::message::{
    alias_text, constants_block, interop_struct, lemma_interop_adds_only, message_text, message_wf,
    native_struct, Message,
};
use crate::service::{service_text, service_wf, Service};

verus! {

/// A named collection of messages, services and actions.
#[derive(Debug)]
pub struct Package {
    pub name: String,
    pub messages: Vec<Message>,
    pub services: Vec<Service>,
    pub actions: Vec<Action>,
}

/// Every name in the package is an identifier.
pub open spec fn package_wf(p: Package) -> bool {
    &&& is_ident(p.name@)
    &&& forall|i: int| 0 <= i < p.messages@.len() ==> message_wf(#[trigger] p.messages@[i])
    &&& forall|i: int| 0 <= i < p.services@.len() ==> service_wf(#[trigger] p.services@[i])
    &&& forall|i: int| 0 <= i < p.actions@.len() ==> action_wf(#[trigger] p.actions@[i])
}

pub open spec fn messages_text(ms: Seq<Message>, prefix: Seq<char>, slice: Seq<char>, interop: bool) -> Seq<
    char,
>
    decreases ms.len(),
{
    if ms.len() == 0 {
        Seq::empty()
    } else {
        messages_text(ms.drop_last(), prefix, slice, interop) + message_text(
            ms.last(),
            prefix,
            slice,
            interop,
        )
    }
}

pub open spec fn aliases_text(ms: Seq<Message>, prefix: Seq<char>, interop: bool) -> Seq<char>
    decreases ms.len(),
{
    if ms.len() == 0 {
        Seq::empty()
    } else {
        aliases_text(ms.drop_last(), prefix, interop) + alias_text(ms.last(), prefix, interop)
    }
}

pub open spec fn services_text(ss: Seq<Service>, slice: Seq<char>, interop: bool) -> Seq<char>
    decreases ss.len(),
{
    if ss.len() == 0 {
        Seq::empty()
    } else {
        services_text(ss.drop_last(), slice, interop) + service_text(ss.last(), slice, interop)
    }
}

pub open spec fn actions_text(acts: Seq<Action>, slice: Seq<char>, interop: bool) -> Seq<char>
    decreases acts.len(),
{
    if acts.len() == 0 {
        Seq::empty()
    } else {
        actions_text(acts.drop_last(), slice, interop) + action_text(acts.last(), slice, interop)
    }
}

/// The path by which every interop struct refers to the slice type: it is
/// declared once, outside every package, by the support module.
pub open spec fn interop_slice() -> Seq<char> {
    "crate::interop::FfiSlice"@
}

/// The support module: the C-layout pointer and length that stands for a
/// sequence in the interop layer.
pub open spec fn interop_support_text() -> Seq<char> {
    "pub mod interop {\n#[repr(C)]\npub struct FfiSlice<T> {\npub ptr: *const T,\npub len: usize,\n}\n}\n"@
}

pub open spec fn if_interop(interop: bool, text: Seq<char>) -> Seq<char> {
    if interop {
        text
    } else {
        Seq::empty()
    }
}

/// The prefix of the flat struct names.
pub open spec fn flat_prefix(name: Seq<char>) -> Seq<char> {
    name + "__"@
}

pub open spec fn msg_module(p: Package, interop: bool) -> Seq<char> {
    "pub mod msg {\n"@ + messages_text(p.messages@, ""@, interop_slice(), interop) + "}\n"@
}

pub open spec fn srv_module(p: Package, interop: bool) -> Seq<char> {
    "pub mod srv {\n"@ + services_text(p.services@, interop_slice(), interop) + "}\n"@
}

pub open spec fn action_module(p: Package, interop: bool) -> Seq<char> {
    "pub mod action {\n"@ + actions_text(p.actions@, interop_slice(), interop) + "}\n"@
}

/// The full module: `msg`, `srv` and `action`, each present even when its
/// collection is empty.
pub open spec fn package_text(p: Package, interop: bool) -> Seq<char> {
    "pub mod "@ + p.name@ + " {\n"@ + msg_module(p, interop)
        + srv_module(p, interop) + action_module(p, interop) + "}\n"@
}

/// The flat definitions: every message's structs, in order, named with the
/// package's prefix.
pub open spec fn definitions_text(p: Package, interop: bool) -> Seq<char> {
    messages_text(p.messages@, flat_prefix(p.name@), interop_slice(), interop)
}

/// The module of aliases to the flat definitions.
pub open spec fn aliases_module_text(p: Package, interop: bool) -> Seq<char> {
    "pub mod "@ + p.name@ + " {\n"@ + alias_msg_module(p, interop) + "}\n"@
}

/// The `msg` module of aliases, present even when there are no messages.
pub open spec fn alias_msg_module(p: Package, interop: bool) -> Seq<char> {
    "pub mod msg {\n"@ + aliases_text(p.messages@, flat_prefix(p.name@), interop) + "}\n"@
}

pub open spec fn package_is_empty(p: Package) -> bool {
    p.messages@.len() == 0 && p.services@.len() == 0 && p.actions@.len() == 0
}

/// Emission is deterministic: equal packages give equal text in every form.
/// Each emitting method reads only its own package, so packages emitted side
/// by side give the same texts as when emitted one after the other.
pub proof fn lemma_emission_deterministic(p: Package, q: Package, interop: bool)
    requires
        p == q,
    ensures
        package_text(p, interop) == package_text(q, interop),
        definitions_text(p, interop) == definitions_text(q, interop),
        aliases_module_text(p, interop) == aliases_module_text(q, interop),
{
}

/// A package with no messages, services or actions still emits its module
/// with three empty modules `msg`, `srv` and `action`, with or without the
/// interop layer; its flat definitions are empty.
pub proof fn lemma_empty_package(p: Package, interop: bool)
    requires
        package_is_empty(p),
    ensures
        package_text(p, interop) == "pub mod "@ + p.name@
            + " {\npub mod msg {\n}\npub mod srv {\n}\npub mod action {\n}\n}\n"@,
        definitions_text(p, interop) == Seq::<char>::empty(),
{
    let e = Seq::<char>::empty();
    assert(messages_text(p.messages@, ""@, interop_slice(), interop) == e);
    assert(services_text(p.services@, interop_slice(), interop) == e);
    assert(actions_text(p.actions@, interop_slice(), interop) == e);
    assert(definitions_text(p, interop) == e);
    assert(msg_module(p, interop) =~= "pub mod msg {\n}\n"@) by {
        reveal_strlit("pub mod msg {\n");
        reveal_strlit("}\n");
        reveal_strlit("pub mod msg {\n}\n");
    }
    assert(srv_module(p, interop) =~= "pub mod srv {\n}\n"@) by {
        reveal_strlit("pub mod srv {\n");
        reveal_strlit("}\n");
        reveal_strlit("pub mod srv {\n}\n");
    }
    assert(action_module(p, interop) =~= "pub mod action {\n}\n"@) by {
        reveal_strlit("pub mod action {\n");
        reveal_strlit("}\n");
        reveal_strlit("pub mod action {\n}\n");
    }
    assert(" {\n"@ + "pub mod msg {\n}\n"@ + "pub mod srv {\n}\n"@ + "pub mod action {\n}\n"@
        + "}\n"@ =~= " {\npub mod msg {\n}\npub mod srv {\n}\npub mod action {\n}\n}\n"@) by {
        reveal_strlit(" {\n");
        reveal_strlit("pub mod msg {\n}\n");
        reveal_strlit("pub mod srv {\n}\n");
        reveal_strlit("pub mod action {\n}\n");
        reveal_strlit("}\n");
        reveal_strlit(" {\npub mod msg {\n}\npub mod srv {\n}\npub mod action {\n}\n}\n");
    }
    let head = "pub mod "@ + p.name@;
    assert(package_text(p, interop) =~= head + (" {\n"@ + "pub mod msg {\n}\n"@
        + "pub mod srv {\n}\n"@ + "pub mod action {\n}\n"@ + "}\n"@));
}

/// The messages' text of a list joined from two parts is that of the first
/// part, then that of the second.
pub proof fn lemma_messages_split(
    a: Seq<Message>,
    b: Seq<Message>,
    prefix: Seq<char>,
    slice: Seq<char>,
    interop: bool,
)
    ensures
        messages_text(a + b, prefix, slice, interop) == messages_text(a, prefix, slice, interop)
            + messages_text(b, prefix, slice, interop),
    decreases b.len(),
{
    if b.len() == 0 {
        assert(a + b =~= a);
        assert(messages_text(a, prefix, slice, interop) + messages_text(b, prefix, slice, interop)
            =~= messages_text(a, prefix, slice, interop));
    } else {
        lemma_messages_split(a, b.drop_last(), prefix, slice, interop);
        assert((a + b).drop_last() =~= a + b.drop_last());
        assert((a + b).last() == b.last());
        assert(messages_text(a + b, prefix, slice, interop) =~= messages_text(
            a,
            prefix,
            slice,
            interop,
        ) + messages_text(b, prefix, slice, interop));
    }
}

/// Where message `i` stands in the messages' text: after the messages before
/// it and before those after it, its native struct, then its interop struct
/// when `interop` is set, then its constants.
pub proof fn lemma_message_at(
    ms: Seq<Message>,
    i: int,
    prefix: Seq<char>,
    slice: Seq<char>,
    interop: bool,
)
    requires
        0 <= i < ms.len(),
    ensures
        messages_text(ms, prefix, slice, interop) == messages_text(
            ms.take(i),
            prefix,
            slice,
            interop,
        ) + native_struct(ms[i], prefix) + if_interop(interop, interop_struct(ms[i], prefix, slice))
            + constants_block(ms[i], prefix) + messages_text(ms.skip(i + 1), prefix, slice, interop),
{
    let m = ms[i];
    assert(ms =~= ms.take(i) + seq![m] + ms.skip(i + 1));
    lemma_messages_split(ms.take(i) + seq![m], ms.skip(i + 1), prefix, slice, interop);
    lemma_messages_split(ms.take(i), seq![m], prefix, slice, interop);
    assert(seq![m].drop_last() =~= Seq::<Message>::empty());
    assert(messages_text(Seq::<Message>::empty(), prefix, slice, interop) == Seq::<char>::empty());
    assert(messages_text(seq![m], prefix, slice, interop) =~= message_text(m, prefix, slice, interop));
    lemma_interop_adds_only(m, prefix, slice);
    let before = messages_text(ms.take(i), prefix, slice, interop);
    let after = messages_text(ms.skip(i + 1), prefix, slice, interop);
    let n = native_struct(m, prefix);
    let c = constants_block(m, prefix);
    let x = if_interop(interop, interop_struct(m, prefix, slice));
    assert(message_text(m, prefix, slice, interop) =~= n + x + c);
    assert(before + (n + x + c) + after =~= before + n + x + c + after);
}

proof fn lemma_regroup(h: Seq<char>, a: Seq<char>, b: Seq<char>, c: Seq<char>, d: Seq<char>)
    ensures
        h + (a + b + c + d) == h + a + b + c + d,
{
    assert(h + (a + b + c + d) =~= h + a + b + c + d);
}

proof fn lemma_regroup5(
    h: Seq<char>,
    a: Seq<char>,
    b: Seq<char>,
    c: Seq<char>,
    d: Seq<char>,
    e: Seq<char>,
)
    ensures
        h + (a + b + c + d + e) == h + a + b + c + d + e,
{
    assert(h + (a + b + c + d + e) =~= h + a + b + c + d + e);
}

proof fn lemma_drop_empty(a: Seq<char>, b: Seq<char>, c: Seq<char>, d: Seq<char>)
    ensures
        a + b + Seq::<char>::empty() + c + d == a + b + c + d,
{
    assert(a + b + Seq::<char>::empty() =~= a + b);
}

/// The interop flag leaves every native struct of a package's flat
/// definitions as it is: at the place of each message, the flag only adds
/// that message's interop struct after its native struct.
pub proof fn lemma_definitions_interop_adds_only(p: Package, i: int)
    requires
        0 <= i < p.messages@.len(),
    ensures
        ({
            let ms = p.messages@;
            let m = ms[i];
            let f = flat_prefix(p.name@);
            let s = interop_slice();
            &&& definitions_text(p, false) == messages_text(ms.take(i), f, s, false)
                + native_struct(m, f) + constants_block(m, f) + messages_text(
                ms.skip(i + 1),
                f,
                s,
                false,
            )
            &&& definitions_text(p, true) == messages_text(ms.take(i), f, s, true) + native_struct(
                m,
                f,
            ) + interop_struct(m, f, s) + constants_block(m, f) + messages_text(
                ms.skip(i + 1),
                f,
                s,
                true,
            )
        }),
{
    let ms = p.messages@;
    let m = ms[i];
    let f = flat_prefix(p.name@);
    let s = interop_slice();
    lemma_message_at(ms, i, f, s, false);
    lemma_message_at(ms, i, f, s, true);
    lemma_drop_empty(
        messages_text(ms.take(i), f, s, false),
        native_struct(m, f),
        constants_block(m, f),
        messages_text(ms.skip(i + 1), f, s, false),
    );
}

/// The interop flag leaves every native struct of a package's full module
/// as it is: in `msg`, at the place of each message, the flag only adds that
/// message's interop struct after its native struct.
pub proof fn lemma_module_interop_adds_only(p: Package, i: int)
    requires
        0 <= i < p.messages@.len(),
    ensures
        ({
            let ms = p.messages@;
            let m = ms[i];
            let s = interop_slice();
            &&& msg_module(p, false) == "pub mod msg {\n"@ + messages_text(
                ms.take(i),
                ""@,
                s,
                false,
            ) + native_struct(m, ""@) + constants_block(m, ""@) + messages_text(
                ms.skip(i + 1),
                ""@,
                s,
                false,
            ) + "}\n"@
            &&& msg_module(p, true) == "pub mod msg {\n"@ + messages_text(ms.take(i), ""@, s, true)
                + native_struct(m, ""@) + interop_struct(m, ""@, s) + constants_block(m, ""@)
                + messages_text(ms.skip(i + 1), ""@, s, true) + "}\n"@
        }),
{
    let ms = p.messages@;
    let m = ms[i];
    let s = interop_slice();
    let e = ""@;
    lemma_message_at(ms, i, e, s, false);
    lemma_message_at(ms, i, e, s, true);
    let b = messages_text(ms.take(i), e, s, false);
    let a = messages_text(ms.skip(i + 1), e, s, false);
    lemma_drop_empty(b, native_struct(m, e), constants_block(m, e), a);
    lemma_regroup("pub mod msg {\n"@, b, native_struct(m, e), constants_block(m, e), a);
    lemma_regroup5(
        "pub mod msg {\n"@,
        messages_text(ms.take(i), e, s, true),
        native_struct(m, e),
        interop_struct(m, e, s),
        constants_block(m, e),
        messages_text(ms.skip(i + 1), e, s, true),
    );
}

proof fn lemma_assoc(a: Seq<char>, b: Seq<char>, c: Seq<char>)
    ensures
        a + b + c == a + (b + c),
{
    assert(a + b + c =~= a + (b + c));
}

/// The support module that the interop structs of every package
/// refer to.
pub fn interop_support() -> (r: String)
    ensures
        r@ == interop_support_text(),
{
    let mut out = String::new();
    out.append(
        "pub mod interop {\n#[repr(C)]\npub struct FfiSlice<T> {\npub ptr: *const T,\npub len: usize,\n}\n}\n",
    );
    assert(out@ =~= interop_support_text());
    out
}

impl Package {
    /// An empty package, once its name is checked: it must be free of `/` and
    /// ASCII. Emission asks more of it, that it be an identifier.
    pub fn new(name: String) -> (r: Result<Package, NameError>)
        ensures
            r is Ok <==> plain_name_verdict(name@) is None,
            r matches Err(e) ==> plain_name_verdict(name@) == Some(e),
            r matches Ok(p) ==> p.name@ == name@ && package_is_empty(p) && (is_ident(name@)
                ==> package_wf(p)),
    {
        validate_plain_name(name.as_str())?;
        Ok(Package { name, messages: Vec::new(), services: Vec::new(), actions: Vec::new() })
    }

    /// Whether the package has no messages, services or actions.
    pub fn is_empty(&self) -> (r: bool)
        ensures
            r == package_is_empty(*self),
    {
        self.messages.len() == 0 && self.services.len() == 0 && self.actions.len() == 0
    }

    fn message_structs(&self, out: &mut String, prefix: &str, slice: &str, interop: bool)
        ensures
            final(out)@ == old(out)@ + messages_text(self.messages@, prefix@, slice@, interop),
    {
        let ghost start = out@;
        let mut i: usize = 0;
        while i < self.messages.len()
            invariant
                i <= self.messages@.len(),
                out@ == start + messages_text(
                    self.messages@.take(i as int),
                    prefix@,
                    slice@,
                    interop,
                ),
            decreases self.messages@.len() - i,
        {
            self.messages[i].push_text(out, prefix, slice, interop);
            proof {
                assert(self.messages@.take(i + 1).drop_last() =~= self.messages@.take(i as int));
                assert(self.messages@.take(i + 1).last() == self.messages@[i as int]);
                lemma_assoc(
                    start,
                    messages_text(self.messages@.take(i as int), prefix@, slice@, interop),
                    message_text(self.messages@[i as int], prefix@, slice@, interop),
                );
            }
            i = i + 1;
        }
        assert(self.messages@.take(i as int) =~= self.messages@);
    }

    fn message_aliases(&self, out: &mut String, prefix: &str, interop: bool)
        requires
            prefix@ == flat_prefix(self.name@),
        ensures
            final(out)@ == old(out)@ + alias_msg_module(*self, interop),
    {
        let ghost outer = out@;
        out.append("pub mod msg {\n");
        let ghost start = out@;
        let mut i: usize = 0;
        while i < self.messages.len()
            invariant
                i <= self.messages@.len(),
                out@ == start + aliases_text(self.messages@.take(i as int), prefix@, interop),
            decreases self.messages@.len() - i,
        {
            self.messages[i].push_alias(out, prefix, interop);
            proof {
                assert(self.messages@.take(i + 1).drop_last() =~= self.messages@.take(i as int));
                assert(self.messages@.take(i + 1).last() == self.messages@[i as int]);
                lemma_assoc(
                    start,
                    aliases_text(self.messages@.take(i as int), prefix@, interop),
                    alias_text(self.messages@[i as int], prefix@, interop),
                );
            }
            i = i + 1;
        }
        assert(self.messages@.take(i as int) =~= self.messages@);
        out.append("}\n");
        assert(out@ =~= outer + alias_msg_module(*self, interop));
    }

    fn messages_block(&self, out: &mut String, slice: &str, interop: bool)
        requires
            slice@ == interop_slice(),
        ensures
            final(out)@ == old(out)@ + msg_module(*self, interop),
    {
        let ghost start = out@;
        out.append("pub mod msg {\n");
        self.message_structs(out, "", slice, interop);
        out.append("}\n");
        assert(out@ =~= start + msg_module(*self, interop));
    }

    fn services_block(&self, out: &mut String, slice: &str, interop: bool)
        requires
            slice@ == interop_slice(),
        ensures
            final(out)@ == old(out)@ + srv_module(*self, interop),
    {
        let ghost outer = out@;
        out.append("pub mod srv {\n");
        let ghost start = out@;
        let mut i: usize = 0;
        while i < self.services.len()
            invariant
                i <= self.services@.len(),
                out@ == start + services_text(self.services@.take(i as int), slice@, interop),
            decreases self.services@.len() - i,
        {
            self.services[i].push_text(out, slice, interop);
            proof {
                assert(self.services@.take(i + 1).drop_last() =~= self.services@.take(i as int));
                assert(self.services@.take(i + 1).last() == self.services@[i as int]);
                lemma_assoc(
                    start,
                    services_text(self.services@.take(i as int), slice@, interop),
                    service_text(self.services@[i as int], slice@, interop),
                );
            }
            i = i + 1;
        }
        assert(self.services@.take(i as int) =~= self.services@);
        out.append("}\n");
        assert(out@ =~= outer + srv_module(*self, interop));
    }

    fn actions_block(&self, out: &mut String, slice: &str, interop: bool)
        requires
            slice@ == interop_slice(),
        ensures
            final(out)@ == old(out)@ + action_module(*self, interop),
    {
        let ghost outer = out@;
        out.append("pub mod action {\n");
        let ghost start = out@;
        let mut i: usize = 0;
        while i < self.actions.len()
            invariant
                i <= self.actions@.len(),
                out@ == start + actions_text(self.actions@.take(i as int), slice@, interop),
            decreases self.actions@.len() - i,
        {
            self.actions[i].push_text(out, slice, interop);
            proof {
                assert(self.actions@.take(i + 1).drop_last() =~= self.actions@.take(i as int));
                assert(self.actions@.take(i + 1).last() == self.actions@[i as int]);
                lemma_assoc(
                    start,
                    actions_text(self.actions@.take(i as int), slice@, interop),
                    action_text(self.actions@[i as int], slice@, interop),
                );
            }
            i = i + 1;
        }
        assert(self.actions@.take(i as int) =~= self.actions@);
        out.append("}\n");
        assert(out@ =~= outer + action_module(*self, interop));
    }

    /// The flat definitions of the package's messages: structs named
    /// `<package>__<message>`, and their interop structs when
    /// `gen_cxx_bridge` is set.
    pub fn struct_token_stream(&self, gen_cxx_bridge: bool) -> (r: String)
        requires
            is_ident(self.name@),
        ensures
            r@ == definitions_text(*self, gen_cxx_bridge),
    {
        let package_name = ident_text(self.name.as_str());
        let mut prefix = package_name.clone();
        prefix.append("__");
        let mut out = String::new();
        self.message_structs(&mut out, prefix.as_str(), "crate::interop::FfiSlice", gen_cxx_bridge);
        assert(Seq::<char>::empty() + definitions_text(*self, gen_cxx_bridge) =~= definitions_text(
            *self,
            gen_cxx_bridge,
        ));
        out
    }

    /// The module `<package>::msg` of aliases to the flat definitions.
    pub fn aliases_token_stream(&self, gen_cxx_bridge: bool) -> (r: String)
        requires
            is_ident(self.name@),
        ensures
            r@ == aliases_module_text(*self, gen_cxx_bridge),
    {
        let package_name = ident_text(self.name.as_str());
        let mut prefix = package_name.clone();
        prefix.append("__");
        let mut out = String::new();
        out.append("pub mod ");
        let ghost head = out@;
        out.append(package_name.as_str());
        out.append(" {\n");
        self.message_aliases(&mut out, prefix.as_str(), gen_cxx_bridge);
        out.append("}\n");
        assert(head =~= "pub mod "@);
        out
    }

    /// The package's full module.
    pub fn token_stream(&self, gen_cxx_bridge: bool) -> (r: String)
        requires
            is_ident(self.name@),
        ensures
            r@ == package_text(*self, gen_cxx_bridge),
    {
        let name = ident_text(self.name.as_str());
        let slice = "crate::interop::FfiSlice";
        let mut out = String::new();
        out.append("pub mod ");
        let ghost head = out@;
        out.append(name.as_str());
        out.append(" {\n");
        self.messages_block(&mut out, slice, gen_cxx_bridge);
        self.services_block(&mut out, slice, gen_cxx_bridge);
        self.actions_block(&mut out, slice, gen_cxx_bridge);
        out.append("}\n");
        assert(head =~= "pub mod "@);
        out
    }
}

} // verus!
