//! Messages: an ordered list of fields and constants, emitted as a native
//! struct, an optional interop struct, and a type alias.
use vstd::prelude::*;
use crate::ident::{is_ident, plain_name_verdict, validate_plain_name, NameError};
use crate::types::{
    constant_wf, field_wf, interop_type, native_type, prim_name, prim_str, push_interop_type,
    push_native_type, Constant, Field,
};

verus! {

/// One message schema. Field order is the layout order and is kept by every
/// emitted form.
#[derive(Debug, Clone)]
pub struct Message {
    pub name: String,
    pub fields: Vec<Field>,
    pub constants: Vec<Constant>,
}

/// The message's name, and every name inside it, are identifiers.
pub open spec fn message_wf(m: Message) -> bool {
    &&& is_ident(m.name@)
    &&& forall|i: int| 0 <= i < m.fields@.len() ==> field_wf(#[trigger] m.fields@[i])
    &&& forall|i: int| 0 <= i < m.constants@.len() ==> constant_wf(#[trigger] m.constants@[i])
}

pub open spec fn native_line(f: Field, prefix: Seq<char>) -> Seq<char> {
    "pub "@ + f.name@ + ": "@ + native_type(f.ty, prefix) + ",\n"@
}

pub open spec fn interop_line(f: Field, prefix: Seq<char>, slice: Seq<char>) -> Seq<char> {
    "pub "@ + f.name@ + ": "@ + interop_type(f.ty, prefix, slice) + ",\n"@
}

pub open spec fn constant_line(c: Constant) -> Seq<char> {
    "pub const "@ + c.name@ + ": "@ + prim_name(c.ty) + " = "@ + c.value@ + ";\n"@
}

/// The native field declarations, in field order.
pub open spec fn native_fields(fs: Seq<Field>, prefix: Seq<char>) -> Seq<char>
    decreases fs.len(),
{
    if fs.len() == 0 {
        Seq::empty()
    } else {
        native_fields(fs.drop_last(), prefix) + native_line(fs.last(), prefix)
    }
}

/// The interop field declarations, in field order.
pub open spec fn interop_fields(fs: Seq<Field>, prefix: Seq<char>, slice: Seq<char>) -> Seq<char>
    decreases fs.len(),
{
    if fs.len() == 0 {
        Seq::empty()
    } else {
        interop_fields(fs.drop_last(), prefix, slice) + interop_line(fs.last(), prefix, slice)
    }
}

pub open spec fn constant_lines(cs: Seq<Constant>) -> Seq<char>
    decreases cs.len(),
{
    if cs.len() == 0 {
        Seq::empty()
    } else {
        constant_lines(cs.drop_last()) + constant_line(cs.last())
    }
}

/// The native struct, named `prefix` followed by the message's name.
pub open spec fn native_struct(m: Message, prefix: Seq<char>) -> Seq<char> {
    "#[derive(Debug, Clone, PartialEq)]\npub struct "@ + prefix + m.name@ + " {\n"@
        + native_fields(m.fields@, prefix) + "}\n"@
}

/// The interop struct: C layout, named after the native one with `Ffi` added.
pub open spec fn interop_struct(m: Message, prefix: Seq<char>, slice: Seq<char>) -> Seq<char> {
    "#[repr(C)]\npub struct "@ + prefix + m.name@ + "Ffi {\n"@ + interop_fields(
        m.fields@,
        prefix,
        slice,
    ) + "}\n"@
}

/// The constants, as associated constants of the native struct; nothing
/// when there are none.
pub open spec fn constants_block(m: Message, prefix: Seq<char>) -> Seq<char> {
    if m.constants@.len() == 0 {
        Seq::empty()
    } else {
        "impl "@ + prefix + m.name@ + " {\n"@ + constant_lines(m.constants@) + "}\n"@
    }
}

/// Everything a message emits: the native struct, the interop struct when
/// `interop` is set, and the constants.
pub open spec fn message_text(m: Message, prefix: Seq<char>, slice: Seq<char>, interop: bool) -> Seq<
    char,
> {
    native_struct(m, prefix) + (if interop {
        interop_struct(m, prefix, slice)
    } else {
        Seq::empty()
    }) + constants_block(m, prefix)
}

/// The aliases that expose the flat structs under their own names, from a
/// module two levels below the flat definitions.
pub open spec fn alias_text(m: Message, prefix: Seq<char>, interop: bool) -> Seq<char> {
    "pub type "@ + m.name@ + " = super::super::"@ + prefix + m.name@ + ";\n"@ + (if interop {
        "pub type "@ + m.name@ + "Ffi = super::super::"@ + prefix + m.name@ + "Ffi;\n"@
    } else {
        Seq::empty()
    })
}

/// Field declarations keep the order of the fields: the declarations of a
/// list joined from two parts are those of the first part, then those of the
/// second, in the native and the interop layer alike.
pub proof fn lemma_field_order(a: Seq<Field>, b: Seq<Field>, prefix: Seq<char>, slice: Seq<char>)
    ensures
        native_fields(a + b, prefix) == native_fields(a, prefix) + native_fields(b, prefix),
        interop_fields(a + b, prefix, slice) == interop_fields(a, prefix, slice) + interop_fields(
            b,
            prefix,
            slice,
        ),
    decreases b.len(),
{
    if b.len() == 0 {
        assert(a + b =~= a);
        assert(native_fields(a, prefix) + native_fields(b, prefix) =~= native_fields(a, prefix));
        assert(interop_fields(a, prefix, slice) + interop_fields(b, prefix, slice)
            =~= interop_fields(a, prefix, slice));
    } else {
        lemma_field_order(a, b.drop_last(), prefix, slice);
        assert((a + b).drop_last() =~= a + b.drop_last());
        assert((a + b).last() == b.last());
        assert(native_fields(a + b, prefix) =~= native_fields(a, prefix) + native_fields(
            b,
            prefix,
        ));
        assert(interop_fields(a + b, prefix, slice) =~= interop_fields(a, prefix, slice)
            + interop_fields(b, prefix, slice));
    }
}

/// A single field is declared by its one line in each layer.
pub proof fn lemma_single_field(f: Field, prefix: Seq<char>, slice: Seq<char>)
    ensures
        native_fields(seq![f], prefix) == native_line(f, prefix),
        interop_fields(seq![f], prefix, slice) == interop_line(f, prefix, slice),
{
    assert(seq![f].drop_last() =~= Seq::<Field>::empty());
    assert(native_fields(Seq::<Field>::empty(), prefix) == Seq::<char>::empty());
    assert(interop_fields(Seq::<Field>::empty(), prefix, slice) == Seq::<char>::empty());
    assert(native_fields(seq![f], prefix) =~= native_line(f, prefix));
    assert(interop_fields(seq![f], prefix, slice) =~= interop_line(f, prefix, slice));
}

/// The interop flag leaves the native struct as it is and only adds the
/// interop struct after it.
pub proof fn lemma_interop_adds_only(m: Message, prefix: Seq<char>, slice: Seq<char>)
    ensures
        message_text(m, prefix, slice, false) == native_struct(m, prefix) + constants_block(
            m,
            prefix,
        ),
        message_text(m, prefix, slice, true) == native_struct(m, prefix) + interop_struct(
            m,
            prefix,
            slice,
        ) + constants_block(m, prefix),
{
    assert(native_struct(m, prefix) + Seq::<char>::empty() =~= native_struct(m, prefix));
}

impl Message {
    /// A message without fields or constants, once its name is checked
    /// (free of `/`, ASCII).
    pub fn new(name: String) -> (r: Result<Message, NameError>)
        ensures
            r is Ok <==> plain_name_verdict(name@) is None,
            r matches Err(e) ==> plain_name_verdict(name@) == Some(e),
            r matches Ok(m) ==> m.name@ == name@ && m.fields@.len() == 0 && m.constants@.len()
                == 0 && (is_ident(name@) ==> message_wf(m)),
    {
        validate_plain_name(name.as_str())?;
        Ok(Message { name, fields: Vec::new(), constants: Vec::new() })
    }

    /// A message with the given fields, in the given order, and no constants.
    pub fn with_fields(name: String, fields: Vec<Field>) -> (r: Result<Message, NameError>)
        ensures
            r is Ok <==> plain_name_verdict(name@) is None,
            r matches Err(e) ==> plain_name_verdict(name@) == Some(e),
            r matches Ok(m) ==> m.name@ == name@ && m.fields@ == fields@ && m.constants@.len()
                == 0 && (is_ident(name@) && (forall|i: int|
                0 <= i < fields@.len() ==> field_wf(#[trigger] fields@[i])) ==> message_wf(m)),
    {
        validate_plain_name(name.as_str())?;
        Ok(Message { name, fields, constants: Vec::new() })
    }

    fn push_native_fields(&self, out: &mut String, prefix: &str)
        ensures
            final(out)@ == old(out)@ + native_fields(self.fields@, prefix@),
    {
        let ghost start = out@;
        let mut i: usize = 0;
        while i < self.fields.len()
            invariant
                i <= self.fields@.len(),
                out@ == start + native_fields(self.fields@.take(i as int), prefix@),
            decreases self.fields@.len() - i,
        {
            let f = &self.fields[i];
            out.append("pub ");
            out.append(f.name.as_str());
            out.append(": ");
            push_native_type(out, &f.ty, prefix);
            out.append(",\n");
            assert(self.fields@.take(i + 1).drop_last() =~= self.fields@.take(i as int));
            assert(out@ =~= start + native_fields(self.fields@.take(i + 1), prefix@));
            i = i + 1;
        }
        assert(self.fields@.take(i as int) =~= self.fields@);
    }

    fn push_interop_fields(&self, out: &mut String, prefix: &str, slice: &str)
        ensures
            final(out)@ == old(out)@ + interop_fields(self.fields@, prefix@, slice@),
    {
        let ghost start = out@;
        let mut i: usize = 0;
        while i < self.fields.len()
            invariant
                i <= self.fields@.len(),
                out@ == start + interop_fields(self.fields@.take(i as int), prefix@, slice@),
            decreases self.fields@.len() - i,
        {
            let f = &self.fields[i];
            out.append("pub ");
            out.append(f.name.as_str());
            out.append(": ");
            push_interop_type(out, &f.ty, prefix, slice);
            out.append(",\n");
            assert(self.fields@.take(i + 1).drop_last() =~= self.fields@.take(i as int));
            assert(out@ =~= start + interop_fields(self.fields@.take(i + 1), prefix@, slice@));
            i = i + 1;
        }
        assert(self.fields@.take(i as int) =~= self.fields@);
    }

    fn push_constants(&self, out: &mut String, prefix: &str)
        ensures
            final(out)@ == old(out)@ + constants_block(*self, prefix@),
    {
        if self.constants.len() == 0 {
            assert(old(out)@ + constants_block(*self, prefix@) =~= old(out)@);
            return ;
        }
        let ghost start = out@;
        out.append("impl ");
        out.append(prefix);
        out.append(self.name.as_str());
        out.append(" {\n");
        let ghost head = out@;
        let mut i: usize = 0;
        while i < self.constants.len()
            invariant
                i <= self.constants@.len(),
                out@ == head + constant_lines(self.constants@.take(i as int)),
            decreases self.constants@.len() - i,
        {
            let c = &self.constants[i];
            out.append("pub const ");
            out.append(c.name.as_str());
            out.append(": ");
            out.append(prim_str(c.ty));
            out.append(" = ");
            out.append(c.value.as_str());
            out.append(";\n");
            assert(self.constants@.take(i + 1).drop_last() =~= self.constants@.take(i as int));
            assert(out@ =~= head + constant_lines(self.constants@.take(i + 1)));
            i = i + 1;
        }
        assert(self.constants@.take(i as int) =~= self.constants@);
        out.append("}\n");
        assert(out@ =~= start + constants_block(*self, prefix@));
    }

    /// Appends the native struct.
    pub fn push_native_struct(&self, out: &mut String, prefix: &str)
        ensures
            final(out)@ == old(out)@ + native_struct(*self, prefix@),
    {
        let ghost start = out@;
        out.append("#[derive(Debug, Clone, PartialEq)]\npub struct ");
        out.append(prefix);
        out.append(self.name.as_str());
        out.append(" {\n");
        self.push_native_fields(out, prefix);
        out.append("}\n");
        assert(out@ =~= start + native_struct(*self, prefix@));
    }

    /// Appends the interop struct.
    pub fn push_interop_struct(&self, out: &mut String, prefix: &str, slice: &str)
        ensures
            final(out)@ == old(out)@ + interop_struct(*self, prefix@, slice@),
    {
        let ghost start = out@;
        out.append("#[repr(C)]\npub struct ");
        out.append(prefix);
        out.append(self.name.as_str());
        out.append("Ffi {\n");
        self.push_interop_fields(out, prefix, slice);
        out.append("}\n");
        assert(out@ =~= start + interop_struct(*self, prefix@, slice@));
    }

    /// Appends everything the message emits.
    pub fn push_text(&self, out: &mut String, prefix: &str, slice: &str, interop: bool)
        ensures
            final(out)@ == old(out)@ + message_text(*self, prefix@, slice@, interop),
    {
        let ghost start = out@;
        self.push_native_struct(out, prefix);
        if interop {
            self.push_interop_struct(out, prefix, slice);
        }
        self.push_constants(out, prefix);
        assert(out@ =~= start + message_text(*self, prefix@, slice@, interop));
    }

    /// The message's text on its own: its structs are named by `prefix` and
    /// the message's name, and its sequences use the slice type `slice`.
    pub fn emit(&self, prefix: &str, slice: &str, interop: bool) -> (r: String)
        ensures
            r@ == message_text(*self, prefix@, slice@, interop),
    {
        let mut out = String::new();
        self.push_text(&mut out, prefix, slice, interop);
        out
    }

    /// Appends the aliases of the flat structs.
    pub fn push_alias(&self, out: &mut String, prefix: &str, interop: bool)
        ensures
            final(out)@ == old(out)@ + alias_text(*self, prefix@, interop),
    {
        let ghost start = out@;
        out.append("pub type ");
        out.append(self.name.as_str());
        out.append(" = super::super::");
        out.append(prefix);
        out.append(self.name.as_str());
        out.append(";\n");
        if interop {
            out.append("pub type ");
            out.append(self.name.as_str());
            out.append("Ffi = super::super::");
            out.append(prefix);
            out.append(self.name.as_str());
            out.append("Ffi;\n");
        }
        assert(out@ =~= start + alias_text(*self, prefix@, interop));
    }
}

} // verus!
