//! Name rules: construction refuses a name with a `/` or a character outside
//! ASCII; emission further asks that a name be an identifier.
use vstd::prelude::*;
use vstd::utf8::is_ascii_chars;

verus! {

/// Why a name was refused.
#[derive(Debug, Clone, Copy, PartialEq, Eq, Structural)]
pub enum NameError {
    /// The name holds a `/`.
    PathSeparator,
    /// The name holds a character outside ASCII.
    NotAscii,
    /// The name is ASCII and free of `/`, but is no identifier.
    NotIdentifier,
}

pub open spec fn has_separator(s: Seq<char>) -> bool {
    exists|i: int| 0 <= i < s.len() && s[i] == '/'
}

pub open spec fn is_ident_start(c: char) -> bool {
    c == '_' || ('a' <= c && c <= 'z') || ('A' <= c && c <= 'Z')
}

pub open spec fn is_ident_continue(c: char) -> bool {
    is_ident_start(c) || ('0' <= c && c <= '9')
}

/// An ASCII identifier: a letter or `_`, then letters, digits and `_`.
pub open spec fn is_ident(s: Seq<char>) -> bool {
    &&& s.len() > 0
    &&& is_ident_start(s[0])
    &&& forall|i: int| 1 <= i < s.len() ==> is_ident_continue(#[trigger] s[i])
}

/// The first rule that a name breaks, if any: separators are reported before
/// non-ASCII characters, and both before the identifier shape.
pub open spec fn name_verdict(s: Seq<char>) -> Option<NameError> {
    if has_separator(s) {
        Some(NameError::PathSeparator)
    } else if !is_ascii_chars(s) {
        Some(NameError::NotAscii)
    } else if !is_ident(s) {
        Some(NameError::NotIdentifier)
    } else {
        None
    }
}

pub open spec fn verdict_result(s: Seq<char>) -> Result<(), NameError> {
    match name_verdict(s) {
        Some(e) => Err(e),
        None => Ok(()),
    }
}

/// A name that passes every rule is exactly an identifier.
pub proof fn lemma_verdict_none_iff_ident(s: Seq<char>)
    ensures
        name_verdict(s) is None <==> is_ident(s),
{
    if is_ident(s) {
        assert forall|i: int| 0 <= i < s.len() implies '\0' <= #[trigger] s[i] <= '\u{7f}' by {
            if i > 0 {
                assert(is_ident_continue(s[i]));
            }
        }
        if has_separator(s) {
            let i = choose|i: int| 0 <= i < s.len() && s[i] == '/';
            if i > 0 {
                assert(is_ident_continue(s[i]));
            }
        }
    }
}

/// Scans a name once: whether it holds a `/`, whether it is ASCII, and
/// whether it has the shape of an identifier.
fn scan_name(name: &str) -> (r: (bool, bool, bool))
    ensures
        r.0 == has_separator(name@),
        r.1 == is_ascii_chars(name@),
        r.2 == is_ident(name@),
{
    let n = name.unicode_len();
    let mut i: usize = 0;
    let mut slash = false;
    let mut ascii = true;
    let mut shape = n > 0;
    while i < n
        invariant
            n == name@.len(),
            i <= n,
            slash <==> exists|j: int| 0 <= j < i && name@[j] == '/',
            ascii <==> forall|j: int| 0 <= j < i ==> '\0' <= #[trigger] name@[j] <= '\u{7f}',
            shape <==> (n > 0 && (i > 0 ==> is_ident_start(name@[0])) && forall|j: int|
                1 <= j < i ==> is_ident_continue(#[trigger] name@[j])),
        decreases n - i,
    {
        let c = name.get_char(i);
        if c == '/' {
            slash = true;
        }
        if c > '\u{7f}' {
            ascii = false;
        }
        if i == 0 {
            if !(c == '_' || ('a' <= c && c <= 'z') || ('A' <= c && c <= 'Z')) {
                shape = false;
            }
        } else if !(c == '_' || ('a' <= c && c <= 'z') || ('A' <= c && c <= 'Z') || ('0' <= c
            && c <= '9')) {
            shape = false;
        }
        i = i + 1;
    }
    (slash, ascii, shape)
}

/// Checks a name against the identifier rules that emission relies on.
pub fn validate_name(name: &str) -> (r: Result<(), NameError>)
    ensures
        r == verdict_result(name@),
        r is Ok <==> is_ident(name@),
{
    proof {
        lemma_verdict_none_iff_ident(name@);
    }
    let (slash, ascii, shape) = scan_name(name);
    if slash {
        Err(NameError::PathSeparator)
    } else if !ascii {
        Err(NameError::NotAscii)
    } else if !shape {
        Err(NameError::NotIdentifier)
    } else {
        Ok(())
    }
}

/// The first rule that a directory-level name breaks, if any: no `/`, then
/// ASCII only. Unlike an identifier, such a name may hold any other ASCII.
pub open spec fn plain_name_verdict(s: Seq<char>) -> Option<NameError> {
    if has_separator(s) {
        Some(NameError::PathSeparator)
    } else if !is_ascii_chars(s) {
        Some(NameError::NotAscii)
    } else {
        None
    }
}

/// Checks a name that only has to be free of `/` and ASCII.
pub fn validate_plain_name(name: &str) -> (r: Result<(), NameError>)
    ensures
        r is Ok <==> plain_name_verdict(name@) is None,
        r matches Err(e) ==> plain_name_verdict(name@) == Some(e),
{
    let (slash, ascii, _) = scan_name(name);
    if slash {
        Err(NameError::PathSeparator)
    } else if !ascii {
        Err(NameError::NotAscii)
    } else {
        Ok(())
    }
}

/// Relies on `proc_macro2::Ident::new`, which accepts any ASCII identifier
/// (it panics only on an empty, all-digit or non-identifier text), and on
/// `Ident`'s `Display`, which writes a non-raw identifier's text unchanged.
#[verifier::external_body]
pub(crate) fn ident_text(name: &str) -> (r: String)
    requires
        is_ident(name@),
    ensures
        r@ == name@,
{
    proc_macro2::Ident::new(name, proc_macro2::Span::call_site()).to_string()
}

} // verus!
