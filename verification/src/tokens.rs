//! Rendering of method receivers into boundary-glue source text.
//!
//! The generator writes the receiver of a bridged method twice: once with
//! its declared type name and once as `Self`. Token emission is modelled
//! as appending to a text buffer; the contract pins the exact text.

use vstd::prelude::*;

verus! {

/// A bridged method's receiver, as the generator reads it: whether it is
/// pinned, borrowed, its lifetime, its mutability, and its declared type
/// name.
pub struct Receiver {
    /// The receiver is wrapped in a pin.
    pub pinned: bool,
    /// The receiver is taken by reference.
    pub ampersand: bool,
    /// The reference's lifetime name, without the leading tick.
    pub lifetime: Option<String>,
    /// The reference is mutable.
    pub mutable: bool,
    /// The receiver's declared type name.
    pub ty: String,
}

/// The rendered receiver type with `name` in type position: the
/// reference prefix, then the name, wrapped in the fully qualified pin
/// type when the receiver is pinned.
pub open spec fn spec_receiver_tokens(r: Receiver, name: Seq<char>) -> Seq<char> {
    let amp = if r.ampersand {
        "&"@
    } else {
        Seq::<char>::empty()
    };
    let lt = match r.lifetime {
        Some(l) => "'"@ + l@ + " "@,
        None => Seq::<char>::empty(),
    };
    let m = if r.mutable {
        "mut "@
    } else {
        Seq::<char>::empty()
    };
    let inner = amp + lt + m + name;
    if r.pinned {
        "::cxx::core::pin::Pin<"@ + inner + ">"@
    } else {
        inner
    }
}

/// Append the rendered reference-and-name part of a receiver to `out`.
fn write_receiver(r: &Receiver, name: &str, out: &mut String)
    ensures
        final(out)@ == old(out)@ + spec_receiver_tokens(*r, name@),
{
    let ghost pre = out@;
    if r.pinned {
        out.append("::cxx::core::pin::Pin<");
    }
    if r.ampersand {
        out.append("&");
    }
    match &r.lifetime {
        Some(l) => {
            out.append("'");
            out.append(l.as_str());
            out.append(" ");
        },
        None => (),
    }
    if r.mutable {
        out.append("mut ");
    }
    out.append(name);
    if r.pinned {
        out.append(">");
    }
    proof {
        assert(out@ =~= pre + spec_receiver_tokens(*r, name@));
    }
}

/// The receiver rendered with its declared type name.
pub struct ReceiverType<'a>(pub &'a Receiver);

impl<'a> ReceiverType<'a> {
    /// Append the receiver's type, named by its declared type, to `out`.
    pub fn to_tokens(&self, out: &mut String)
        ensures
            final(out)@ == old(out)@ + spec_receiver_tokens(*self.0, self.0.ty@),
    {
        let name = self.0.ty.clone();
        write_receiver(self.0, name.as_str(), out);
    }
}

/// The receiver rendered with `Self` in place of its declared type name.
pub struct ReceiverTypeSelf<'a>(pub &'a Receiver);

impl<'a> ReceiverTypeSelf<'a> {
    /// Append the receiver's type, named `Self`, to `out`.
    pub fn to_tokens(&self, out: &mut String)
        ensures
            final(out)@ == old(out)@ + spec_receiver_tokens(*self.0, "Self"@),
    {
        write_receiver(self.0, "Self", out);
    }
}

} // verus!
