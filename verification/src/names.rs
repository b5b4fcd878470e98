//! Names crossing the boundary: the pairing of a managed-side and a
//! native-side name with its namespace, the mangled link symbol built
//! from it, and foreign names validated as identifiers.

use vstd::prelude::*;

use crate::types::NamedType;

verus! {

/// Why a foreign name was rejected.
#[derive(Clone, Copy, PartialEq, Eq, Structural, Debug)]
pub enum NameError {
    /// The text does not parse as a single identifier.
    InvalidIdentifier,
}

/// A type or function name as it appears on both sides of the boundary:
/// the namespace segments, the native-side name and the managed-side
/// name.
pub struct Pair {
    /// The enclosing namespace segments, outermost first.
    pub namespace: Vec<String>,
    /// The native-side name.
    pub cxx: String,
    /// The managed-side name.
    pub rust: String,
}

/// A mangled link symbol: namespace segments and name joined by `$`.
pub struct Symbol {
    text: String,
}

impl Symbol {
    /// The symbol's text, for contracts.
    pub closed spec fn spec_text(&self) -> Seq<char> {
        self.text@
    }

    /// The symbol's text.
    pub fn as_str(&self) -> (r: &str)
        ensures
            r@ == self.spec_text(),
    {
        self.text.as_str()
    }
}

/// The first `k` segments joined by `$`.
pub open spec fn spec_symbol_prefix(segments: Seq<Seq<char>>, k: int) -> Seq<char>
    decreases k,
{
    if k <= 0 {
        Seq::empty()
    } else if k == 1 {
        segments[0]
    } else {
        spec_symbol_prefix(segments, k - 1) + "$"@ + segments[k - 1]
    }
}

/// The first `k` segments each preceded by `::`.
pub open spec fn spec_qualified_prefix(segments: Seq<Seq<char>>, k: int) -> Seq<char>
    decreases k,
{
    if k <= 0 {
        Seq::empty()
    } else {
        spec_qualified_prefix(segments, k - 1) + "::"@ + segments[k - 1]
    }
}

/// The views of a pair's segments: the namespace, then the native-side
/// name.
pub open spec fn spec_segments(p: Pair) -> Seq<Seq<char>> {
    p.namespace@.map_values(|s: String| s@).push(p.cxx@)
}

impl Pair {
    /// The mangled link symbol for this name: every namespace segment and
    /// the native-side name, joined by `$`.
    pub fn to_symbol(&self) -> (r: Symbol)
        ensures
            r.spec_text() == spec_symbol_prefix(spec_segments(*self), spec_segments(*self).len() as int),
    {
        let ghost segs = spec_segments(*self);
        let mut text = String::new();
        let mut i: usize = 0;
        proof {
            assert(text@ =~= spec_symbol_prefix(segs, 0));
        }
        while i < self.namespace.len()
            invariant
                segs == spec_segments(*self),
                i <= self.namespace@.len(),
                segs.len() == self.namespace@.len() + 1,
                forall|j: int| 0 <= j < self.namespace@.len() ==> segs[j] == #[trigger] self.namespace@[j]@,
                text@ == spec_symbol_prefix(segs, i as int),
            decreases self.namespace@.len() - i,
        {
            if i > 0 {
                text.append("$");
            }
            text.append(self.namespace[i].as_str());
            proof {
                if i == 0 {
                    assert(text@ =~= spec_symbol_prefix(segs, 1));
                } else {
                    let prev = spec_symbol_prefix(segs, i as int);
                    assert(text@ =~= prev + "$"@ + segs[i as int]);
                }
            }
            i = i + 1;
        }
        if i > 0 {
            text.append("$");
        }
        text.append(self.cxx.as_str());
        proof {
            assert(segs[segs.len() - 1] == self.cxx@);
            if self.namespace@.len() == 0 {
                assert(text@ =~= spec_symbol_prefix(segs, segs.len() as int));
            } else {
                let prev = spec_symbol_prefix(segs, segs.len() - 1);
                assert(text@ =~= prev + "$"@ + segs[segs.len() - 1]);
                assert(text@ =~= spec_symbol_prefix(segs, segs.len() as int));
            }
        }
        Symbol { text }
    }

    /// The fully qualified native-side name: every namespace segment and
    /// the native-side name, each preceded by `::`.
    pub fn to_fully_qualified(&self) -> (r: String)
        ensures
            r@ == spec_qualified_prefix(
                spec_segments(*self),
                spec_segments(*self).len() as int,
            ),
    {
        let ghost segs = spec_segments(*self);
        let mut fully_qualified = String::new();
        let mut i: usize = 0;
        proof {
            assert(fully_qualified@ =~= spec_qualified_prefix(segs, 0));
        }
        while i < self.namespace.len()
            invariant
                segs == spec_segments(*self),
                i <= self.namespace@.len(),
                segs.len() == self.namespace@.len() + 1,
                forall|j: int| 0 <= j < self.namespace@.len() ==> segs[j] == #[trigger] self.namespace@[j]@,
                fully_qualified@ == spec_qualified_prefix(segs, i as int),
            decreases self.namespace@.len() - i,
        {
            fully_qualified.append("::");
            fully_qualified.append(self.namespace[i].as_str());
            proof {
                let prev = spec_qualified_prefix(segs, i as int);
                assert(fully_qualified@ =~= prev + "::"@ + segs[i as int]);
            }
            i = i + 1;
        }
        fully_qualified.append("::");
        fully_qualified.append(self.cxx.as_str());
        proof {
            assert(segs[segs.len() - 1] == self.cxx@);
            let prev = spec_qualified_prefix(segs, segs.len() - 1);
            assert(fully_qualified@ =~= prev + "::"@ + segs[segs.len() - 1]);
            assert(fully_qualified@ =~= spec_qualified_prefix(segs, segs.len() as int));
        }
        fully_qualified
    }
}

impl NamedType {
    /// A named type with no lifetime parameters.
    pub fn new(rust: String) -> (r: NamedType)
        ensures
            r.rust == rust,
            r.lifetimes@.len() == 0,
    {
        NamedType { rust, lifetimes: Vec::new() }
    }
}

/// What the outside identifier parser accepts: `Some` with the parsed
/// identifier's text exactly when the input parses as one identifier,
/// keywords included. The result depends on the characters alone.
pub uninterp spec fn parsed_ident_any(text: Seq<char>) -> Option<Seq<char>>;

/// Relies on syn's `Ident::parse_any`, run over the whole input by
/// `Parser::parse_str`: accepts exactly the strings that tokenize to one
/// identifier, keywords included, and yields that identifier.
#[verifier::external_body]
fn parse_ident_any(text: &str) -> (r: Option<String>)
    ensures
        (r is Some) == (parsed_ident_any(text@) is Some),
        r matches Some(s) ==> parsed_ident_any(text@) == Some(s@),
{
    let parser = <syn::Ident as syn::ext::IdentExt>::parse_any;
    match syn::parse::Parser::parse_str(parser, text) {
        Ok(ident) => Some(ident.to_string()),
        Err(_) => None,
    }
}

/// A native-side name validated to be a single identifier.
#[derive(Clone)]
pub struct ForeignName {
    text: String,
}

impl ForeignName {
    /// The validated text, for contracts.
    pub closed spec fn spec_text(&self) -> Seq<char> {
        self.text@
    }

    /// Parse a native-side name: accepted exactly when the text is a
    /// single identifier (keywords included), in which case the stored
    /// text is the parsed identifier.
    pub fn parse(text: &str) -> (r: Result<ForeignName, NameError>)
        ensures
            (r is Ok) == (parsed_ident_any(text@) is Some),
            r matches Ok(f) ==> Some(f.spec_text()) == parsed_ident_any(text@),
            r is Err ==> r == Result::<ForeignName, NameError>::Err(NameError::InvalidIdentifier),
    {
        match parse_ident_any(text) {
            Some(ident) => Ok(ForeignName { text: ident }),
            None => Err(NameError::InvalidIdentifier),
        }
    }

    /// The validated text.
    pub fn text(&self) -> (r: &str)
        ensures
            r@ == self.spec_text(),
    {
        self.text.as_str()
    }
}

} // verus!
