//! Rendering of lifetime generics for generated wrapper implementations:
//! the generics of the implementation header, the generics applied to
//! the type, and the anonymous form used where names do not matter.

use vstd::prelude::*;

verus! {

/// A lifetime parameter list as the generator reads it: the names
/// without their leading ticks, and whether angle brackets were written.
pub struct Lifetimes {
    /// The lifetime names, in order, without the leading tick.
    pub lifetimes: Vec<String>,
    /// Whether the list was written with angle brackets.
    pub bracketed: bool,
}

/// An explicitly written implementation block whose generics override
/// the resolved ones.
pub struct ExplicitImpl {
    /// The generics to use on the implementation header.
    pub impl_generics: Lifetimes,
    /// The generics to apply to the type.
    pub ty_generics: Lifetimes,
}

/// The first `k` lifetimes rendered with ticks and comma separators;
/// `underscore` replaces every name with the anonymous lifetime.
pub open spec fn spec_lifetime_list(segs: Seq<Seq<char>>, k: int, underscore: bool) -> Seq<char>
    decreases k,
{
    if k <= 0 {
        Seq::empty()
    } else {
        let name = if underscore {
            "_"@
        } else {
            segs[k - 1]
        };
        let sep = if k == 1 {
            Seq::<char>::empty()
        } else {
            ", "@
        };
        spec_lifetime_list(segs, k - 1, underscore) + sep + "'"@ + name
    }
}

/// The views of a lifetime list's names.
pub open spec fn spec_lifetime_names(l: Lifetimes) -> Seq<Seq<char>> {
    l.lifetimes@.map_values(|s: String| s@)
}

/// A bracketed lifetime list rendered in full, or nothing when no
/// brackets were written.
pub open spec fn spec_lifetimes_tokens(l: Lifetimes, underscore: bool) -> Seq<char> {
    spec_bracket_tokens(spec_lifetime_names(l), l.bracketed, underscore)
}

/// A lifetime list rendered in full when bracketed, nothing otherwise.
pub open spec fn spec_bracket_tokens(names: Seq<Seq<char>>, bracketed: bool, underscore: bool) -> Seq<char> {
    if bracketed {
        "<"@ + spec_lifetime_list(names, names.len() as int, underscore) + ">"@
    } else {
        Seq::empty()
    }
}

/// Append the rendered lifetime list to `out`.
fn write_lifetimes(lifetimes: &Vec<String>, bracketed: bool, underscore: bool, out: &mut String)
    ensures
        final(out)@ == old(out)@ + spec_bracket_tokens(
            lifetimes@.map_values(|s: String| s@),
            bracketed,
            underscore,
        ),
{
    let ghost names = lifetimes@.map_values(|s: String| s@);
    let ghost pre = out@;
    if !bracketed {
        proof {
            assert(out@ =~= pre + spec_bracket_tokens(names, bracketed, underscore));
        }
        return ;
    }
    out.append("<");
    let mut i: usize = 0;
    proof {
        assert(out@ =~= pre + "<"@ + spec_lifetime_list(names, 0, underscore));
    }
    while i < lifetimes.len()
        invariant
            names == lifetimes@.map_values(|s: String| s@),
            i <= lifetimes@.len(),
            names.len() == lifetimes@.len(),
            forall|j: int|
                0 <= j < lifetimes@.len() ==> names[j] == #[trigger] lifetimes@[j]@,
            out@ == pre + "<"@ + spec_lifetime_list(names, i as int, underscore),
        decreases lifetimes@.len() - i,
    {
        let ghost before = out@;
        if i > 0 {
            out.append(", ");
        }
        out.append("'");
        if underscore {
            out.append("_");
        } else {
            out.append(lifetimes[i].as_str());
        }
        proof {
            let sep = if i == 0 {
                Seq::<char>::empty()
            } else {
                ", "@
            };
            let name = if underscore {
                "_"@
            } else {
                names[i as int]
            };
            assert(out@ =~= before + sep + "'"@ + name);
            assert(out@ =~= pre + "<"@ + spec_lifetime_list(names, i + 1, underscore));
        }
        i = i + 1;
    }
    out.append(">");
    proof {
        assert(out@ =~= pre + spec_bracket_tokens(names, bracketed, underscore));
    }
}

/// The generics of a generated implementation header: the explicit
/// implementation's, where one was written, else the resolved ones.
pub struct ImplGenerics<'a> {
    /// The explicitly written implementation, if any.
    pub explicit_impl: Option<&'a ExplicitImpl>,
    /// The generics resolved from the type's declaration.
    pub resolve: &'a Lifetimes,
}

impl<'a> ImplGenerics<'a> {
    /// The list this header renders.
    pub open spec fn spec_chosen(&self) -> Lifetimes {
        match self.explicit_impl {
            Some(imp) => imp.impl_generics,
            None => *self.resolve,
        }
    }

    /// Append the implementation header's generics to `out`.
    pub fn to_tokens(&self, out: &mut String)
        ensures
            final(out)@ == old(out)@ + spec_lifetimes_tokens(self.spec_chosen(), false),
    {
        match self.explicit_impl {
            Some(imp) => write_lifetimes(
                &imp.impl_generics.lifetimes,
                imp.impl_generics.bracketed,
                false,
                out,
            ),
            None => write_lifetimes(&self.resolve.lifetimes, self.resolve.bracketed, false, out),
        }
    }
}

/// The generics applied to the type in a generated implementation: the
/// explicit implementation's, where one was written; else the resolved
/// lifetimes in brackets, or nothing when there are none.
pub struct TyGenerics<'a> {
    /// The explicitly written implementation, if any.
    pub explicit_impl: Option<&'a ExplicitImpl>,
    /// The generics resolved from the type's declaration.
    pub resolve: &'a Lifetimes,
}

/// What a type-generics position renders: the explicit list, or the
/// resolved names bracketed whenever any exist.
pub open spec fn spec_ty_generics_tokens(g: TyGenerics) -> Seq<char> {
    match g.explicit_impl {
        Some(imp) => spec_lifetimes_tokens(imp.ty_generics, false),
        None => if g.resolve.lifetimes@.len() > 0 {
            spec_bracket_tokens(spec_lifetime_names(*g.resolve), true, false)
        } else {
            Seq::empty()
        },
    }
}

impl<'a> TyGenerics<'a> {
    /// Append the type position's generics to `out`.
    pub fn to_tokens(&self, out: &mut String)
        ensures
            final(out)@ == old(out)@ + spec_ty_generics_tokens(*self),
    {
        match self.explicit_impl {
            Some(imp) => write_lifetimes(
                &imp.ty_generics.lifetimes,
                imp.ty_generics.bracketed,
                false,
                out,
            ),
            None => {
                if self.resolve.lifetimes.len() > 0 {
                    write_lifetimes(&self.resolve.lifetimes, true, false, out);
                }
            },
        }
    }
}

/// Split the generics of a wrapper implementation into the header part
/// and the type part.
pub fn split_for_impl<'a>(explicit_impl: Option<&'a ExplicitImpl>, resolve: &'a Lifetimes) -> (r: (
    ImplGenerics<'a>,
    TyGenerics<'a>,
))
    ensures
        r.0.explicit_impl == explicit_impl,
        r.0.resolve == resolve,
        r.1.explicit_impl == explicit_impl,
        r.1.resolve == resolve,
{
    let impl_generics = ImplGenerics { explicit_impl, resolve };
    let ty_generics = TyGenerics { explicit_impl, resolve };
    (impl_generics, ty_generics)
}

/// The resolved lifetimes of a declaration with every name replaced by
/// the anonymous lifetime.
pub struct UnderscoreLifetimes<'a> {
    generics: &'a Lifetimes,
}

/// View a lifetime list with every name anonymized.
pub fn to_underscore_lifetimes(generics: &Lifetimes) -> (r: UnderscoreLifetimes<'_>)
    ensures
        r.spec_generics() == *generics,
{
    UnderscoreLifetimes { generics }
}

impl<'a> UnderscoreLifetimes<'a> {
    /// The underlying list, for contracts.
    pub closed spec fn spec_generics(&self) -> Lifetimes {
        *self.generics
    }

    /// Append the anonymized lifetime list to `out`.
    pub fn to_tokens(&self, out: &mut String)
        ensures
            final(out)@ == old(out)@ + spec_lifetimes_tokens(self.spec_generics(), true),
    {
        write_lifetimes(&self.generics.lifetimes, self.generics.bracketed, true, out);
    }
}

} // verus!
