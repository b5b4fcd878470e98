//! The bridge compiler's view of boundary-crossing types: which built-in
//! atoms exist, how pointer-like wrappers nest, and which types are
//! guaranteed plain-old-data so they can be passed by value across the
//! boundary.

use vstd::prelude::*;

verus! {

/// A built-in atom type of the boundary language.
#[derive(Clone, Copy, PartialEq, Eq, Structural, Debug)]
pub enum Atom {
    Bool,
    Char,
    U8,
    U16,
    U32,
    U64,
    Usize,
    I8,
    I16,
    I32,
    I64,
    Isize,
    F32,
    F64,
    CxxString,
    RustString,
}

/// A named type as written in the interface definition.
pub struct NamedType {
    /// The managed-side name.
    pub rust: String,
    /// The lifetime parameters, in order.
    pub lifetimes: Vec<String>,
}

/// A type expression of the interface definition: the payload of each
/// wrapper variant is the wrapped inner type.
pub enum Type {
    Ident(NamedType),
    RustBox(Box<Type>),
    RustVec(Box<Type>),
    UniquePtr(Box<Type>),
    SharedPtr(Box<Type>),
    WeakPtr(Box<Type>),
    CxxVector(Box<Type>),
    KjOwn(Box<Type>),
    KjRc(Box<Type>),
    KjArc(Box<Type>),
    KjMaybe(Box<Type>),
    KjDate,
    Ref(Box<Type>),
    Str,
    Fn,
    SliceRef(Box<Type>),
    Ptr(Box<Type>),
    Void,
    Array(Box<Type>),
    Future(Box<Type>),
}

/// A struct declared in the interface definition, as the type checker
/// reads it: its name, whether it derives a by-value copy, and its field
/// types.
pub struct StructDef {
    /// The struct's name.
    pub name: String,
    /// Whether the declaration derives a by-value copy.
    pub copy_derived: bool,
    /// The types of its fields, in order.
    pub fields: Vec<Type>,
}

/// The type tables built from an interface definition: the declared
/// structs and the names of the declared enums.
pub struct Types {
    /// The declared structs.
    pub structs: Vec<StructDef>,
    /// The names of the declared enums.
    pub enums: Vec<String>,
}

/// The atom a name denotes, if any.
pub open spec fn spec_atom_of(name: Seq<char>) -> Option<Atom> {
    if name == "bool"@ {
        Some(Atom::Bool)
    } else if name == "c_char"@ {
        Some(Atom::Char)
    } else if name == "u8"@ {
        Some(Atom::U8)
    } else if name == "u16"@ {
        Some(Atom::U16)
    } else if name == "u32"@ {
        Some(Atom::U32)
    } else if name == "u64"@ {
        Some(Atom::U64)
    } else if name == "usize"@ {
        Some(Atom::Usize)
    } else if name == "i8"@ {
        Some(Atom::I8)
    } else if name == "i16"@ {
        Some(Atom::I16)
    } else if name == "i32"@ {
        Some(Atom::I32)
    } else if name == "i64"@ {
        Some(Atom::I64)
    } else if name == "isize"@ {
        Some(Atom::Isize)
    } else if name == "f32"@ {
        Some(Atom::F32)
    } else if name == "f64"@ {
        Some(Atom::F64)
    } else if name == "CxxString"@ {
        Some(Atom::CxxString)
    } else if name == "String"@ {
        Some(Atom::RustString)
    } else {
        None
    }
}

/// Whether an atom is plain-old-data: every numeric atom is, the two
/// string atoms are not.
pub open spec fn spec_atom_pod(atom: Atom) -> bool {
    match atom {
        Atom::CxxString => false,
        Atom::RustString => false,
        _ => true,
    }
}

/// The first struct of the table with the given name.
pub open spec fn spec_find_struct(structs: Seq<StructDef>, name: Seq<char>) -> Option<StructDef>
    decreases structs.len(),
{
    if structs.len() == 0 {
        None
    } else if structs[0].name@ == name {
        Some(structs[0])
    } else {
        spec_find_struct(structs.skip(1), name)
    }
}

/// Whether the table declares an enum with the given name.
pub open spec fn spec_has_enum(enums: Seq<String>, name: Seq<char>) -> bool
    decreases enums.len(),
{
    if enums.len() == 0 {
        false
    } else if enums[0]@ == name {
        true
    } else {
        spec_has_enum(enums.skip(1), name)
    }
}

/// The nesting height of a type expression: how many wrapper layers it
/// has.
pub open spec fn spec_type_height(ty: Type) -> nat
    decreases ty,
{
    match ty {
        Type::Ident(_) => 0,
        Type::RustBox(inner) => spec_type_height(*inner) + 1,
        Type::RustVec(inner) => spec_type_height(*inner) + 1,
        Type::UniquePtr(inner) => spec_type_height(*inner) + 1,
        Type::SharedPtr(inner) => spec_type_height(*inner) + 1,
        Type::WeakPtr(inner) => spec_type_height(*inner) + 1,
        Type::CxxVector(inner) => spec_type_height(*inner) + 1,
        Type::KjOwn(inner) => spec_type_height(*inner) + 1,
        Type::KjRc(inner) => spec_type_height(*inner) + 1,
        Type::KjArc(inner) => spec_type_height(*inner) + 1,
        Type::KjMaybe(inner) => spec_type_height(*inner) + 1,
        Type::KjDate => 0,
        Type::Ref(inner) => spec_type_height(*inner) + 1,
        Type::Str => 0,
        Type::Fn => 0,
        Type::SliceRef(inner) => spec_type_height(*inner) + 1,
        Type::Ptr(inner) => spec_type_height(*inner) + 1,
        Type::Void => 0,
        Type::Array(inner) => spec_type_height(*inner) + 1,
        Type::Future(inner) => spec_type_height(*inner) + 1,
    }
}

/// Whether a type is guaranteed plain-old-data. `depth` bounds how many
/// struct definitions a chain of by-value fields may pass through; a
/// well-formed table nests at most one level per declared struct, since a
/// struct cannot contain itself by value.
pub open spec fn spec_is_pod(types: Types, ty: Type, depth: nat) -> bool
    decreases 2 * depth + 1, spec_type_height(ty),
{
    match ty {
        Type::Ident(ident) => match spec_atom_of(ident.rust@) {
            Some(atom) => spec_atom_pod(atom),
            None => match spec_find_struct(types.structs@, ident.rust@) {
                Some(strct) => strct.copy_derived || (depth > 0 && spec_fields_pod(
                    types,
                    strct.fields@,
                    (depth - 1) as nat,
                )),
                None => spec_has_enum(types.enums@, ident.rust@),
            },
        },
        Type::RustBox(_) => false,
        Type::RustVec(_) => false,
        Type::UniquePtr(_) => false,
        Type::SharedPtr(_) => false,
        Type::WeakPtr(_) => false,
        Type::CxxVector(_) => false,
        Type::KjOwn(_) => false,
        Type::KjRc(_) => false,
        Type::KjArc(_) => false,
        Type::KjMaybe(_) => false,
        Type::KjDate => true,
        Type::Ref(_) => true,
        Type::Str => true,
        Type::Fn => true,
        Type::SliceRef(_) => true,
        Type::Ptr(_) => true,
        Type::Void => false,
        Type::Array(inner) => spec_is_pod(types, *inner, depth),
        Type::Future(_) => false,
    }
}

/// Whether every field type in the sequence is plain-old-data at the
/// given nesting depth.
pub open spec fn spec_fields_pod(types: Types, fields: Seq<Type>, depth: nat) -> bool
    decreases 2 * depth + 2, fields.len(),
{
    if fields.len() == 0 {
        true
    } else {
        spec_is_pod(types, fields[0], depth) && spec_fields_pod(types, fields.skip(1), depth)
    }
}

impl Types {
    /// Whether `ty` is guaranteed plain-old-data, so a value of it can
    /// cross the boundary by plain copy: atoms but the string types,
    /// structs whose declaration derives a copy or all of whose fields
    /// are recursively plain-old-data, enums, references, pointers and
    /// function pointers; never the owning pointer wrappers, vectors,
    /// optionals or futures.
    pub fn is_guaranteed_pod(&self, ty: &Type) -> (r: bool)
        ensures
            r == spec_is_pod(*self, *ty, self.structs@.len() as nat),
    {
        let depth = self.structs.len();
        self.pod_with_depth(ty, depth)
    }

    /// `is_guaranteed_pod`, with an explicit bound on struct nesting.
    fn pod_with_depth(&self, ty: &Type, depth: usize) -> (r: bool)
        ensures
            r == spec_is_pod(*self, *ty, depth as nat),
        decreases 2 * (depth as nat) + 1, spec_type_height(*ty),
    {
        match ty {
            Type::Ident(ident) => match atom_of(&ident.rust) {
                Some(atom) => match atom {
                    Atom::CxxString => false,
                    Atom::RustString => false,
                    _ => true,
                },
                None => match self.find_struct(&ident.rust) {
                    Some(i) => {
                        let strct = &self.structs[i];
                        if strct.copy_derived {
                            true
                        } else if depth == 0 {
                            false
                        } else {
                            self.fields_pod(&strct.fields, depth - 1)
                        }
                    },
                    None => self.has_enum(&ident.rust),
                },
            },
            Type::KjDate => true,
            Type::Ref(_) => true,
            Type::Str => true,
            Type::Fn => true,
            Type::SliceRef(_) => true,
            Type::Ptr(_) => true,
            Type::Array(inner) => self.pod_with_depth(inner, depth),
            _ => false,
        }
    }

    /// Whether every field of the slice is plain-old-data at the given
    /// nesting depth.
    fn fields_pod(&self, fields: &Vec<Type>, depth: usize) -> (r: bool)
        ensures
            r == spec_fields_pod(*self, fields@, depth as nat),
        decreases 2 * (depth as nat) + 2, fields@.len(),
    {
        let mut k: usize = 0;
        proof {
            assert(fields@.skip(0) =~= fields@);
        }
        while k < fields.len()
            invariant
                k <= fields@.len(),
                spec_fields_pod(*self, fields@.skip(k as int), depth as nat) == spec_fields_pod(
                    *self,
                    fields@,
                    depth as nat,
                ),
            decreases fields@.len() - k,
        {
            proof {
                assert(fields@.skip(k as int)[0] == fields@[k as int]);
                assert(fields@.skip(k as int).skip(1) =~= fields@.skip(k + 1));
            }
            if !self.pod_with_depth(&fields[k], depth) {
                return false;
            }
            k = k + 1;
        }
        proof {
            assert(fields@.skip(k as int).len() == 0);
        }
        true
    }

    /// The index of the struct declared under `name`, if any.
    fn find_struct(&self, name: &String) -> (r: Option<usize>)
        ensures
            r matches Some(i) ==> i < self.structs@.len() && spec_find_struct(
                self.structs@,
                name@,
            ) == Some(self.structs@[i as int]),
            r is None ==> spec_find_struct(self.structs@, name@) is None,
    {
        let mut i: usize = 0;
        proof {
            assert(self.structs@.skip(0) =~= self.structs@);
        }
        while i < self.structs.len()
            invariant
                i <= self.structs@.len(),
                spec_find_struct(self.structs@.skip(i as int), name@) == spec_find_struct(
                    self.structs@,
                    name@,
                ),
            decreases self.structs@.len() - i,
        {
            proof {
                assert(self.structs@.skip(i as int)[0] == self.structs@[i as int]);
                assert(self.structs@.skip(i as int).skip(1) =~= self.structs@.skip(i + 1));
            }
            if self.structs[i].name == *name {
                return Some(i);
            }
            i = i + 1;
        }
        proof {
            assert(self.structs@.skip(i as int).len() == 0);
        }
        None
    }

    /// Whether an enum is declared under `name`.
    fn has_enum(&self, name: &String) -> (r: bool)
        ensures
            r == spec_has_enum(self.enums@, name@),
    {
        let mut i: usize = 0;
        proof {
            assert(self.enums@.skip(0) =~= self.enums@);
        }
        while i < self.enums.len()
            invariant
                i <= self.enums@.len(),
                spec_has_enum(self.enums@.skip(i as int), name@) == spec_has_enum(
                    self.enums@,
                    name@,
                ),
            decreases self.enums@.len() - i,
        {
            proof {
                assert(self.enums@.skip(i as int)[0] == self.enums@[i as int]);
                assert(self.enums@.skip(i as int).skip(1) =~= self.enums@.skip(i + 1));
            }
            if self.enums[i] == *name {
                return true;
            }
            i = i + 1;
        }
        proof {
            assert(self.enums@.skip(i as int).len() == 0);
        }
        false
    }
}

/// The atom `name` denotes, if any.
pub fn atom_of(name: &String) -> (r: Option<Atom>)
    ensures
        r == spec_atom_of(name@),
{
    if *name == "bool".to_owned() {
        Some(Atom::Bool)
    } else if *name == "c_char".to_owned() {
        Some(Atom::Char)
    } else if *name == "u8".to_owned() {
        Some(Atom::U8)
    } else if *name == "u16".to_owned() {
        Some(Atom::U16)
    } else if *name == "u32".to_owned() {
        Some(Atom::U32)
    } else if *name == "u64".to_owned() {
        Some(Atom::U64)
    } else if *name == "usize".to_owned() {
        Some(Atom::Usize)
    } else if *name == "i8".to_owned() {
        Some(Atom::I8)
    } else if *name == "i16".to_owned() {
        Some(Atom::I16)
    } else if *name == "i32".to_owned() {
        Some(Atom::I32)
    } else if *name == "i64".to_owned() {
        Some(Atom::I64)
    } else if *name == "isize".to_owned() {
        Some(Atom::Isize)
    } else if *name == "f32".to_owned() {
        Some(Atom::F32)
    } else if *name == "f64".to_owned() {
        Some(Atom::F64)
    } else if *name == "CxxString".to_owned() {
        Some(Atom::CxxString)
    } else if *name == "String".to_owned() {
        Some(Atom::RustString)
    } else {
        None
    }
}

/// The piece of an implementation key naming the inner type of a wrapper
/// instantiation.
pub struct NamedImplKey {
    /// The inner type's managed-side name.
    pub rust: String,
}

/// Which wrapper instantiations need generated support code: one variant
/// per wrapper that the generator emits implementations for.
pub enum ImplKey {
    RustBox(NamedImplKey),
    RustVec(NamedImplKey),
    UniquePtr(NamedImplKey),
    Own(NamedImplKey),
    Maybe(NamedImplKey),
    SharedPtr(NamedImplKey),
    WeakPtr(NamedImplKey),
    CxxVector(NamedImplKey),
}

/// The implementation key of a type: the wrapper kind and inner type
/// name, for wrappers instantiated at a plain named type.
pub open spec fn spec_impl_key(ty: Type) -> Option<ImplKey> {
    match ty {
        Type::RustBox(inner) => spec_named_key(*inner, |k: NamedImplKey| ImplKey::RustBox(k)),
        Type::RustVec(inner) => spec_named_key(*inner, |k: NamedImplKey| ImplKey::RustVec(k)),
        Type::UniquePtr(inner) => spec_named_key(*inner, |k: NamedImplKey| ImplKey::UniquePtr(k)),
        Type::KjOwn(inner) => spec_named_key(*inner, |k: NamedImplKey| ImplKey::Own(k)),
        Type::KjMaybe(inner) => spec_named_key(*inner, |k: NamedImplKey| ImplKey::Maybe(k)),
        Type::SharedPtr(inner) => spec_named_key(*inner, |k: NamedImplKey| ImplKey::SharedPtr(k)),
        Type::WeakPtr(inner) => spec_named_key(*inner, |k: NamedImplKey| ImplKey::WeakPtr(k)),
        Type::CxxVector(inner) => spec_named_key(*inner, |k: NamedImplKey| ImplKey::CxxVector(k)),
        _ => None,
    }
}

/// Helper for `spec_impl_key`: a key is produced only when the wrapped
/// type is a plain named type.
pub open spec fn spec_named_key(
    inner: Type,
    wrap: spec_fn(NamedImplKey) -> ImplKey,
) -> Option<ImplKey> {
    match inner {
        Type::Ident(ident) => Some(wrap(NamedImplKey { rust: ident.rust })),
        _ => None,
    }
}

impl Type {
    /// The implementation key of this type: for each supported wrapper
    /// instantiated at a plain named type, the wrapper kind together with
    /// the inner type's name; `None` for everything else.
    pub fn impl_key(&self) -> (r: Option<ImplKey>)
        ensures
            r == spec_impl_key(*self),
    {
        match self {
            Type::RustBox(inner) => match &**inner {
                Type::Ident(ident) => Some(
                    ImplKey::RustBox(NamedImplKey { rust: clone_string(&ident.rust) }),
                ),
                _ => None,
            },
            Type::RustVec(inner) => match &**inner {
                Type::Ident(ident) => Some(
                    ImplKey::RustVec(NamedImplKey { rust: clone_string(&ident.rust) }),
                ),
                _ => None,
            },
            Type::UniquePtr(inner) => match &**inner {
                Type::Ident(ident) => Some(
                    ImplKey::UniquePtr(NamedImplKey { rust: clone_string(&ident.rust) }),
                ),
                _ => None,
            },
            Type::KjOwn(inner) => match &**inner {
                Type::Ident(ident) => Some(
                    ImplKey::Own(NamedImplKey { rust: clone_string(&ident.rust) }),
                ),
                _ => None,
            },
            Type::KjMaybe(inner) => match &**inner {
                Type::Ident(ident) => Some(
                    ImplKey::Maybe(NamedImplKey { rust: clone_string(&ident.rust) }),
                ),
                _ => None,
            },
            Type::SharedPtr(inner) => match &**inner {
                Type::Ident(ident) => Some(
                    ImplKey::SharedPtr(NamedImplKey { rust: clone_string(&ident.rust) }),
                ),
                _ => None,
            },
            Type::WeakPtr(inner) => match &**inner {
                Type::Ident(ident) => Some(
                    ImplKey::WeakPtr(NamedImplKey { rust: clone_string(&ident.rust) }),
                ),
                _ => None,
            },
            Type::CxxVector(inner) => match &**inner {
                Type::Ident(ident) => Some(
                    ImplKey::CxxVector(NamedImplKey { rust: clone_string(&ident.rust) }),
                ),
                _ => None,
            },
            _ => None,
        }
    }
}

/// A copy of a string, equal to the one it was made from.
fn clone_string(s: &String) -> (r: String)
    ensures
        r == *s,
{
    s.clone()
}

} // verus!
