//! A field's declared type, as it was written.

use vstd::prelude::*;
use crate::text::str_eq;

verus! {

/// One argument between the angle brackets of a path's last segment.
pub enum TypeArgument {
    /// A type.
    Type(DeclaredType),
    /// Anything else: a lifetime, a constant, a binding.
    Other,
}

/// A declared type.
pub enum DeclaredType {
    /// A path, such as `String`, `Option<u32>` or
    /// `std::collections::HashMap<String, Item>`: the names of its segments
    /// and the angle-bracketed arguments of the last of them.
    Path { segments: Vec<String>, args: Vec<TypeArgument> },
    /// Any other form: a reference, a tuple, an array, a function pointer.
    Other,
}

impl DeclaredType {
    /// The name of the first segment; empty where there is none.
    pub open spec fn first_name(self) -> Seq<char> {
        match self {
            DeclaredType::Path { segments, .. } => if segments.len() > 0 {
                segments[0]@
            } else {
                Seq::empty()
            },
            DeclaredType::Other => Seq::empty(),
        }
    }

    /// The name of the last segment; empty where there is none.
    pub open spec fn last_name(self) -> Seq<char> {
        match self {
            DeclaredType::Path { segments, .. } => if segments.len() > 0 {
                segments[segments.len() - 1]@
            } else {
                Seq::empty()
            },
            DeclaredType::Other => Seq::empty(),
        }
    }

    /// Whether this is a path with at least one segment.
    pub open spec fn is_named(self) -> bool {
        self matches DeclaredType::Path { segments, .. } && segments.len() > 0
    }

    /// The type argument at `index` of the last segment, if that argument
    /// exists and is a type.
    pub open spec fn type_argument(self, index: int) -> Option<DeclaredType> {
        match self {
            DeclaredType::Path { args, .. } => if 0 <= index < args.len() {
                match args[index] {
                    TypeArgument::Type(inner) => Some(inner),
                    TypeArgument::Other => None,
                }
            } else {
                None
            },
            DeclaredType::Other => None,
        }
    }

    /// The name of the type at the heart of this one: of `Option<T>`,
    /// `Vec<T>` or `HashSet<T>` the name of `T`, of any other type its own.
    pub open spec fn heart_name(self) -> Seq<char> {
        let last = self.last_name();
        if last == "Option"@ || last == "Vec"@ || last == "HashSet"@ {
            match self.type_argument(0) {
                Some(inner) => inner.last_name(),
                None => Seq::empty(),
            }
        } else {
            last
        }
    }

    /// The name of the last segment; empty where there is none.
    pub fn name(&self) -> (r: &str)
        ensures
            r@ == self.last_name(),
    {
        match self {
            DeclaredType::Path { segments, .. } => {
                if segments.len() > 0 {
                    segments[segments.len() - 1].as_str()
                } else {
                    proof {
                        reveal_strlit("");
                        assert(""@ =~= Seq::<char>::empty());
                    }
                    ""
                }
            },
            DeclaredType::Other => {
                proof {
                    reveal_strlit("");
                    assert(""@ =~= Seq::<char>::empty());
                }
                ""
            },
        }
    }

    /// The name of the type at the heart of this one.
    pub fn heart(&self) -> (r: &str)
        ensures
            r@ == self.heart_name(),
    {
        let last = self.name();
        if str_eq(last, "Option") || str_eq(last, "Vec") || str_eq(last, "HashSet") {
            if let DeclaredType::Path { args, .. } = self {
                if args.len() > 0 {
                    if let TypeArgument::Type(inner) = &args[0] {
                        return inner.name();
                    }
                }
            }
            proof {
                reveal_strlit("");
                assert(""@ =~= Seq::<char>::empty());
            }
            ""
        } else {
            last
        }
    }

    /// A path of one segment and no arguments.
    pub fn named(name: &str) -> (r: DeclaredType)
        ensures
            r.is_named(),
            r.first_name() == name@,
            r.last_name() == name@,
            r.type_argument(0) is None,
            r.type_argument(1) is None,
    {
        let mut segments: Vec<String> = Vec::new();
        segments.push(name.to_owned());
        DeclaredType::Path { segments, args: Vec::new() }
    }

    /// A path of one segment with one type argument, such as `Option<T>`.
    pub fn wrapping(name: &str, inner: DeclaredType) -> (r: DeclaredType)
        ensures
            r.is_named(),
            r.first_name() == name@,
            r.last_name() == name@,
            r.type_argument(0) == Some(inner),
            r.type_argument(1) is None,
    {
        let mut segments: Vec<String> = Vec::new();
        segments.push(name.to_owned());
        let mut args: Vec<TypeArgument> = Vec::new();
        args.push(TypeArgument::Type(inner));
        DeclaredType::Path { segments, args }
    }

    /// A path of one segment with two type arguments, such as `HashMap<K, V>`.
    pub fn mapping(name: &str, key: DeclaredType, value: DeclaredType) -> (r: DeclaredType)
        ensures
            r.is_named(),
            r.first_name() == name@,
            r.last_name() == name@,
            r.type_argument(0) == Some(key),
            r.type_argument(1) == Some(value),
    {
        let mut segments: Vec<String> = Vec::new();
        segments.push(name.to_owned());
        let mut args: Vec<TypeArgument> = Vec::new();
        args.push(TypeArgument::Type(key));
        args.push(TypeArgument::Type(value));
        DeclaredType::Path { segments, args }
    }
}

} // verus!
