//! The category of a declared type, wrappers included.

use vstd::prelude::*;
use crate::schema::basic_types::BasicValidationType;
use crate::schema::basic_types::basic_category;
use crate::schema::declared::DeclaredType;
use crate::schema::declared::TypeArgument;
use crate::text::str_eq;

verus! {

/// How many layers of a declared type are looked at. A type that is nested
/// deeper has no category.
pub const MAX_DEPTH: u32 = 5;

/// The category of a declared type: that of a type without arguments, or a
/// wrapper around the categories of its arguments.
#[derive(Debug)]
pub enum GenericValidationType {
    Basic(BasicValidationType),
    Option(Box<GenericValidationType>),
    Vec(Box<GenericValidationType>),
    HashSet(Box<GenericValidationType>),
    HashMap(Box<GenericValidationType>, Box<GenericValidationType>),
}

/// The category that stands for every type the rules cannot be checked
/// against.
pub open spec fn unsupported() -> GenericValidationType {
    GenericValidationType::Basic(BasicValidationType::Unsupported)
}

/// The category of `ty` when it stands `depth` layers below the field's
/// declared type.
///
/// A wrapper is kept only around arguments that have a category of their
/// own; below `MAX_DEPTH` layers nothing has one.
pub open spec fn classify(ty: DeclaredType, depth: nat) -> GenericValidationType
    decreases ty,
{
    if depth > MAX_DEPTH {
        unsupported()
    } else {
        match ty {
            DeclaredType::Other => unsupported(),
            DeclaredType::Path { segments, args } => {
                if segments.len() == 0 {
                    unsupported()
                } else {
                    let last = segments[segments.len() - 1]@;
                    if last == "Option"@ || last == "Vec"@ || last == "HashSet"@ {
                        if args.len() == 0 {
                            unsupported()
                        } else {
                            match args[0] {
                                TypeArgument::Other => unsupported(),
                                TypeArgument::Type(inner) => {
                                    let c = classify(inner, depth + 1);
                                    if !c.spec_is_valid() {
                                        unsupported()
                                    } else if last == "Option"@ {
                                        GenericValidationType::Option(Box::new(c))
                                    } else if last == "Vec"@ {
                                        GenericValidationType::Vec(Box::new(c))
                                    } else {
                                        GenericValidationType::HashSet(Box::new(c))
                                    }
                                },
                            }
                        }
                    } else if last == "HashMap"@ {
                        if args.len() < 2 {
                            unsupported()
                        } else {
                            match (args[0], args[1]) {
                                (TypeArgument::Type(key), TypeArgument::Type(value)) => {
                                    let k = classify(key, depth + 1);
                                    let v = classify(value, depth + 1);
                                    if k.spec_is_valid() && v.spec_is_valid() {
                                        GenericValidationType::HashMap(Box::new(k), Box::new(v))
                                    } else {
                                        unsupported()
                                    }
                                },
                                _ => unsupported(),
                            }
                        }
                    } else {
                        GenericValidationType::Basic(basic_category(ty))
                    }
                }
            },
        }
    }
}

impl GenericValidationType {
    /// The category of a field's declared type.
    pub fn from_type(ty: &DeclaredType) -> (r: GenericValidationType)
        ensures
            r == classify(*ty, 0),
            r.spec_is_valid() || r == unsupported(),
            r.layers() <= MAX_DEPTH,
    {
        proof {
            lemma_classify_shape(*ty, 0);
        }
        Self::from_type_inner(ty, 0)
    }

    fn from_type_inner(ty: &DeclaredType, depth: u32) -> (r: GenericValidationType)
        ensures
            r == classify(*ty, depth as nat),
        decreases ty,
    {
        if depth > MAX_DEPTH {
            return GenericValidationType::Basic(BasicValidationType::Unsupported);
        }
        match ty {
            DeclaredType::Other => GenericValidationType::Basic(BasicValidationType::Unsupported),
            DeclaredType::Path { segments, args } => {
                let n = segments.len();
                if n == 0 {
                    return GenericValidationType::Basic(BasicValidationType::Unsupported);
                }
                let last = segments[n - 1].as_str();
                let is_option = str_eq(last, "Option");
                let is_vec = str_eq(last, "Vec");
                if is_option || is_vec || str_eq(last, "HashSet") {
                    if args.len() == 0 {
                        return GenericValidationType::Basic(BasicValidationType::Unsupported);
                    }
                    match &args[0] {
                        TypeArgument::Other => GenericValidationType::Basic(
                            BasicValidationType::Unsupported,
                        ),
                        TypeArgument::Type(inner) => {
                            let c = Self::from_type_inner(inner, depth + 1);
                            if !c.is_valid() {
                                GenericValidationType::Basic(BasicValidationType::Unsupported)
                            } else if is_option {
                                GenericValidationType::Option(Box::new(c))
                            } else if is_vec {
                                GenericValidationType::Vec(Box::new(c))
                            } else {
                                GenericValidationType::HashSet(Box::new(c))
                            }
                        },
                    }
                } else if str_eq(last, "HashMap") {
                    if args.len() < 2 {
                        return GenericValidationType::Basic(BasicValidationType::Unsupported);
                    }
                    match (&args[0], &args[1]) {
                        (TypeArgument::Type(key), TypeArgument::Type(value)) => {
                            let k = Self::from_type_inner(key, depth + 1);
                            let v = Self::from_type_inner(value, depth + 1);
                            if k.is_valid() && v.is_valid() {
                                GenericValidationType::HashMap(Box::new(k), Box::new(v))
                            } else {
                                GenericValidationType::Basic(BasicValidationType::Unsupported)
                            }
                        },
                        _ => GenericValidationType::Basic(BasicValidationType::Unsupported),
                    }
                } else {
                    GenericValidationType::Basic(BasicValidationType::from_type(ty))
                }
            },
        }
    }

    /// The number of wrappers around the innermost category; for a mapping,
    /// the longer of its two sides counts.
    pub open spec fn layers(self) -> nat
        decreases self,
    {
        match self {
            GenericValidationType::Basic(_) => 0,
            GenericValidationType::Option(inner) => 1 + inner.layers(),
            GenericValidationType::Vec(inner) => 1 + inner.layers(),
            GenericValidationType::HashSet(inner) => 1 + inner.layers(),
            GenericValidationType::HashMap(key, value) => if key.layers() >= value.layers() {
                1 + key.layers()
            } else {
                1 + value.layers()
            },
        }
    }

    /// No part of the category is `Unsupported`.
    pub open spec fn spec_is_valid(&self) -> bool
        decreases self,
    {
        match self {
            GenericValidationType::Basic(basic) => *basic != BasicValidationType::Unsupported,
            GenericValidationType::Option(inner) => inner.spec_is_valid(),
            GenericValidationType::Vec(inner) => inner.spec_is_valid(),
            GenericValidationType::HashSet(inner) => inner.spec_is_valid(),
            GenericValidationType::HashMap(key, value) => key.spec_is_valid()
                && value.spec_is_valid(),
        }
    }

    /// Whether no part of the category is `Unsupported`.
    #[verifier::when_used_as_spec(spec_is_valid)]
    pub fn is_valid(&self) -> (r: bool)
        ensures
            r == self.spec_is_valid(),
        decreases self,
    {
        match self {
            GenericValidationType::Basic(basic) => !matches!(
                basic,
                BasicValidationType::Unsupported
            ),
            GenericValidationType::Option(inner) => inner.is_valid(),
            GenericValidationType::Vec(inner) => inner.is_valid(),
            GenericValidationType::HashSet(inner) => inner.is_valid(),
            GenericValidationType::HashMap(key, value) => key.is_valid() && value.is_valid(),
        }
    }

    /// The innermost category: what is left when every wrapper is taken
    /// off. Of a mapping, the key's side is followed.
    pub open spec fn spec_base_type(&self) -> BasicValidationType
        decreases self,
    {
        match self {
            GenericValidationType::Basic(basic) => *basic,
            GenericValidationType::Option(inner) => inner.spec_base_type(),
            GenericValidationType::Vec(inner) => inner.spec_base_type(),
            GenericValidationType::HashSet(inner) => inner.spec_base_type(),
            GenericValidationType::HashMap(key, _) => key.spec_base_type(),
        }
    }

    /// The innermost category.
    pub fn get_base_type(&self) -> (r: &BasicValidationType)
        ensures
            *r == self.spec_base_type(),
        decreases self,
    {
        match self {
            GenericValidationType::Basic(basic) => basic,
            GenericValidationType::Option(inner) => inner.get_base_type(),
            GenericValidationType::Vec(inner) => inner.get_base_type(),
            GenericValidationType::HashSet(inner) => inner.get_base_type(),
            GenericValidationType::HashMap(key, _) => key.get_base_type(),
        }
    }

    pub open spec fn spec_is_string(&self) -> bool {
        self.spec_base_type() == BasicValidationType::String
    }

    /// Whether the innermost category is text.
    #[verifier::when_used_as_spec(spec_is_string)]
    pub fn is_string(&self) -> (r: bool)
        ensures
            r == self.spec_is_string(),
    {
        self.get_base_type().is_string()
    }

    pub open spec fn spec_is_collection(&self) -> bool {
        ||| self is Vec
        ||| self is HashSet
        ||| self is HashMap
    }

    /// Whether the outermost layer is a collection.
    #[verifier::when_used_as_spec(spec_is_collection)]
    pub fn is_collection(&self) -> (r: bool)
        ensures
            r == self.spec_is_collection(),
    {
        matches!(
            self,
            GenericValidationType::Vec(_) | GenericValidationType::HashSet(_)
                | GenericValidationType::HashMap(_, _)
        )
    }

    pub open spec fn spec_supports_range(&self) -> bool {
        self.spec_base_type().spec_supports_range()
    }

    /// Whether the innermost category is ordered.
    #[verifier::when_used_as_spec(spec_supports_range)]
    pub fn supports_range(&self) -> (r: bool)
        ensures
            r == self.spec_supports_range(),
    {
        self.get_base_type().supports_range()
    }

    pub open spec fn spec_supports_size(&self) -> bool {
        self.spec_is_string() || self.spec_is_collection()
    }

    /// Whether a value of this category has a size: text has, and so has a
    /// collection.
    #[verifier::when_used_as_spec(spec_supports_size)]
    pub fn supports_size(&self) -> (r: bool)
        ensures
            r == self.spec_supports_size(),
    {
        self.is_string() || self.is_collection()
    }

    pub open spec fn spec_is_option(&self) -> bool {
        self is Option
    }

    /// Whether the outermost layer is optional.
    #[verifier::when_used_as_spec(spec_is_option)]
    pub fn is_option(&self) -> (r: bool)
        ensures
            r == self.spec_is_option(),
    {
        matches!(self, GenericValidationType::Option(_))
    }

    pub open spec fn spec_is_custom_struct(&self) -> bool {
        self.spec_base_type() == BasicValidationType::CustomStruct
    }

    /// Whether the innermost category is a record of the caller's.
    #[verifier::when_used_as_spec(spec_is_custom_struct)]
    pub fn is_custom_struct(&self) -> (r: bool)
        ensures
            r == self.spec_is_custom_struct(),
    {
        matches!(self.get_base_type(), BasicValidationType::CustomStruct)
    }

    /// A copy of the category.
    pub fn duplicate(&self) -> (r: GenericValidationType)
        ensures
            r == *self,
        decreases self,
    {
        match self {
            GenericValidationType::Basic(basic) => GenericValidationType::Basic(*basic),
            GenericValidationType::Option(inner) => GenericValidationType::Option(
                Box::new(inner.duplicate()),
            ),
            GenericValidationType::Vec(inner) => GenericValidationType::Vec(
                Box::new(inner.duplicate()),
            ),
            GenericValidationType::HashSet(inner) => GenericValidationType::HashSet(
                Box::new(inner.duplicate()),
            ),
            GenericValidationType::HashMap(key, value) => GenericValidationType::HashMap(
                Box::new(key.duplicate()),
                Box::new(value.duplicate()),
            ),
        }
    }
}

/// What the classifier gives is whole or nothing: either no part of the
/// category is `Unsupported`, or the category is `Unsupported` itself. It
/// never has more wrappers than the depth allows.
pub proof fn lemma_classify_shape(ty: DeclaredType, depth: nat)
    ensures
        classify(ty, depth).spec_is_valid() || classify(ty, depth) == unsupported(),
        depth <= MAX_DEPTH ==> classify(ty, depth).layers() + depth <= MAX_DEPTH,
        depth > MAX_DEPTH ==> classify(ty, depth) == unsupported(),
    decreases ty,
{
    if depth <= MAX_DEPTH {
        match ty {
            DeclaredType::Other => {},
            DeclaredType::Path { segments, args } => {
                if segments.len() > 0 {
                    if args.len() > 0 {
                        match args[0] {
                            TypeArgument::Type(inner) => {
                                lemma_classify_shape(inner, depth + 1);
                            },
                            TypeArgument::Other => {},
                        }
                    }
                    if args.len() > 1 {
                        match args[1] {
                            TypeArgument::Type(inner) => {
                                lemma_classify_shape(inner, depth + 1);
                            },
                            TypeArgument::Other => {},
                        }
                    }
                }
            },
        }
    }
}

} // verus!
