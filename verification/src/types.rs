use vstd::prelude::*;

verus! {

/// The static types of the language.
#[derive(Debug, Clone, Copy, PartialEq, Eq, Structural)]
pub enum Type {
    Int,
    Char,
    Bool,
    Float,
}

impl Type {
    /// The name of the type as it appears in source programs and diagnostics.
    pub fn name(&self) -> (r: String)
        ensures
            r@ == self.spec_name(),
    {
        match self {
            Type::Int => "int".to_owned(),
            Type::Char => "char".to_owned(),
            Type::Bool => "bool".to_owned(),
            Type::Float => "float".to_owned(),
        }
    }

    pub open spec fn spec_name(self) -> Seq<char> {
        match self {
            Type::Int => "int"@,
            Type::Char => "char"@,
            Type::Bool => "bool"@,
            Type::Float => "float"@,
        }
    }

    /// The zero initializer used for a global of this type in textual IR.
    pub fn global_init(&self) -> (r: String)
        ensures
            r@ == (if self is Float { "0x0"@ } else { "0"@ }),
    {
        match self {
            Type::Int | Type::Bool | Type::Char => "0".to_owned(),
            Type::Float => "0x0".to_owned(),
        }
    }

    /// The textual-IR spelling of this type.
    pub fn llvm_type(&self) -> (r: String)
        ensures
            r@ == self.spec_llvm_type(),
    {
        match self {
            Type::Int => "i32".to_owned(),
            Type::Float => "double".to_owned(),
            Type::Bool => "i1".to_owned(),
            Type::Char => "i8".to_owned(),
        }
    }

    pub open spec fn spec_llvm_type(self) -> Seq<char> {
        match self {
            Type::Int => "i32"@,
            Type::Float => "double"@,
            Type::Bool => "i1"@,
            Type::Char => "i8"@,
        }
    }
}

/// A runtime value of the language, or a held type for a slot that was
/// declared without an initializer.
///
/// A `Float` value carries the raw bit pattern of its binary64
/// representation; this crate moves such values around but performs no
/// floating-point computation on them.
#[derive(Debug, Clone, Copy, PartialEq)]
pub enum WabbitType {
    Int(i32),
    Float(u64),
    Char(char),
    Bool(bool),
    TypeHolder(Type),
}

impl WabbitType {
    /// The static type that this value inhabits.
    pub fn dtype(&self) -> (r: Type)
        ensures
            r == self.spec_dtype(),
    {
        match self {
            WabbitType::Bool(_) => Type::Bool,
            WabbitType::Int(_) => Type::Int,
            WabbitType::Char(_) => Type::Char,
            WabbitType::Float(_) => Type::Float,
            WabbitType::TypeHolder(t) => *t,
        }
    }

    pub open spec fn spec_dtype(self) -> Type {
        match self {
            WabbitType::Bool(_) => Type::Bool,
            WabbitType::Int(_) => Type::Int,
            WabbitType::Char(_) => Type::Char,
            WabbitType::Float(_) => Type::Float,
            WabbitType::TypeHolder(t) => t,
        }
    }
}

impl From<i32> for WabbitType {
    fn from(value: i32) -> (r: Self) {
        WabbitType::Int(value)
    }
}

impl vstd::std_specs::convert::FromSpecImpl<i32> for WabbitType {
    open spec fn obeys_from_spec() -> bool {
        true
    }

    open spec fn from_spec(value: i32) -> Self {
        WabbitType::Int(value)
    }
}

impl From<char> for WabbitType {
    fn from(value: char) -> (r: Self) {
        WabbitType::Char(value)
    }
}

impl vstd::std_specs::convert::FromSpecImpl<char> for WabbitType {
    open spec fn obeys_from_spec() -> bool {
        true
    }

    open spec fn from_spec(value: char) -> Self {
        WabbitType::Char(value)
    }
}

impl From<bool> for WabbitType {
    fn from(value: bool) -> (r: Self) {
        WabbitType::Bool(value)
    }
}

impl vstd::std_specs::convert::FromSpecImpl<bool> for WabbitType {
    open spec fn obeys_from_spec() -> bool {
        true
    }

    open spec fn from_spec(value: bool) -> Self {
        WabbitType::Bool(value)
    }
}

} // verus!
