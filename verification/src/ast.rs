//! The abstract syntax tree handed over by the external parser, together
//! with the type-size query that drives stack-frame slot allocation.

use vstd::prelude::*;

verus! {

/// A parsed translation unit: the ordered sequence of function definitions.
#[derive(Debug, PartialEq)]
pub struct Program {
    pub functions: Vec<FunctionDefinition>,
}

/// One `(type, name)` parameter of a function definition.
#[derive(Debug, PartialEq)]
pub struct FunctionParameter {
    pub ty: Type,
    pub name: String,
}

/// A function definition. A definition without a body is a declaration
/// only and generates no code.
#[derive(Debug, PartialEq)]
pub struct FunctionDefinition {
    pub return_type: Type,
    pub name: String,
    pub parameters: Vec<FunctionParameter>,
    pub body: Option<Vec<Statement>>,
}

/// The closed set of source-language types.
#[derive(Debug, PartialEq)]
pub enum Type {
    Int,
    Function { return_type: Box<Type>, arguments: Vec<Type> },
}

/// Statements of a function body.
#[derive(Debug, PartialEq)]
pub enum Statement {
    Return(Box<Expr>),
    VariableDefinition { ty: Type, name: String, value: Box<Expr> },
    Expr(Box<Expr>),
}

/// Expressions. Only the shapes the code generator lowers are listed; any
/// operator outside that set is rejected during compilation, not here.
#[derive(Debug, PartialEq)]
pub enum Expr {
    Number(i32),
    Ident(String),
    FunctionCall(FunctionCall),
    Op(Box<Expr>, Opcode, Box<Expr>),
    AddressOf(String),
    Dereference(Box<Expr>),
    Assignment { lhs: Box<Expr>, op: AssignmentOp, value: Box<Expr> },
    RawString(String),
}

/// Binary operators of the source language. Only `Add` is lowered; the
/// others are an unsupported construct at compile time.
#[derive(Debug, Clone, Copy, PartialEq, Eq, Structural)]
pub enum Opcode {
    Mul,
    Div,
    Add,
    Sub,
}

/// Assignment operators. Only the plain `Assign` is lowered; compound
/// assignment is an unsupported construct at compile time.
#[derive(Debug, Clone, Copy, PartialEq, Eq, Structural)]
pub enum AssignmentOp {
    Assign,
    AddAssign,
}

/// A call expression: a callee name and its argument expressions.
#[derive(Debug, PartialEq)]
pub struct FunctionCall {
    pub name: String,
    pub arguments: Vec<Box<Expr>>,
}

/// Mathematical mirror of [`Type`]: names are sequences of characters and
/// argument lists are sequences, so that contracts can state deep equality.
pub ghost enum TypeV {
    Int,
    Function { return_type: Box<TypeV>, arguments: Seq<TypeV> },
}

/// The mathematical value of a [`Type`].
pub open spec fn type_view(t: Type) -> TypeV
    decreases t, 0int,
{
    match t {
        Type::Int => TypeV::Int,
        Type::Function { return_type, arguments } => TypeV::Function {
            return_type: Box::new(type_view(*return_type)),
            arguments: types_view(arguments@),
        },
    }
}

/// The mathematical values of a sequence of [`Type`]s, element for element.
pub open spec fn types_view(ts: Seq<Type>) -> Seq<TypeV>
    decreases ts, 1int,
{
    if ts.len() == 0 {
        Seq::empty()
    } else {
        types_view(ts.drop_last()).push(type_view(ts.last()))
    }
}

/// `types_view` agrees pointwise with `type_view`.
pub proof fn lemma_types_view_index(ts: Seq<Type>, i: int)
    requires
        0 <= i < ts.len(),
    ensures
        #[trigger] types_view(ts)[i] == type_view(ts[i]),
    decreases ts.len(),
{
    lemma_types_view_len(ts.drop_last());
    if i < ts.len() - 1 {
        lemma_types_view_index(ts.drop_last(), i);
    }
}

/// The length of `types_view` matches the length of its argument.
pub proof fn lemma_types_view_len(ts: Seq<Type>)
    ensures
        types_view(ts).len() == ts.len(),
    decreases ts.len(),
{
    if ts.len() > 0 {
        lemma_types_view_len(ts.drop_last());
    }
}

/// The number of bytes a value of type `t` occupies in a stack slot.
/// Every variant that can be stored in a slot has a defined size.
pub open spec fn spec_stack_size(t: Type) -> int {
    match t {
        Type::Int => 4,
        Type::Function { .. } => 4,
    }
}

/// Every type of the closed variant set has a defined stack size, and it
/// is four bytes: the one operand width this generator stores in slots.
pub proof fn lemma_stack_size_defined(t: Type)
    ensures
        spec_stack_size(t) == 4,
{
    match t {
        Type::Int => {},
        Type::Function { .. } => {},
    }
}

impl Type {
    /// Stack-slot size in bytes of a value of this type.
    pub fn stack_size(&self) -> (size: usize)
        ensures
            size == spec_stack_size(*self),
    {
        match self {
            Type::Int => 4,
            Type::Function { .. } => 4,
        }
    }
}

/// The function type a definition derives: its return type paired with its
/// ordered parameter types.
pub open spec fn spec_type_of(f: FunctionDefinition) -> TypeV {
    TypeV::Function {
        return_type: Box::new(type_view(f.return_type)),
        arguments: Seq::new(f.parameters@.len(), |i: int| type_view(f.parameters@[i].ty)),
    }
}

impl FunctionDefinition {
    /// The function type derived from this definition: its return type and
    /// its ordered parameter types.
    pub fn type_of(&self) -> (t: Type)
        ensures
            type_view(t) == spec_type_of(*self),
    {
        let mut arguments: Vec<Type> = Vec::new();
        for k in 0..self.parameters.len()
            invariant
                arguments@.len() == k,
                forall|i: int| 0 <= i < k ==> (type_view(#[trigger] arguments@[i])
                    == type_view(self.parameters@[i].ty)),
        {
            arguments.push(self.parameters[k].ty.clone_type());
        }
        proof {
            let want = Seq::new(self.parameters@.len(), |i: int| type_view(self.parameters@[i].ty));
            assert forall|i: int| 0 <= i < arguments@.len() implies
                types_view(arguments@)[i] == want[i] by {
                lemma_types_view_index(arguments@, i);
            }
            lemma_types_view_len(arguments@);
            assert(types_view(arguments@) =~= want);
        }
        Type::Function {
            return_type: Box::new(self.return_type.clone_type()),
            arguments,
        }
    }
}

impl Type {
    /// A structural copy of this type, equal to the original as a
    /// mathematical value.
    #[verifier::loop_isolation(false)]
    pub fn clone_type(&self) -> (t: Type)
        ensures
            type_view(t) == type_view(*self),
        decreases *self,
    {
        match self {
            Type::Int => Type::Int,
            Type::Function { return_type, arguments } => {
                let ret = Box::new((**return_type).clone_type());
                let mut args: Vec<Type> = Vec::new();
                let n = arguments.len();
                for k in 0..n
                    invariant
                        args@.len() == k,
                        n == arguments@.len(),
                        forall|i: int| 0 <= i < k ==> (type_view(#[trigger] args@[i])
                            == type_view(arguments@[i])),
                    decreases n - k,
                {
                    proof {
                        // the recursion descends into one element of the
                        // argument vector
                        let f = (*self)->Function_arguments;
                        assert(f@ == arguments@);
                        assert(decreases_to!(*self => (*self)->Function_arguments));
                        assert(decreases_to!(f => f@));
                        assert(decreases_to!(f@ => f@[k as int]));
                    }
                    args.push(arguments[k].clone_type());
                }
                proof {
                    assert forall|i: int| 0 <= i < args@.len() implies
                        types_view(args@)[i] == types_view(arguments@)[i] by {
                        lemma_types_view_index(args@, i);
                        lemma_types_view_index(arguments@, i);
                    }
                    lemma_types_view_len(args@);
                    lemma_types_view_len(arguments@);
                    assert(types_view(args@) =~= types_view(arguments@));
                }
                Type::Function { return_type: ret, arguments: args }
            },
        }
    }
}

} // verus!
