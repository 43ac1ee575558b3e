//! The code generator: walks the abstract syntax tree, consults the symbol
//! table, allocates stack slots, and appends assembly instructions and
//! string literals to its owned buffers.
//!
//! Every step of the lowering is specified by a spec-level model of the
//! generator state; the executable functions are proved to produce exactly
//! the modelled state, so compiling the same tree twice (from fresh state)
//! yields identical output.

use vstd::prelude::*;

use crate::assembly::{Address, AddressV, IndirectAddress, IndirectAddressV, IndirectSize,
    Instruction, InstructionV, Register};
use crate::ast::{AssignmentOp, Expr, FunctionCall, FunctionDefinition, FunctionParameter,
    Opcode, Program, Statement, TypeV, spec_type_of, type_view};
use crate::decimal::{dec_nat, format_u64};
use crate::platform::{TargetOs, main_symbol, spec_main_symbol};
use crate::symbol_table::{Symbol, SymbolTable, SymbolV};

verus! {

/// Compile-time failures. The compiler has no recoverable-error channel:
/// any of these aborts the whole compile, and callers must treat an
/// aborted compile as producing nothing usable.
#[derive(Debug, PartialEq)]
pub enum CompileError {
    /// An identifier is absent from every enclosing scope or from the
    /// active function context.
    UndefinedSymbol { name: String },
    /// An operator, statement, or expression shape the generator does not
    /// lower: a third call or parameter slot, a binary operator other than
    /// addition, compound assignment, or a frame grown past the offset
    /// range.
    UnsupportedConstruct { construct: String },
    /// A type with no defined stack size reached slot allocation.
    TypeSizeUnknown { size: usize },
}

/// Mathematical mirror of [`CompileError`].
pub ghost enum CompileErrorV {
    UndefinedSymbol { name: Seq<char> },
    UnsupportedConstruct { construct: Seq<char> },
    TypeSizeUnknown { size: int },
}

impl View for CompileError {
    type V = CompileErrorV;

    open spec fn view(&self) -> CompileErrorV {
        match self {
            CompileError::UndefinedSymbol { name } => CompileErrorV::UndefinedSymbol {
                name: name@,
            },
            CompileError::UnsupportedConstruct { construct } => {
                CompileErrorV::UnsupportedConstruct { construct: construct@ }
            },
            CompileError::TypeSizeUnknown { size } => CompileErrorV::TypeSizeUnknown {
                size: *size as int,
            },
        }
    }
}

/// The code generator state: the growing instruction list, the literal
/// pool, and the symbol-table scope stack, all exclusively owned by one
/// compile invocation.
#[derive(Debug)]
pub struct Compiler {
    instructions: Vec<Instruction>,
    string_literals: Vec<String>,
    symbol_table: SymbolTable,
}

/// Mathematical mirror of [`Compiler`].
pub ghost struct CompilerV {
    pub instructions: Seq<InstructionV>,
    pub string_literals: Seq<Seq<char>>,
    pub symbol_table: Seq<Seq<SymbolV>>,
}

impl CompilerV {
    /// The state after appending one instruction.
    pub open spec fn push_instr(self, i: InstructionV) -> CompilerV {
        CompilerV { instructions: self.instructions.push(i), ..self }
    }

    /// The state after appending one literal to the pool.
    pub open spec fn push_literal(self, lit: Seq<char>) -> CompilerV {
        CompilerV { string_literals: self.string_literals.push(lit), ..self }
    }

    /// The state after opening a new innermost scope.
    pub open spec fn push_scope(self) -> CompilerV {
        CompilerV { symbol_table: self.symbol_table.push(Seq::empty()), ..self }
    }

    /// The state after discarding the innermost scope (unchanged when no
    /// scope is open; the compile pipeline always keeps one open).
    pub open spec fn pop_scope(self) -> CompilerV {
        if self.symbol_table.len() == 0 {
            self
        } else {
            CompilerV { symbol_table: self.symbol_table.drop_last(), ..self }
        }
    }

    /// The state after binding a symbol in the innermost scope (unchanged
    /// when no scope is open; the compile pipeline always keeps one open).
    pub open spec fn insert_symbol(self, s: SymbolV) -> CompilerV {
        if self.symbol_table.len() == 0 {
            self
        } else {
            CompilerV {
                symbol_table: self.symbol_table.update(
                    self.symbol_table.len() - 1,
                    self.symbol_table.last().push(s),
                ),
                ..self
            }
        }
    }
}

impl View for Compiler {
    type V = CompilerV;

    closed spec fn view(&self) -> CompilerV {
        CompilerV {
            instructions: self.instructions@.map_values(|i: Instruction| i@),
            string_literals: self.string_literals@.map_values(|s: String| s@),
            symbol_table: self.symbol_table@,
        }
    }
}

/// The label of the literal-pool entry with index `idx`.
pub open spec fn lc_label(idx: nat) -> Seq<char> {
    "LC"@ + dec_nat(idx)
}

impl Compiler {
    /// A fresh generator with empty buffers and no open scope.
    pub fn new() -> (c: Compiler)
        ensures
            c@ == (CompilerV {
                instructions: Seq::empty(),
                string_literals: Seq::empty(),
                symbol_table: Seq::empty(),
            }),
    {
        let c = Compiler {
            instructions: Vec::new(),
            string_literals: Vec::new(),
            symbol_table: SymbolTable::new(),
        };
        proof {
            assert(c@.instructions =~= Seq::<InstructionV>::empty());
            assert(c@.string_literals =~= Seq::<Seq<char>>::empty());
        }
        c
    }

    /// The literal pool, in insertion order.
    pub fn string_literals(&self) -> (r: &Vec<String>)
        ensures
            r@.map_values(|s: String| s@) == self@.string_literals,
    {
        &self.string_literals
    }

    /// The emitted instructions, in emission order.
    pub fn instructions(&self) -> (r: &Vec<Instruction>)
        ensures
            r@.map_values(|i: Instruction| i@) == self@.instructions,
    {
        &self.instructions
    }

    /// Registers `literal` in the pool and returns its label: `LC` followed
    /// by the zero-based insertion index, stable for the life of one
    /// compile. Equal literals are not deduplicated; every registration
    /// takes the next index.
    pub fn register_literal(&mut self, literal: String) -> (label: String)
        ensures
            final(self)@ == old(self)@.push_literal(literal@),
            label@ == lc_label(old(self)@.string_literals.len()),
    {
        let ghost lit = literal@;
        let idx = self.string_literals.len();
        self.string_literals.push(literal);
        let mut label = String::from_str("LC");
        let digits = format_u64(idx as u64);
        label.append(digits.as_str());
        proof {
            assert(self@.string_literals =~= old(self)@.string_literals.push(lit));
            assert(self@ == old(self)@.push_literal(lit));
            assert(label@ =~= lc_label(old(self)@.string_literals.len()));
        }
        label
    }

    /// Appends one instruction.
    pub fn gen(&mut self, instruction: Instruction)
        ensures
            final(self)@ == old(self)@.push_instr(instruction@),
    {
        let ghost iv = instruction@;
        self.instructions.push(instruction);
        proof {
            assert(self@.instructions =~= old(self)@.instructions.push(iv));
            assert(self@ == old(self)@.push_instr(iv));
        }
    }

    /// Appends a label line.
    pub fn gen_label(&mut self, label: String)
        ensures
            final(self)@ == old(self)@.push_instr(InstructionV::Label(label@)),
    {
        self.gen(Instruction::Label(label));
    }
}

/// The per-function context: each local's frame slot, plus the running
/// stack-pointer offset, which starts at zero and strictly decreases by
/// the operand's stack size at every allocation, so no slot is ever reused
/// or aliased.
#[derive(Debug)]
pub struct FunctionCtx {
    local_variables: Vec<(i32, Symbol)>,
    stack_ptr_offset: i32,
}

/// Mathematical mirror of [`FunctionCtx`]: the bindings in allocation
/// order (newest last), and the running offset.
pub ghost struct FunctionCtxV {
    pub locals: Seq<(int, SymbolV)>,
    pub sp: int,
}

impl View for FunctionCtx {
    type V = FunctionCtxV;

    closed spec fn view(&self) -> FunctionCtxV {
        FunctionCtxV {
            locals: self.local_variables@.map_values(|p: (i32, Symbol)| (p.0 as int, p.1@)),
            sp: self.stack_ptr_offset as int,
        }
    }
}

/// The nearest binding of `name` in a function context: the newest one,
/// so a later binding shadows an earlier binding of the same name.
pub open spec fn ctx_lookup(locals: Seq<(int, SymbolV)>, name: Seq<char>) -> Option<(int, SymbolV)>
    decreases locals.len(),
{
    if locals.len() == 0 {
        None
    } else if locals.last().1.name == name {
        Some(locals.last())
    } else {
        ctx_lookup(locals.drop_last(), name)
    }
}

/// The stack size of a type, on its mirror.
pub open spec fn type_size_v(t: TypeV) -> int {
    match t {
        TypeV::Int => 4,
        TypeV::Function { .. } => 4,
    }
}

/// On the mirror too, every storable type has the one defined slot width.
pub proof fn lemma_type_size_v(t: TypeV)
    ensures
        type_size_v(t) == 4,
{
    match t {
        TypeV::Int => {},
        TypeV::Function { .. } => {},
    }
}

/// A frame-relative operand for the slot at `offset`, with no width
/// qualifier.
pub open spec fn frame_slot(offset: int) -> IndirectAddressV {
    IndirectAddressV {
        name: Box::new(AddressV::Register(Register::Rbp)),
        offset: Some(offset as i32),
        size: None,
        rip_relative: false,
    }
}

/// Well-formedness of a function context: the running offset is never
/// positive, every slot lies between the running offset and the frame
/// base, and offsets strictly decrease in allocation order.
pub open spec fn ctx_wf(c: FunctionCtxV) -> bool {
    &&& c.sp <= 0
    &&& i32::MIN <= c.sp
    &&& forall|k: int| 0 <= k < c.locals.len() ==> (#[trigger] c.locals[k].0) < 0
    &&& forall|k: int| 0 <= k < c.locals.len() ==> (#[trigger] c.locals[k].0) >= c.sp
    &&& forall|k1: int, k2: int| 0 <= k1 < k2 < c.locals.len()
        ==> (#[trigger] c.locals[k1].0) > (#[trigger] c.locals[k2].0)
}

/// The message used when an allocation would push a frame offset outside
/// the 32-bit range the operand encoding can hold.
pub open spec fn frame_overflow_text() -> Seq<char> {
    "stack frame exceeding the 32-bit offset range"@
}

/// The model of registering a named local: the offset counter drops by the
/// symbol's stack size and the symbol is bound at the new offset.
pub open spec fn spec_register_local(c: FunctionCtxV, s: SymbolV) -> Result<
    FunctionCtxV,
    CompileErrorV,
> {
    let size = type_size_v(s.ty);
    if c.sp - size < i32::MIN {
        Err(CompileErrorV::UnsupportedConstruct { construct: frame_overflow_text() })
    } else {
        Ok(FunctionCtxV { locals: c.locals.push((c.sp - size, s)), sp: c.sp - size })
    }
}

/// The model of allocating an anonymous temporary: the offset counter
/// drops by the size of `int` and the new slot's operand is returned; the
/// binding list is unchanged.
pub open spec fn spec_register_temp(c: FunctionCtxV) -> Result<
    (FunctionCtxV, AddressV),
    CompileErrorV,
> {
    if c.sp - 4 < i32::MIN {
        Err(CompileErrorV::UnsupportedConstruct { construct: frame_overflow_text() })
    } else {
        Ok(
            (
                FunctionCtxV { locals: c.locals, sp: c.sp - 4 },
                AddressV::Indirect(frame_slot(c.sp - 4)),
            ),
        )
    }
}

/// The model of resolving a name to its slot operand: the nearest binding,
/// size-qualified by its declared type's stack size.
pub open spec fn spec_ctx_lookup(c: FunctionCtxV, name: Seq<char>) -> Result<
    AddressV,
    CompileErrorV,
> {
    match ctx_lookup(c.locals, name) {
        None => Err(CompileErrorV::UndefinedSymbol { name }),
        Some((offset, s)) => {
            let size = type_size_v(s.ty);
            if size == 4 {
                Ok(
                    AddressV::Indirect(
                        IndirectAddressV { size: Some(IndirectSize::Dword), ..frame_slot(offset) },
                    ),
                )
            } else if size == 8 {
                Ok(
                    AddressV::Indirect(
                        IndirectAddressV { size: Some(IndirectSize::Qword), ..frame_slot(offset) },
                    ),
                )
            } else {
                Err(CompileErrorV::TypeSizeUnknown { size })
            }
        },
    }
}

impl FunctionCtx {
    /// A fresh context with no bindings and the offset counter at zero.
    pub fn new() -> (c: FunctionCtx)
        ensures
            c@ == (FunctionCtxV { locals: Seq::empty(), sp: 0 }),
            ctx_wf(c@),
    {
        let c = FunctionCtx { local_variables: Vec::new(), stack_ptr_offset: 0 };
        proof {
            assert(c@.locals =~= Seq::<(int, SymbolV)>::empty());
        }
        c
    }

    /// Resolves `name` to its frame-relative, size-qualified operand;
    /// an unbound name is an undefined symbol.
    pub fn lookup(&self, name: &str) -> (r: Result<Address, CompileError>)
        ensures
            match (r, spec_ctx_lookup(self@, name@)) {
                (Ok(a), Ok(av)) => a@ == av,
                (Err(e), Err(ev)) => e@ == ev,
                _ => false,
            },
    {
        let needle = String::from_str(name);
        let n = self.local_variables.len();
        let mut j = n;
        proof {
            assert(self@.locals.take(j as int) =~= self@.locals);
        }
        #[verifier::loop_isolation(false)]
        while j > 0
            invariant
                j <= n,
                ctx_lookup(self@.locals, name@) == ctx_lookup(self@.locals.take(j as int), name@),
            decreases j,
        {
            j = j - 1;
            if self.local_variables[j].1.name_string_equals(&needle) {
                let offset = self.local_variables[j].0;
                proof {
                    assert(self@.locals.take(j + 1).last() == self@.locals[j as int]);
                    assert(self@.locals.take(j + 1).drop_last() =~= self@.locals.take(j as int));
                }
                let addr = IndirectAddress::offset(
                    Box::new(Address::Register(Register::Rbp)),
                    offset,
                );
                let ty_ref = self.local_variables[j].1.type_of();
                let size = ty_ref.stack_size();
                proof {
                    crate::ast::lemma_stack_size_defined(*ty_ref);
                    lemma_type_size_v(self@.locals[j as int].1.ty);
                }
                let r = if size == 4 {
                    Ok(Address::Indirect(addr.dword()))
                } else if size == 8 {
                    Ok(Address::Indirect(addr.qword()))
                } else {
                    Err(CompileError::TypeSizeUnknown { size })
                };
                return r;
            }
            proof {
                assert(self@.locals.take(j + 1).last() == self@.locals[j as int]);
                assert(self@.locals.take(j + 1).drop_last() =~= self@.locals.take(j as int));
            }
        }
        proof {
            assert(self@.locals.take(0) =~= Seq::<(int, SymbolV)>::empty());
        }
        Err(CompileError::UndefinedSymbol { name: needle })
    }

    /// Resolves `name` to its raw frame offset, without a width
    /// qualifier; an unbound name is an undefined symbol.
    pub fn lookup_offset(&self, name: &str) -> (r: Result<i32, CompileError>)
        ensures
            match (r, ctx_lookup(self@.locals, name@)) {
                (Ok(offset), Some(binding)) => offset as int == binding.0,
                (Err(e), None) => e@ == (CompileErrorV::UndefinedSymbol { name: name@ }),
                _ => false,
            },
    {
        let needle = String::from_str(name);
        let n = self.local_variables.len();
        let mut j = n;
        proof {
            assert(self@.locals.take(j as int) =~= self@.locals);
        }
        #[verifier::loop_isolation(false)]
        while j > 0
            invariant
                j <= n,
                ctx_lookup(self@.locals, name@) == ctx_lookup(self@.locals.take(j as int), name@),
            decreases j,
        {
            j = j - 1;
            proof {
                assert(self@.locals.take(j + 1).last() == self@.locals[j as int]);
                assert(self@.locals.take(j + 1).drop_last() =~= self@.locals.take(j as int));
            }
            if self.local_variables[j].1.name_string_equals(&needle) {
                return Ok(self.local_variables[j].0);
            }
        }
        proof {
            assert(self@.locals.take(0) =~= Seq::<(int, SymbolV)>::empty());
        }
        Err(CompileError::UndefinedSymbol { name: needle })
    }

    /// Allocates a fresh slot for `symbol` and binds the name to it. The
    /// new slot lies strictly below every existing one.
    pub fn register_local(&mut self, symbol: Symbol) -> (r: Result<(), CompileError>)
        requires
            ctx_wf(old(self)@),
        ensures
            match (r, spec_register_local(old(self)@, symbol@)) {
                (Ok(()), Ok(cv)) => final(self)@ == cv && ctx_wf(cv),
                (Err(e), Err(ev)) => e@ == ev && final(self)@ == old(self)@,
                _ => false,
            },
    {
        let ghost sv = symbol@;
        let ty_ref = symbol.type_of();
        let size = ty_ref.stack_size();
        proof {
            crate::ast::lemma_stack_size_defined(*ty_ref);
            lemma_type_size_v(sv.ty);
        }
        let size_i32: i32 = size as i32;
        if self.stack_ptr_offset < i32::MIN + size_i32 {
            return Err(
                CompileError::UnsupportedConstruct {
                    construct: String::from_str("stack frame exceeding the 32-bit offset range"),
                },
            );
        }
        self.stack_ptr_offset = self.stack_ptr_offset - size_i32;
        let offset = self.stack_ptr_offset;
        self.local_variables.push((offset, symbol));
        proof {
            assert(self@.locals =~= old(self)@.locals.push((offset as int, sv)));
        }
        Ok(())
    }

    /// Allocates an anonymous temporary slot and returns its operand. The
    /// slot lies strictly below every named binding.
    pub fn register_temp(&mut self) -> (r: Result<Address, CompileError>)
        requires
            ctx_wf(old(self)@),
        ensures
            match (r, spec_register_temp(old(self)@)) {
                (Ok(a), Ok((cv, av))) => final(self)@ == cv && ctx_wf(cv) && a@ == av,
                (Err(e), Err(ev)) => e@ == ev && final(self)@ == old(self)@,
                _ => false,
            },
    {
        let size: i32 = 4;
        if self.stack_ptr_offset < i32::MIN + size {
            return Err(
                CompileError::UnsupportedConstruct {
                    construct: String::from_str("stack frame exceeding the 32-bit offset range"),
                },
            );
        }
        self.stack_ptr_offset = self.stack_ptr_offset - size;
        let addr = IndirectAddress::offset(
            Box::new(Address::Register(Register::Rbp)),
            self.stack_ptr_offset,
        );
        Ok(Address::Indirect(addr))
    }
}

/// The message for an argument or parameter position past the fixed
/// two-register slice of the calling convention.
pub open spec fn register_slots_text() -> Seq<char> {
    "argument or parameter past the two register slots"@
}

/// The model of the calling convention: which register carries the
/// argument or parameter at position `number`. The convention is a fixed
/// two-register slice; any later position is unsupported, never silently
/// dropped.
pub open spec fn spec_func_parameter_register(number: int) -> Result<AddressV, CompileErrorV> {
    if number == 0 {
        Ok(AddressV::Register(Register::Edi))
    } else if number == 1 {
        Ok(AddressV::Register(Register::Esi))
    } else {
        Err(CompileErrorV::UnsupportedConstruct { construct: register_slots_text() })
    }
}

/// The register that carries the argument or parameter at position
/// `number` (0-based).
pub fn func_parameter_register(number: usize) -> (r: Result<Address, CompileError>)
    ensures
        match (r, spec_func_parameter_register(number as int)) {
            (Ok(a), Ok(av)) => a@ == av,
            (Err(e), Err(ev)) => e@ == ev,
            _ => false,
        },
{
    match number {
        0 => Ok(Address::Register(Register::Edi)),
        1 => Ok(Address::Register(Register::Esi)),
        _ => Err(
            CompileError::UnsupportedConstruct {
                construct: String::from_str("argument or parameter past the two register slots"),
            },
        ),
    }
}

/// The model of lowering one expression to an operand, appending the
/// instructions that materialize it. Subexpressions are lowered before
/// their parent; every intermediate value lands in a register, an
/// immediate, or a frame slot.
pub open spec fn spec_compile_expr(c: CompilerV, f: FunctionCtxV, e: Expr) -> Result<
    (CompilerV, FunctionCtxV, AddressV),
    CompileErrorV,
>
    decreases e,
{
    match e {
        Expr::Number(val) => Ok((c, f, AddressV::Immediate(val))),
        Expr::Ident(ident) => match spec_ctx_lookup(f, ident@) {
            Ok(a) => Ok((c, f, a)),
            Err(err) => Err(err),
        },
        Expr::AddressOf(ident) => match ctx_lookup(f.locals, ident@) {
            None => Err(CompileErrorV::UndefinedSymbol { name: ident@ }),
            Some((offset, _symbol)) => Ok(
                (
                    c.push_instr(
                        InstructionV::Lea(
                            AddressV::Register(Register::Rax),
                            AddressV::Indirect(frame_slot(offset)),
                        ),
                    ),
                    f,
                    AddressV::Register(Register::Rax),
                ),
            ),
        },
        Expr::FunctionCall(call) => spec_compile_call(c, f, call),
        Expr::Op(lhs, op, rhs) => if op != Opcode::Add {
            Err(
                CompileErrorV::UnsupportedConstruct {
                    construct: "binary operator other than addition"@,
                },
            )
        } else {
            match spec_compile_expr(c, f, *lhs) {
                Err(err) => Err(err),
                Ok((c1, f1, lhs_a)) => match spec_compile_expr(c1, f1, *rhs) {
                    Err(err) => Err(err),
                    Ok((c2, f2, rhs_a)) => match spec_register_temp(f2) {
                        Err(err) => Err(err),
                        Ok((f3, temp)) => Ok(
                            (
                                c2.push_instr(
                                    InstructionV::Mov(AddressV::Register(Register::Eax), lhs_a),
                                ).push_instr(
                                    InstructionV::Add(AddressV::Register(Register::Eax), rhs_a),
                                ).push_instr(
                                    InstructionV::Mov(temp, AddressV::Register(Register::Eax)),
                                ),
                                f3,
                                temp,
                            ),
                        ),
                    },
                },
            }
        },
        Expr::Dereference(inner) => match spec_compile_expr(c, f, *inner) {
            Err(err) => Err(err),
            Ok((c1, f1, a)) => Ok(
                (
                    c1.push_instr(InstructionV::Mov(AddressV::Register(Register::Rax), a)),
                    f1,
                    AddressV::Indirect(
                        IndirectAddressV {
                            name: Box::new(AddressV::Register(Register::Rax)),
                            offset: None,
                            size: Some(IndirectSize::Dword),
                            rip_relative: false,
                        },
                    ),
                ),
            ),
        },
        Expr::Assignment { lhs, op, value } => if op != AssignmentOp::Assign {
            Err(CompileErrorV::UnsupportedConstruct { construct: "compound assignment"@ })
        } else {
            match spec_compile_expr(c, f, *value) {
                Err(err) => Err(err),
                Ok((c1, f1, value_a)) => match spec_compile_expr(c1, f1, *lhs) {
                    Err(err) => Err(err),
                    Ok((c2, f2, lhs_a)) => Ok(
                        (c2.push_instr(InstructionV::Mov(lhs_a, value_a)), f2, lhs_a),
                    ),
                },
            }
        },
        Expr::RawString(literal) => Ok(
            (
                c.push_literal(literal@),
                f,
                AddressV::Indirect(
                    IndirectAddressV {
                        name: Box::new(AddressV::Label(lc_label(c.string_literals.len()))),
                        offset: None,
                        size: None,
                        rip_relative: true,
                    },
                ),
            ),
        ),
    }
}

/// The model of lowering a call: each argument is lowered left to right
/// and moved into its positional register; the result arrives in the
/// accumulator. A third argument has no register: the call is rejected
/// after its expression is lowered, exactly where the convention table
/// runs out.
pub open spec fn spec_compile_call(c: CompilerV, f: FunctionCtxV, call: FunctionCall) -> Result<
    (CompilerV, FunctionCtxV, AddressV),
    CompileErrorV,
>
    decreases call,
    via spec_compile_call_decreases
{
    let args = call.arguments;
    if args@.len() == 0 {
        Ok((c.push_instr(InstructionV::Call(call.name@)), f, AddressV::Register(Register::Eax)))
    } else if args@.len() == 1 {
        match spec_compile_expr(c, f, *args@[0]) {
            Err(err) => Err(err),
            Ok((c1, f1, a0)) => Ok(
                (
                    c1.push_instr(
                        InstructionV::Mov(AddressV::Register(Register::Edi), a0),
                    ).push_instr(InstructionV::Call(call.name@)),
                    f1,
                    AddressV::Register(Register::Eax),
                ),
            ),
        }
    } else if args@.len() == 2 {
        match spec_compile_expr(c, f, *args@[0]) {
            Err(err) => Err(err),
            Ok((c1, f1, a0)) => match spec_compile_expr(
                c1.push_instr(InstructionV::Mov(AddressV::Register(Register::Edi), a0)),
                f1,
                *args@[1],
            ) {
                Err(err) => Err(err),
                Ok((c2, f2, a1)) => Ok(
                    (
                        c2.push_instr(
                            InstructionV::Mov(AddressV::Register(Register::Esi), a1),
                        ).push_instr(InstructionV::Call(call.name@)),
                        f2,
                        AddressV::Register(Register::Eax),
                    ),
                ),
            },
        }
    } else {
        match spec_compile_expr(c, f, *args@[0]) {
            Err(err) => Err(err),
            Ok((c1, f1, a0)) => match spec_compile_expr(
                c1.push_instr(InstructionV::Mov(AddressV::Register(Register::Edi), a0)),
                f1,
                *args@[1],
            ) {
                Err(err) => Err(err),
                Ok((c2, f2, a1)) => match spec_compile_expr(
                    c2.push_instr(InstructionV::Mov(AddressV::Register(Register::Esi), a1)),
                    f2,
                    *args@[2],
                ) {
                    Err(err) => Err(err),
                    Ok(_) => Err(
                        CompileErrorV::UnsupportedConstruct { construct: register_slots_text() },
                    ),
                },
            },
        }
    }
}

#[via_fn]
proof fn spec_compile_call_decreases(c: CompilerV, f: FunctionCtxV, call: FunctionCall) {
    let args = call.arguments;
    assert(decreases_to!(call => call.arguments));
    assert(decreases_to!(call.arguments => call.arguments@));
    if args@.len() > 0 {
        assert(decreases_to!(call.arguments@ => call.arguments@[0]));
    }
    if args@.len() > 1 {
        assert(decreases_to!(call.arguments@ => call.arguments@[1]));
    }
    if args@.len() > 2 {
        assert(decreases_to!(call.arguments@ => call.arguments@[2]));
    }
}

/// Lowers one expression to an operand, recursively lowering its
/// subexpressions first and appending the instructions that materialize
/// the intermediate values. The result is exactly what the model
/// [`spec_compile_expr`] prescribes.
pub fn compile_expr(compiler: &mut Compiler, func_ctx: &mut FunctionCtx, expr: &Expr) -> (r:
    Result<Address, CompileError>)
    requires
        ctx_wf(old(func_ctx)@),
    ensures
        final(compiler)@.symbol_table == old(compiler)@.symbol_table,
        match (r, spec_compile_expr(old(compiler)@, old(func_ctx)@, *expr)) {
            (Ok(a), Ok((cv, fv, av))) => final(compiler)@ == cv && final(func_ctx)@ == fv
                && a@ == av && ctx_wf(fv),
            (Err(e), Err(ev)) => e@ == ev,
            _ => false,
        },
    decreases *expr,
{
    match expr {
        Expr::Number(val) => Ok(Address::Immediate(*val)),
        Expr::Ident(ident) => func_ctx.lookup(ident.as_str()),
        Expr::AddressOf(ident) => {
            let offset = match func_ctx.lookup_offset(ident.as_str()) {
                Ok(offset) => offset,
                Err(err) => {
                    return Err(err);
                },
            };
            compiler.gen(
                Instruction::Lea(
                    Address::Register(Register::Rax),
                    Address::Indirect(
                        IndirectAddress::offset(Box::new(Address::Register(Register::Rbp)), offset),
                    ),
                ),
            );
            Ok(Address::Register(Register::Rax))
        },
        Expr::FunctionCall(call) => compile_call(compiler, func_ctx, call),
        Expr::Op(lhs, op, rhs) => match op {
            Opcode::Add => {
                let lhs_a = match compile_expr(compiler, func_ctx, lhs) {
                    Ok(a) => a,
                    Err(err) => {
                        return Err(err);
                    },
                };
                let rhs_a = match compile_expr(compiler, func_ctx, rhs) {
                    Ok(a) => a,
                    Err(err) => {
                        return Err(err);
                    },
                };
                let temp = match func_ctx.register_temp() {
                    Ok(a) => a,
                    Err(err) => {
                        return Err(err);
                    },
                };
                compiler.gen(Instruction::Mov(Address::Register(Register::Eax), lhs_a));
                compiler.gen(Instruction::Add(Address::Register(Register::Eax), rhs_a));
                compiler.gen(Instruction::Mov(temp.clone(), Address::Register(Register::Eax)));
                Ok(temp)
            },
            _ => Err(
                CompileError::UnsupportedConstruct {
                    construct: String::from_str("binary operator other than addition"),
                },
            ),
        },
        Expr::Dereference(inner) => {
            let a = match compile_expr(compiler, func_ctx, inner) {
                Ok(a) => a,
                Err(err) => {
                    return Err(err);
                },
            };
            compiler.gen(Instruction::Mov(Address::Register(Register::Rax), a));
            Ok(
                Address::Indirect(
                    IndirectAddress::indirect(Box::new(Address::Register(Register::Rax))).dword(),
                ),
            )
        },
        Expr::Assignment { lhs, op, value } => match op {
            AssignmentOp::Assign => {
                let value_a = match compile_expr(compiler, func_ctx, value) {
                    Ok(a) => a,
                    Err(err) => {
                        return Err(err);
                    },
                };
                let lhs_a = match compile_expr(compiler, func_ctx, lhs) {
                    Ok(a) => a,
                    Err(err) => {
                        return Err(err);
                    },
                };
                compiler.gen(Instruction::Mov(lhs_a.clone(), value_a));
                Ok(lhs_a)
            },
            _ => Err(
                CompileError::UnsupportedConstruct {
                    construct: String::from_str("compound assignment"),
                },
            ),
        },
        Expr::RawString(literal) => {
            let label = compiler.register_literal(literal.clone());
            Ok(
                Address::Indirect(
                    IndirectAddress::indirect(Box::new(Address::Label(label))).is_rip_relative(
                        true,
                    ),
                ),
            )
        },
    }
}

/// Lowers a call expression: each argument left to right into its
/// positional register, then the call itself; the result operand is the
/// accumulator. Three or more arguments fail as unsupported, exactly as
/// [`spec_compile_call`] prescribes.
fn compile_call(compiler: &mut Compiler, func_ctx: &mut FunctionCtx, call: &FunctionCall) -> (r:
    Result<Address, CompileError>)
    requires
        ctx_wf(old(func_ctx)@),
    ensures
        final(compiler)@.symbol_table == old(compiler)@.symbol_table,
        match (r, spec_compile_call(old(compiler)@, old(func_ctx)@, *call)) {
            (Ok(a), Ok((cv, fv, av))) => final(compiler)@ == cv && final(func_ctx)@ == fv
                && a@ == av && ctx_wf(fv),
            (Err(e), Err(ev)) => e@ == ev,
            _ => false,
        },
    decreases *call,
{
    proof {
        assert(decreases_to!(*call => call.arguments));
        assert(decreases_to!(call.arguments => call.arguments@));
    }
    if call.arguments.len() == 0 {
        compiler.gen(Instruction::Call(call.name.clone()));
        Ok(Address::Register(Register::Eax))
    } else if call.arguments.len() == 1 {
        proof {
            assert(decreases_to!(call.arguments@ => call.arguments@[0]));
        }
        let a0 = match compile_expr(compiler, func_ctx, &call.arguments[0]) {
            Ok(a) => a,
            Err(err) => {
                return Err(err);
            },
        };
        compiler.gen(Instruction::Mov(Address::Register(Register::Edi), a0));
        compiler.gen(Instruction::Call(call.name.clone()));
        Ok(Address::Register(Register::Eax))
    } else if call.arguments.len() == 2 {
        proof {
            assert(decreases_to!(call.arguments@ => call.arguments@[0]));
            assert(decreases_to!(call.arguments@ => call.arguments@[1]));
        }
        let a0 = match compile_expr(compiler, func_ctx, &call.arguments[0]) {
            Ok(a) => a,
            Err(err) => {
                return Err(err);
            },
        };
        compiler.gen(Instruction::Mov(Address::Register(Register::Edi), a0));
        let a1 = match compile_expr(compiler, func_ctx, &call.arguments[1]) {
            Ok(a) => a,
            Err(err) => {
                return Err(err);
            },
        };
        compiler.gen(Instruction::Mov(Address::Register(Register::Esi), a1));
        compiler.gen(Instruction::Call(call.name.clone()));
        Ok(Address::Register(Register::Eax))
    } else {
        proof {
            assert(decreases_to!(call.arguments@ => call.arguments@[0]));
            assert(decreases_to!(call.arguments@ => call.arguments@[1]));
            assert(decreases_to!(call.arguments@ => call.arguments@[2]));
        }
        let a0 = match compile_expr(compiler, func_ctx, &call.arguments[0]) {
            Ok(a) => a,
            Err(err) => {
                return Err(err);
            },
        };
        compiler.gen(Instruction::Mov(Address::Register(Register::Edi), a0));
        let a1 = match compile_expr(compiler, func_ctx, &call.arguments[1]) {
            Ok(a) => a,
            Err(err) => {
                return Err(err);
            },
        };
        compiler.gen(Instruction::Mov(Address::Register(Register::Esi), a1));
        match compile_expr(compiler, func_ctx, &call.arguments[2]) {
            Ok(_) => Err(
                CompileError::UnsupportedConstruct {
                    construct: String::from_str(
                        "argument or parameter past the two register slots",
                    ),
                },
            ),
            Err(err) => Err(err),
        }
    }
}

/// The model of lowering one statement.
pub open spec fn spec_compile_statement(c: CompilerV, f: FunctionCtxV, stmt: Statement) -> Result<
    (CompilerV, FunctionCtxV),
    CompileErrorV,
> {
    match stmt {
        Statement::Return(e) => match spec_compile_expr(c, f, *e) {
            Err(err) => Err(err),
            Ok((c1, f1, a)) => Ok(
                (c1.push_instr(InstructionV::Mov(AddressV::Register(Register::Eax), a)), f1),
            ),
        },
        Statement::VariableDefinition { ty, name, value } => match spec_compile_expr(c, f, *value) {
            Err(err) => Err(err),
            Ok((c1, f1, value_a)) => {
                let sv = SymbolV { name: name@, ty: type_view(ty) };
                match spec_register_local(f1, sv) {
                    Err(err) => Err(err),
                    Ok(f2) => match spec_ctx_lookup(f2, name@) {
                        Err(err) => Err(err),
                        Ok(slot) => Ok((c1.push_instr(InstructionV::Mov(slot, value_a)), f2)),
                    },
                }
            },
        },
        Statement::Expr(e) => match spec_compile_expr(c, f, *e) {
            Err(err) => Err(err),
            Ok((c1, f1, _a)) => Ok((c1, f1)),
        },
    }
}

/// Lowers one statement: a `return` moves its value into the accumulator
/// (the de facto return-value channel); a variable definition lowers its
/// initializer, allocates a fresh slot for the name, and stores the value
/// there; a bare expression statement is lowered for its side effects and
/// its operand discarded.
pub fn compile_statement(compiler: &mut Compiler, func_ctx: &mut FunctionCtx, stmt: &Statement)
    -> (r: Result<(), CompileError>)
    requires
        ctx_wf(old(func_ctx)@),
    ensures
        final(compiler)@.symbol_table == old(compiler)@.symbol_table,
        match (r, spec_compile_statement(old(compiler)@, old(func_ctx)@, *stmt)) {
            (Ok(()), Ok((cv, fv))) => final(compiler)@ == cv && final(func_ctx)@ == fv
                && ctx_wf(fv),
            (Err(e), Err(ev)) => e@ == ev,
            _ => false,
        },
{
    match stmt {
        Statement::Return(e) => {
            let ret_address = match compile_expr(compiler, func_ctx, e) {
                Ok(a) => a,
                Err(err) => {
                    return Err(err);
                },
            };
            compiler.gen(Instruction::Mov(Address::Register(Register::Eax), ret_address));
            Ok(())
        },
        Statement::VariableDefinition { ty, name, value } => {
            let value_a = match compile_expr(compiler, func_ctx, value) {
                Ok(a) => a,
                Err(err) => {
                    return Err(err);
                },
            };
            let symbol = Symbol::new(name.clone(), ty.clone_type());
            match func_ctx.register_local(symbol) {
                Ok(()) => {},
                Err(err) => {
                    return Err(err);
                },
            }
            let slot = match func_ctx.lookup(name.as_str()) {
                Ok(a) => a,
                Err(err) => {
                    return Err(err);
                },
            };
            compiler.gen(Instruction::Mov(slot, value_a));
            Ok(())
        },
        Statement::Expr(e) => {
            match compile_expr(compiler, func_ctx, e) {
                Ok(_) => Ok(()),
                Err(err) => Err(err),
            }
        },
    }
}

/// The model of binding the parameters at positions `i` and beyond: each
/// one gets a frame slot and is copied there from its argument register.
pub open spec fn spec_compile_params(
    c: CompilerV,
    f: FunctionCtxV,
    params: Seq<FunctionParameter>,
    i: int,
) -> Result<(CompilerV, FunctionCtxV), CompileErrorV>
    decreases params.len() - i,
{
    if i < 0 || i >= params.len() {
        Ok((c, f))
    } else {
        let sv = SymbolV { name: params[i].name@, ty: type_view(params[i].ty) };
        match spec_register_local(f, sv) {
            Err(err) => Err(err),
            Ok(f1) => match spec_func_parameter_register(i) {
                Err(err) => Err(err),
                Ok(reg) => match spec_ctx_lookup(f1, params[i].name@) {
                    Err(err) => Err(err),
                    Ok(slot) => spec_compile_params(
                        c.push_instr(InstructionV::Mov(slot, reg)),
                        f1,
                        params,
                        i + 1,
                    ),
                },
            },
        }
    }
}

/// The model of lowering the statements at positions `i` and beyond, in
/// order.
pub open spec fn spec_compile_stmts(
    c: CompilerV,
    f: FunctionCtxV,
    stmts: Seq<Statement>,
    i: int,
) -> Result<(CompilerV, FunctionCtxV), CompileErrorV>
    decreases stmts.len() - i,
{
    if i < 0 || i >= stmts.len() {
        Ok((c, f))
    } else {
        match spec_compile_statement(c, f, stmts[i]) {
            Err(err) => Err(err),
            Ok((c1, f1)) => spec_compile_stmts(c1, f1, stmts, i + 1),
        }
    }
}

/// The model of lowering one function definition. A definition without a
/// body generates nothing. Otherwise: the label (the name `main` is
/// remapped through the platform selector, every other name passes
/// through), the prologue, the positional parameter bindings, the body
/// statements in order, and the epilogue. The function's signature is
/// bound in the enclosing scope before its body is processed, so
/// recursive calls resolve.
pub open spec fn spec_compile_func(c: CompilerV, func: FunctionDefinition, os: TargetOs) -> Result<
    CompilerV,
    CompileErrorV,
> {
    match func.body {
        None => Ok(c),
        Some(body) => {
            let label = if func.name@ == "main"@ {
                spec_main_symbol(os)
            } else {
                func.name@
            };
            let sym = SymbolV { name: func.name@, ty: spec_type_of(func) };
            let c1 = c.insert_symbol(sym).push_scope().push_instr(
                InstructionV::Label(label),
            ).push_instr(InstructionV::Push(Register::Rbp)).push_instr(
                InstructionV::Mov(
                    AddressV::Register(Register::Rbp),
                    AddressV::Register(Register::Rsp),
                ),
            );
            let f0 = FunctionCtxV { locals: Seq::empty(), sp: 0 };
            match spec_compile_params(c1, f0, func.parameters@, 0) {
                Err(err) => Err(err),
                Ok((c2, f1)) => match spec_compile_stmts(c2, f1, body@, 0) {
                    Err(err) => Err(err),
                    Ok((c3, _f2)) => Ok(
                        c3.push_instr(InstructionV::Pop(Register::Rbp)).push_instr(
                            InstructionV::Ret,
                        ).pop_scope(),
                    ),
                },
            }
        },
    }
}

/// Lowers one function definition, as [`spec_compile_func`] prescribes:
/// label, prologue, parameter bindings, body, epilogue. The epilogue
/// emits no stack-pointer deallocation: locals are addressed purely
/// through negative frame-relative offsets with no matching reservation,
/// so nothing may disturb the region below the frame pointer during the
/// body.
#[verifier::loop_isolation(false)]
pub fn compile_func(compiler: &mut Compiler, func: &FunctionDefinition, os: TargetOs) -> (r:
    Result<(), CompileError>)
    requires
        old(compiler)@.symbol_table.len() > 0,
    ensures
        match (r, spec_compile_func(old(compiler)@, *func, os)) {
            (Ok(()), Ok(cv)) => final(compiler)@ == cv && cv.symbol_table.len() == old(
                compiler,
            )@.symbol_table.len(),
            (Err(e), Err(ev)) => e@ == ev,
            _ => false,
        },
{
    let body = match &func.body {
        Some(statements) => statements,
        None => {
            return Ok(());
        },
    };
    let main_text = String::from_str("main");
    let name = if func.name.eq(&main_text) {
        String::from_str(main_symbol(os))
    } else {
        func.name.clone()
    };
    let symbol = Symbol::new(func.name.clone(), func.type_of());
    compiler.symbol_table.insert_symbol(symbol);
    compiler.symbol_table.push_scope();
    let mut func_ctx = FunctionCtx::new();

    compiler.gen_label(name);
    compiler.gen(Instruction::Push(Register::Rbp));
    compiler.gen(
        Instruction::Mov(Address::Register(Register::Rbp), Address::Register(Register::Rsp)),
    );

    let ghost c1 = compiler@;
    let ghost f0 = func_ctx@;
    let ghost symtab = compiler@.symbol_table;
    let n_params = func.parameters.len();
    for i in 0..n_params
        invariant
            ctx_wf(func_ctx@),
            compiler@.symbol_table == symtab,
            spec_compile_params(c1, f0, func.parameters@, 0) == spec_compile_params(
                compiler@,
                func_ctx@,
                func.parameters@,
                i as int,
            ),
    {
        let param = &func.parameters[i];
        let symbol = Symbol::new(param.name.clone(), param.ty.clone_type());
        match func_ctx.register_local(symbol) {
            Ok(()) => {},
            Err(err) => {
                return Err(err);
            },
        }
        let register = match func_parameter_register(i) {
            Ok(a) => a,
            Err(err) => {
                return Err(err);
            },
        };
        let slot = match func_ctx.lookup(param.name.as_str()) {
            Ok(a) => a,
            Err(err) => {
                return Err(err);
            },
        };
        compiler.gen(Instruction::Mov(slot, register));
    }
    let ghost c2 = compiler@;
    let ghost f1 = func_ctx@;
    let n_stmts = body.len();
    for j in 0..n_stmts
        invariant
            ctx_wf(func_ctx@),
            compiler@.symbol_table == symtab,
            spec_compile_params(c1, f0, func.parameters@, 0) == Ok::<_, CompileErrorV>((c2, f1)),
            spec_compile_stmts(c2, f1, body@, 0) == spec_compile_stmts(
                compiler@,
                func_ctx@,
                body@,
                j as int,
            ),
    {
        match compile_statement(compiler, &mut func_ctx, &body[j]) {
            Ok(()) => {},
            Err(err) => {
                return Err(err);
            },
        }
    }
    compiler.gen(Instruction::Pop(Register::Rbp));
    compiler.gen(Instruction::Ret);
    compiler.symbol_table.pop_scope();
    Ok(())
}

/// The model of the functions at positions `i` and beyond, lowered in
/// order into one shared instruction stream and literal pool.
pub open spec fn spec_compile_funcs(
    c: CompilerV,
    funcs: Seq<FunctionDefinition>,
    i: int,
    os: TargetOs,
) -> Result<CompilerV, CompileErrorV>
    decreases funcs.len() - i,
{
    if i < 0 || i >= funcs.len() {
        Ok(c)
    } else {
        match spec_compile_func(c, funcs[i], os) {
            Err(err) => Err(err),
            Ok(c1) => spec_compile_funcs(c1, funcs, i + 1, os),
        }
    }
}

/// The model of one whole compile invocation: a fresh generator, one
/// global scope, every function definition in order, and the global scope
/// closed again. The result is a function of the tree and the target
/// alone, so two compiles of the same tree agree exactly.
pub open spec fn spec_compile_program(p: Program, os: TargetOs) -> Result<
    CompilerV,
    CompileErrorV,
> {
    let c0 = CompilerV {
        instructions: Seq::empty(),
        string_literals: Seq::empty(),
        symbol_table: Seq::empty(),
    };
    match spec_compile_funcs(c0.push_scope(), p.functions@, 0, os) {
        Err(err) => Err(err),
        Ok(c1) => Ok(c1.pop_scope()),
    }
}

/// Compiles a whole program for the target `os`, from fresh generator
/// state: exactly the instruction stream, literal pool and (emptied)
/// scope stack that [`spec_compile_program`] prescribes, or the first
/// error the lowering meets, with nothing usable produced.
#[verifier::loop_isolation(false)]
pub fn compile(program: &Program, os: TargetOs) -> (r: Result<Compiler, CompileError>)
    ensures
        match (r, spec_compile_program(*program, os)) {
            (Ok(c), Ok(cv)) => c@ == cv,
            (Err(e), Err(ev)) => e@ == ev,
            _ => false,
        },
{
    let mut compiler = Compiler::new();
    compiler.symbol_table.push_scope();
    let ghost c1 = compiler@;
    let n = program.functions.len();
    for i in 0..n
        invariant
            compiler@.symbol_table.len() == 1,
            spec_compile_funcs(c1, program.functions@, 0, os) == spec_compile_funcs(
                compiler@,
                program.functions@,
                i as int,
                os,
            ),
    {
        match compile_func(&mut compiler, &program.functions[i], os) {
            Ok(()) => {},
            Err(err) => {
                return Err(err);
            },
        }
    }
    compiler.symbol_table.pop_scope();
    Ok(compiler)
}

/// A law of scoped resolution over frame slots: after binding an outer
/// symbol for a name and then an inner symbol for the same name, a
/// reference to the name resolves to the inner binding's offset — the
/// running counter, which is never the outer binding's offset.
pub proof fn lemma_ctx_shadowing(
    c0: FunctionCtxV,
    outer: SymbolV,
    inner: SymbolV,
    c1: FunctionCtxV,
    c2: FunctionCtxV,
)
    requires
        outer.name == inner.name,
        spec_register_local(c0, outer) == Ok::<FunctionCtxV, CompileErrorV>(c1),
        spec_register_local(c1, inner) == Ok::<FunctionCtxV, CompileErrorV>(c2),
    ensures
        ctx_lookup(c1.locals, outer.name) == Some((c1.sp, outer)),
        ctx_lookup(c2.locals, inner.name) == Some((c2.sp, inner)),
        c2.sp != c1.sp,
{
    lemma_type_size_v(outer.ty);
    lemma_type_size_v(inner.ty);
    assert(c1.locals.last() == (c1.sp, outer));
    assert(c2.locals.last() == (c2.sp, inner));
}

/// A law of determinism: the model of a compile invocation is a function
/// of the tree and the target alone, so compiling the same tree twice,
/// each time from fresh generator state, yields identical instruction
/// streams and literal pools.
pub proof fn lemma_compile_deterministic(
    program: Program,
    os: TargetOs,
    c1: CompilerV,
    c2: CompilerV,
)
    requires
        spec_compile_program(program, os) == Ok::<CompilerV, CompileErrorV>(c1),
        spec_compile_program(program, os) == Ok::<CompilerV, CompileErrorV>(c2),
    ensures
        c1.instructions == c2.instructions,
        c1.string_literals == c2.string_literals,
{
}

/// A law of frame layout: in a well-formed function context no two live
/// bindings occupy the same frame offset.
pub proof fn lemma_frame_slots_distinct(c: FunctionCtxV, k1: int, k2: int)
    requires
        ctx_wf(c),
        0 <= k1 < c.locals.len(),
        0 <= k2 < c.locals.len(),
        k1 != k2,
    ensures
        c.locals[k1].0 != c.locals[k2].0,
{
}

} // verus!

