//! A small-step semantics for the emitted instructions, detailed enough to
//! state what lowered arithmetic computes: the machine models the
//! accumulator and the current frame's slots. The stack cells behind
//! `push`/`pop` and the frame- and stack-pointer registers themselves are
//! outside the model; the instructions that only touch them leave the
//! modelled state unchanged, which is exactly what lowered straight-line
//! arithmetic relies on.
//!
//! On this semantics the module proves the heart of the compiler's
//! observable contract: for a function whose body is a single `return` of
//! an expression built from integer literals and additions, the emitted
//! code, run from any machine state, reaches its `ret` with the
//! expression's wrapped 32-bit value in the accumulator — the return-value
//! channel whose low eight bits a process harness reports as the exit
//! status.

use vstd::prelude::*;

use crate::assembly::{AddressV, InstructionV, Register};
use crate::ast::{Expr, FunctionDefinition, Opcode, Statement};
use crate::compiler::{CompilerV, FunctionCtxV, frame_slot, spec_compile_expr, spec_compile_func,
    spec_compile_params, spec_compile_statement, spec_compile_stmts};
use crate::platform::TargetOs;

verus! {

/// The modelled machine state: the 32-bit accumulator's value (as a
/// mathematical integer in two's-complement range) and the current
/// frame's slots, keyed by their frame-relative byte offset.
pub ghost struct MachineState {
    pub acc: int,
    pub frame: Map<int, int>,
}

/// Wraps an integer into the 32-bit two's-complement range, as the
/// machine's addition does.
pub open spec fn wrap32(v: int) -> int {
    ((v + 0x8000_0000) % 0x1_0000_0000) - 0x8000_0000
}

/// Whether an expression is built from integer literals and additions
/// alone: the straight-line arithmetic fragment this module's law covers.
pub open spec fn arith_only(e: Expr) -> bool
    decreases e,
{
    match e {
        Expr::Number(_) => true,
        Expr::Op(lhs, op, rhs) => op == Opcode::Add && arith_only(*lhs) && arith_only(*rhs),
        _ => false,
    }
}

/// The mathematical value of an arithmetic expression, with the machine's
/// 32-bit wrapping addition.
pub open spec fn eval_arith(e: Expr) -> int
    decreases e,
{
    match e {
        Expr::Number(v) => v as int,
        Expr::Op(lhs, _op, rhs) => wrap32(eval_arith(*lhs) + eval_arith(*rhs)),
        _ => 0,
    }
}

/// Reads an operand in a state. Operands outside the model read zero;
/// none occurs in the instruction runs the laws below speak about.
pub open spec fn read_operand(s: MachineState, a: AddressV) -> int {
    match a {
        AddressV::Immediate(v) => v as int,
        AddressV::Register(r) => if r == Register::Eax || r == Register::Rax {
            s.acc
        } else {
            0
        },
        AddressV::Indirect(ia) => match ia.offset {
            Some(o) => s.frame[o as int],
            None => 0,
        },
        AddressV::Label(_) => 0,
    }
}

/// Writes an operand in a state. A write to the accumulator (under either
/// width name) sets it; a write to a frame slot updates that slot; a
/// write to any register outside the model leaves the state unchanged.
pub open spec fn write_operand(s: MachineState, a: AddressV, v: int) -> MachineState {
    match a {
        AddressV::Register(r) => if r == Register::Eax || r == Register::Rax {
            MachineState { acc: v, ..s }
        } else {
            s
        },
        AddressV::Indirect(ia) => match ia.offset {
            Some(o) => MachineState { frame: s.frame.insert(o as int, v), ..s },
            None => s,
        },
        _ => s,
    }
}

/// One step. `mov` copies its source into its destination; `add` adds
/// with 32-bit wrapping. The remaining instructions touch nothing the
/// model holds: labels mark positions, `push`/`pop` move stack cells and
/// the saved frame pointer, `lea`/`call`/`ret` drive control and the
/// pointer registers.
pub open spec fn step(s: MachineState, i: InstructionV) -> MachineState {
    match i {
        InstructionV::Mov(dst, src) => write_operand(s, dst, read_operand(s, src)),
        InstructionV::Add(dst, src) => write_operand(
            s,
            dst,
            wrap32(read_operand(s, dst) + read_operand(s, src)),
        ),
        _ => s,
    }
}

/// Runs a straight-line instruction sequence from a state.
pub open spec fn run(s: MachineState, instrs: Seq<InstructionV>) -> MachineState
    decreases instrs.len(),
{
    if instrs.len() == 0 {
        s
    } else {
        run(step(s, instrs.first()), instrs.drop_first())
    }
}

/// Running a concatenation runs the two halves in order.
pub proof fn lemma_run_concat(s: MachineState, a: Seq<InstructionV>, b: Seq<InstructionV>)
    ensures
        run(s, a + b) == run(run(s, a), b),
    decreases a.len(),
{
    if a.len() == 0 {
        assert(a + b =~= b);
    } else {
        assert((a + b).first() == a.first());
        assert((a + b).drop_first() =~= a.drop_first() + b);
        lemma_run_concat(step(s, a.first()), a.drop_first(), b);
    }
}

/// An operand that stays readable while code for later siblings runs: an
/// immediate, or a frame slot at or above the given watermark.
pub open spec fn operand_stable(a: AddressV, watermark: int) -> bool {
    match a {
        AddressV::Immediate(_) => true,
        AddressV::Indirect(ia) => *ia.name == AddressV::Register(Register::Rbp)
            && ia.size is None && ia.rip_relative == false && (match ia.offset {
            Some(o) => watermark <= o as int,
            None => false,
        }),
        _ => false,
    }
}

/// The central induction: lowered literal-arithmetic code, run from any
/// state, leaves the expression's value readable through the result
/// operand, writes only frame slots strictly below the offset counter it
/// started from, and returns a result operand at or above the counter it
/// ended with.
pub proof fn lemma_arith_lowering_computes(
    c: CompilerV,
    f: FunctionCtxV,
    e: Expr,
    s: MachineState,
)
    requires
        arith_only(e),
        f.sp <= 0,
        spec_compile_expr(c, f, e) is Ok,
    ensures
        ({
            let (c1, f1, a) = spec_compile_expr(c, f, e)->Ok_0;
            let delta = c1.instructions.skip(c.instructions.len() as int);
            let s1 = run(s, delta);
            &&& c.instructions.len() <= c1.instructions.len()
            &&& c1.instructions.take(c.instructions.len() as int) == c.instructions
            &&& f1.locals == f.locals
            &&& f1.sp <= f.sp
            &&& operand_stable(a, f1.sp)
            &&& read_operand(s1, a) == eval_arith(e)
            &&& forall|o: int| f.sp <= o ==> s1.frame[o] == s.frame[o]
        }),
    decreases e,
{
    match e {
        Expr::Number(_v) => {
            let (c1, _f1, _a) = spec_compile_expr(c, f, e)->Ok_0;
            assert(c1.instructions.skip(c.instructions.len() as int) =~= Seq::empty());
            assert(c1.instructions.take(c.instructions.len() as int) =~= c.instructions);
        },
        Expr::Op(lhs, _op, rhs) => {
            let (c1, f1, la) = spec_compile_expr(c, f, *lhs)->Ok_0;
            let (c2, f2, ra) = spec_compile_expr(c1, f1, *rhs)->Ok_0;
            let (c3, f3, a) = spec_compile_expr(c, f, e)->Ok_0;
            let temp_offset = f2.sp - 4;
            let temp = AddressV::Indirect(frame_slot(temp_offset));
            let tail = seq![
                InstructionV::Mov(AddressV::Register(Register::Eax), la),
                InstructionV::Add(AddressV::Register(Register::Eax), ra),
                InstructionV::Mov(temp, AddressV::Register(Register::Eax)),
            ];
            assert(a == temp);
            assert(c3.instructions =~= c2.instructions + tail);

            let base = c.instructions.len() as int;
            let base1 = c1.instructions.len() as int;
            let delta_l = c1.instructions.skip(base);
            lemma_arith_lowering_computes(c, f, *lhs, s);
            let s_l = run(s, delta_l);

            let delta_r = c2.instructions.skip(base1);
            lemma_arith_lowering_computes(c1, f1, *rhs, s_l);
            let s_r = run(s_l, delta_r);

            let delta = c3.instructions.skip(base);
            assert(delta =~= delta_l + (delta_r + tail));
            lemma_run_concat(s, delta_l, delta_r + tail);
            lemma_run_concat(s_l, delta_r, tail);

            // the left result survives the right-hand code: everything the
            // right side writes lies strictly below f1.sp
            assert(read_operand(s_r, la) == eval_arith(*lhs));

            // the three tail steps: load, add, store
            let s_a = step(s_r, tail[0]);
            let s_b = step(s_a, tail[1]);
            let s_c = step(s_b, tail[2]);
            assert(run(s_r, tail) == s_c) by {
                reveal_with_fuel(run, 4);
                assert(tail.drop_first() =~= seq![tail[1], tail[2]]);
                assert(tail.drop_first().drop_first() =~= seq![tail[2]]);
                assert(seq![tail[2]].drop_first() =~= Seq::<InstructionV>::empty());
            }
            assert(s_a.acc == eval_arith(*lhs));
            assert(read_operand(s_a, ra) == eval_arith(*rhs));
            assert(s_b.acc == wrap32(eval_arith(*lhs) + eval_arith(*rhs)));
            assert(read_operand(s_c, a) == eval_arith(e));

            assert(c3.instructions.take(base) =~= c.instructions);
            assert(forall|o: int| f.sp <= o ==> run(s, delta).frame[o] == s.frame[o]);
        },
        _ => {},
    }
}

/// The law on a whole `return` statement: the code lowered for
/// `return e`, with `e` built from literals and additions, leaves
/// `eval_arith(e)` in the accumulator.
pub proof fn lemma_return_sets_accumulator(
    c: CompilerV,
    f: FunctionCtxV,
    e: Expr,
    s: MachineState,
)
    requires
        arith_only(e),
        f.sp <= 0,
        spec_compile_statement(c, f, Statement::Return(Box::new(e))) is Ok,
    ensures
        ({
            let (c1, _f1) = spec_compile_statement(c, f, Statement::Return(Box::new(e)))->Ok_0;
            let delta = c1.instructions.skip(c.instructions.len() as int);
            &&& c.instructions.len() <= c1.instructions.len()
            &&& c1.instructions.take(c.instructions.len() as int) == c.instructions
            &&& run(s, delta).acc == eval_arith(e)
        }),
{
    let stmt = Statement::Return(Box::new(e));
    let (ce, fe, a) = spec_compile_expr(c, f, e)->Ok_0;
    let (c1, _f1) = spec_compile_statement(c, f, stmt)->Ok_0;
    let mov = InstructionV::Mov(AddressV::Register(Register::Eax), a);
    assert(c1.instructions =~= ce.instructions + seq![mov]);
    let base = c.instructions.len() as int;
    lemma_arith_lowering_computes(c, f, e, s);
    let delta_e = ce.instructions.skip(base);
    let delta = c1.instructions.skip(base);
    assert(delta =~= delta_e + seq![mov]);
    lemma_run_concat(s, delta_e, seq![mov]);
    let s_e = run(s, delta_e);
    assert(run(s_e, seq![mov]) == step(s_e, mov)) by {
        reveal_with_fuel(run, 2);
        assert(seq![mov].drop_first() =~= Seq::<InstructionV>::empty());
    }
    assert(c1.instructions.take(c.instructions.len() as int) =~= c.instructions);
}

/// The law on a whole function, the provable heart of the exit-status
/// contract: for a parameterless function whose body is the single
/// statement `return e`, with `e` built from integer literals and
/// additions, the emitted code — label, prologue, body, epilogue — run
/// from any machine state, ends with `eval_arith(e)` in the accumulator,
/// the return-value channel. A process harness that runs the linked
/// binary reports the accumulator's low eight bits as the exit status.
pub proof fn lemma_single_return_main_accumulator(
    c: CompilerV,
    func: FunctionDefinition,
    os: TargetOs,
    e: Expr,
    s: MachineState,
)
    requires
        arith_only(e),
        func.parameters@.len() == 0,
        func.body is Some,
        (func.body->0)@ == seq![Statement::Return(Box::new(e))],
        spec_compile_func(c, func, os) is Ok,
    ensures
        ({
            let c1 = spec_compile_func(c, func, os)->Ok_0;
            let delta = c1.instructions.skip(c.instructions.len() as int);
            run(s, delta).acc == eval_arith(e)
        }),
{
    let body = func.body->0;
    let stmt = Statement::Return(Box::new(e));
    assert(body@ =~= seq![stmt]);
    let label = if func.name@ == "main"@ {
        crate::platform::spec_main_symbol(os)
    } else {
        func.name@
    };
    let prologue = seq![
        InstructionV::Label(label),
        InstructionV::Push(Register::Rbp),
        InstructionV::Mov(AddressV::Register(Register::Rbp), AddressV::Register(Register::Rsp)),
    ];
    let epilogue = seq![InstructionV::Pop(Register::Rbp), InstructionV::Ret];

    let c_entry = spec_compile_func_entry(c, func, os);
    assert(c_entry.instructions =~= c.instructions + prologue);
    let f0 = FunctionCtxV { locals: Seq::empty(), sp: 0 };
    assert(spec_compile_params(c_entry, f0, func.parameters@, 0) == Ok::<
        (CompilerV, FunctionCtxV),
        crate::compiler::CompileErrorV,
    >((c_entry, f0)));
    let (c_body, _fb) = spec_compile_statement(c_entry, f0, stmt)->Ok_0;
    assert(spec_compile_stmts(c_entry, f0, body@, 0) == spec_compile_stmts(c_body, _fb, body@, 1));
    let c1 = spec_compile_func(c, func, os)->Ok_0;
    assert(c1.instructions =~= c_body.instructions + epilogue);

    let base = c.instructions.len() as int;
    let delta = c1.instructions.skip(base);
    let delta_body = c_body.instructions.skip(base + 3);
    lemma_return_sets_accumulator(c_entry, f0, e, s);
    assert(c_entry.instructions.len() == base + 3);
    assert(c_body.instructions =~= c_entry.instructions + delta_body);
    assert(delta =~= prologue + (delta_body + epilogue));
    lemma_run_concat(s, prologue, delta_body + epilogue);
    let s_p = run(s, prologue);
    assert(s_p == s) by {
        reveal_with_fuel(run, 4);
        assert(prologue.drop_first() =~= seq![prologue[1], prologue[2]]);
        assert(prologue.drop_first().drop_first() =~= seq![prologue[2]]);
        assert(seq![prologue[2]].drop_first() =~= Seq::<InstructionV>::empty());
    }
    lemma_run_concat(s, delta_body, epilogue);
    let s_b = run(s, delta_body);
    assert(s_b.acc == eval_arith(e));
    assert(run(s_b, epilogue) == s_b) by {
        reveal_with_fuel(run, 3);
        assert(epilogue.drop_first() =~= seq![epilogue[1]]);
        assert(seq![epilogue[1]].drop_first() =~= Seq::<InstructionV>::empty());
    }
}

/// The generator state right after a function's label and prologue have
/// been appended: the symbol bound, the scope opened, three instructions
/// emitted.
pub open spec fn spec_compile_func_entry(
    c: CompilerV,
    func: FunctionDefinition,
    os: TargetOs,
) -> CompilerV {
    let label = if func.name@ == "main"@ {
        crate::platform::spec_main_symbol(os)
    } else {
        func.name@
    };
    let sym = crate::symbol_table::SymbolV {
        name: func.name@,
        ty: crate::ast::spec_type_of(func),
    };
    c.insert_symbol(sym).push_scope().push_instr(InstructionV::Label(label)).push_instr(
        InstructionV::Push(Register::Rbp),
    ).push_instr(
        InstructionV::Mov(AddressV::Register(Register::Rbp), AddressV::Register(Register::Rsp)),
    )
}

} // verus!
