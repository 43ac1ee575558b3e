//! The ordered text output of a compile: the `global` line naming the
//! entry symbol, the data section holding the literal pool, and the code
//! section holding the rendered instruction stream in emission order.
//!
//! The driver prints these lines as they come; between the global line and
//! the data section it may add one directive line per routine named by
//! [`undefined_called_names`], for routines referenced by a call but not
//! defined in this translation unit.

use vstd::prelude::*;

use crate::assembly::{Instruction, InstructionV, instruction_text};
use crate::compiler::{Compiler, lc_label};
use crate::decimal::format_u64;
use crate::platform::{TargetOs, main_symbol, spec_main_symbol};

verus! {

/// The `global` directive line naming the resolved entry symbol.
pub open spec fn spec_global_line(os: TargetOs) -> Seq<char> {
    "global "@ + spec_main_symbol(os)
}

/// Renders the `global` line for the target `os`.
pub fn global_line(os: TargetOs) -> (s: String)
    ensures
        s@ == spec_global_line(os),
{
    let mut s = String::from_str("global ");
    s.append(main_symbol(os));
    proof {
        assert(s@ =~= spec_global_line(os));
    }
    s
}

/// One line of the data section: the literal-pool entry with index `idx`.
pub open spec fn spec_data_line(idx: nat, lit: Seq<char>) -> Seq<char> {
    lc_label(idx) + ": db \""@ + lit + "\""@
}

/// The data section: its header, then one line per literal-pool entry in
/// insertion order; an empty pool yields no data section at all.
pub open spec fn spec_data_lines(lits: Seq<Seq<char>>) -> Seq<Seq<char>> {
    if lits.len() == 0 {
        Seq::empty()
    } else {
        seq!["section .data"@] + Seq::new(lits.len(), |i: int| spec_data_line(i as nat, lits[i]))
    }
}

/// The code section: its header, then the rendered instruction stream in
/// emission order, one instruction per line.
pub open spec fn spec_code_lines(instrs: Seq<InstructionV>) -> Seq<Seq<char>> {
    seq!["section .text"@] + Seq::new(instrs.len(), |i: int| instruction_text(instrs[i]))
}

/// Renders the data section of a finished compile.
pub fn data_lines(compiler: &Compiler) -> (r: Vec<String>)
    ensures
        r@.map_values(|s: String| s@) == spec_data_lines(compiler@.string_literals),
{
    let ghost lits = compiler@.string_literals;
    let pool = compiler.string_literals();
    let mut r: Vec<String> = Vec::new();
    if pool.len() == 0 {
        proof {
            assert(r@.map_values(|s: String| s@) =~= spec_data_lines(lits));
        }
        return r;
    }
    r.push(String::from_str("section .data"));
    let n = pool.len();
    #[verifier::loop_isolation(false)]
    for i in 0..n
        invariant
            r@.len() == i + 1,
            r@[0]@ == "section .data"@,
            forall|k: int| 1 <= k <= i ==> (#[trigger] r@[k]@) == spec_data_line(
                (k - 1) as nat,
                lits[k - 1],
            ),
    {
        let mut line = String::from_str("LC");
        let digits = format_u64(i as u64);
        line.append(digits.as_str());
        line.append(": db \"");
        line.append(pool[i].as_str());
        line.append("\"");
        proof {
            assert(line@ =~= spec_data_line(i as nat, lits[i as int]));
        }
        r.push(line);
    }
    proof {
        let mapped = r@.map_values(|s: String| s@);
        let want = spec_data_lines(lits);
        assert(lits.len() == n);
        assert(mapped.len() == want.len());
        assert forall|k: int| 0 <= k < mapped.len() implies mapped[k] == want[k] by {
            if k == 0 {
                assert(r@[0]@ == "section .data"@);
            } else {
                assert(r@[k]@ == spec_data_line((k - 1) as nat, lits[k - 1]));
            }
        }
        assert(mapped =~= want);
    }
    r
}

/// Renders the code section of a finished compile.
pub fn code_lines(compiler: &Compiler) -> (r: Vec<String>)
    ensures
        r@.map_values(|s: String| s@) == spec_code_lines(compiler@.instructions),
{
    let ghost instrs = compiler@.instructions;
    let stream = compiler.instructions();
    let mut r: Vec<String> = Vec::new();
    r.push(String::from_str("section .text"));
    let n = stream.len();
    #[verifier::loop_isolation(false)]
    for i in 0..n
        invariant
            r@.len() == i + 1,
            r@[0]@ == "section .text"@,
            forall|k: int| 1 <= k <= i ==> (#[trigger] r@[k]@) == instruction_text(instrs[k - 1]),
    {
        r.push(stream[i].to_text());
    }
    proof {
        let mapped = r@.map_values(|s: String| s@);
        let want = spec_code_lines(instrs);
        assert(instrs.len() == n);
        assert(mapped.len() == want.len());
        assert forall|k: int| 0 <= k < mapped.len() implies mapped[k] == want[k] by {
            if k == 0 {
                assert(r@[0]@ == "section .text"@);
            } else {
                assert(r@[k]@ == instruction_text(instrs[k - 1]));
            }
        }
        assert(mapped =~= want);
    }
    r
}

/// Whether the instruction stream defines a label spelled `name`.
pub open spec fn is_defined_label(instrs: Seq<InstructionV>, name: Seq<char>) -> bool {
    exists|k: int| 0 <= k < instrs.len() && instrs[k] == InstructionV::Label(name)
}

/// The call targets of the first `i` instructions that no label in the
/// whole stream defines, in first-call order, each name listed once.
pub open spec fn spec_undefined_called(instrs: Seq<InstructionV>, i: int) -> Seq<Seq<char>>
    decreases i,
{
    if i <= 0 {
        Seq::empty()
    } else {
        let prev = spec_undefined_called(instrs, i - 1);
        match instrs[i - 1] {
            InstructionV::Call(l) => if !is_defined_label(instrs, l) && !prev.contains(l) {
                prev.push(l)
            } else {
                prev
            },
            _ => prev,
        }
    }
}

/// Whether some element of `v` reads equal to `s`.
fn contains_string(v: &Vec<String>, s: &String) -> (r: bool)
    ensures
        r == v@.map_values(|x: String| x@).contains(s@),
{
    let ghost views = v@.map_values(|x: String| x@);
    let n = v.len();
    #[verifier::loop_isolation(false)]
    for i in 0..n
        invariant
            forall|k: int| 0 <= k < i ==> (#[trigger] views[k]) != s@,
    {
        if v[i].eq(s) {
            proof {
                assert(views[i as int] == s@);
            }
            return true;
        }
    }
    proof {
        assert(!views.contains(s@)) by {
            assert forall|k: int| 0 <= k < views.len() implies views[k] != s@ by {}
        }
    }
    false
}

/// Whether the emitted stream holds a `Label` instruction spelled `name`.
fn defines_label(stream: &Vec<Instruction>, name: &String) -> (r: bool)
    ensures
        r == is_defined_label(stream@.map_values(|x: Instruction| x@), name@),
{
    let ghost instrs = stream@.map_values(|x: Instruction| x@);
    let n = stream.len();
    #[verifier::loop_isolation(false)]
    for i in 0..n
        invariant
            forall|k: int| 0 <= k < i ==> (#[trigger] instrs[k]) != InstructionV::Label(name@),
    {
        match &stream[i] {
            Instruction::Label(l) => {
                if l.eq(name) {
                    proof {
                        assert(instrs[i as int] == InstructionV::Label(name@));
                    }
                    return true;
                }
            },
            _ => {},
        }
    }
    false
}

/// The routines referenced by a `call` but defined by no label in this
/// translation unit, in first-call order, each listed once. The driver
/// declares each of these to the assembler so the reference resolves at
/// link time.
pub fn undefined_called_names(compiler: &Compiler) -> (r: Vec<String>)
    ensures
        r@.map_values(|s: String| s@) == spec_undefined_called(
            compiler@.instructions,
            compiler@.instructions.len() as int,
        ),
{
    let ghost instrs = compiler@.instructions;
    let stream = compiler.instructions();
    let mut r: Vec<String> = Vec::new();
    let n = stream.len();
    #[verifier::loop_isolation(false)]
    for i in 0..n
        invariant
            r@.map_values(|s: String| s@) == spec_undefined_called(instrs, i as int),
    {
        match &stream[i] {
            Instruction::Call(l) => {
                if !defines_label(stream, l) && !contains_string(&r, l) {
                    r.push(l.clone());
                    proof {
                        assert(r@.map_values(|s: String| s@) =~= spec_undefined_called(
                            instrs,
                            i + 1,
                        ));
                    }
                } else {
                    proof {
                        assert(r@.map_values(|s: String| s@) =~= spec_undefined_called(
                            instrs,
                            i + 1,
                        ));
                    }
                }
            },
            _ => {
                proof {
                    assert(r@.map_values(|s: String| s@) =~= spec_undefined_called(instrs, i + 1));
                }
            },
        }
    }
    r
}

} // verus!
