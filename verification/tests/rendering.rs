//! The textual contract of the assembly intermediate representation:
//! every instruction renders to exactly one line, in the operand order
//! and spelling the target assembler expects.

use u_cc::assembly::{Address, IndirectAddress, Instruction, Register};

fn rbp() -> Box<Address> {
    Box::new(Address::Register(Register::Rbp))
}

#[test]
fn registers_render_by_name() {
    assert_eq!(Register::Rax.to_text(), "rax");
    assert_eq!(Register::Rbp.to_text(), "rbp");
    assert_eq!(Register::Rsp.to_text(), "rsp");
    assert_eq!(Register::Eax.to_text(), "eax");
    assert_eq!(Register::Ebp.to_text(), "ebp");
    assert_eq!(Register::Esp.to_text(), "esp");
    assert_eq!(Register::Edi.to_text(), "edi");
    assert_eq!(Register::Esi.to_text(), "esi");
}

#[test]
fn immediates_render_in_decimal() {
    assert_eq!(Address::Immediate(0).to_text(), "0");
    assert_eq!(Address::Immediate(42).to_text(), "42");
    assert_eq!(Address::Immediate(-4).to_text(), "-4");
    assert_eq!(Address::Immediate(i32::MAX).to_text(), "2147483647");
    assert_eq!(Address::Immediate(i32::MIN).to_text(), "-2147483648");
}

#[test]
fn indirect_operands_render_with_brackets() {
    assert_eq!(IndirectAddress::indirect(rbp()).to_text(), "[rbp]");
    assert_eq!(IndirectAddress::offset(rbp(), -4).to_text(), "[rbp -4]");
    assert_eq!(IndirectAddress::offset(rbp(), 8).to_text(), "[rbp 8]");
}

#[test]
fn width_qualifiers_prefix_the_brackets() {
    assert_eq!(IndirectAddress::offset(rbp(), -4).dword().to_text(), "dword [rbp -4]");
    assert_eq!(IndirectAddress::offset(rbp(), -4).qword().to_text(), "qword [rbp -4]");
    assert_eq!(IndirectAddress::indirect(rbp()).dword().to_text(), "dword [rbp]");
    assert_eq!(IndirectAddress::offset(rbp(), -4).dword().no_size().to_text(), "[rbp -4]");
}

#[test]
fn position_independent_references_carry_the_rel_marker() {
    let operand = IndirectAddress::indirect(Box::new(Address::Label("LC0".to_string())))
        .is_rip_relative(true);
    assert_eq!(operand.to_text(), "[rel LC0]");
}

#[test]
fn instructions_render_one_line_each() {
    assert_eq!(Instruction::Label("main".to_string()).to_text(), "main:");
    assert_eq!(Instruction::Push(Register::Rbp).to_text(), "push rbp");
    assert_eq!(Instruction::Pop(Register::Rbp).to_text(), "pop rbp");
    assert_eq!(Instruction::Ret.to_text(), "ret");
    assert_eq!(Instruction::Call("add".to_string()).to_text(), "call add");
    assert_eq!(
        Instruction::Mov(
            Address::Register(Register::Rbp),
            Address::Register(Register::Rsp),
        )
        .to_text(),
        "mov rbp, rsp"
    );
    // the destination renders first, then the source
    assert_eq!(
        Instruction::Mov(Address::Register(Register::Eax), Address::Immediate(7)).to_text(),
        "mov eax, 7"
    );
    assert_eq!(
        Instruction::Add(Address::Register(Register::Eax), Address::Immediate(3)).to_text(),
        "add eax, 3"
    );
    assert_eq!(
        Instruction::Lea(
            Address::Register(Register::Rax),
            Address::Indirect(IndirectAddress::offset(rbp(), -4)),
        )
        .to_text(),
        "lea rax, [rbp -4]"
    );
}

#[test]
fn decimal_rendering_is_exact() {
    assert_eq!(u_cc::decimal::format_u64(0), "0");
    assert_eq!(u_cc::decimal::format_u64(9), "9");
    assert_eq!(u_cc::decimal::format_u64(10), "10");
    assert_eq!(u_cc::decimal::format_u64(987654321), "987654321");
    assert_eq!(u_cc::decimal::format_i32(0), "0");
    assert_eq!(u_cc::decimal::format_i32(-120), "-120");
}
