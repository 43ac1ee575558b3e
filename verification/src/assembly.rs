//! The assembly intermediate representation: registers, operand addressing
//! modes, instructions, and their canonical text rendering.
//!
//! Each instruction renders to exactly one line of text in the operand order
//! the target assembler dictates (`Mov(dst, src)` renders the destination
//! first). The rendering is a textual contract: the emitted text must
//! assemble as is.

use vstd::prelude::*;

use crate::decimal::{dec_int, format_i32};

verus! {

/// The register set the code generator uses: the accumulator (`rax`/`eax`),
/// the frame and stack pointers, and the two argument registers.
#[derive(Debug, Clone, Copy, PartialEq, Eq, Structural)]
pub enum Register {
    Rax,
    Rbp,
    Rsp,
    Eax,
    Ebp,
    Edi,
    Esi,
    Esp,
}

/// An operand: a register, an immediate, an indirect memory reference, or
/// a symbolic label.
#[derive(Debug, PartialEq)]
pub enum Address {
    Register(Register),
    Immediate(i32),
    Indirect(IndirectAddress),
    Label(String),
}

/// An indirect memory reference: a base operand, an optional constant
/// offset, an optional explicit operand-width qualifier (required whenever
/// the assembler cannot infer the width from context), and a flag marking
/// the reference as position-independent (required for operands that
/// address program-relative data such as string literals).
#[derive(Debug, PartialEq)]
pub struct IndirectAddress {
    name: Box<Address>,
    offset: Option<i32>,
    size: Option<IndirectSize>,
    rip_relative: bool,
}

/// Explicit operand-width qualifiers.
#[derive(Debug, Clone, Copy, PartialEq, Eq, Structural)]
pub enum IndirectSize {
    Dword,
    Qword,
}

/// One assembly instruction.
#[derive(Debug, PartialEq)]
pub enum Instruction {
    Label(String),
    /// dest, src
    Mov(Address, Address),
    /// dest, adder
    Add(Address, Address),
    /// load effective address: dest, src
    Lea(Address, Address),
    /// callee label
    Call(String),
    Push(Register),
    Pop(Register),
    Ret,
}

/// Mathematical mirror of [`Address`]: label names are char sequences.
pub ghost enum AddressV {
    Register(Register),
    Immediate(i32),
    Indirect(IndirectAddressV),
    Label(Seq<char>),
}

/// Mathematical mirror of [`IndirectAddress`].
pub ghost struct IndirectAddressV {
    pub name: Box<AddressV>,
    pub offset: Option<i32>,
    pub size: Option<IndirectSize>,
    pub rip_relative: bool,
}

/// Mathematical mirror of [`Instruction`].
pub ghost enum InstructionV {
    Label(Seq<char>),
    Mov(AddressV, AddressV),
    Add(AddressV, AddressV),
    Lea(AddressV, AddressV),
    Call(Seq<char>),
    Push(Register),
    Pop(Register),
    Ret,
}

/// The mathematical value of an [`Address`].
pub open spec fn addr_view(a: Address) -> AddressV
    decreases a,
{
    match a {
        Address::Register(r) => AddressV::Register(r),
        Address::Immediate(v) => AddressV::Immediate(v),
        Address::Indirect(ia) => AddressV::Indirect(indirect_view(ia)),
        Address::Label(l) => AddressV::Label(l@),
    }
}

/// The mathematical value of an [`IndirectAddress`]. The fields of the
/// executable struct are private, so the definition is closed; the builder
/// contracts below say everything callers need.
pub closed spec fn indirect_view(ia: IndirectAddress) -> IndirectAddressV
    decreases ia,
{
    IndirectAddressV {
        name: Box::new(addr_view(*ia.name)),
        offset: ia.offset,
        size: ia.size,
        rip_relative: ia.rip_relative,
    }
}

/// The mathematical value of an [`Instruction`].
pub open spec fn instr_view(i: Instruction) -> InstructionV {
    match i {
        Instruction::Label(l) => InstructionV::Label(l@),
        Instruction::Mov(d, s) => InstructionV::Mov(addr_view(d), addr_view(s)),
        Instruction::Add(d, s) => InstructionV::Add(addr_view(d), addr_view(s)),
        Instruction::Lea(d, s) => InstructionV::Lea(addr_view(d), addr_view(s)),
        Instruction::Call(l) => InstructionV::Call(l@),
        Instruction::Push(r) => InstructionV::Push(r),
        Instruction::Pop(r) => InstructionV::Pop(r),
        Instruction::Ret => InstructionV::Ret,
    }
}

impl View for Address {
    type V = AddressV;

    open spec fn view(&self) -> AddressV {
        addr_view(*self)
    }
}

impl View for IndirectAddress {
    type V = IndirectAddressV;

    open spec fn view(&self) -> IndirectAddressV {
        indirect_view(*self)
    }
}

impl View for Instruction {
    type V = InstructionV;

    open spec fn view(&self) -> InstructionV {
        instr_view(*self)
    }
}

impl IndirectAddress {
    /// A base-plus-offset reference, with no width qualifier yet.
    pub fn offset(name: Box<Address>, offset: i32) -> (r: IndirectAddress)
        ensures
            r@ == (IndirectAddressV {
                name: Box::new(name@),
                offset: Some(offset),
                size: None,
                rip_relative: false,
            }),
    {
        IndirectAddress { name, offset: Some(offset), size: None, rip_relative: false }
    }

    /// A plain indirect reference through a base operand.
    pub fn indirect(name: Box<Address>) -> (r: IndirectAddress)
        ensures
            r@ == (IndirectAddressV {
                name: Box::new(name@),
                offset: None,
                size: None,
                rip_relative: false,
            }),
    {
        IndirectAddress { name, offset: None, size: None, rip_relative: false }
    }

    /// The same reference, qualified as four bytes wide.
    pub fn dword(self) -> (r: IndirectAddress)
        ensures
            r@ == (IndirectAddressV { size: Some(IndirectSize::Dword), ..self@ }),
    {
        IndirectAddress { size: Some(IndirectSize::Dword), ..self }
    }

    /// The same reference, qualified as eight bytes wide.
    pub fn qword(self) -> (r: IndirectAddress)
        ensures
            r@ == (IndirectAddressV { size: Some(IndirectSize::Qword), ..self@ }),
    {
        IndirectAddress { size: Some(IndirectSize::Qword), ..self }
    }

    /// The same reference, with any width qualifier removed.
    pub fn no_size(self) -> (r: IndirectAddress)
        ensures
            r@ == (IndirectAddressV { size: None, ..self@ }),
    {
        IndirectAddress { size: None, ..self }
    }

    /// The same reference, marked (or unmarked) as position-independent.
    pub fn is_rip_relative(self, value: bool) -> (r: IndirectAddress)
        ensures
            r@ == (IndirectAddressV { rip_relative: value, ..self@ }),
    {
        IndirectAddress { rip_relative: value, ..self }
    }

    /// The base operand of this reference.
    pub fn base(&self) -> (r: &Address)
        ensures
            r@ == *self@.name,
    {
        &self.name
    }

    /// The constant offset of this reference, if it has one.
    pub fn offset_value(&self) -> (r: Option<i32>)
        ensures
            r == self@.offset,
    {
        self.offset
    }

    /// The explicit width qualifier of this reference, if it has one.
    pub fn size_value(&self) -> (r: Option<IndirectSize>)
        ensures
            r == self@.size,
    {
        self.size
    }

    /// Whether this reference is position-independent.
    pub fn rip_relative(&self) -> (r: bool)
        ensures
            r == self@.rip_relative,
    {
        self.rip_relative
    }
}

impl Clone for Address {
    /// A structural copy, equal to the original as a mathematical value.
    fn clone(&self) -> (r: Address)
        ensures
            r@ == self@,
        decreases *self,
    {
        match self {
            Address::Register(r) => Address::Register(*r),
            Address::Immediate(v) => Address::Immediate(*v),
            Address::Indirect(ia) => Address::Indirect(ia.clone()),
            Address::Label(l) => Address::Label(l.clone()),
        }
    }
}

impl Clone for IndirectAddress {
    /// A structural copy, equal to the original as a mathematical value.
    fn clone(&self) -> (r: IndirectAddress)
        ensures
            r@ == self@,
        decreases *self,
    {
        IndirectAddress {
            name: Box::new((*self.name).clone()),
            offset: self.offset,
            size: self.size,
            rip_relative: self.rip_relative,
        }
    }
}

/// The canonical text of a register.
pub open spec fn register_text(r: Register) -> Seq<char> {
    match r {
        Register::Rax => "rax"@,
        Register::Rbp => "rbp"@,
        Register::Rsp => "rsp"@,
        Register::Eax => "eax"@,
        Register::Ebp => "ebp"@,
        Register::Esp => "esp"@,
        Register::Edi => "edi"@,
        Register::Esi => "esi"@,
    }
}

/// The canonical text of a width qualifier.
pub open spec fn size_text(s: IndirectSize) -> Seq<char> {
    match s {
        IndirectSize::Dword => "dword"@,
        IndirectSize::Qword => "qword"@,
    }
}

/// The canonical text of an operand.
pub open spec fn address_text(a: AddressV) -> Seq<char>
    decreases a,
{
    match a {
        AddressV::Register(r) => register_text(r),
        AddressV::Immediate(v) => dec_int(v as int),
        AddressV::Indirect(ia) => indirect_text(ia),
        AddressV::Label(l) => l,
    }
}

/// The canonical text of an indirect reference: `[base]` or
/// `[base offset]`, prefixed inside the brackets by `rel` when the
/// reference is position-independent, and outside by a width qualifier
/// when one is present.
pub open spec fn indirect_text(ia: IndirectAddressV) -> Seq<char>
    decreases ia,
{
    let base = if ia.rip_relative {
        "rel "@ + address_text(*ia.name)
    } else {
        address_text(*ia.name)
    };
    let inner = match ia.offset {
        Some(o) => base + " "@ + dec_int(o as int),
        None => base,
    };
    match ia.size {
        Some(s) => size_text(s) + " ["@ + inner + "]"@,
        None => "["@ + inner + "]"@,
    }
}

/// The canonical single line of text of an instruction.
pub open spec fn instruction_text(i: InstructionV) -> Seq<char> {
    match i {
        InstructionV::Label(l) => l + ":"@,
        InstructionV::Mov(dst, src) => "mov "@ + address_text(dst) + ", "@ + address_text(src),
        InstructionV::Add(dst, src) => "add "@ + address_text(dst) + ", "@ + address_text(src),
        InstructionV::Lea(dst, src) => "lea "@ + address_text(dst) + ", "@ + address_text(src),
        InstructionV::Call(l) => "call "@ + l,
        InstructionV::Push(r) => "push "@ + register_text(r),
        InstructionV::Pop(r) => "pop "@ + register_text(r),
        InstructionV::Ret => "ret"@,
    }
}

impl Register {
    /// Renders this register.
    pub fn to_text(&self) -> (s: &'static str)
        ensures
            s@ == register_text(*self),
    {
        match self {
            Register::Rax => "rax",
            Register::Rbp => "rbp",
            Register::Rsp => "rsp",
            Register::Eax => "eax",
            Register::Ebp => "ebp",
            Register::Esp => "esp",
            Register::Edi => "edi",
            Register::Esi => "esi",
        }
    }
}

impl IndirectSize {
    /// Renders this width qualifier.
    pub fn to_text(&self) -> (s: &'static str)
        ensures
            s@ == size_text(*self),
    {
        match self {
            IndirectSize::Dword => "dword",
            IndirectSize::Qword => "qword",
        }
    }
}

impl Address {
    /// Renders this operand.
    pub fn to_text(&self) -> (s: String)
        ensures
            s@ == address_text(self@),
        decreases *self,
    {
        match self {
            Address::Register(r) => String::from_str(r.to_text()),
            Address::Immediate(v) => format_i32(*v),
            Address::Indirect(ia) => ia.to_text(),
            Address::Label(l) => l.clone(),
        }
    }
}

impl IndirectAddress {
    /// Renders this indirect reference.
    pub fn to_text(&self) -> (s: String)
        ensures
            s@ == indirect_text(self@),
        decreases *self,
    {
        let mut inner = String::new();
        if self.rip_relative {
            inner.append("rel ");
        }
        let base = (*self.name).to_text();
        inner.append(base.as_str());
        match &self.offset {
            Some(o) => {
                inner.append(" ");
                let off = format_i32(*o);
                inner.append(off.as_str());
            },
            None => {},
        }
        let mut s = String::new();
        match &self.size {
            Some(size) => {
                s.append(size.to_text());
                s.append(" [");
            },
            None => {
                s.append("[");
            },
        }
        s.append(inner.as_str());
        s.append("]");
        proof {
            assert(s@ =~= indirect_text(self@));
        }
        s
    }
}

impl Instruction {
    /// Renders this instruction as its one line of text.
    pub fn to_text(&self) -> (s: String)
        ensures
            s@ == instruction_text(self@),
    {
        match self {
            Instruction::Label(l) => {
                let mut s = l.clone();
                s.append(":");
                proof {
                    assert(s@ =~= instruction_text(self@));
                }
                s
            },
            Instruction::Mov(dst, src) => binary_text("mov ", dst, src),
            Instruction::Add(dst, src) => binary_text("add ", dst, src),
            Instruction::Lea(dst, src) => binary_text("lea ", dst, src),
            Instruction::Call(l) => {
                let mut s = String::from_str("call ");
                s.append(l.as_str());
                proof {
                    assert(s@ =~= instruction_text(self@));
                }
                s
            },
            Instruction::Push(r) => {
                let mut s = String::from_str("push ");
                s.append(r.to_text());
                proof {
                    assert(s@ =~= instruction_text(self@));
                }
                s
            },
            Instruction::Pop(r) => {
                let mut s = String::from_str("pop ");
                s.append(r.to_text());
                proof {
                    assert(s@ =~= instruction_text(self@));
                }
                s
            },
            Instruction::Ret => String::from_str("ret"),
        }
    }
}

/// Renders a two-operand instruction line: the mnemonic (with its trailing
/// space), the destination, a comma, the source.
fn binary_text(mnemonic: &str, dst: &Address, src: &Address) -> (s: String)
    ensures
        s@ == mnemonic@ + address_text(dst@) + ", "@ + address_text(src@),
{
    let mut s = String::from_str(mnemonic);
    let d = dst.to_text();
    s.append(d.as_str());
    s.append(", ");
    let sr = src.to_text();
    s.append(sr.as_str());
    proof {
        assert(s@ =~= mnemonic@ + address_text(dst@) + ", "@ + address_text(src@));
    }
    s
}

} // verus!
