//! Lowering of the pointer-shaped expressions and the frame-slot
//! allocation API.

use std::collections::HashMap;

use u_cc::assembly::{Address, Instruction, Register};
use u_cc::ast::{Expr, FunctionDefinition, Program, Statement, Type};
use u_cc::compiler::{compile, FunctionCtx};
use u_cc::platform::TargetOs;
use u_cc::symbol_table::Symbol;

fn main_with(body: Vec<Statement>) -> Program {
    Program {
        functions: vec![FunctionDefinition {
            return_type: Type::Int,
            name: "main".to_string(),
            parameters: vec![],
            body: Some(body),
        }],
    }
}

/// A minimal executor for streams without calls: absolute cells keyed by
/// computed addresses, the frame base set up by the prologue.
fn run_straight(instructions: &[Instruction]) -> i64 {
    let mut regs: HashMap<&'static str, i64> = HashMap::new();
    let slot = |r: &Register| match r {
        Register::Rax | Register::Eax => "a",
        Register::Rbp | Register::Ebp => "b",
        Register::Rsp | Register::Esp => "s",
        Register::Edi => "di",
        Register::Esi => "si",
    };
    regs.insert("s", 1 << 20);
    regs.insert("a", 0);
    regs.insert("b", 0);
    regs.insert("di", 0);
    regs.insert("si", 0);
    let mut memory: HashMap<i64, i64> = HashMap::new();
    let mut result = 0;
    for instruction in instructions {
        let effective = |a: &Address, regs: &HashMap<&str, i64>| -> i64 {
            match a {
                Address::Indirect(ia) => {
                    let base = match ia.base() {
                        Address::Register(r) => regs[slot(r)],
                        other => panic!("unexpected base {:?}", other),
                    };
                    base + ia.offset_value().unwrap_or(0) as i64
                }
                other => panic!("not indirect: {:?}", other),
            }
        };
        let read = |a: &Address, regs: &HashMap<&str, i64>, memory: &HashMap<i64, i64>| -> i64 {
            match a {
                Address::Register(r) => regs[slot(r)],
                Address::Immediate(v) => *v as i64,
                Address::Indirect(_) => *memory.get(&effective(a, regs)).unwrap_or(&0),
                Address::Label(l) => panic!("label operand {}", l),
            }
        };
        match instruction {
            Instruction::Label(_) => {}
            Instruction::Push(r) => {
                let sp = regs["s"] - 8;
                regs.insert("s", sp);
                memory.insert(sp, regs[slot(r)]);
            }
            Instruction::Pop(r) => {
                let sp = regs["s"];
                let v = *memory.get(&sp).unwrap_or(&0);
                regs.insert(slot(r), v);
                regs.insert("s", sp + 8);
            }
            Instruction::Mov(dst, src) => {
                let v = read(src, &regs, &memory);
                match dst {
                    Address::Register(r) => {
                        regs.insert(slot(r), v);
                    }
                    Address::Indirect(_) => {
                        let ea = effective(dst, &regs);
                        memory.insert(ea, v);
                    }
                    other => panic!("bad destination {:?}", other),
                }
            }
            Instruction::Add(dst, src) => {
                let v = read(dst, &regs, &memory) + read(src, &regs, &memory);
                match dst {
                    Address::Register(r) => {
                        regs.insert(slot(r), v);
                    }
                    other => panic!("bad destination {:?}", other),
                }
            }
            Instruction::Lea(dst, src) => {
                let ea = effective(src, &regs);
                match dst {
                    Address::Register(r) => {
                        regs.insert(slot(r), ea);
                    }
                    other => panic!("bad destination {:?}", other),
                }
            }
            Instruction::Call(l) => panic!("call {} in a straight-line stream", l),
            Instruction::Ret => result = regs["a"] & 0xff,
        }
    }
    result
}

#[test]
fn dereferencing_an_address_reads_the_variable_back() {
    // int main() { int x = 7; return *&x; }
    let program = main_with(vec![
        Statement::VariableDefinition {
            ty: Type::Int,
            name: "x".to_string(),
            value: Box::new(Expr::Number(7)),
        },
        Statement::Return(Box::new(Expr::Dereference(Box::new(Expr::AddressOf(
            "x".to_string(),
        ))))),
    ]);
    let compiled = compile(&program, TargetOs::Linux).unwrap();
    assert_eq!(run_straight(compiled.instructions()), 7);
}

#[test]
fn address_of_loads_the_slot_address_into_the_accumulator() {
    let program = main_with(vec![
        Statement::VariableDefinition {
            ty: Type::Int,
            name: "x".to_string(),
            value: Box::new(Expr::Number(7)),
        },
        Statement::Return(Box::new(Expr::AddressOf("x".to_string()))),
    ]);
    let compiled = compile(&program, TargetOs::Linux).unwrap();
    let lines: Vec<String> = compiled.instructions().iter().map(|i| i.to_text()).collect();
    assert!(lines.contains(&"lea rax, [rbp -4]".to_string()));
}

#[test]
fn dereference_reads_through_the_accumulator() {
    let program = main_with(vec![
        Statement::VariableDefinition {
            ty: Type::Int,
            name: "p".to_string(),
            value: Box::new(Expr::Number(0)),
        },
        Statement::Return(Box::new(Expr::Dereference(Box::new(Expr::Ident(
            "p".to_string(),
        ))))),
    ]);
    let compiled = compile(&program, TargetOs::Linux).unwrap();
    let lines: Vec<String> = compiled.instructions().iter().map(|i| i.to_text()).collect();
    assert!(lines.contains(&"mov rax, dword [rbp -4]".to_string()));
    assert!(lines.contains(&"mov eax, dword [rax]".to_string()));
}

#[test]
fn frame_slots_descend_and_never_collide() {
    let mut ctx = FunctionCtx::new();
    ctx.register_local(Symbol::new("a".to_string(), Type::Int)).unwrap();
    ctx.register_local(Symbol::new("b".to_string(), Type::Int)).unwrap();
    let slot_a = ctx.lookup("a").unwrap();
    let slot_b = ctx.lookup("b").unwrap();
    assert_eq!(slot_a.to_text(), "dword [rbp -4]");
    assert_eq!(slot_b.to_text(), "dword [rbp -8]");
    let temp = ctx.register_temp().unwrap();
    assert_eq!(temp.to_text(), "[rbp -12]");
    assert!(ctx.lookup("missing").is_err());
}

#[test]
fn reregistering_a_name_gives_it_a_fresh_lower_slot() {
    let mut ctx = FunctionCtx::new();
    ctx.register_local(Symbol::new("x".to_string(), Type::Int)).unwrap();
    ctx.register_local(Symbol::new("x".to_string(), Type::Int)).unwrap();
    let slot = ctx.lookup("x").unwrap();
    assert_eq!(slot.to_text(), "dword [rbp -8]");
}
