//! End-to-end lowering scenarios: each builds a small program tree,
//! compiles it, and executes the emitted instruction stream with a tiny
//! interpreter of the instruction set, checking the process exit status
//! the stream would produce.

use std::collections::HashMap;

use u_cc::assembly::{Address, Instruction, Register};
use u_cc::ast::{Expr, FunctionCall, FunctionDefinition, Program, Statement, Type};
use u_cc::compiler::{compile, CompileError, Compiler};
use u_cc::platform::TargetOs;

fn int_fn(name: &str, params: &[&str], body: Vec<Statement>) -> FunctionDefinition {
    FunctionDefinition {
        return_type: Type::Int,
        name: name.to_string(),
        parameters: params
            .iter()
            .map(|p| u_cc::ast::FunctionParameter { ty: Type::Int, name: p.to_string() })
            .collect(),
        body: Some(body),
    }
}

fn ret(e: Expr) -> Statement {
    Statement::Return(Box::new(e))
}

fn num(v: i32) -> Expr {
    Expr::Number(v)
}

fn ident(n: &str) -> Expr {
    Expr::Ident(n.to_string())
}

fn add(l: Expr, r: Expr) -> Expr {
    Expr::Op(Box::new(l), u_cc::ast::Opcode::Add, Box::new(r))
}

fn call(name: &str, args: Vec<Expr>) -> Expr {
    Expr::FunctionCall(FunctionCall {
        name: name.to_string(),
        arguments: args.into_iter().map(Box::new).collect(),
    })
}

fn compile_ok(program: &Program) -> Compiler {
    match compile(program, TargetOs::Linux) {
        Ok(c) => c,
        Err(e) => panic!("compile failed: {:?}", e),
    }
}

/// A register file for the interpreter: the 32-bit names alias the low
/// half of their 64-bit registers.
fn reg_slot(r: &Register) -> usize {
    match r {
        Register::Rax | Register::Eax => 0,
        Register::Rbp | Register::Ebp => 1,
        Register::Rsp | Register::Esp => 2,
        Register::Edi => 3,
        Register::Esi => 4,
    }
}

struct Machine {
    regs: [i64; 5],
    memory: HashMap<i64, i64>,
}

impl Machine {
    fn effective(&self, a: &Address) -> i64 {
        match a {
            Address::Indirect(ia) => {
                let base = match ia.base() {
                    Address::Register(r) => self.regs[reg_slot(r)],
                    other => panic!("unexpected indirect base: {:?}", other),
                };
                base + ia.offset_value().unwrap_or(0) as i64
            }
            other => panic!("not an indirect operand: {:?}", other),
        }
    }

    fn read(&self, a: &Address) -> i64 {
        match a {
            Address::Register(r) => self.regs[reg_slot(r)],
            Address::Immediate(v) => *v as i64,
            Address::Indirect(_) => *self.memory.get(&self.effective(a)).unwrap_or(&0),
            Address::Label(l) => panic!("cannot read label operand {}", l),
        }
    }

    fn write(&mut self, a: &Address, value: i64) {
        match a {
            Address::Register(r) => self.regs[reg_slot(r)] = value,
            Address::Indirect(_) => {
                let ea = self.effective(a);
                self.memory.insert(ea, value);
            }
            other => panic!("cannot write to operand {:?}", other),
        }
    }
}

/// Executes the stream from the label `entry` until the entry frame
/// returns; the result is the accumulator truncated to the 8-bit exit
/// status a process would report.
fn run(instructions: &[Instruction], entry: &str) -> i64 {
    let mut machine = Machine { regs: [0, 0, 1 << 20, 0, 0], memory: HashMap::new() };
    let find_label = |name: &str| -> usize {
        instructions
            .iter()
            .position(|i| matches!(i, Instruction::Label(l) if l == name))
            .unwrap_or_else(|| panic!("no label {}", name))
    };
    let mut pc = find_label(entry);
    let mut call_stack: Vec<usize> = Vec::new();
    let mut steps = 0;
    loop {
        steps += 1;
        assert!(steps < 10_000, "interpreter ran away");
        match &instructions[pc] {
            Instruction::Label(_) => pc += 1,
            Instruction::Push(r) => {
                machine.regs[2] -= 8;
                let rsp = machine.regs[2];
                let v = machine.regs[reg_slot(r)];
                machine.memory.insert(rsp, v);
                pc += 1;
            }
            Instruction::Pop(r) => {
                let rsp = machine.regs[2];
                let v = *machine.memory.get(&rsp).unwrap_or(&0);
                machine.regs[reg_slot(r)] = v;
                machine.regs[2] += 8;
                pc += 1;
            }
            Instruction::Mov(dst, src) => {
                let v = machine.read(src);
                machine.write(dst, v);
                pc += 1;
            }
            Instruction::Add(dst, src) => {
                let v = machine.read(dst) + machine.read(src);
                machine.write(dst, v);
                pc += 1;
            }
            Instruction::Lea(dst, src) => {
                let ea = machine.effective(src);
                machine.write(dst, ea);
                pc += 1;
            }
            Instruction::Call(label) => {
                call_stack.push(pc + 1);
                pc = find_label(label);
            }
            Instruction::Ret => match call_stack.pop() {
                Some(back) => pc = back,
                None => return machine.regs[0] & 0xff,
            },
        }
    }
}

fn texts(c: &Compiler) -> Vec<String> {
    c.instructions().iter().map(|i| i.to_text()).collect()
}

#[test]
fn return_constant_exits_with_it() {
    let program = Program { functions: vec![int_fn("main", &[], vec![ret(num(2))])] };
    let compiled = compile_ok(&program);
    assert_eq!(run(compiled.instructions(), "main"), 2);
}

#[test]
fn return_constant_stream_is_exact() {
    let program = Program { functions: vec![int_fn("main", &[], vec![ret(num(2))])] };
    let compiled = compile_ok(&program);
    assert_eq!(
        texts(&compiled),
        vec!["main:", "push rbp", "mov rbp, rsp", "mov eax, 2", "pop rbp", "ret"]
    );
}

#[test]
fn addition_exits_with_the_sum() {
    let program = Program { functions: vec![int_fn("main", &[], vec![ret(add(num(2), num(3)))])] };
    let compiled = compile_ok(&program);
    assert_eq!(run(compiled.instructions(), "main"), 5);
}

#[test]
fn addition_materializes_through_a_temporary() {
    let program = Program { functions: vec![int_fn("main", &[], vec![ret(add(num(2), num(3)))])] };
    let compiled = compile_ok(&program);
    assert_eq!(
        texts(&compiled),
        vec![
            "main:",
            "push rbp",
            "mov rbp, rsp",
            "mov eax, 2",
            "add eax, 3",
            "mov [rbp -4], eax",
            "mov eax, [rbp -4]",
            "pop rbp",
            "ret"
        ]
    );
}

#[test]
fn two_argument_call_exits_with_the_sum() {
    let program = Program {
        functions: vec![
            int_fn("add", &["a", "b"], vec![ret(add(ident("a"), ident("b")))]),
            int_fn("main", &[], vec![ret(call("add", vec![num(2), num(3)]))]),
        ],
    };
    let compiled = compile_ok(&program);
    assert_eq!(run(compiled.instructions(), "main"), 5);
}

#[test]
fn parameters_arrive_in_the_two_argument_registers() {
    let program = Program {
        functions: vec![
            int_fn("add", &["a", "b"], vec![ret(add(ident("a"), ident("b")))]),
            int_fn("main", &[], vec![ret(call("add", vec![num(2), num(3)]))]),
        ],
    };
    let compiled = compile_ok(&program);
    let lines = texts(&compiled);
    // the first parameter is copied from the first argument register, the
    // second from the second, each into its own slot
    assert!(lines.contains(&"mov dword [rbp -4], edi".to_string()));
    assert!(lines.contains(&"mov dword [rbp -8], esi".to_string()));
    // and the call site loads the registers in the same order
    assert!(lines.contains(&"mov edi, 2".to_string()));
    assert!(lines.contains(&"mov esi, 3".to_string()));
    assert!(lines.contains(&"call add".to_string()));
}

#[test]
fn three_argument_call_is_rejected_not_truncated() {
    let program = Program {
        functions: vec![int_fn(
            "main",
            &[],
            vec![ret(call("f", vec![num(1), num(2), num(3)]))],
        )],
    };
    match compile(&program, TargetOs::Linux) {
        Err(CompileError::UnsupportedConstruct { .. }) => {}
        other => panic!("expected an unsupported-construct failure, got {:?}", other),
    }
}

#[test]
fn local_variable_exits_with_its_value_plus_one() {
    let program = Program {
        functions: vec![int_fn(
            "main",
            &[],
            vec![
                Statement::VariableDefinition {
                    ty: Type::Int,
                    name: "x".to_string(),
                    value: Box::new(num(4)),
                },
                ret(add(ident("x"), num(1))),
            ],
        )],
    };
    let compiled = compile_ok(&program);
    assert_eq!(run(compiled.instructions(), "main"), 5);
}

#[test]
fn local_variable_and_temporary_use_distinct_slots() {
    let program = Program {
        functions: vec![int_fn(
            "main",
            &[],
            vec![
                Statement::VariableDefinition {
                    ty: Type::Int,
                    name: "x".to_string(),
                    value: Box::new(num(4)),
                },
                ret(add(ident("x"), num(1))),
            ],
        )],
    };
    let compiled = compile_ok(&program);
    let lines = texts(&compiled);
    // `x` lives at -4; the addition's temporary at -8, never at -4
    assert!(lines.contains(&"mov dword [rbp -4], 4".to_string()));
    assert!(lines.contains(&"mov [rbp -8], eax".to_string()));
    assert!(!lines.contains(&"mov [rbp -4], eax".to_string()));
}

#[test]
fn exit_status_is_truncated_to_eight_bits() {
    let program = Program { functions: vec![int_fn("main", &[], vec![ret(num(300))])] };
    let compiled = compile_ok(&program);
    assert_eq!(run(compiled.instructions(), "main"), 300 & 0xff);
}

#[test]
fn shadowed_local_resolves_to_the_inner_binding() {
    let program = Program {
        functions: vec![int_fn(
            "main",
            &[],
            vec![
                Statement::VariableDefinition {
                    ty: Type::Int,
                    name: "x".to_string(),
                    value: Box::new(num(1)),
                },
                Statement::VariableDefinition {
                    ty: Type::Int,
                    name: "x".to_string(),
                    value: Box::new(num(2)),
                },
                ret(ident("x")),
            ],
        )],
    };
    let compiled = compile_ok(&program);
    assert_eq!(run(compiled.instructions(), "main"), 2);
}

#[test]
fn compiling_twice_yields_identical_streams() {
    let program = Program {
        functions: vec![
            int_fn("add", &["a", "b"], vec![ret(add(ident("a"), ident("b")))]),
            int_fn("main", &[], vec![ret(call("add", vec![num(2), num(40)]))]),
        ],
    };
    let first = compile_ok(&program);
    let second = compile_ok(&program);
    assert_eq!(texts(&first), texts(&second));
    assert_eq!(first.string_literals(), second.string_literals());
}

#[test]
fn declaration_without_body_generates_nothing() {
    let declaration = FunctionDefinition {
        return_type: Type::Int,
        name: "putchar".to_string(),
        parameters: vec![u_cc::ast::FunctionParameter { ty: Type::Int, name: "c".to_string() }],
        body: None,
    };
    let program = Program {
        functions: vec![declaration, int_fn("main", &[], vec![ret(num(0))])],
    };
    let compiled = compile_ok(&program);
    let lines = texts(&compiled);
    assert!(!lines.contains(&"putchar:".to_string()));
    assert_eq!(lines[0], "main:");
}

#[test]
fn main_label_is_remapped_per_platform() {
    let program = Program { functions: vec![int_fn("main", &[], vec![ret(num(0))])] };
    let linux = compile(&program, TargetOs::Linux).unwrap();
    let macos = compile(&program, TargetOs::MacOs).unwrap();
    assert_eq!(texts(&linux)[0], "main:");
    assert_eq!(texts(&macos)[0], "_main:");
}
