//! The literal pool's deterministic labelling and the ordered text
//! output: global line, data section, code section, and the names of
//! called-but-undefined routines.

use u_cc::ast::{Expr, FunctionCall, FunctionDefinition, Program, Statement, Type};
use u_cc::compiler::{compile, Compiler};
use u_cc::output::{code_lines, data_lines, global_line, undefined_called_names};
use u_cc::platform::TargetOs;

#[test]
fn literal_registration_is_sequential_without_deduplication() {
    let mut compiler = Compiler::new();
    assert_eq!(compiler.register_literal("a".to_string()), "LC0");
    assert_eq!(compiler.register_literal("b".to_string()), "LC1");
    assert_eq!(compiler.register_literal("a".to_string()), "LC2");
    assert_eq!(compiler.string_literals(), &vec!["a".to_string(), "b".to_string(), "a".to_string()]);
}

fn program_with_string() -> Program {
    // int main() { puts("hi"); return 0; }
    Program {
        functions: vec![FunctionDefinition {
            return_type: Type::Int,
            name: "main".to_string(),
            parameters: vec![],
            body: Some(vec![
                Statement::Expr(Box::new(Expr::FunctionCall(FunctionCall {
                    name: "puts".to_string(),
                    arguments: vec![Box::new(Expr::RawString("hi".to_string()))],
                }))),
                Statement::Return(Box::new(Expr::Number(0))),
            ]),
        }],
    }
}

#[test]
fn string_literals_land_in_the_data_section() {
    let compiled = compile(&program_with_string(), TargetOs::Linux).unwrap();
    assert_eq!(compiled.string_literals(), &vec!["hi".to_string()]);
    assert_eq!(data_lines(&compiled), vec!["section .data", "LC0: db \"hi\""]);
}

#[test]
fn string_literal_operand_is_position_independent() {
    let compiled = compile(&program_with_string(), TargetOs::Linux).unwrap();
    let lines: Vec<String> = compiled.instructions().iter().map(|i| i.to_text()).collect();
    assert!(lines.contains(&"mov edi, [rel LC0]".to_string()));
}

#[test]
fn empty_pool_yields_no_data_section() {
    let program = Program {
        functions: vec![FunctionDefinition {
            return_type: Type::Int,
            name: "main".to_string(),
            parameters: vec![],
            body: Some(vec![Statement::Return(Box::new(Expr::Number(0)))]),
        }],
    };
    let compiled = compile(&program, TargetOs::Linux).unwrap();
    assert_eq!(data_lines(&compiled), Vec::<String>::new());
}

#[test]
fn global_line_names_the_platform_entry_symbol() {
    assert_eq!(global_line(TargetOs::Linux), "global main");
    assert_eq!(global_line(TargetOs::MacOs), "global _main");
}

#[test]
fn code_lines_start_with_the_text_section_header() {
    let compiled = compile(&program_with_string(), TargetOs::Linux).unwrap();
    let lines = code_lines(&compiled);
    assert_eq!(lines[0], "section .text");
    assert_eq!(lines[1], "main:");
    assert_eq!(lines.len(), compiled.instructions().len() + 1);
}

#[test]
fn called_but_undefined_routines_are_reported_once_in_call_order() {
    let compiled = compile(&program_with_string(), TargetOs::Linux).unwrap();
    assert_eq!(undefined_called_names(&compiled), vec!["puts"]);
}

#[test]
fn defined_routines_are_not_reported_as_undefined() {
    let program = Program {
        functions: vec![
            FunctionDefinition {
                return_type: Type::Int,
                name: "helper".to_string(),
                parameters: vec![],
                body: Some(vec![Statement::Return(Box::new(Expr::Number(1)))]),
            },
            FunctionDefinition {
                return_type: Type::Int,
                name: "main".to_string(),
                parameters: vec![],
                body: Some(vec![Statement::Return(Box::new(Expr::FunctionCall(
                    FunctionCall { name: "helper".to_string(), arguments: vec![] },
                )))]),
            },
        ],
    };
    let compiled = compile(&program, TargetOs::Linux).unwrap();
    assert_eq!(undefined_called_names(&compiled), Vec::<String>::new());
}

#[test]
fn platform_selector_spells_the_entry_symbol() {
    assert_eq!(u_cc::platform::main_symbol(TargetOs::Linux), "main");
    assert_eq!(u_cc::platform::main_symbol(TargetOs::MacOs), "_main");
}
