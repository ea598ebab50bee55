//! Tests of the machine itself: printf rendering, error reporting, the step
//! budget, and extensions run through whole programs.

use llvm_interp::interp::LLVMIRInterpreter;
use llvm_interp::ir::{
    Block, Callee, Error, Function, GInit, Global, Inst, IntOp, Module, Operand, Term, Ty,
};
use llvm_interp::semantics::Outcome;

const FUEL: u64 = 100_000;

fn n(s: &str) -> Vec<u8> {
    s.as_bytes().to_vec()
}

fn local_i32(name: &str) -> Operand {
    Operand::Local { name: n(name), ty: Ty::Int(32) }
}

fn ci32(v: i32) -> Operand {
    Operand::ConstInt { width: 32, val: (v as u32) as u64 }
}

fn cstr(global: &str) -> Operand {
    Operand::ConstStr { global: n(global) }
}

fn str_global(name: &str, text: &[u8]) -> Global {
    let mut bytes = text.to_vec();
    bytes.push(0);
    Global { name: n(name), init: Some(GInit::Bytes(bytes)) }
}

fn printf_call(dest: &str, args: Vec<Operand>) -> Inst {
    Inst::Call { dest: Some(n(dest)), callee: Callee::Name(n("printf")), args }
}

fn one_block_main(instrs: Vec<Inst>, term: Term) -> Function {
    Function {
        name: n("main"),
        params: vec![],
        blocks: vec![Block { name: n("entry"), instrs, term }],
    }
}

fn run(m: Module) -> (Outcome, Vec<u8>) {
    let mut it = LLVMIRInterpreter::new(m);
    let r = it.interpret(FUEL);
    let out = it.output().to_vec();
    (r, out)
}

#[test]
fn printf_without_conversions_is_verbatim() {
    let m = Module {
        functions: vec![one_block_main(
            vec![printf_call("c", vec![cstr(".str")])],
            Term::Ret { val: Some(ci32(0)) },
        )],
        globals: vec![str_global(".str", b"plain text!")],
    };
    let (r, out) = run(m);
    assert_eq!(r, Outcome::Done);
    assert_eq!(out.as_slice(), b"plain text!\n");
}

#[test]
fn printf_renders_a_string_argument() {
    let m = Module {
        functions: vec![one_block_main(
            vec![printf_call("c", vec![cstr(".str"), cstr(".str.1")])],
            Term::Ret { val: Some(ci32(0)) },
        )],
        globals: vec![str_global(".str", b"<%s>"), str_global(".str.1", b"world")],
    };
    let (r, out) = run(m);
    assert_eq!(r, Outcome::Done);
    assert_eq!(out.as_slice(), b"<world>\n");
}

#[test]
fn printf_renders_constant_and_sixty_four_bit_arguments() {
    let m = Module {
        functions: vec![one_block_main(
            vec![printf_call(
                "c",
                vec![
                    cstr(".str"),
                    ci32(-7),
                    Operand::ConstInt { width: 64, val: (-40i64) as u64 },
                ],
            )],
            Term::Ret { val: Some(ci32(0)) },
        )],
        globals: vec![str_global(".str", b"%d %d")],
    };
    let (r, out) = run(m);
    assert_eq!(r, Outcome::Done);
    assert_eq!(out.as_slice(), b"-7 -40\n");
}

#[test]
fn printf_with_exhausted_arguments_is_fatal() {
    let m = Module {
        functions: vec![one_block_main(
            vec![printf_call("c", vec![cstr(".str")])],
            Term::Ret { val: Some(ci32(0)) },
        )],
        globals: vec![str_global(".str", b"%d")],
    };
    let (r, _) = run(m);
    assert_eq!(r, Outcome::Fatal(Error::MalformedPrintf));
}

#[test]
fn printf_with_dangling_percent_is_fatal() {
    // the '%' is the last byte before the NUL: no conversion character
    let m = Module {
        functions: vec![one_block_main(
            vec![printf_call("c", vec![cstr(".str"), ci32(1)])],
            Term::Ret { val: Some(ci32(0)) },
        )],
        globals: vec![Global { name: n(".str"), init: Some(GInit::Bytes(b"x%".to_vec())) }],
    };
    let (r, _) = run(m);
    assert_eq!(r, Outcome::Fatal(Error::MalformedPrintf));
}

#[test]
fn printf_format_must_name_a_string_global() {
    let m = Module {
        functions: vec![one_block_main(
            vec![printf_call("c", vec![ci32(5)])],
            Term::Ret { val: Some(ci32(0)) },
        )],
        globals: vec![],
    };
    let (r, _) = run(m);
    assert_eq!(r, Outcome::Fatal(Error::MalformedPrintf));
}

#[test]
fn missing_main_is_reported() {
    let m = Module { functions: vec![], globals: vec![] };
    let (r, _) = run(m);
    assert_eq!(r, Outcome::Fatal(Error::MissingMain));
}

#[test]
fn uninitialised_global_is_reported() {
    let m = Module {
        functions: vec![one_block_main(vec![], Term::Ret { val: Some(ci32(0)) })],
        globals: vec![Global { name: n("g"), init: None }],
    };
    let (r, _) = run(m);
    assert_eq!(r, Outcome::Fatal(Error::Unsupported));
}

#[test]
fn division_by_zero_is_a_trap() {
    let m = Module {
        functions: vec![one_block_main(
            vec![
                Inst::Alloca { dest: n("x") },
                Inst::Store { addr: local_i32("x"), value: ci32(5) },
                Inst::Load { dest: n("t"), addr: local_i32("x") },
                Inst::IntBin { op: IntOp::SDiv, dest: n("q"), a: local_i32("t"), b: ci32(0) },
            ],
            Term::Ret { val: Some(ci32(0)) },
        )],
        globals: vec![],
    };
    let (r, _) = run(m);
    assert_eq!(r, Outcome::Fatal(Error::ArithmeticTrap));
}

#[test]
fn reading_an_unbound_register_is_fatal() {
    let m = Module {
        functions: vec![one_block_main(
            vec![Inst::Load { dest: n("t"), addr: local_i32("nowhere") }],
            Term::Ret { val: Some(ci32(0)) },
        )],
        globals: vec![],
    };
    let (r, _) = run(m);
    assert_eq!(r, Outcome::Fatal(Error::UndefinedValue));
}

#[test]
fn a_branch_condition_outside_zero_one_is_fatal() {
    let m = Module {
        functions: vec![Function {
            name: n("main"),
            params: vec![],
            blocks: vec![
                Block {
                    name: n("entry"),
                    instrs: vec![
                        Inst::Alloca { dest: n("c") },
                        Inst::Store { addr: local_i32("c"), value: ci32(5) },
                        Inst::Load { dest: n("t"), addr: local_i32("c") },
                    ],
                    term: Term::CondBr {
                        cond: local_i32("t"),
                        then_dest: n("end"),
                        else_dest: n("end"),
                    },
                },
                Block { name: n("end"), instrs: vec![], term: Term::Ret { val: Some(ci32(0)) } },
            ],
        }],
        globals: vec![],
    };
    let (r, _) = run(m);
    assert_eq!(r, Outcome::Fatal(Error::BadBranchCondition));
}

#[test]
fn calling_an_unknown_external_is_fatal() {
    let m = Module {
        functions: vec![one_block_main(
            vec![Inst::Call { dest: None, callee: Callee::Name(n("puts")), args: vec![] }],
            Term::Ret { val: Some(ci32(0)) },
        )],
        globals: vec![],
    };
    let (r, _) = run(m);
    assert_eq!(r, Outcome::Fatal(Error::Unsupported));
}

#[test]
fn an_unsupported_instruction_is_fatal() {
    let m = Module {
        functions: vec![one_block_main(
            vec![Inst::Unsupported],
            Term::Ret { val: Some(ci32(0)) },
        )],
        globals: vec![],
    };
    let (r, _) = run(m);
    assert_eq!(r, Outcome::Fatal(Error::Unsupported));
}

#[test]
fn copying_a_register_through_store_keeps_its_value() {
    // store x, 5; store y, x; print y
    let m = Module {
        functions: vec![one_block_main(
            vec![
                Inst::Alloca { dest: n("x") },
                Inst::Store { addr: local_i32("x"), value: ci32(5) },
                Inst::Alloca { dest: n("y") },
                Inst::Store { addr: local_i32("y"), value: local_i32("x") },
                Inst::Load { dest: n("t"), addr: local_i32("y") },
                printf_call("c", vec![cstr(".str"), local_i32("t")]),
            ],
            Term::Ret { val: Some(ci32(0)) },
        )],
        globals: vec![str_global(".str", b"%d")],
    };
    let (r, out) = run(m);
    assert_eq!(r, Outcome::Done);
    assert_eq!(out.as_slice(), b"5\n");
}

#[test]
fn extra_parameters_without_arguments_stay_unbound() {
    // f(a, b) called with one argument; reading b is an undefined read
    let f = Function {
        name: n("f"),
        params: vec![n("a"), n("b")],
        blocks: vec![Block {
            name: n("entry"),
            instrs: vec![Inst::IntBin {
                op: IntOp::Add,
                dest: n("r"),
                a: local_i32("a"),
                b: local_i32("b"),
            }],
            term: Term::Ret { val: Some(local_i32("r")) },
        }],
    };
    let main_fn = one_block_main(
        vec![Inst::Call {
            dest: Some(n("c")),
            callee: Callee::Name(n("f")),
            args: vec![ci32(1)],
        }],
        Term::Ret { val: Some(ci32(0)) },
    );
    let m = Module { functions: vec![f, main_fn], globals: vec![] };
    let (r, _) = run(m);
    assert_eq!(r, Outcome::Fatal(Error::UndefinedValue));
}

#[test]
fn a_loop_outlives_a_small_budget_and_finishes_later() {
    // a self-branching block never blocks, however much budget it is given;
    // a straight-line program finishes within its budget instead
    let spin = Module {
        functions: vec![Function {
            name: n("main"),
            params: vec![],
            blocks: vec![Block {
                name: n("entry"),
                instrs: vec![],
                term: Term::Br { target: n("entry") },
            }],
        }],
        globals: vec![],
    };
    let mut it = LLVMIRInterpreter::new(spin);
    let r = it.interpret(50);
    assert_eq!(r, Outcome::Working);
    let r2 = it.run_more(50);
    assert_eq!(r2, Outcome::Working);

    let quick = Module {
        functions: vec![one_block_main(vec![], Term::Ret { val: None })],
        globals: vec![],
    };
    let mut it2 = LLVMIRInterpreter::new(quick);
    assert_eq!(it2.interpret(10), Outcome::Done);
}

#[test]
fn sign_extension_through_the_machine() {
    // sext i8 -> i32 of 0x80 then printed as %d gives -128
    let m = Module {
        functions: vec![one_block_main(
            vec![
                Inst::Alloca { dest: n("x") },
                Inst::Store {
                    addr: Operand::Local { name: n("x"), ty: Ty::Int(8) },
                    value: Operand::ConstInt { width: 8, val: 0x80 },
                },
                Inst::Load { dest: n("t"), addr: Operand::Local { name: n("x"), ty: Ty::Int(8) } },
                Inst::Sext {
                    dest: n("w"),
                    src: Operand::Local { name: n("t"), ty: Ty::Int(8) },
                    to_ty: Ty::Int(32),
                },
                printf_call("c", vec![cstr(".str"), local_i32("w")]),
            ],
            Term::Ret { val: Some(ci32(0)) },
        )],
        globals: vec![str_global(".str", b"%d")],
    };
    let (r, out) = run(m);
    assert_eq!(r, Outcome::Done);
    assert_eq!(out.as_slice(), b"-128\n");
}

#[test]
fn zero_extension_through_the_machine() {
    // zext i8 -> i32 of 0x80 then printed as %d gives 128
    let m = Module {
        functions: vec![one_block_main(
            vec![
                Inst::Alloca { dest: n("x") },
                Inst::Store {
                    addr: Operand::Local { name: n("x"), ty: Ty::Int(8) },
                    value: Operand::ConstInt { width: 8, val: 0x80 },
                },
                Inst::Load { dest: n("t"), addr: Operand::Local { name: n("x"), ty: Ty::Int(8) } },
                Inst::Zext {
                    dest: n("w"),
                    src: Operand::Local { name: n("t"), ty: Ty::Int(8) },
                    to_ty: Ty::Int(32),
                },
                printf_call("c", vec![cstr(".str"), local_i32("w")]),
            ],
            Term::Ret { val: Some(ci32(0)) },
        )],
        globals: vec![str_global(".str", b"%d")],
    };
    let (r, out) = run(m);
    assert_eq!(r, Outcome::Done);
    assert_eq!(out.as_slice(), b"128\n");
}

#[test]
fn a_finished_machine_stays_finished() {
    let m = Module {
        functions: vec![one_block_main(
            vec![printf_call("c", vec![cstr(".str")])],
            Term::Ret { val: Some(ci32(0)) },
        )],
        globals: vec![str_global(".str", b"once")],
    };
    let mut it = LLVMIRInterpreter::new(m);
    assert_eq!(it.interpret(FUEL), Outcome::Done);
    assert_eq!(it.run_more(FUEL), Outcome::Done);
    assert_eq!(it.output().as_slice(), b"once\n");
}

#[test]
fn float_extension_goes_to_the_host() {
    // float a=1.5f; double d=a; printf("%f", d);
    let lf = |s: &str| Operand::Local { name: n(s), ty: Ty::Single };
    let ld = |s: &str| Operand::Local { name: n(s), ty: Ty::Double };
    let m = Module {
        functions: vec![one_block_main(
            vec![
                Inst::Alloca { dest: n("a") },
                Inst::Store {
                    addr: lf("a"),
                    value: Operand::ConstSingle { bits: (1.5f32).to_bits() },
                },
                Inst::Load { dest: n("t"), addr: lf("a") },
                Inst::Fpext { dest: n("d"), src: lf("t"), to_ty: Ty::Double },
                printf_call("c", vec![cstr(".str"), ld("d")]),
            ],
            Term::Ret { val: Some(ci32(0)) },
        )],
        globals: vec![str_global(".str", b"%f")],
    };
    let mut it = LLVMIRInterpreter::new(m);
    let r = it.interpret(FUEL);
    match r {
        Outcome::FloatExt { a } => {
            let widened = f32::from_bits(a) as f64;
            assert_eq!(widened, 1.5f64);
            let r2 = it.resume_float(widened.to_bits(), FUEL);
            match r2 {
                Outcome::FloatText { wide, bits } => {
                    assert!(wide);
                    let text = format!("{}", f64::from_bits(bits));
                    assert_eq!(it.resume_text(text.into_bytes(), FUEL), Outcome::Done);
                },
                other => panic!("expected a text request, got {:?}", other),
            }
        },
        other => panic!("expected an extension request, got {:?}", other),
    }
    assert_eq!(it.output().as_slice(), b"1.5\n");
}

#[test]
fn single_precision_float_goes_to_the_host() {
    // float a=1.5f; float b=0.25f; a+b printed with %f
    let fa = Operand::ConstSingle { bits: (1.5f32).to_bits() };
    let fb = Operand::ConstSingle { bits: (0.25f32).to_bits() };
    let lf = |s: &str| Operand::Local { name: n(s), ty: Ty::Single };
    let m = Module {
        functions: vec![one_block_main(
            vec![
                Inst::Alloca { dest: n("a") },
                Inst::Store { addr: lf("a"), value: fa },
                Inst::Alloca { dest: n("b") },
                Inst::Store { addr: lf("b"), value: fb },
                Inst::Load { dest: n("t1"), addr: lf("a") },
                Inst::Load { dest: n("t2"), addr: lf("b") },
                Inst::FloatBin {
                    op: llvm_interp::ir::FloatOp::Add,
                    dest: n("s"),
                    a: lf("t1"),
                    b: lf("t2"),
                },
                printf_call("c", vec![cstr(".str"), lf("s")]),
            ],
            Term::Ret { val: Some(ci32(0)) },
        )],
        globals: vec![str_global(".str", b"%f")],
    };
    let mut it = LLVMIRInterpreter::new(m);
    let r = it.interpret(FUEL);
    match r {
        Outcome::FloatBin { op: _op, wide, a, b } => {
            assert!(!wide);
            let sum = f32::from_bits(a as u32) + f32::from_bits(b as u32);
            assert_eq!(sum, 1.75f32);
            let r2 = it.resume_float(sum.to_bits() as u64, FUEL);
            match r2 {
                Outcome::FloatText { wide, bits } => {
                    assert!(!wide);
                    let text = format!("{}", f32::from_bits(bits as u32));
                    let r3 = it.resume_text(text.into_bytes(), FUEL);
                    assert_eq!(r3, Outcome::Done);
                },
                other => panic!("expected a text request, got {:?}", other),
            }
        },
        other => panic!("expected a float request, got {:?}", other),
    }
    assert_eq!(it.output().as_slice(), b"1.75\n");
}
