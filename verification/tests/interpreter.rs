use wasm_vm::interpreter::{EvaluationStatus, Interpreter};
use wasm_vm::module::{
    BlockType, DecodedModule, Export, ExportDesc, FuncBody, FuncType, Instr, Locals,
};
use wasm_vm::store::Store;
use wasm_vm::values::{v, Num, Ref, RefType, Val, ValTy};

fn single_function_module(
    name: &str,
    params: Vec<ValTy>,
    results: Vec<ValTy>,
    locals: Vec<Locals>,
    expr: Vec<Instr>,
) -> DecodedModule {
    DecodedModule {
        types: Some(vec![FuncType { params, results }]),
        functions: Some(vec![0]),
        code: Some(vec![FuncBody { locals, expr }]),
        exports: Some(vec![Export { name: String::from(name), desc: ExportDesc::Func(0) }]),
    }
}

#[test]
fn adder_simple() {
    let module = single_function_module(
        "add",
        vec![ValTy::I32, ValTy::I32],
        vec![ValTy::I32],
        vec![],
        vec![Instr::LocalGet(0), Instr::LocalGet(1), Instr::I32Add, Instr::End],
    );

    let store = Store::new(module);
    let mut interpreter = Interpreter::new(&store);

    let values = interpreter
        .run("add", vec![41_i32.into(), 1_i32.into()])
        .unwrap();

    assert_eq!(values, EvaluationStatus::Value(vec![42_i32.into()]));
}

#[test]
fn function_call() {
    let sig = FuncType {
        params: vec![ValTy::I32, ValTy::I32],
        results: vec![ValTy::I32],
    };
    let module = DecodedModule {
        types: Some(vec![sig]),
        functions: Some(vec![0, 0]),
        code: Some(vec![
            // add_inner
            FuncBody {
                locals: vec![],
                expr: vec![Instr::LocalGet(0), Instr::LocalGet(1), Instr::I32Add, Instr::End],
            },
            // add: forwards both arguments to add_inner
            FuncBody {
                locals: vec![],
                expr: vec![Instr::LocalGet(0), Instr::LocalGet(1), Instr::Call(0), Instr::End],
            },
        ]),
        exports: Some(vec![Export { name: String::from("add"), desc: ExportDesc::Func(1) }]),
    };

    let store = Store::new(module);
    let mut interpreter = Interpreter::new(&store);

    let values = interpreter
        .run("add", vec![41_i32.into(), 1_i32.into()])
        .unwrap();

    assert_eq!(values, EvaluationStatus::Value(vec![42_i32.into()]));
}

#[test]
fn recursive_fib() {
    // fib(n) = n < 2 ? n : fib(n - 1) + fib(n - 2)
    let module = single_function_module(
        "fib",
        vec![ValTy::I32],
        vec![ValTy::I32],
        vec![],
        vec![
            Instr::LocalGet(0),
            Instr::I32Const(2),
            Instr::I32LtU,
            Instr::IfStart(BlockType::Value(ValTy::I32)),
            Instr::LocalGet(0),
            Instr::IfElse,
            Instr::LocalGet(0),
            Instr::I32Const(1),
            Instr::I32Sub,
            Instr::Call(0),
            Instr::LocalGet(0),
            Instr::I32Const(2),
            Instr::I32Sub,
            Instr::Call(0),
            Instr::I32Add,
            Instr::End,
            Instr::End,
        ],
    );

    let store = Store::new(module);
    let mut interpreter = Interpreter::new(&store);

    let values = interpreter.run("fib", vec![10_i32.into()]).unwrap();

    assert_eq!(values, EvaluationStatus::Value(vec![55_i32.into()]));
}

#[test]
fn add_simple() {
    let module = single_function_module(
        "add",
        vec![ValTy::I32, ValTy::I32],
        vec![ValTy::I32],
        vec![],
        vec![Instr::LocalGet(0), Instr::LocalGet(1), Instr::I32Add, Instr::End],
    );

    let store = Store::new(module);
    let mut interpreter = Interpreter::new(&store);

    let values = interpreter.run("add", vec![v(41_i32), v(1_i32)]).unwrap();

    assert_eq!(values, EvaluationStatus::Value(vec![v(42_i32)]));
}

#[test]
fn local_set_roundtrip() {
    // Writes the parameter into a declared local slot, reads it back.
    let module = single_function_module(
        "copy",
        vec![ValTy::I32],
        vec![ValTy::I32],
        vec![Locals { repeat: 1, ty: ValTy::I32 }],
        vec![Instr::LocalGet(0), Instr::LocalSet(1), Instr::LocalGet(1), Instr::End],
    );

    let store = Store::new(module);
    let mut interpreter = Interpreter::new(&store);

    let values = interpreter.run("copy", vec![v(7_i32)]).unwrap();

    assert_eq!(values, EvaluationStatus::Value(vec![v(7_i32)]));
}

#[test]
fn no_stack_leakage_on_fall_through() {
    // The then-branch leaves two extra values below its single declared
    // result and falls through to the end without an explicit return: the
    // result is still exactly one value.
    let module = single_function_module(
        "leaky",
        vec![],
        vec![ValTy::I32],
        vec![],
        vec![
            Instr::I32Const(1),
            Instr::IfStart(BlockType::Value(ValTy::I32)),
            Instr::I32Const(10),
            Instr::I32Const(20),
            Instr::I32Const(30),
            Instr::End,
            Instr::End,
        ],
    );

    let store = Store::new(module);
    let mut interpreter = Interpreter::new(&store);

    let values = interpreter.run("leaky", vec![]).unwrap();

    assert_eq!(values, EvaluationStatus::Value(vec![v(30_i32)]));
}

#[test]
fn explicit_return_discards_extra_stack() {
    let module = single_function_module(
        "ret",
        vec![],
        vec![ValTy::I32],
        vec![],
        vec![
            Instr::I32Const(1),
            Instr::I32Const(2),
            Instr::I32Const(3),
            Instr::Return,
            Instr::I32Const(9),
            Instr::End,
        ],
    );

    let store = Store::new(module);
    let mut interpreter = Interpreter::new(&store);

    let values = interpreter.run("ret", vec![]).unwrap();

    assert_eq!(values, EvaluationStatus::Value(vec![v(3_i32)]));
}

#[test]
fn nested_if_scans_to_outer_else() {
    // With a false outer condition the forward scan must find the outer
    // else, skipping the whole nested if construct (its else included).
    let expr = vec![
        Instr::LocalGet(0),
        Instr::IfStart(BlockType::Value(ValTy::I32)),
        Instr::I32Const(1),
        Instr::IfStart(BlockType::Value(ValTy::I32)),
        Instr::I32Const(10),
        Instr::IfElse,
        Instr::I32Const(11),
        Instr::End,
        Instr::IfElse,
        Instr::I32Const(99),
        Instr::End,
        Instr::End,
    ];
    let module = single_function_module(
        "pick",
        vec![ValTy::I32],
        vec![ValTy::I32],
        vec![],
        expr,
    );

    let store = Store::new(module);
    let mut interpreter = Interpreter::new(&store);

    let values = interpreter.run("pick", vec![v(0_i32)]).unwrap();
    assert_eq!(values, EvaluationStatus::Value(vec![v(99_i32)]));

    let values = interpreter.run("pick", vec![v(1_i32)]).unwrap();
    assert_eq!(values, EvaluationStatus::Value(vec![v(10_i32)]));
}

#[test]
fn lt_u_compares_unsigned() {
    // -1 as unsigned is the largest 32-bit value, so -1 < 1 must be false
    // and 1 < -1 must be true under unsigned comparison.
    let module = single_function_module(
        "ltu",
        vec![ValTy::I32, ValTy::I32],
        vec![ValTy::I32],
        vec![],
        vec![Instr::LocalGet(0), Instr::LocalGet(1), Instr::I32LtU, Instr::End],
    );

    let store = Store::new(module);
    let mut interpreter = Interpreter::new(&store);

    let values = interpreter.run("ltu", vec![v(-1_i32), v(1_i32)]).unwrap();
    assert_eq!(values, EvaluationStatus::Value(vec![v(0_i32)]));

    let values = interpreter.run("ltu", vec![v(1_i32), v(-1_i32)]).unwrap();
    assert_eq!(values, EvaluationStatus::Value(vec![v(1_i32)]));
}

#[test]
fn add_wraps_around() {
    let module = single_function_module(
        "add",
        vec![ValTy::I32, ValTy::I32],
        vec![ValTy::I32],
        vec![],
        vec![Instr::LocalGet(0), Instr::LocalGet(1), Instr::I32Add, Instr::End],
    );

    let store = Store::new(module);
    let mut interpreter = Interpreter::new(&store);

    let values = interpreter
        .run("add", vec![v(i32::MAX), v(1_i32)])
        .unwrap();
    assert_eq!(values, EvaluationStatus::Value(vec![v(i32::MIN)]));
}

#[test]
fn missing_export_is_an_error() {
    let module = single_function_module(
        "add",
        vec![ValTy::I32, ValTy::I32],
        vec![ValTy::I32],
        vec![],
        vec![Instr::LocalGet(0), Instr::LocalGet(1), Instr::I32Add, Instr::End],
    );

    let store = Store::new(module);
    let mut interpreter = Interpreter::new(&store);

    assert!(interpreter.run("mul", vec![v(2_i32), v(3_i32)]).is_err());
}

#[test]
fn non_function_export_is_an_error() {
    let mut module = single_function_module(
        "add",
        vec![ValTy::I32, ValTy::I32],
        vec![ValTy::I32],
        vec![],
        vec![Instr::LocalGet(0), Instr::LocalGet(1), Instr::I32Add, Instr::End],
    );
    module.exports = Some(vec![Export {
        name: String::from("add"),
        desc: ExportDesc::Mem(0),
    }]);

    let store = Store::new(module);
    let mut interpreter = Interpreter::new(&store);

    assert!(interpreter.run("add", vec![v(41_i32), v(1_i32)]).is_err());
}

#[test]
fn wrong_argument_count_is_an_error() {
    let module = single_function_module(
        "add",
        vec![ValTy::I32, ValTy::I32],
        vec![ValTy::I32],
        vec![],
        vec![Instr::LocalGet(0), Instr::LocalGet(1), Instr::I32Add, Instr::End],
    );

    let store = Store::new(module);
    let mut interpreter = Interpreter::new(&store);

    assert!(interpreter.run("add", vec![v(41_i32)]).is_err());
}

#[test]
fn unsupported_instruction_is_an_error() {
    let module = single_function_module(
        "odd",
        vec![],
        vec![],
        vec![],
        vec![Instr::Unsupported, Instr::End],
    );

    let store = Store::new(module);
    let mut interpreter = Interpreter::new(&store);

    assert!(interpreter.run("odd", vec![]).is_err());
}

#[test]
fn out_of_range_export_id_is_an_error() {
    let mut module = single_function_module(
        "add",
        vec![ValTy::I32, ValTy::I32],
        vec![ValTy::I32],
        vec![],
        vec![Instr::LocalGet(0), Instr::LocalGet(1), Instr::I32Add, Instr::End],
    );
    module.exports = Some(vec![Export {
        name: String::from("add"),
        desc: ExportDesc::Func(7),
    }]);

    let store = Store::new(module);
    let mut interpreter = Interpreter::new(&store);

    assert!(interpreter.run("add", vec![v(41_i32), v(1_i32)]).is_err());
}

#[test]
fn repeated_runs_yield_identical_results() {
    let module = single_function_module(
        "fib",
        vec![ValTy::I32],
        vec![ValTy::I32],
        vec![],
        vec![
            Instr::LocalGet(0),
            Instr::I32Const(2),
            Instr::I32LtU,
            Instr::IfStart(BlockType::Value(ValTy::I32)),
            Instr::LocalGet(0),
            Instr::IfElse,
            Instr::LocalGet(0),
            Instr::I32Const(1),
            Instr::I32Sub,
            Instr::Call(0),
            Instr::LocalGet(0),
            Instr::I32Const(2),
            Instr::I32Sub,
            Instr::Call(0),
            Instr::I32Add,
            Instr::End,
            Instr::End,
        ],
    );

    let store = Store::new(module);
    let mut interpreter = Interpreter::new(&store);

    let first = interpreter.run("fib", vec![v(9_i32)]).unwrap();
    let second = interpreter.run("fib", vec![v(9_i32)]).unwrap();
    assert_eq!(first, EvaluationStatus::Value(vec![v(34_i32)]));
    assert_eq!(first, second);

    // A failed run in between does not disturb later ones.
    assert!(interpreter.run("fib", vec![]).is_err());
    let third = interpreter.run("fib", vec![v(9_i32)]).unwrap();
    assert_eq!(third, EvaluationStatus::Value(vec![v(34_i32)]));
}

#[test]
fn store_shared_by_two_interpreters() {
    let module = single_function_module(
        "add",
        vec![ValTy::I32, ValTy::I32],
        vec![ValTy::I32],
        vec![],
        vec![Instr::LocalGet(0), Instr::LocalGet(1), Instr::I32Add, Instr::End],
    );

    let store = Store::new(module);
    let mut a = Interpreter::new(&store);
    let mut b = Interpreter::new(&store);

    let ra = a.run("add", vec![v(2_i32), v(3_i32)]).unwrap();
    let rb = b.run("add", vec![v(2_i32), v(3_i32)]).unwrap();
    assert_eq!(ra, EvaluationStatus::Value(vec![v(5_i32)]));
    assert_eq!(ra, rb);
}

#[test]
fn first_matching_export_wins() {
    let mut module = single_function_module(
        "add",
        vec![ValTy::I32, ValTy::I32],
        vec![ValTy::I32],
        vec![],
        vec![Instr::LocalGet(0), Instr::LocalGet(1), Instr::I32Add, Instr::End],
    );
    // The first export under the name is not a function: the lookup stops
    // there rather than reaching the later function export.
    module.exports = Some(vec![
        Export { name: String::from("add"), desc: ExportDesc::Global(0) },
        Export { name: String::from("add"), desc: ExportDesc::Func(0) },
    ]);

    let store = Store::new(module);
    let mut interpreter = Interpreter::new(&store);

    assert!(interpreter.run("add", vec![v(41_i32), v(1_i32)]).is_err());
}

#[test]
fn declared_locals_start_at_their_defaults() {
    // Reads a declared (never written) local: its default must be zero.
    let module = single_function_module(
        "zero",
        vec![],
        vec![ValTy::I32],
        vec![Locals { repeat: 2, ty: ValTy::I32 }],
        vec![Instr::LocalGet(1), Instr::End],
    );

    let store = Store::new(module);
    let mut interpreter = Interpreter::new(&store);

    let values = interpreter.run("zero", vec![]).unwrap();
    assert_eq!(values, EvaluationStatus::Value(vec![v(0_i32)]));
}

#[test]
fn value_defaults() {
    assert_eq!(Val::default(&ValTy::I32), Val::Num(Num::I32(0)));
    assert_eq!(Val::default(&ValTy::I64), Val::Num(Num::I64(0)));
    assert_eq!(Val::default(&ValTy::F32), Val::Num(Num::F32(0)));
    assert_eq!(Val::default(&ValTy::F64), Val::Num(Num::F64(0)));
    assert_eq!(
        Val::default(&ValTy::Ref(RefType::FuncRef)),
        Val::Ref(Ref::Null(RefType::FuncRef))
    );
}

#[test]
fn value_shorthand_constructor() {
    assert_eq!(v(41_i32), Val::Num(Num::I32(41)));
    assert_eq!(v(41_i64), Val::Num(Num::I64(41)));
}
