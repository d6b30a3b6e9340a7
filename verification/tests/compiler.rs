use stoffel_rust_sdk::compiler::{finish_compilation, Compiler, OptimizationLevel};
use stoffel_rust_sdk::error::Error;
use stoffel_rust_sdk::Stoffel;

#[test]
fn test_compile_clientstore_take_share() {
    let source = r#"
def main() -> secret int64:
  var a: secret int64 = ClientStore.take_share(0, 0)
  return a
        "#;
    let compiler = Compiler::new();
    let result = compiler.compile_source(source);
    assert!(result.is_ok(), "ClientStore.take_share() should compile: {:?}", result.err());
    let bytecode = result.unwrap();
    assert!(!bytecode.is_empty(), "Bytecode should not be empty");
}

#[test]
fn test_compile_clientstore_multiple_inputs() {
    let source = r#"
def main() -> secret int64:
  var a: secret int64 = ClientStore.take_share(0, 0)
  var b: secret int64 = ClientStore.take_share(0, 1)
  var c: secret int64 = ClientStore.take_share(0, 2)
  return a + b + c
        "#;
    let compiler = Compiler::new();
    let result = compiler.compile_source(source);
    assert!(result.is_ok(), "Multiple ClientStore inputs should compile: {:?}", result.err());
}

#[test]
fn test_compile_secret_addition() {
    let source = r#"
def main() -> secret int64:
  var a: secret int64 = ClientStore.take_share(0, 0)
  var b: secret int64 = ClientStore.take_share(0, 1)
  return a + b
        "#;
    let compiler = Compiler::new();
    let result = compiler.compile_source(source);
    assert!(result.is_ok(), "Secret addition should compile: {:?}", result.err());
}

#[test]
fn test_compile_simple_program() {
    let source = "def main() -> int64:\n  return 42\n";
    let compiler = Compiler::new();
    let result = compiler.compile_source(source);
    assert!(result.is_ok(), "Simple program should compile: {:?}", result.err());
}

#[test]
fn test_compile_with_optimization() {
    let source = "def main() -> int64:\n  return 42\n";
    let compiler = Compiler::new().optimization_level(OptimizationLevel::O2);
    let result = compiler.compile_source(source);
    assert!(result.is_ok(), "Optimized compilation should succeed");
}

#[test]
fn test_compiler_default() {
    let compiler = Compiler::default();
    let source = "def main() -> int64:\n  return 1\n";
    let result = compiler.compile_source(source);
    assert!(result.is_ok(), "Default compiler should work");
}

#[test]
fn test_compile_invalid_syntax() {
    let source = "this is not valid stoffel code!!!";
    let compiler = Compiler::new();
    let result = compiler.compile_source(source);
    assert!(result.is_err(), "Invalid syntax should produce an error");
    match result.err() {
        Some(Error::Compilation(_)) => {}
        other => panic!("Expected CompilationError, got {:?}", other),
    }
}

#[test]
fn test_compiler_optimize_flag() {
    let compiler = Compiler::new().optimize(true);
    let source = "def main() -> int64:\n  return 42\n";
    let result = compiler.compile_source(source);
    assert!(result.is_ok(), "Optimize flag should not break compilation");
}

#[test]
fn compile_with_ir_gives_note() {
    let source = "def main() -> int64:\n  return 42\n";
    let out = Compiler::new().compile_with_ir(source).unwrap();
    assert!(!out.bytecode.is_empty());
    assert_eq!(out.ir.as_deref(), Some("IR printed to stdout (see console)"));
}

#[test]
fn compiled_program_lists_its_main_function() {
    let source = "def main() -> int64:\n  return 42\n";
    let runtime = Stoffel::compile(source).unwrap().build().unwrap();
    let functions = runtime.program().list_functions().unwrap();
    assert!(functions.iter().any(|f| f.name == "main"));
}

#[test]
fn list_functions_rejects_garbage() {
    let runtime = Stoffel::load(&[1, 2, 3]).build().unwrap();
    match runtime.program().list_functions() {
        Err(Error::Runtime(m)) => assert!(m.starts_with("Failed to load bytecode: ")),
        _ => panic!("expected a runtime error"),
    }
}

#[test]
fn finish_compilation_keeps_bytes_or_reports_failure() {
    assert_eq!(finish_compilation(Ok(vec![1, 2])).unwrap(), vec![1, 2]);
    match finish_compilation(Err("disk full".to_string())) {
        Err(Error::Compilation(m)) => assert_eq!(m, "Failed to serialize binary: disk full"),
        other => panic!("unexpected {:?}", other),
    }
}

#[test]
fn stoffel_from_compiled_takes_the_bytes() {
    let s = Stoffel::from_compiled(Ok(vec![4, 5, 6])).unwrap();
    let rt = s.build().unwrap();
    assert_eq!(rt.program().bytecode(), &[4, 5, 6]);
    assert!(matches!(
        Stoffel::from_compiled(Err(Error::Compilation("bad".to_string()))),
        Err(Error::Compilation(m)) if m == "bad"
    ));
}

#[test]
fn compiler_settings_handed_to_the_compiler() {
    let s = Compiler::new().settings(false);
    assert_eq!(s.filename, "source.stfl");
    assert!(!s.optimize);
    assert_eq!(s.level, 0);
    assert!(!s.print_ir);
    let s = Compiler::new().optimization_level(OptimizationLevel::O3).print_ir(true).settings(true);
    assert!(s.optimize);
    assert_eq!(s.level, 3);
    assert!(s.print_ir);
}
