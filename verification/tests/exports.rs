use export_matcher::ast::{CallExpr, Callee, Declarator, Init, Module, Pattern, TopLevelItem, VarDecl};
use export_matcher::matcher::match_exports;
use export_matcher::parse::parse_module_text;
use export_matcher::render::render;
use export_matcher::{find_exports, try_find_exports, Found};

fn run_test(source: &str, callees: &[&str], expected: &[&str]) {
    let result = find_exports(source, callees.iter().map(|x| x.to_string()).collect());
    assert_eq!(result, expected);
}

#[test]
fn support_pure_javascript() {
    run_test(
        r#"
      export const one = loader$(() => { return true; });
      export let two = action$(() => { return false; });
      export var the = loader$(() => { return false; });

      // below may works, but will not match
      const none = loader$(() => {}); export { none };
      export const none = (0, loader$)(() => {});
      export const [none = loader$(() => {})] = [];
      "#,
        &["loader$", "action$"],
        &["loader$/one", "action$/two", "loader$/the"],
    );
}

#[test]
fn support_typescript() {
    run_test(
        r#"
      export const one: Loader = loader$<T>(() => { return true; });
      export const two: Action = action$<{ name: string }>(() => { return false; });
      export const the: {} | null = loader$(() => { return false; });
      "#,
        &["loader$", "action$"],
        &["loader$/one", "action$/two", "loader$/the"],
    );
}

#[test]
fn support_jsx() {
    run_test(
        r#"
      export const one: Loader = loader$<div>(() => { return <div> hello world </div>; });
      export const two: Action = action$(() => { return <span> export const v = loader$() </span>; });
      export const the: {} | null = loader$(() => { return null; });
      "#,
        &["loader$", "action$"],
        &["loader$/one", "action$/two", "loader$/the"],
    );
}

#[test]
fn support_esnext() {
    run_test(
        r#"
      class A { static #foo = 233 };
      class B { static { console.log("block"); } }
      await getMethod(undefined ?? "233");
      "#,
        &["loader$", "action$"],
        &[],
    );
}

#[test]
#[should_panic]
fn invalid_code() {
    run_test(
        r#"
      a7268t612t*^T@&^(!%&^T@^!!R&@^(TR^!@T(*R!TR%)!@&%^(*@&!%(@!)()()())
      "#,
        &["loader$", "action$"],
        &[],
    );
}

#[test]
fn order_is_source_order() {
    run_test(
        "export const one = loader$(() => true); export let two = action$(() => false);",
        &["loader$", "action$"],
        &["loader$/one", "action$/two"],
    );
}

#[test]
fn empty_target_set_matches_nothing() {
    run_test(
        "export const one = loader$(() => true); export let two = action$(() => false);",
        &[],
        &[],
    );
}

#[test]
fn named_export_without_inline_initializer() {
    run_test("const none = loader$(() => {}); export { none };", &["loader$"], &[]);
}

#[test]
fn indirect_call_is_excluded() {
    run_test("export const none = (0, loader$)(() => {});", &["loader$"], &[]);
}

#[test]
fn destructuring_pattern_is_excluded() {
    run_test("export const [a] = [loader$(() => 1)];", &["loader$"], &[]);
    run_test("export const { b } = { b: loader$(() => 1) };", &["loader$"], &[]);
}

#[test]
fn nested_calls_are_not_visited() {
    run_test(
        r#"
      const g = () => loader$(() => 1);
      function h() { return loader$(() => 2); }
      "#,
        &["loader$"],
        &[],
    );
}

#[test]
fn type_annotations_do_not_change_the_result() {
    let plain = find_exports(
        "export const one = loader$(() => true);",
        vec!["loader$".to_string()],
    );
    let annotated = find_exports(
        "export const one: Loader = loader$<T>(() => true);",
        vec!["loader$".to_string()],
    );
    assert_eq!(plain, annotated);
    assert_eq!(plain, vec!["loader$/one".to_string()]);
}

#[test]
fn several_declarators_are_excluded() {
    run_test(
        "export const a = loader$(() => 1), b = action$(() => 2);",
        &["loader$", "action$"],
        &[],
    );
}

#[test]
fn missing_initializer_is_excluded() {
    run_test("export let x;", &["loader$"], &[]);
}

#[test]
fn unlisted_callee_is_excluded() {
    run_test("export const one = other$(() => 1);", &["loader$"], &[]);
}

#[test]
fn member_callee_is_excluded() {
    run_test("export const one = api.loader$(() => 1);", &["loader$"], &[]);
}

#[test]
fn duplicate_names_are_kept_in_order() {
    run_test(
        r#"
      export const a = loader$(() => 1);
      export const b = loader$(() => 2);
      export const a2 = loader$(() => 3);
      "#,
        &["loader$", "loader$"],
        &["loader$/a", "loader$/b", "loader$/a2"],
    );
}

#[test]
fn result_is_a_function_of_the_inputs() {
    let src = "export const one = loader$(() => true); export let two = action$(() => 1);";
    let callees = vec!["loader$".to_string(), "action$".to_string()];
    assert_eq!(find_exports(src, callees.clone()), find_exports(src, callees));
}

#[test]
fn empty_source_matches_nothing() {
    run_test("", &["loader$"], &[]);
}

#[test]
fn try_find_exports_reports_parse_failure() {
    let bad = try_find_exports("a7268t612t*^T@&^(!%", vec!["loader$".to_string()]);
    assert!(bad.is_none());
    let good = try_find_exports(
        "export const one = loader$(() => true);",
        vec!["loader$".to_string()],
    );
    assert_eq!(good, Some(vec!["loader$/one".to_string()]));
}

#[test]
fn parse_module_text_distinguishes_failure() {
    assert!(parse_module_text("][").is_err());
    assert!(parse_module_text("const a = 1;").is_ok());
}

#[test]
fn found_renders_with_slash() {
    let found = Found { callee: "loader$".to_string(), export: "one".to_string() };
    assert_eq!(found.to_string(), "loader$/one");
}

#[test]
fn matcher_on_a_hand_built_module() {
    let module = Module {
        items: vec![
            TopLevelItem::Other,
            TopLevelItem::ExportVar(VarDecl {
                declarators: vec![Declarator {
                    pattern: Pattern::Ident("one".to_string()),
                    init: Some(Init::Call(CallExpr {
                        callee: Callee::Ident("loader$".to_string()),
                    })),
                }],
            }),
            TopLevelItem::ExportVar(VarDecl {
                declarators: vec![Declarator {
                    pattern: Pattern::Destructuring,
                    init: Some(Init::Call(CallExpr {
                        callee: Callee::Ident("loader$".to_string()),
                    })),
                }],
            }),
        ],
    };
    let callees = vec!["loader$".to_string()];
    let found = match_exports(&module, &callees);
    assert_eq!(found.len(), 1);
    assert_eq!(render(&found), vec!["loader$/one".to_string()]);
}
