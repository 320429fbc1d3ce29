use bytecode::annotations::{AnalysisKind, Annotation, Annotations};
use bytecode::bytecode::{Bytecode, Operation, PropKind};
use bytecode::data::{FunctionData, FunctionDataBuilder};
use bytecode::env::{FunctionEnv, GlobalEnv, ModuleEnv, Spec};
use bytecode::ids::Loc;
use bytecode::target::FunctionTarget;
use bytecode::ty::Type;
use std::collections::{BTreeMap, BTreeSet};

fn global() -> GlobalEnv {
    GlobalEnv { condition_infos: vec![] }
}

fn module(env: &GlobalEnv) -> ModuleEnv<'_> {
    ModuleEnv { env, id: 1, name: "M".to_string(), pragmas: vec![] }
}

fn loc(start: usize) -> Loc {
    Loc { file_id: 0, start, end: start + 1 }
}

fn empty_spec() -> Spec {
    Spec { conditions: vec![], on_impl: BTreeMap::new() }
}

fn fun_env<'a>(m: &'a ModuleEnv<'a>, public: bool, names: &[&str], params: usize) -> FunctionEnv<'a> {
    FunctionEnv {
        module_env: m,
        name: "f".to_string(),
        id: 7,
        loc: loc(100),
        native: false,
        intrinsic: false,
        opaque: false,
        public,
        mutating: true,
        type_params: vec![],
        parameter_count: params,
        local_names: names.iter().map(|s| s.to_string()).collect(),
        spec: empty_spec(),
        modify_targets: BTreeMap::new(),
        pragmas: vec![],
    }
}

fn data_with(env: &FunctionEnv<'_>, code: Vec<Bytecode>, locals: Vec<Type>, rets: Vec<Type>) -> FunctionData {
    FunctionData::new(env, code, locals, rets, BTreeMap::new(), vec![], BTreeMap::new())
}

fn mut_ref() -> Type {
    Type::Reference(true, Box::new(Type::Struct(1, 2)))
}

#[test]
fn next_free_attr_index_of_empty_code_is_one() {
    let g = global();
    let m = module(&g);
    let e = fun_env(&m, false, &[], 0);
    let d = data_with(&e, vec![], vec![], vec![]);
    assert_eq!(d.next_free_attr_index(), 1);
    assert_eq!(d.next_free_label_index(), 1);
}

#[test]
fn next_free_attr_index_exceeds_the_largest_id() {
    let g = global();
    let m = module(&g);
    let e = fun_env(&m, false, &[], 0);
    let code = vec![Bytecode::Nop(3), Bytecode::Label(7, 4), Bytecode::Jump(2, 9), Bytecode::Ret(5, None)];
    let d = data_with(&e, code, vec![], vec![]);
    assert_eq!(d.next_free_attr_index(), 8);
    // only label declarations count; the jump's label 9 does not
    assert_eq!(d.next_free_label_index(), 5);
}

#[test]
fn next_free_label_index_without_labels_is_one() {
    let g = global();
    let m = module(&g);
    let e = fun_env(&m, false, &[], 0);
    let d = data_with(&e, vec![Bytecode::Jump(1, 6), Bytecode::Nop(2)], vec![], vec![]);
    assert_eq!(d.next_free_label_index(), 1);
    assert_eq!(d.next_free_attr_index(), 3);
}

#[test]
fn callees_are_deduplicated() {
    let g = global();
    let m = module(&g);
    let e = fun_env(&m, false, &[], 0);
    let code = vec![
        Bytecode::Call(0, None, Operation::Function(1, 10), None),
        Bytecode::Call(1, Some(0), Operation::Function(2, 20), Some(1)),
        Bytecode::Call(2, None, Operation::Function(1, 10), None),
        Bytecode::Assign(3, 0, 1),
        Bytecode::Call(4, Some(0), Operation::ReadRef, Some(1)),
    ];
    let d = data_with(&e, code, vec![], vec![]);
    let expected: BTreeSet<(usize, usize)> = [(1, 10), (2, 20)].into_iter().collect();
    assert_eq!(d.get_callees(), expected);
}

#[test]
fn rename_vars_rewrites_only_the_proxy_maps() {
    let g = global();
    let m = module(&g);
    let e = fun_env(&m, false, &["x"], 1);
    let code = vec![Bytecode::Assign(0, 1, 0)];
    let mut d = data_with(&e, code.clone(), vec![mut_ref()], vec![]);
    d.param_proxy_map.insert(2, 5);
    d.ref_param_proxy_map.insert(0, 3);
    d.ref_param_return_map.insert(4, 0);
    d.rename_vars(&|i: usize| i + 10);
    assert_eq!(d.param_proxy_map, [(12, 15)].into_iter().collect());
    assert_eq!(d.ref_param_proxy_map, [(10, 13)].into_iter().collect());
    assert_eq!(d.ref_param_return_map, [(4, 0)].into_iter().collect());
    assert_eq!(d.code, code);
    assert_eq!(d.name_to_index, vec![("x".to_string(), 0)]);
}

#[test]
fn clone_drops_annotations() {
    let g = global();
    let m = module(&g);
    let e = fun_env(&m, false, &["x", "y"], 2);
    let mut d = data_with(&e, vec![Bytecode::Nop(1)], vec![mut_ref(), Type::U64], vec![Type::Bool]);
    d.ref_param_proxy_map.insert(0, 2);
    d.locations.insert(1, loc(5));
    let mut facts = BTreeMap::new();
    facts.insert(0, "live: x".to_string());
    d.annotations.set(AnalysisKind::LiveVar, Annotation { facts });
    assert!(d.annotations.has(AnalysisKind::LiveVar));
    let c = d.clone();
    assert!(c.annotations.is_empty());
    assert!(!c.annotations.has(AnalysisKind::LiveVar));
    assert_eq!(c.code, d.code);
    assert_eq!(c.local_types, d.local_types);
    assert_eq!(c.return_types, d.return_types);
    assert_eq!(c.ref_param_proxy_map, d.ref_param_proxy_map);
    assert_eq!(c.locations, d.locations);
    assert_eq!(c.name_to_index, d.name_to_index);
    assert_eq!(d.annotations.len(), 1);
}

#[test]
fn annotations_overwrite_by_kind() {
    let mut a = Annotations::new();
    let mut f1 = BTreeMap::new();
    f1.insert(0, "one".to_string());
    let mut f2 = BTreeMap::new();
    f2.insert(0, "two".to_string());
    a.set(AnalysisKind::Borrow, Annotation { facts: f1 });
    a.set(AnalysisKind::Borrow, Annotation { facts: f2 });
    assert_eq!(a.len(), 1);
    assert_eq!(a.get(AnalysisKind::Borrow).unwrap().fact_at(0), Some(&"two".to_string()));
    assert!(a.get(AnalysisKind::Custom(4)).is_none());
}

#[test]
fn reverse_ref_proxy_lookup_inverts_the_map() {
    let g = global();
    let m = module(&g);
    let e = fun_env(&m, false, &["x", "y"], 2);
    let mut d = data_with(&e, vec![], vec![mut_ref(), mut_ref()], vec![]);
    d.ref_param_proxy_map.insert(0, 3);
    d.ref_param_proxy_map.insert(1, 4);
    let t = FunctionTarget::new(&e, &d);
    assert_eq!(t.get_reverse_ref_proxy_index(3), Some(&0));
    assert_eq!(t.get_reverse_ref_proxy_index(4), Some(&1));
    assert_eq!(t.get_reverse_ref_proxy_index(5), None);
    assert_eq!(t.get_ref_proxy_index(1), Some(&4));
    assert_eq!(t.get_ref_proxy_index(3), None);
}

#[test]
fn reverse_lookup_picks_the_least_key() {
    let g = global();
    let m = module(&g);
    let e = fun_env(&m, false, &[], 0);
    let mut d = data_with(&e, vec![], vec![], vec![]);
    d.ref_param_return_map.insert(6, 1);
    d.ref_param_return_map.insert(3, 1);
    let t = FunctionTarget::new(&e, &d);
    assert_eq!(t.get_input_for_return_index(1), Some(&3));
    assert_eq!(t.get_input_for_return_index(6), None);
}

#[test]
fn private_function_leaves_proxied_param_unchecked() {
    let g = global();
    let m = module(&g);
    let e = fun_env(&m, false, &["x"], 1);
    let mut d = data_with(&e, vec![], vec![mut_ref()], vec![Type::U64]);
    d.ref_param_proxy_map.insert(0, 1);
    let t = FunctionTarget::new(&e, &d);
    assert!(!t.call_ends_lifetime());
    assert!(t.is_unchecked_param(0));
    assert!(!t.is_unchecked_param(1));
}

#[test]
fn public_function_without_reference_returns_checks_params() {
    let g = global();
    let m = module(&g);
    let e = fun_env(&m, true, &["x"], 1);
    let mut d = data_with(&e, vec![], vec![mut_ref()], vec![Type::U64, Type::Bool]);
    d.ref_param_proxy_map.insert(0, 1);
    let t = FunctionTarget::new(&e, &d);
    assert!(t.call_ends_lifetime());
    assert!(!t.is_unchecked_param(0));
}

#[test]
fn public_function_returning_a_reference_leaves_param_unchecked() {
    let g = global();
    let m = module(&g);
    let e = fun_env(&m, true, &["x"], 1);
    let mut d = data_with(&e, vec![], vec![mut_ref()], vec![mut_ref()]);
    d.ref_param_proxy_map.insert(0, 1);
    let t = FunctionTarget::new(&e, &d);
    assert!(!t.call_ends_lifetime());
    assert!(t.is_unchecked_param(0));
}

#[test]
fn local_index_lookup_and_temporary_fallback() {
    let g = global();
    let m = module(&g);
    let e = fun_env(&m, false, &["x", "y"], 2);
    let d = data_with(&e, vec![], vec![mut_ref(), Type::U64, Type::Bool], vec![]);
    let t = FunctionTarget::new(&e, &d);
    assert_eq!(t.get_local_index(&"y".to_string()), Some(1));
    assert_eq!(t.get_local_index(&"$t2".to_string()), Some(2));
    assert_eq!(t.get_local_index(&"$t17".to_string()), Some(17));
    assert_eq!(t.get_local_index(&"$t".to_string()), None);
    assert_eq!(t.get_local_index(&"$t+5".to_string()), Some(5));
    assert_eq!(t.get_local_index(&"$t+".to_string()), None);
    assert_eq!(t.get_local_index(&"$t++5".to_string()), None);
    assert_eq!(t.get_local_index(&"$t-5".to_string()), None);
    assert_eq!(t.get_local_index(&"$t99999999999999999999999".to_string()), None);
    assert_eq!(t.get_local_index(&"$tx".to_string()), None);
    assert_eq!(t.get_local_index(&"z".to_string()), None);
    assert_eq!(t.get_local_name(2), "$t2");
    assert_eq!(t.get_local_name(0), "x");
    assert!(t.is_temporary(2));
    assert!(!t.is_temporary(1));
    assert_eq!(t.get_local_count(), 3);
    assert_eq!(t.get_user_local_count(), 2);
}

#[test]
fn bytecode_loc_falls_back_to_function_loc() {
    let g = global();
    let m = module(&g);
    let e = fun_env(&m, false, &[], 0);
    let mut d = data_with(&e, vec![Bytecode::Nop(1), Bytecode::Nop(2)], vec![], vec![]);
    d.locations.insert(1, loc(5));
    let t = FunctionTarget::new(&e, &d);
    assert_eq!(t.get_bytecode_loc(1), loc(5));
    assert_eq!(t.get_bytecode_loc(2), loc(100));
}

#[test]
fn pragma_precedence_function_then_module_then_default() {
    let g = global();
    let mut m = module(&g);
    m.pragmas = vec![("verify".to_string(), false), ("opaque".to_string(), true)];
    let mut e = fun_env(&m, false, &[], 0);
    e.pragmas = vec![("verify".to_string(), true)];
    let d = data_with(&e, vec![], vec![], vec![]);
    let t = FunctionTarget::new(&e, &d);
    assert!(t.is_pragma_true("verify", || false));
    assert!(t.is_pragma_true("opaque", || false));
    assert!(!t.is_pragma_true("timeout", || false));
    assert!(t.is_pragma_true("timeout", || true));
}

#[test]
fn spec_on_impl_is_resolved_through_the_block_map() {
    let g = global();
    let m = module(&g);
    let mut e = fun_env(&m, false, &[], 0);
    let inner = Spec { conditions: vec!["x > 0".to_string()], on_impl: BTreeMap::new() };
    e.spec.on_impl.insert(4, inner);
    let mut blocks = BTreeMap::new();
    blocks.insert(9, 4);
    let d = FunctionData::new(&e, vec![], vec![], vec![], BTreeMap::new(), vec![], blocks);
    let t = FunctionTarget::new(&e, &d);
    assert_eq!(t.get_spec_on_impl(9).conditions, vec!["x > 0".to_string()]);
}

#[test]
fn end_to_end_record_with_ref_param() {
    let g = global();
    let m = module(&g);
    let e = fun_env(&m, false, &["x", "y"], 2);
    let mut d = data_with(&e, vec![Bytecode::Ret(0, None)], vec![mut_ref(), Type::U64, mut_ref()], vec![Type::Bool]);
    d.ref_param_proxy_map.insert(0, 2);
    d.ref_param_return_map.insert(2, 0);
    let t = FunctionTarget::new(&e, &d);
    assert_eq!(t.get_ref_proxy_index(0), Some(&2));
    assert_ne!(t.get_input_for_return_index(0), Some(&0));
    assert_eq!(t.get_return_index(2), Some(&0));
    let text = t.to_string();
    let first = text.lines().next().unwrap();
    assert!(first.contains("x: "));
    assert!(first.contains("y: u64"));
    assert!(first.contains(": bool"));
}

#[test]
fn listing_shows_signature_locals_annotations_and_conditions() {
    let g = GlobalEnv {
        condition_infos: vec![
            (loc(5), "assert".to_string(), "might not hold".to_string()),
            (loc(6), "other".to_string(), "unrelated".to_string()),
        ],
    };
    let m = module(&g);
    let mut e = fun_env(&m, true, &["a"], 1);
    e.type_params = vec!["T".to_string(), "U".to_string()];
    let code = vec![
        Bytecode::Prop(1, PropKind::Assert, 0),
        Bytecode::Prop(2, PropKind::Assert, 0),
        Bytecode::Ret(3, Some(1)),
    ];
    let mut d = data_with(&e, code, vec![Type::U8, Type::Vector(Box::new(Type::U64))], vec![Type::U64, Type::Bool]);
    d.locations.insert(1, loc(5));
    d.locations.insert(2, loc(5));
    let mut live = BTreeMap::new();
    live.insert(0, "live: a\nlive: b".to_string());
    d.annotations.set(AnalysisKind::LiveVar, Annotation { facts: live });
    let mut borrow = BTreeMap::new();
    borrow.insert(0, "borrowed: none".to_string());
    d.annotations.set(AnalysisKind::Borrow, Annotation { facts: borrow });
    let mut t = FunctionTarget::new(&e, &d);
    t.register_annotation_formatters_for_test();
    let expected = "pub fun M::f<T, U>(a: u8): (u64, bool) {\n     var $t1: vector<u64>\n     // live: a\n     // live: b\n     // borrowed: none\n     // VC: might not hold for assert\n  0: assert $t0\n  1: assert $t0\n  2: return $t1\n}\n";
    assert_eq!(t.to_string(), expected);
    let c = t.clone();
    assert_eq!(c.to_string(), "pub fun M::f<T, U>(a: u8): (u64, bool) {\n     var $t1: vector<u64>\n     // VC: might not hold for assert\n  0: assert $t0\n  1: assert $t0\n  2: return $t1\n}\n");
}

#[test]
fn listing_of_private_function_with_one_return() {
    let g = global();
    let m = module(&g);
    let e = fun_env(&m, false, &["x"], 1);
    let code = vec![
        Bytecode::Label(0, 1),
        Bytecode::Call(1, Some(1), Operation::Function(3, 4), Some(0)),
        Bytecode::Branch(2, 1, 2, 1),
    ];
    let d = data_with(&e, code, vec![Type::Reference(false, Box::new(Type::TypeParameter(0)))], vec![Type::Address]);
    let t = FunctionTarget::new(&e, &d);
    assert_eq!(
        t.to_string(),
        "fun M::f(x: &T0): address {\n  0: label L1\n  1: $t1 := M3::F4($t0)\n  2: if ($t1) goto L1 else goto L2\n}\n"
    );
}

#[test]
fn rename_vars_with_colliding_keys_keeps_the_greater_key() {
    let g = global();
    let m = module(&g);
    let e = fun_env(&m, false, &[], 0);
    let mut d = data_with(&e, vec![], vec![], vec![]);
    d.param_proxy_map.insert(1, 5);
    d.param_proxy_map.insert(2, 6);
    d.rename_vars(&|i: usize| if i < 3 { 0 } else { i });
    assert_eq!(d.param_proxy_map, [(0, 6)].into_iter().collect());
    assert!(d.ref_param_proxy_map.is_empty());
}

#[test]
fn builder_starts_after_the_largest_attr_id() {
    let g = global();
    let m = module(&g);
    let e = fun_env(&m, false, &[], 0);
    let mut d = data_with(&e, vec![Bytecode::Nop(4), Bytecode::Nop(11)], vec![], vec![]);
    let b = FunctionDataBuilder::new(&mut d);
    assert_eq!(b.next_attr_index, 12);
    assert_eq!(b.data.code.len(), 2);
}

#[test]
fn new_record_registers_declared_names() {
    let g = global();
    let m = module(&g);
    let mut e = fun_env(&m, false, &["a", "b", "a"], 2);
    e.modify_targets.insert((1, 2), vec!["global<S>(addr)".to_string()]);
    let d = data_with(&e, vec![], vec![Type::U8, Type::U8, Type::U8], vec![]);
    assert_eq!(d.name_to_index, vec![("a".to_string(), 0), ("b".to_string(), 1), ("a".to_string(), 2)]);
    assert!(d.param_proxy_map.is_empty());
    assert!(d.annotations.is_empty());
    let t = FunctionTarget::new(&e, &d);
    // the later declaration of a name wins
    assert_eq!(t.get_local_index(&"a".to_string()), Some(2));
    assert_eq!(t.get_modify_targets_for_type(&(1, 2)), Some(&vec!["global<S>(addr)".to_string()]));
    assert_eq!(t.get_modify_targets_for_type(&(1, 3)), None);
}
