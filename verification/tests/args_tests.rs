use labflow::args::{Action, Interpreter};
use labflow::branch::Branch;

fn args(words: &[&str]) -> Vec<String> {
    words.iter().map(|w| w.to_string()).collect()
}

#[test]
fn new_reads_init() {
    let a = Action::new(&args(&["flow", "init"]));
    assert!(matches!(a, Some(Action::Init)));
}

#[test]
fn new_reads_start_with_branch() {
    let a = Action::new(&args(&["flow", "feature", "start", "login"]));
    match a {
        Some(Action::Start(b, src)) => {
            assert_eq!(b, Branch::Feature("login".to_string()));
            assert!(src.is_none());
        },
        _ => panic!("expected a start action"),
    }
}

#[test]
fn new_reads_finish_with_branch() {
    let a = Action::new(&args(&["flow", "hotfix", "finish", "fire"]));
    match a {
        Some(Action::Finish(b)) => assert_eq!(b, Branch::Hotfix("fire".to_string())),
        _ => panic!("expected a finish action"),
    }
}

#[test]
fn new_reads_category_case_insensitively() {
    let a = Action::new(&args(&["flow", "FEATURE", "start", "login"]));
    match a {
        Some(Action::Start(b, _)) => assert_eq!(b, Branch::Feature("login".to_string())),
        _ => panic!("expected a start action"),
    }
    let r = Action::new(&args(&["flow", "Release", "finish", "one"]));
    match r {
        Some(Action::Finish(b)) => assert_eq!(b, Branch::Release("one".to_string())),
        _ => panic!("expected a finish action"),
    }
}

#[test]
fn new_rejects_unknown_shapes() {
    assert!(Action::new(&args(&[])).is_none());
    assert!(Action::new(&args(&["flow"])).is_none());
    assert!(Action::new(&args(&["flow", "feature"])).is_none());
    assert!(Action::new(&args(&["flow", "feature", "start"])).is_none());
    assert!(Action::new(&args(&["flow", "topic", "start", "x"])).is_none());
    assert!(Action::new(&args(&["flow", "feature", "publish", "x"])).is_none());
}

#[test]
fn get_parameter_reads_init_shape() {
    let r = Interpreter::get_parameter(args(&["flow", "init"]));
    assert_eq!(
        r,
        Some(("init".to_string(), ("".to_string(), "".to_string())))
    );
}

#[test]
fn get_parameter_reads_start_and_finish_shapes() {
    let s = Interpreter::get_parameter(args(&["flow", "start", "feature", "login"]));
    assert_eq!(
        s,
        Some(("start".to_string(), ("feature".to_string(), "login".to_string())))
    );
    let f = Interpreter::get_parameter(args(&["flow", "finish", "hotfix", "fire"]));
    assert_eq!(
        f,
        Some(("finish".to_string(), ("hotfix".to_string(), "fire".to_string())))
    );
}

#[test]
fn get_parameter_rejects_other_shapes() {
    assert!(Interpreter::get_parameter(args(&["flow"])).is_none());
    assert!(Interpreter::get_parameter(args(&["flow", "start"])).is_none());
    assert!(Interpreter::get_parameter(args(&["flow", "push", "a", "b"])).is_none());
    assert!(Interpreter::get_parameter(args(&["flow", "start", "a", "b", "c"])).is_none());
}
