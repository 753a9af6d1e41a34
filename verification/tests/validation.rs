use transform_chain::validation::{misplaced_line, push_step_lines, put_heading};
use transform_chain::{TransformBuilder, TransformChainBuilder};

#[derive(Default)]
struct DebugPrinter;

#[derive(Default)]
struct NullSink;

#[derive(Debug, PartialEq)]
enum Transforms {
    DebugPrinter,
    NullSink,
    Configured,
}

impl TransformBuilder<Transforms> for DebugPrinter {
    fn build(&self) -> Transforms {
        Transforms::DebugPrinter
    }

    fn get_name(&self) -> &'static str {
        "DebugPrinter"
    }

    fn is_terminating(&self) -> bool {
        false
    }

    fn validate(&self) -> Vec<String> {
        vec![]
    }
}

impl TransformBuilder<Transforms> for NullSink {
    fn build(&self) -> Transforms {
        Transforms::NullSink
    }

    fn get_name(&self) -> &'static str {
        "NullSink"
    }

    fn is_terminating(&self) -> bool {
        true
    }

    fn validate(&self) -> Vec<String> {
        vec![]
    }
}

struct Configured {
    name: &'static str,
    terminating: bool,
    problems: Vec<String>,
}

impl TransformBuilder<Transforms> for Configured {
    fn build(&self) -> Transforms {
        Transforms::Configured
    }

    fn get_name(&self) -> &'static str {
        self.name
    }

    fn is_terminating(&self) -> bool {
        self.terminating
    }

    fn validate(&self) -> Vec<String> {
        self.problems.clone()
    }
}

fn configured(
    name: &'static str,
    terminating: bool,
    problems: &[&str],
) -> Box<dyn TransformBuilder<Transforms>> {
    Box::new(Configured {
        name,
        terminating,
        problems: problems.iter().map(|problem| problem.to_string()).collect(),
    })
}

#[test]
fn test_validate_invalid_chain() {
    let chain = TransformChainBuilder::<Transforms>::new(vec![], "test-chain");
    assert_eq!(
        chain.validate(),
        vec!["test-chain chain:", "  Chain cannot be empty"]
    );
}

#[test]
fn test_validate_valid_chain() {
    let chain = TransformChainBuilder::<Transforms>::new(
        vec![
            Box::<DebugPrinter>::default(),
            Box::<DebugPrinter>::default(),
            Box::<NullSink>::default(),
        ],
        "test-chain",
    );
    assert_eq!(chain.validate(), Vec::<String>::new());
}

#[test]
fn single_terminating_transform_is_valid() {
    let chain =
        TransformChainBuilder::<Transforms>::new(vec![Box::<NullSink>::default()], "test-chain");
    assert_eq!(chain.validate(), Vec::<String>::new());
}

#[test]
fn last_transform_must_be_terminating() {
    let chain = TransformChainBuilder::<Transforms>::new(
        vec![
            Box::<DebugPrinter>::default(),
            Box::<DebugPrinter>::default(),
        ],
        "test-chain",
    );
    assert_eq!(
        chain.validate(),
        vec![
            "test-chain chain:",
            "  Non-terminating transform \"DebugPrinter\" is last in chain. Last transform must be terminating.",
        ]
    );
}

#[test]
fn terminating_transform_must_be_last() {
    let chain = TransformChainBuilder::<Transforms>::new(
        vec![
            Box::<NullSink>::default(),
            Box::<DebugPrinter>::default(),
            Box::<NullSink>::default(),
        ],
        "test-chain",
    );
    assert_eq!(
        chain.validate(),
        vec![
            "test-chain chain:",
            "  Terminating transform \"NullSink\" is not last in chain. Terminating transform must be last in chain.",
        ]
    );
}

#[test]
fn problems_of_transforms_are_indented_in_order() {
    let chain = TransformChainBuilder::<Transforms>::new(
        vec![
            configured("First", false, &["first problem", "second problem"]),
            configured("Second", true, &["inner chain:", "  Chain cannot be empty"]),
            configured("Third", false, &["last problem"]),
        ],
        "outer",
    );
    assert_eq!(
        chain.validate(),
        vec![
            "outer chain:",
            "  first problem",
            "  second problem",
            "  Terminating transform \"Second\" is not last in chain. Terminating transform must be last in chain.",
            "  inner chain:",
            "    Chain cannot be empty",
            "  Non-terminating transform \"Third\" is last in chain. Last transform must be terminating.",
            "  last problem",
        ]
    );
}

#[test]
fn a_problem_alone_makes_a_chain_invalid() {
    let chain = TransformChainBuilder::<Transforms>::new(
        vec![configured("Sink", true, &["no address"])],
        "main",
    );
    assert_eq!(chain.validate(), vec!["main chain:", "  no address"]);
}

#[test]
fn names_are_quoted_and_escaped() {
    let chain = TransformChainBuilder::<Transforms>::new(
        vec![configured("a \"b\"\n", false, &[])],
        "main",
    );
    assert_eq!(
        chain.validate()[1],
        "  Non-terminating transform \"a \\\"b\\\"\\n\" is last in chain. Last transform must be terminating."
    );
}

#[test]
fn lines_of_one_transform() {
    assert_eq!(
        misplaced_line("<x>", true),
        "  Terminating transform <x> is not last in chain. Terminating transform must be last in chain."
    );
    assert_eq!(
        misplaced_line("<x>", false),
        "  Non-terminating transform <x> is last in chain. Last transform must be terminating."
    );

    let mut errors = vec!["before".to_string()];
    push_step_lines(&mut errors, "t", true, &vec!["p".to_string()], true);
    assert_eq!(errors, vec!["before", "  p"]);

    let mut none: Vec<String> = vec![];
    put_heading("c", &mut none);
    assert!(none.is_empty());
    put_heading("c", &mut errors);
    assert_eq!(errors, vec!["c chain:", "before", "  p"]);
}

#[test]
fn build_keeps_name_and_order() {
    let builder = TransformChainBuilder::<Transforms>::new(
        vec![
            Box::<DebugPrinter>::default(),
            configured("Middle", false, &[]),
            Box::<NullSink>::default(),
        ],
        "test-chain",
    );
    let chain = builder.build();
    assert_eq!(chain.name, "test-chain");
    let transforms: Vec<Transforms> = chain
        .chain
        .into_iter()
        .map(|metered| metered.transform)
        .collect();
    assert_eq!(
        transforms,
        vec![
            Transforms::DebugPrinter,
            Transforms::Configured,
            Transforms::NullSink
        ]
    );
}
