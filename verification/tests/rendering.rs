use typst_engine::compile::{join_diagnostics, render_outcome};

#[test]
fn joins_in_order_with_newlines() {
    let msgs = vec![
        String::from("error: unclosed delimiter"),
        String::from("error: unknown variable"),
        String::from("warning: layout did not converge"),
    ];
    let joined = join_diagnostics(&msgs);
    assert_eq!(
        joined,
        "error: unclosed delimiter\nerror: unknown variable\nwarning: layout did not converge"
    );
    assert_eq!(joined.split('\n').count(), 3);
}

#[test]
fn single_message_joined_unchanged() {
    let msgs = vec![String::from("just one")];
    assert_eq!(join_diagnostics(&msgs), "just one");
}

#[test]
fn no_messages_join_to_empty() {
    let msgs: Vec<String> = Vec::new();
    assert_eq!(join_diagnostics(&msgs), "");
}

#[test]
fn messages_are_not_reordered() {
    let msgs = vec![String::from("b"), String::from("a")];
    assert_eq!(join_diagnostics(&msgs), "b\na");
}

#[test]
fn failure_outcome_reports_joined_diagnostics() {
    let outcome: Result<typst::model::Document, Vec<String>> =
        Err(vec![String::from("first"), String::from("second")]);
    let got = render_outcome(outcome);
    assert_eq!(got.err(), Some(String::from("first\nsecond")));
}
