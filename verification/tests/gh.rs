use ghsql::gh::{graphql, GraphQLError, GraphQLErrors, GraphQLResponse, ObjectPath, RequestError};

fn s(text: &str) -> String {
    text.to_string()
}

fn error(message: &str) -> GraphQLError {
    GraphQLError { path: vec![ObjectPath::String(s("node")), ObjectPath::Number(0)], message: s(message) }
}

fn errors(messages: &[&str]) -> GraphQLErrors {
    GraphQLErrors { errors: messages.iter().map(|m| error(m)).collect() }
}

#[test]
fn error_msgs_of_no_error_is_empty() {
    assert_eq!(errors(&[]).error_msgs(), "");
    assert_eq!(GraphQLErrors::default().error_msgs(), "");
}

#[test]
fn error_msgs_of_one_error_is_its_message() {
    assert_eq!(errors(&["not found"]).error_msgs(), "not found");
}

#[test]
fn error_msgs_joins_with_a_slash() {
    assert_eq!(errors(&["a", "b", "c"]).error_msgs(), "a / b / c");
    assert_eq!(errors(&["", ""]).error_msgs(), " / ");
}

#[test]
fn default_error_is_empty() {
    let e = GraphQLError::default();
    assert!(e.path.is_empty());
    assert_eq!(e.message, "");
}

#[test]
fn failed_transport_is_a_transport_error() {
    let r: Result<GraphQLResponse<i64>, RequestError> =
        graphql(false, 4, s("gh: no auth"), Ok(1), Ok(errors(&[])));
    match r {
        Err(RequestError::Transport { code, stderr }) => {
            assert_eq!(code, 4);
            assert_eq!(stderr, "gh: no auth");
        }
        other => panic!("unexpected: {:?}", other),
    }
}

#[test]
fn decoded_answer_carries_its_errors() {
    let r = graphql(true, 0, s(""), Ok(s("data")), Ok(errors(&["partial"])));
    let answer = r.unwrap();
    assert_eq!(answer.data, "data");
    assert_eq!(answer.errors.error_msgs(), "partial");
}

#[test]
fn decoded_answer_without_error_list_has_none() {
    let r = graphql(true, 0, s(""), Ok(7u8), Err(s("no errors key")));
    let answer = r.unwrap();
    assert_eq!(answer.data, 7);
    assert!(answer.errors.errors.is_empty());
}

#[test]
fn undecoded_answer_reports_the_remote_messages() {
    let r: Result<GraphQLResponse<i64>, RequestError> =
        graphql(true, 0, s(""), Err(s("missing field `data`")), Ok(errors(&["x", "y"])));
    match r {
        Err(RequestError::Decode { error, remote }) => {
            assert_eq!(error, "missing field `data`");
            assert_eq!(remote, "x / y");
        }
        other => panic!("unexpected: {:?}", other),
    }
}

#[test]
fn answer_of_no_known_shape_reports_both_failures() {
    let r: Result<GraphQLResponse<i64>, RequestError> =
        graphql(true, 0, s(""), Err(s("first")), Err(s("second")));
    match r {
        Err(RequestError::Undecodable { error, errors_error }) => {
            assert_eq!(error, "first");
            assert_eq!(errors_error, "second");
        }
        other => panic!("unexpected: {:?}", other),
    }
}

#[test]
fn mutation_without_errors_went_through() {
    assert!(errors(&[]).into_result().is_ok());
}

#[test]
fn mutation_with_errors_failed() {
    let failed = errors(&["denied"]).into_result();
    assert_eq!(failed.unwrap_err().error_msgs(), "denied");
}
