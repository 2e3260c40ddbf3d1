use parity_harness::errors::ParseError;
use parity_harness::json::{parse_json, JsonValue};
use parity_harness::scenarios::{
    complete, execution_info, extract_full_tests_from_response, response_content, scenario,
    scenarios_from_content, scenarios_from_payload,
};

const SIDE: &str = r#"{"type":"python","sourceFile":"calc.py","compileCommand":null,"executeCommand":"python3 calc.py","workingDirectory":"/new"}"#;

fn test_json(id: &str, extra: &str) -> String {
    format!(
        r#"{{"id":"{}","name":"adds","description":"adds two","fullCode":"2 + 3","expectedExitCode":0{},"legacyExec":{},"newExec":{}}}"#,
        id, extra, SIDE, SIDE
    )
}

fn body_with(content: &str) -> String {
    let quoted: String = content.chars().flat_map(|c| match c {
        '"' => vec!['\\', '"'],
        '\\' => vec!['\\', '\\'],
        c => vec![c],
    }).collect();
    format!(r#"{{"choices":[{{"message":{{"role":"assistant","content":"{}"}}}}]}}"#, quoted)
}

#[test]
fn a_document_is_read_into_values() {
    let value = parse_json(r#"{"b":[1,-2,2.5,"x",null,true],"a":{}}"#).unwrap();
    assert_eq!(
        value,
        JsonValue::Object(vec![
            ("a".to_string(), JsonValue::Object(vec![])),
            (
                "b".to_string(),
                JsonValue::Array(vec![
                    JsonValue::Integer(1),
                    JsonValue::Integer(-2),
                    JsonValue::Real("2.5".to_string()),
                    JsonValue::Text("x".to_string()),
                    JsonValue::Null,
                    JsonValue::Bool(true),
                ])
            ),
        ])
    );
    assert_eq!(parse_json("18446744073709551615"), Ok(JsonValue::Integer(18446744073709551615)));
    assert!(parse_json("{").is_err());
    assert!(parse_json("").is_err());
}

#[test]
fn members_and_elements_are_looked_up() {
    let value = parse_json(r#"{"a":[10,20],"b":"x"}"#).unwrap();
    assert_eq!(value.get("b"), Some(&JsonValue::Text("x".to_string())));
    assert_eq!(value.get("c"), None);
    assert_eq!(value.get("a").unwrap().at(1), Some(&JsonValue::Integer(20)));
    assert_eq!(value.get("a").unwrap().at(2), None);
    assert_eq!(value.get("a").unwrap().get("a"), None);
    assert_eq!(value.at(0), None);
    assert_eq!(value.get("b").unwrap().text(), Some(&"x".to_string()));
    assert_eq!(value.get("a").unwrap().text(), None);
    let twice = JsonValue::Object(vec![
        ("k".to_string(), JsonValue::Integer(1)),
        ("k".to_string(), JsonValue::Integer(2)),
    ]);
    assert_eq!(twice.get("k"), Some(&JsonValue::Integer(1)));
}

#[test]
fn a_scenario_is_read_as_it_stands() {
    let value = parse_json(&test_json("t1", r#","timeout":1500"#)).unwrap();
    let test = scenario(&value).unwrap();
    assert_eq!(test.id, "t1");
    assert_eq!(test.name, "adds");
    assert_eq!(test.description, "adds two");
    assert_eq!(test.full_code, "2 + 3");
    assert_eq!(test.expected_exit_code, 0);
    assert_eq!(test.timeout, Some(1500));
    assert_eq!(test.legacy_exec.exec_type, "python");
    assert_eq!(test.legacy_exec.source_file, "calc.py");
    assert_eq!(test.legacy_exec.compile_command, None);
    assert_eq!(test.new_exec.execute_command, "python3 calc.py");
    assert_eq!(test.new_exec.working_directory, "/new");
    assert_eq!(test.new_exec, execution_info(&parse_json(SIDE).unwrap()).unwrap());
}

#[test]
fn a_malformed_scenario_is_none() {
    let bad = [
        r#"{}"#.to_string(),
        r#"[]"#.to_string(),
        test_json("t1", r#","timeout":-1"#),
        test_json("t1", r#","timeout":"soon""#),
        test_json("t1", r#","timeout":1.5"#),
        test_json("t1", "").replace(r#""expectedExitCode":0"#, r#""expectedExitCode":2147483648"#),
        test_json("t1", "").replace(r#""expectedExitCode":0"#, r#""expectedExitCode":"0""#),
        test_json("t1", "").replace(r#""id":"t1","#, ""),
        test_json("t1", "").replace(r#""id":"t1""#, r#""id":1"#),
        test_json("t1", "").replace(r#""name":"adds","#, ""),
        test_json("t1", "").replace(r#""sourceFile":"calc.py","#, ""),
        test_json("t1", "").replace(r#""compileCommand":null"#, r#""compileCommand":7"#),
        test_json("t1", "").replace(r#""newExec""#, r#""otherExec""#),
    ];
    for text in bad {
        assert_eq!(scenario(&parse_json(&text).unwrap()), None, "{}", text);
    }
    let good = [
        test_json("t1", r#","timeout":null"#),
        test_json("t1", r#","more":[1,2]"#),
        test_json("", ""),
        test_json("t1", "").replace(r#""expectedExitCode":0"#, r#""expectedExitCode":-2147483648"#),
        test_json("t1", "").replace(r#""compileCommand":null,"#, ""),
        test_json("t1", "").replace(r#""compileCommand":null"#, r#""compileCommand":"make""#),
    ];
    for text in good {
        assert!(scenario(&parse_json(&text).unwrap()).is_some(), "{}", text);
    }
}

#[test]
fn what_a_scenario_leaves_open_is_filled_in() {
    let blank = scenario(&parse_json(&test_json("", "")).unwrap()).unwrap();
    let done = complete(blank, 11);
    assert_eq!(done.id, "test-12");
    assert_eq!(done.timeout, Some(30000));
    let full = scenario(&parse_json(&test_json("mine", r#","timeout":7"#)).unwrap()).unwrap();
    let done = complete(full, 0);
    assert_eq!(done.id, "mine");
    assert_eq!(done.timeout, Some(7));
}

#[test]
fn the_scenarios_of_an_answer_are_read() {
    let content = format!(r#"{{"tests":[{},{}]}}"#, test_json("first", ""), test_json("", ""));
    let suite = extract_full_tests_from_response(&body_with(&content)).unwrap();
    assert_eq!(suite.tests.len(), 2);
    assert_eq!(suite.tests[0].id, "first");
    assert_eq!(suite.tests[0].timeout, Some(30000));
    assert_eq!(suite.tests[1].id, "test-2");
    assert_eq!(suite.rejected, Vec::<usize>::new());
    assert_eq!(suite.rejection(0), None);
    assert_eq!(scenarios_from_content(&content), Ok(suite));
}

#[test]
fn a_malformed_scenario_is_rejected_and_the_others_proceed() {
    let content = format!(
        r#"{{"tests":[{{"id":"broken"}},{},7,{}]}}"#,
        test_json("", ""),
        test_json("last", "")
    );
    let suite = scenarios_from_content(&content).unwrap();
    assert_eq!(suite.tests.len(), 2);
    assert_eq!(suite.tests[0].id, "test-2");
    assert_eq!(suite.tests[1].id, "last");
    assert_eq!(suite.rejected, vec![0, 2]);
    assert_eq!(suite.rejection(1), Some(ParseError::InvalidTest(2)));
    assert_eq!(suite.rejection(2), None);
    assert_eq!(ParseError::InvalidTest(2).message(), "Erro no teste 2: formato inválido");
}

#[test]
fn an_answer_without_scenarios_is_an_error() {
    let parse = |content: &str| scenarios_from_content(content).unwrap_err();
    assert_eq!(parse(r#"{"other":[]}"#), ParseError::MissingTests);
    assert_eq!(parse(r#"[1]"#), ParseError::MissingTests);
    assert_eq!(parse(r#"{"tests":{}}"#), ParseError::TestsNotArray);
    assert_eq!(parse(r#"{"tests":null}"#), ParseError::TestsNotArray);
    assert_eq!(parse(r#"{"tests":[]}"#), ParseError::NoValidTest);
    assert_eq!(parse(r#"{"tests":[1,{}]}"#), ParseError::NoValidTest);
    match parse("not json") {
        ParseError::InvalidJson { reason } => {
            assert_eq!(reason, "expected ident at line 1 column 2");
        },
        other => panic!("{:?}", other),
    }
    assert_eq!(ParseError::MissingTests.message(), "Resposta não contém campo 'tests'");
    assert_eq!(ParseError::TestsNotArray.message(), "'tests' não é um array");
    assert_eq!(ParseError::NoValidTest.message(), "Nenhum teste válido gerado");
    assert_eq!(
        ParseError::InvalidJson { reason: "eof".to_string() }.message(),
        "Erro ao parsear JSON da IA: eof"
    );
    let tests = parse_json(r#"{"tests":[3]}"#).unwrap();
    assert_eq!(scenarios_from_payload(&tests), Err(ParseError::NoValidTest));
}

#[test]
fn an_answer_of_another_shape_is_an_error() {
    let bodies = [
        "",
        "{}",
        r#"{"choices":[]}"#,
        r#"{"choices":{}}"#,
        r#"{"choices":[{}]}"#,
        r#"{"choices":[{"message":{}}]}"#,
        r#"{"choices":[{"message":{"content":null}}]}"#,
        r#"{"choices":[{"message":{"content":{"tests":[]}}}]}"#,
    ];
    for body in bodies {
        assert_eq!(extract_full_tests_from_response(body), Err(ParseError::InvalidResponse), "{}", body);
    }
    assert_eq!(
        ParseError::InvalidResponse.message(),
        "Formato de resposta inválido da Groq API"
    );
    let response = parse_json(&body_with("hello")).unwrap();
    assert_eq!(response_content(&response), Some("hello".to_string()));
    assert!(matches!(
        extract_full_tests_from_response(&body_with("hello")),
        Err(ParseError::InvalidJson { .. })
    ));
    let second = r#"{"choices":[{"message":{"content":"{\"tests\":[]}"}},{"message":{"content":"x"}}]}"#;
    assert_eq!(extract_full_tests_from_response(second), Err(ParseError::NoValidTest));
}
