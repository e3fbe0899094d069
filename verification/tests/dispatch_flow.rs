use graphql_gateway::dispatch::{
    accept_request, finish_request, DispatchStep, ExecOutcome,
};
use graphql_gateway::json::JsonVal;
use graphql_gateway::pool::WorkerPool;
use graphql_gateway::request::QueryRequest;
use graphql_gateway::result::{ErrorLocation, ExecError, ExecutionResult};

fn sample_request(query: &str) -> QueryRequest {
    QueryRequest {
        query: query.to_string(),
        operation_name: None,
        variables: vec![],
    }
}

#[test]
fn malformed_body_is_rejected_before_the_pool() {
    let mut pool = WorkerPool::new(2, 2);
    // a body that did not decode never becomes a QueryRequest
    match accept_request(&mut pool, None) {
        DispatchStep::Reject(resp) => {
            assert_eq!(resp.status, 400);
            assert_eq!(resp.body, "bad request: the body is not a valid query request");
        }
        DispatchStep::Execute(_) => panic!("malformed body must not be submitted"),
    }
    // no observable effect on the pool
    assert_eq!(pool.running, 0);
    assert_eq!(pool.queued, 0);
}

#[test]
fn empty_query_is_rejected_before_the_pool() {
    let mut pool = WorkerPool::new(2, 2);
    match accept_request(&mut pool, Some(sample_request(""))) {
        DispatchStep::Reject(resp) => assert_eq!(resp.status, 400),
        DispatchStep::Execute(_) => panic!("an invalid request must not be submitted"),
    }
    assert_eq!(pool.running, 0);
    assert_eq!(pool.queued, 0);
}

#[test]
fn valid_request_is_admitted() {
    let mut pool = WorkerPool::new(2, 2);
    match accept_request(&mut pool, Some(sample_request("{apiVersion}"))) {
        DispatchStep::Execute(q) => assert_eq!(q.query, "{apiVersion}"),
        DispatchStep::Reject(_) => panic!("an idle pool must admit a valid request"),
    }
    assert_eq!(pool.running, 1);
}

#[test]
fn saturation_yields_busy_response() {
    let mut pool = WorkerPool::new(1, 1);
    for _ in 0..2 {
        match accept_request(&mut pool, Some(sample_request("{apiVersion}"))) {
            DispatchStep::Execute(_) => {}
            DispatchStep::Reject(_) => panic!("within capacity + bound nothing is refused"),
        }
    }
    match accept_request(&mut pool, Some(sample_request("{apiVersion}"))) {
        DispatchStep::Reject(resp) => {
            assert_eq!(resp.status, 503);
            assert_eq!(resp.body, "server busy: try again later");
        }
        DispatchStep::Execute(_) => panic!("a saturated pool must refuse"),
    }
    assert_eq!(pool.running, 1);
    assert_eq!(pool.queued, 1);
}

#[test]
fn query_level_errors_travel_in_a_200_response() {
    let mut pool = WorkerPool::new(2, 2);
    accept_request(&mut pool, Some(sample_request("{doesNotExist}")));
    let res = ExecutionResult {
        data: Some(JsonVal::Null),
        errors: vec![ExecError {
            message: "Unknown field \"doesNotExist\" on type \"Query\"".to_string(),
            locations: vec![ErrorLocation { line: 1, column: 2 }],
            path: vec!["doesNotExist".to_string()],
        }],
    };
    let resp = finish_request(&mut pool, ExecOutcome::Completed(res));
    assert_eq!(resp.status, 200);
    assert_eq!(resp.content_type, "application/json");
    assert_eq!(
        resp.body,
        "{\"data\":null,\"errors\":[{\"message\":\"Unknown field \\\"doesNotExist\\\" on type \\\"Query\\\"\",\"locations\":[{\"line\":1,\"column\":2}],\"path\":[\"doesNotExist\"]}]}"
    );
    let parsed: serde_json::Value = serde_json::from_str(&resp.body).unwrap();
    assert!(parsed["data"].is_null());
    assert!(parsed["errors"][0]["message"]
        .as_str()
        .unwrap()
        .contains("doesNotExist"));
    assert_eq!(pool.running, 0);
}

#[test]
fn successful_execution_yields_its_body_verbatim() {
    let mut pool = WorkerPool::new(2, 2);
    accept_request(&mut pool, Some(sample_request("{apiVersion}")));
    let res = ExecutionResult {
        data: Some(JsonVal::Obj(vec![(
            "apiVersion".to_string(),
            JsonVal::Text("1.0".to_string()),
        )])),
        errors: vec![],
    };
    let resp = finish_request(&mut pool, ExecOutcome::Completed(res));
    assert_eq!(resp.status, 200);
    assert_eq!(resp.body, "{\"data\":{\"apiVersion\":\"1.0\"}}");
}

#[test]
fn execution_fault_yields_opaque_500() {
    let mut pool = WorkerPool::new(2, 2);
    accept_request(&mut pool, Some(sample_request("{apiVersion}")));
    let resp = finish_request(&mut pool, ExecOutcome::Failed);
    assert_eq!(resp.status, 500);
    assert_eq!(resp.body, "internal server error");
    assert_eq!(pool.running, 0);
}

#[test]
fn unencodable_result_yields_opaque_500() {
    let mut pool = WorkerPool::new(2, 2);
    accept_request(&mut pool, Some(sample_request("{n}")));
    let res = ExecutionResult {
        data: Some(JsonVal::Num("not a number".to_string())),
        errors: vec![],
    };
    let resp = finish_request(&mut pool, ExecOutcome::Completed(res));
    assert_eq!(resp.status, 500);
    assert_eq!(resp.body, "internal server error");
}
