use sandbox_rust_mcp::sandbox::{ExecutionRequest, ExecutionResponse, RunOutcome};
use sandbox_rust_mcp::server::Dispatch;
use sandbox_rust_mcp::{Config, Error, McpMessage, Sandbox};
use std::collections::HashMap;

fn request(command: &str, args: &[&str]) -> ExecutionRequest {
    ExecutionRequest {
        command: command.to_string(),
        args: args.iter().map(|a| a.to_string()).collect(),
        env: HashMap::new(),
        cwd: None,
    }
}

fn response() -> ExecutionResponse {
    ExecutionResponse {
        exit_code: 0,
        stdout: "ok".to_string(),
        stderr: String::new(),
        execution_time_ms: 1,
        success: true,
    }
}

fn assert_rejected(m: McpMessage) {
    match m.dispatch() {
        Dispatch::Reject(e) => {
            assert_eq!(
                e,
                Error::Protocol("Invalid message type for request".to_string())
            );
            assert_eq!(
                e.message(),
                "MCP protocol error: Invalid message type for request"
            );
        }
        _ => panic!("Expected a protocol error"),
    }
}

#[test]
fn test_ping_pong() {
    let ping = McpMessage::Ping {
        id: "test-1".to_string(),
    };
    match ping.dispatch() {
        Dispatch::Reply(McpMessage::Pong { id }) => assert_eq!(id, "test-1"),
        _ => panic!("Expected Pong response"),
    }
}

#[test]
fn ping_with_empty_id() {
    match (McpMessage::Ping { id: String::new() }).dispatch() {
        Dispatch::Reply(McpMessage::Pong { id }) => assert_eq!(id, ""),
        _ => panic!("Expected Pong response"),
    }
}

#[test]
fn test_execute_message() {
    let sandbox = Sandbox::new(Config::default());
    let execute = McpMessage::Execute {
        id: "test-2".to_string(),
        request: request("echo", &["test"]),
    };
    let (id, req) = match execute.dispatch() {
        Dispatch::Run { id, request } => (id, request),
        _ => panic!("Expected the request to run"),
    };
    assert_eq!(req.command, "echo");
    assert_eq!(req.args, vec!["test".to_string()]);
    let outcome = RunOutcome::Exited {
        code: Some(0),
        stdout: b"test\n".to_vec(),
        stderr: Vec::new(),
        elapsed_ms: 4,
    };
    let reply = McpMessage::execution_reply(id, sandbox.conclude(outcome));
    match reply {
        McpMessage::ExecuteResponse { id, response } => {
            assert_eq!(id, "test-2");
            assert!(response.success);
        }
        _ => panic!("Expected ExecuteResponse"),
    }
}

#[test]
fn missing_command_is_a_soft_error() {
    let sandbox = Sandbox::new(Config::default());
    let result = sandbox.conclude(RunOutcome::SpawnFailed {
        cause: "No such file or directory (os error 2)".to_string(),
    });
    match McpMessage::execution_reply("r-9".to_string(), result) {
        McpMessage::Error { id, message } => {
            assert_eq!(id, "r-9");
            assert_eq!(
                message,
                "Sandbox execution error: Command execution failed: No such file or directory (os error 2)"
            );
        }
        _ => panic!("Expected Error reply"),
    }
}

#[test]
fn timeout_is_a_soft_error() {
    let sandbox = Sandbox::new(Config::default().with_max_execution_time(2));
    let result = sandbox.conclude(RunOutcome::TimedOut);
    match McpMessage::execution_reply("slow".to_string(), result) {
        McpMessage::Error { id, message } => {
            assert_eq!(id, "slow");
            assert_eq!(
                message,
                "Sandbox execution error: Command timed out after 2 seconds"
            );
        }
        _ => panic!("Expected Error reply"),
    }
}

#[test]
fn reply_only_messages_are_rejected() {
    assert_rejected(McpMessage::ExecuteResponse {
        id: "a".to_string(),
        response: response(),
    });
    assert_rejected(McpMessage::Error {
        id: "b".to_string(),
        message: "whatever".to_string(),
    });
    assert_rejected(McpMessage::Pong {
        id: String::new(),
    });
}

#[test]
fn identical_requests_each_run() {
    let mut env = HashMap::new();
    env.insert("K".to_string(), "V".to_string());
    let mut req = request("date", &[]);
    req.env = env;
    for _ in 0..2 {
        let m = McpMessage::Execute {
            id: "same".to_string(),
            request: req.clone(),
        };
        match m.dispatch() {
            Dispatch::Run { id, request } => {
                assert_eq!(id, "same");
                assert_eq!(request.command, "date");
                assert_eq!(request.env.get("K").map(|v| v.as_str()), Some("V"));
            }
            _ => panic!("Expected the request to run"),
        }
    }
}

#[test]
fn successful_result_becomes_response() {
    match McpMessage::execution_reply("ok-1".to_string(), Ok(response())) {
        McpMessage::ExecuteResponse { id, response: r } => {
            assert_eq!(id, "ok-1");
            assert_eq!(r, response());
        }
        _ => panic!("Expected ExecuteResponse"),
    }
}
