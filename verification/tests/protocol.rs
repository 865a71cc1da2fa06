use native_host::protocol::{load_failure_response, Response};

#[test]
fn load_failure_diagnostic_carries_the_message() {
    match load_failure_response(b"Config error: bad registry".to_vec()) {
        Response::Error { success, error } => {
            assert!(!success);
            assert_eq!(error, b"Config error: bad registry".to_vec());
        }
        _ => panic!("a load failure is the fatal diagnostic"),
    }
}
