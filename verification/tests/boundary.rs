use ort_web::api;
use ort_web::wants_webgl;
use ort_web::wants_webgpu;
use ort_web::Environment;
use ort_web::Error;
use ort_web::HostCapabilities;
use ort_web::RuntimeState;
use ort_web::FEATURE_NONE;
use ort_web::FEATURE_WEBGL;
use ort_web::FEATURE_WEBGPU;
use ort_web::FEATURE_WEBNN;

const WEBGL_DENIAL: &str = "the host does not provide the requested WebGL backend";
const WEBGPU_DENIAL: &str = "the host does not provide the requested WebGPU backend";

fn bare_host() -> HostCapabilities {
    HostCapabilities { webgl: false, webgpu: false }
}

fn full_host() -> HostCapabilities {
    HostCapabilities { webgl: true, webgpu: true }
}

fn denial_of(r: Result<ort_web::ApiTable, Error>) -> String {
    match r {
        Ok(_) => panic!("expected the initialization to be denied"),
        Err(e) => e.message().clone(),
    }
}

#[test]
fn feature_none_initializes_without_backends_and_handle_round_trips() {
    let mut state = RuntimeState::new();
    let r = api(&mut state, FEATURE_NONE, bare_host());
    assert!(r.is_ok());
    let handle = Environment::new_sys(&state);
    let env = Environment::cast_from_sys(&handle);
    assert_eq!(*env, Environment {});
    let owned = Environment::consume_sys(handle);
    assert_eq!(*owned, Environment {});
}

#[test]
fn reclaim_of_created_handle_completes() {
    let mut state = RuntimeState::new();
    let r = api(&mut state, FEATURE_NONE, bare_host());
    assert!(r.is_ok());
    let owned = Environment::consume_sys(Environment::new_sys(&state));
    drop(owned);
}

#[test]
fn repeated_borrows_observe_the_same_environment() {
    let mut state = RuntimeState::new();
    let r = api(&mut state, FEATURE_NONE, bare_host());
    assert!(r.is_ok());
    let handle = Environment::new_sys(&state);
    let first = Environment::cast_from_sys(&handle);
    let second = Environment::cast_from_sys(&handle);
    assert_eq!(first, second);
}

#[test]
fn webgl_and_webgpu_on_host_without_webgpu_is_denied_naming_webgpu() {
    let mut state = RuntimeState::new();
    let host = HostCapabilities { webgl: true, webgpu: false };
    let r = api(&mut state, FEATURE_WEBGL | FEATURE_WEBGPU, host);
    assert_eq!(denial_of(r), WEBGPU_DENIAL);
}

#[test]
fn webgl_on_host_without_webgl_is_denied_naming_webgl() {
    let mut state = RuntimeState::new();
    let host = HostCapabilities { webgl: false, webgpu: true };
    let r = api(&mut state, FEATURE_WEBGL, host);
    assert_eq!(denial_of(r), WEBGL_DENIAL);
}

#[test]
fn api_twice_with_same_request_succeeds_twice_with_equal_tables() {
    let mut state = RuntimeState::new();
    let host = full_host();
    let features = FEATURE_WEBGL | FEATURE_WEBGPU;
    let first = api(&mut state, features, host);
    let second = api(&mut state, features, host);
    assert_eq!(first.unwrap(), second.unwrap());
}

#[test]
fn api_twice_with_same_denied_request_fails_identically() {
    let mut state = RuntimeState::new();
    let host = HostCapabilities { webgl: true, webgpu: false };
    let first = api(&mut state, FEATURE_WEBGPU, host);
    let second = api(&mut state, FEATURE_WEBGPU, host);
    assert_eq!(denial_of(first), denial_of(second));
}

#[test]
fn a_denied_attempt_leaves_the_process_able_to_retry() {
    let mut state = RuntimeState::new();
    let denied = api(&mut state, FEATURE_WEBGPU, bare_host());
    assert!(denied.is_err());
    let retried = api(&mut state, FEATURE_NONE, bare_host());
    assert!(retried.is_ok());
}

#[test]
fn once_initialized_later_attempts_are_successful_no_ops() {
    let mut state = RuntimeState::new();
    let first = api(&mut state, FEATURE_NONE, bare_host());
    assert!(first.is_ok());
    let second = api(&mut state, FEATURE_WEBGPU, bare_host());
    assert!(second.is_ok());
}

#[test]
fn webnn_behaves_identically_to_webgpu() {
    let hosts = vec![
        bare_host(),
        full_host(),
        HostCapabilities { webgl: true, webgpu: false },
        HostCapabilities { webgl: false, webgpu: true },
    ];
    for host in hosts {
        assert_eq!(FEATURE_WEBNN, FEATURE_WEBGPU);
        let mut gpu_state = RuntimeState::new();
        let mut nn_state = RuntimeState::new();
        let gpu = api(&mut gpu_state, FEATURE_WEBGPU, host);
        let nn = api(&mut nn_state, FEATURE_WEBNN, host);
        match (gpu, nn) {
            (Ok(t1), Ok(t2)) => assert_eq!(t1, t2),
            (Err(e1), Err(e2)) => assert_eq!(e1.message(), e2.message()),
            _ => panic!("the aliased bitmasks disagreed"),
        }
    }
}

#[test]
fn unknown_bits_are_ignored() {
    assert!(!wants_webgl(0x80));
    assert!(!wants_webgpu(0x80));
    let mut state = RuntimeState::new();
    let r = api(&mut state, 0x80, bare_host());
    assert!(r.is_ok());
}

#[test]
fn feature_bits_are_stable() {
    assert_eq!(FEATURE_NONE, 0);
    assert_eq!(FEATURE_WEBGL, 1);
    assert_eq!(FEATURE_WEBGPU, 2);
    assert_eq!(FEATURE_WEBNN, 2);
    assert!(wants_webgl(FEATURE_WEBGL | FEATURE_WEBGPU));
    assert!(wants_webgpu(FEATURE_WEBGL | FEATURE_WEBGPU));
    assert!(!wants_webgl(FEATURE_WEBGPU));
    assert!(!wants_webgpu(FEATURE_WEBGL));
}

#[test]
fn error_new_keeps_the_message() {
    let e = Error::new("initializer failed");
    assert_eq!(e.message().as_str(), "initializer failed");
}

#[test]
fn readable_host_failure_is_kept_verbatim() {
    let e = Error::from_host_failure(Some(String::from("WebGPU adapter request was rejected")));
    assert_eq!(e.message().as_str(), "WebGPU adapter request was rejected");
}

#[test]
fn empty_host_failure_degrades_to_a_non_empty_placeholder() {
    let e = Error::from_host_failure(Some(String::new()));
    assert!(!e.message().is_empty());
    assert_eq!(e.message().as_str(), "unrenderable host failure");
}

#[test]
fn unrenderable_host_failure_degrades_to_a_non_empty_placeholder() {
    let e = Error::from_host_failure(None);
    assert!(!e.message().is_empty());
    assert_eq!(e.message().as_str(), "unrenderable host failure");
}
