use buzz_gateway::control_client::{check_descriptor, ControlDescriptor};
use buzz_gateway::service_start::{ServiceStart, StartAction};

fn done(text: &str) -> Result<String, String> {
    Ok(text.to_string())
}

fn failed() -> Result<String, String> {
    Err("e".to_string())
}

#[test]
fn a_service_is_published_before_it_is_served() {
    let (mut start, first) = ServiceStart::begin(42);
    assert_eq!(first, StartAction::Bind("127.0.0.1:0".to_string()));
    assert_eq!(start.step(done("")), StartAction::ReadAddress);
    assert_eq!(start.step(done("127.0.0.1:4321")), StartAction::Locate);
    let published = match start.step(done("")) {
        StartAction::Publish(descriptor) => descriptor,
        other => panic!("{other:?}"),
    };
    assert_eq!(published.schema_version, 1);
    assert_eq!(published.url, "http://127.0.0.1:4321");
    assert_eq!(published.pid, 42);
    assert_eq!(published.token.len(), 64);
    assert_eq!(start.step(done("")), StartAction::Serve(published.token.clone()));
    assert_eq!(start.step(done("")), StartAction::End(None));
    let read = ControlDescriptor {
        schema_version: published.schema_version,
        url: published.url,
        token: published.token,
    };
    assert!(check_descriptor(&read).is_ok());
}

#[test]
fn a_start_that_fails_serves_nothing() {
    let errors = [
        "bind desktop control service: e",
        "read desktop control address: e",
        "resolve desktop control descriptor path: e",
        "e",
        "desktop control service stopped: e",
    ];
    for (steps, error) in errors.iter().enumerate() {
        let (mut start, _) = ServiceStart::with_token("t".to_string(), 1);
        for _ in 0..steps {
            start.step(done("a"));
        }
        assert_eq!(start.step(failed()), StartAction::End(Some(error.to_string())));
    }
}
