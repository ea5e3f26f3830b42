use hyrcon_client::{Cli, Runtime};

#[test]
fn runtime_carries_cli() {
    let cli = Cli {
        host: "localhost".to_string(),
        port: 5522,
        password: Some("secret".to_string()),
        timeout_ms: 8_000,
        verbose: 1,
        plain: true,
        command: vec!["status".to_string()],
    };
    let runtime = Runtime::new(cli);
    let back = runtime.into_cli();
    assert_eq!(back.host, "localhost");
    assert_eq!(back.port, 5522);
    assert_eq!(back.password, Some("secret".to_string()));
    assert_eq!(back.timeout_ms, 8_000);
    assert_eq!(back.verbose, 1);
    assert!(back.plain);
    assert_eq!(back.command, vec!["status"]);
}
