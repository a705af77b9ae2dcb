use rmcp_proxy::cli::{
    client_transport, plan, server_transport, set_pairs, socket_mode, Arguments, CliError, Plan,
    ServerPlan, Transport,
};

fn texts(items: &[&str]) -> Vec<String> {
    items.iter().map(|t| t.to_string()).collect()
}

fn arguments(target: Option<&str>) -> Arguments {
    Arguments {
        command_or_url: target.map(|t| t.to_string()),
        headers: vec![],
        args: vec![],
        env_vars: vec![],
        pass_environment: false,
        sse_port: 8080,
        sse_host: "127.0.0.1".to_string(),
        transport: "auto".to_string(),
        unix_socket_mode: None,
    }
}

fn failure(arguments: Arguments) -> String {
    match plan(arguments) {
        Err(e) => e.message(),
        Ok(plan) => panic!("{:?}", plan),
    }
}

fn server(arguments: Arguments) -> ServerPlan {
    match plan(arguments) {
        Ok(Plan::Server(plan)) => plan,
        other => panic!("{:?}", other),
    }
}

fn mode(text: &str) -> Option<u32> {
    match socket_mode(&Some(text.to_string())) {
        Ok(mode) => mode,
        Err(e) => {
            assert_eq!(e.message(), "invalid octal mode for --unix-socket-mode");
            None
        }
    }
}

fn sorted(mut pairs: Vec<(String, String)>) -> Vec<(String, String)> {
    pairs.sort();
    pairs
}

fn pair(name: &str, value: &str) -> (String, String) {
    (name.to_string(), value.to_string())
}

#[test]
fn permissions_are_octal() {
    assert_eq!(mode("600"), Some(0o600));
    assert_eq!(mode("0o600"), Some(0o600));
    assert_eq!(mode("0o0o7"), Some(7));
    assert_eq!(mode("+17"), Some(0o17));
    assert_eq!(mode("0o+17"), Some(0o17));
    assert_eq!(mode("0"), Some(0));
    assert_eq!(mode("000000000000007"), Some(7));
    assert_eq!(mode("37777777777"), Some(u32::MAX));
    for bad in ["", "0o", "+", "-1", "8", "6 0", "0x7", "++7", "40000000000", "777777777777777777"] {
        assert_eq!(mode(bad), None, "{}", bad);
    }
    assert!(matches!(socket_mode(&None), Ok(None)));
}

#[test]
fn transports_are_chosen() {
    let sse = Some(Transport::Sse);
    let http = Some(Transport::StreamableHttp);
    assert_eq!(client_transport("auto", "http://h/sse"), sse);
    assert_eq!(client_transport("auto", "http://h/sse/x"), sse);
    assert_eq!(client_transport("auto", "http://h/mcp"), http);
    assert_eq!(client_transport("sse", "http://h/mcp"), sse);
    assert_eq!(client_transport("streamable-http", "http://h/sse"), http);
    assert_eq!(client_transport("SSE", "http://h/sse"), None);
    assert_eq!(server_transport("auto"), sse);
    assert_eq!(server_transport("sse"), sse);
    assert_eq!(server_transport("streamable-http"), http);
    assert_eq!(server_transport(""), None);
}

#[test]
fn url_makes_a_client() {
    let headers = texts(&["A", "1", "B", "2", "A", "3", "odd"]);
    let args = Arguments { headers, ..arguments(Some("http://localhost:8080/sse")) };
    match plan(args) {
        Ok(Plan::SseClient(config)) => {
            assert_eq!(config.url, "http://localhost:8080/sse");
            assert_eq!(sorted(config.headers), vec![pair("A", "3"), pair("B", "2")]);
        }
        other => panic!("{:?}", other),
    }
    match plan(arguments(Some("https://h/mcp"))) {
        Ok(Plan::StreamableHttpClient(config)) => {
            assert_eq!(config.url, "https://h/mcp");
            assert!(config.headers.is_empty());
        }
        other => panic!("{:?}", other),
    }
    let first = Arguments { args: texts(&["http://h/sse", "rest"]), ..arguments(None) };
    assert!(matches!(plan(first), Ok(Plan::SseClient(config)) if config.url == "http://h/sse"));
}

#[test]
fn command_makes_a_server() {
    let args = Arguments {
        args: texts(&["python", "server.py", "-v"]),
        env_vars: texts(&["K", "v"]),
        unix_socket_mode: Some("0o600".to_string()),
        ..arguments(None)
    };
    let p = server(args);
    assert_eq!(p.command, "python");
    assert_eq!(p.args, texts(&["server.py", "-v"]));
    assert_eq!(p.bind_addr, "127.0.0.1:8080");
    assert_eq!(p.unix_socket_mode, Some(0o600));
    match p.with_environment(&vec![pair("HOME", "/h")]) {
        Ok((transport, params)) => {
            assert_eq!(transport, Transport::Sse);
            assert_eq!(params.command, "python");
            assert_eq!(params.args, texts(&["server.py", "-v"]));
            assert_eq!(params.env, vec![pair("K", "v")]);
        }
        Err(e) => panic!("{}", e.message()),
    }
    let named = Arguments { args: texts(&["x"]), ..arguments(Some("run")) };
    let p = server(named);
    assert_eq!((p.command.as_str(), p.args), ("run", texts(&["x"])));
}

#[test]
fn command_line_overrides_the_environment() {
    let args = Arguments {
        env_vars: texts(&["A", "1", "B", "2", "A", "3", "C"]),
        pass_environment: true,
        transport: "streamable-http".to_string(),
        ..arguments(Some("run"))
    };
    let inherited = vec![pair("A", "0"), pair("D", "4"), pair("D", "5"), pair("C", "6")];
    match server(args).with_environment(&inherited) {
        Ok((transport, params)) => {
            assert_eq!(transport, Transport::StreamableHttp);
            assert_eq!(
                sorted(params.env),
                vec![pair("A", "3"), pair("B", "2"), pair("C", "6"), pair("D", "5")]
            );
        }
        Err(e) => panic!("{}", e.message()),
    }
}

#[test]
fn pairs_are_set_in_turn() {
    let mut pairs = vec![pair("x", "0")];
    set_pairs(&mut pairs, &texts(&["y", "1", "x", "2", "z"]));
    assert_eq!(sorted(pairs), vec![pair("x", "2"), pair("y", "1")]);
}

#[test]
fn reset_is_a_command_of_its_own() {
    assert!(matches!(plan(arguments(Some("reset"))), Ok(Plan::Reset)));
    assert!(matches!(plan(arguments(Some("Reset"))), Ok(Plan::Server(_))));
    let strange = Arguments { transport: "x".to_string(), ..arguments(Some("reset")) };
    assert!(matches!(plan(strange), Ok(Plan::Reset)));
}

#[test]
fn command_line_fails_with_the_reason() {
    assert_eq!(failure(arguments(None)), "command or URL is required");
    let odd = |target| Arguments { transport: "x".to_string(), ..arguments(target) };
    assert_eq!(failure(odd(Some("http://h"))), "unsupported transport type: x");
    match server(odd(Some("run"))).with_environment(&vec![]) {
        Err(CliError::UnsupportedTransport(t)) => assert_eq!(t, "x"),
        other => panic!("{:?}", other),
    }
    let bad = Arguments { unix_socket_mode: Some("9".to_string()), ..arguments(None) };
    assert_eq!(failure(bad), "invalid octal mode for --unix-socket-mode");
}
