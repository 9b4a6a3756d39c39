use codexcli::directive::{intercept, port_of, MetaCommand, DEFAULT_PORT};

fn chars(s: &str) -> Vec<char> {
    s.chars().collect()
}

#[test]
fn server_directive_with_a_port() {
    assert_eq!(intercept("start-server 9090"), Some(MetaCommand::StartStaticServer { port: 9090 }));
    assert_eq!(intercept("start-server 1"), Some(MetaCommand::StartStaticServer { port: 1 }));
    assert_eq!(
        intercept("start-server 65535"),
        Some(MetaCommand::StartStaticServer { port: 65535 })
    );
    assert_eq!(
        intercept("  start-server\t+8080  \n"),
        Some(MetaCommand::StartStaticServer { port: 8080 })
    );
}

#[test]
fn server_directive_falls_back_to_the_default_port() {
    assert_eq!(DEFAULT_PORT, 8000);
    let fallback = Some(MetaCommand::StartStaticServer { port: 8000 });
    assert_eq!(intercept("start-server"), fallback);
    assert_eq!(intercept("start-server "), fallback);
    assert_eq!(intercept("start-server abc"), fallback);
    assert_eq!(intercept("start-server 65536"), fallback);
    assert_eq!(intercept("start-server -1"), fallback);
    assert_eq!(intercept("start-server 80.5"), fallback);
    assert_eq!(intercept("start-server9090"), fallback);
}

#[test]
fn server_directive_is_a_prefix_and_the_port_is_the_second_word() {
    assert_eq!(
        intercept("start-server-now 3000 4000"),
        Some(MetaCommand::StartStaticServer { port: 3000 })
    );
    assert_eq!(
        intercept("start-server 3000 4000"),
        Some(MetaCommand::StartStaticServer { port: 3000 })
    );
    assert_eq!(port_of(&chars("anything 12 13")), 12);
    assert_eq!(port_of(&chars("anything")), 8000);
    assert_eq!(port_of(&chars("")), 8000);
}

#[test]
fn scaffold_and_dev_server_are_exact_texts() {
    assert_eq!(intercept("create-react-app"), Some(MetaCommand::ScaffoldWebApp));
    assert_eq!(intercept("  create-react-app\n"), Some(MetaCommand::ScaffoldWebApp));
    assert_eq!(intercept("npm start"), Some(MetaCommand::StartDevServer));
    assert_eq!(intercept("\tnpm start  "), Some(MetaCommand::StartDevServer));
    assert_eq!(intercept("create-react-app my-app"), None);
    assert_eq!(intercept("npx create-react-app"), None);
    assert_eq!(intercept("npm  start"), None);
    assert_eq!(intercept("npm start now"), None);
    assert_eq!(intercept("NPM START"), None);
}

#[test]
fn code_is_no_directive() {
    assert_eq!(intercept("print('hello')"), None);
    assert_eq!(intercept(""), None);
    assert_eq!(intercept("   "), None);
    assert_eq!(intercept("echo start-server 9090"), None);
    assert_eq!(intercept("Start-Server 9090"), None);
}
