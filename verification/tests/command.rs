use mslc::MinecraftServerBuildError;
use mslc::MinecraftServerBuilder;

#[test]
fn headless_default_command_line() {
    // The scenario of a fully valid configuration: existing /tmp/server,
    // server.jar, resolvable default interpreter, no extra arguments, GUI
    // off (the default), probed successfully.
    let s = MinecraftServerBuilder::new()
        .server_path("/tmp/server".to_string())
        .server_jar("server.jar".to_string())
        .build(true, true)
        .unwrap();
    assert_eq!(s.server_path, "/tmp/server");
    assert_eq!(
        s.get_command(),
        vec![
            "java".to_string(),
            "-jar".to_string(),
            "server.jar".to_string(),
            "--nogui".to_string(),
        ]
    );
}

#[test]
fn gui_appends_no_token() {
    let s = MinecraftServerBuilder::new()
        .server_path("/tmp/server".to_string())
        .server_jar("server.jar".to_string())
        .gui(true)
        .build(true, true)
        .unwrap();
    assert_eq!(
        s.get_command(),
        vec!["java".to_string(), "-jar".to_string(), "server.jar".to_string()]
    );
}

#[test]
fn extra_arguments_keep_their_order_before_jar() {
    let s = MinecraftServerBuilder::new()
        .server_path("/tmp/server".to_string())
        .server_jar("server.jar".to_string())
        .java_path("/opt/java/bin/java".to_string())
        .java_args(vec!["-Xmx1024M".to_string(), "-Xms1024M".to_string()])
        .build(true, true)
        .unwrap();
    assert_eq!(
        s.get_command(),
        vec![
            "/opt/java/bin/java".to_string(),
            "-Xmx1024M".to_string(),
            "-Xms1024M".to_string(),
            "-jar".to_string(),
            "server.jar".to_string(),
            "--nogui".to_string(),
        ]
    );
}

#[test]
fn error_messages_carry_the_offending_value() {
    assert_eq!(
        MinecraftServerBuildError::MissingServerPath.message(),
        "server path is missing"
    );
    assert_eq!(
        MinecraftServerBuildError::MissingServerJar.message(),
        "server jar file is missing"
    );
    assert_eq!(
        MinecraftServerBuildError::InvalidServerPath("/tmp/server".to_string()).message(),
        "invalid server path: /tmp/server"
    );
    assert_eq!(
        MinecraftServerBuildError::InvalidJavaPath("/nowhere/java".to_string()).message(),
        "invalid Java path: /nowhere/java"
    );
    assert_eq!(
        MinecraftServerBuildError::CommandExecutionError("broken pipe".to_string()).message(),
        "failed to execute command: broken pipe"
    );
}
