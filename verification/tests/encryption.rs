use lazyprop::encryption::{decrypt, encrypt, invoke_jar, launch_failure, read_output};
use lazyprop::environment::{Algorithm, Environment, State};

#[test]
fn encrypt_builds_the_tool_call() {
    let env = Environment::new("prod", Algorithm::AES, State::CBC, true, "secret1234567890");
    let call = encrypt("hello", &env, "/opt/tool.jar");
    assert_eq!(call.program, "java");
    assert_eq!(
        call.arguments,
        vec![
            "-cp",
            "/opt/tool.jar",
            "com.mulesoft.tools.SecurePropertiesTool",
            "string",
            "encrypt",
            "AES",
            "CBC",
            "secret1234567890",
            "hello",
        ]
    );
}

#[test]
fn decrypt_builds_the_tool_call() {
    let env = Environment::new("prod", Algorithm::Blowfish, State::OFB, false, "k");
    let call = decrypt("MhKI6FUNIB5KyP9QXN5x2Q==", &env, "tool.jar");
    assert_eq!(call.program, "java");
    assert_eq!(
        call.arguments,
        vec![
            "-cp",
            "tool.jar",
            "com.mulesoft.tools.SecurePropertiesTool",
            "string",
            "decrypt",
            "Blowfish",
            "OFB",
            "k",
            "MhKI6FUNIB5KyP9QXN5x2Q==",
        ]
    );
}

#[test]
fn key_and_input_go_trimmed() {
    let env = Environment::new("prod", Algorithm::DES, State::ECB, true, "  my key \n");
    let call = encrypt("\t some text  ", &env, " path with space ");
    assert_eq!(call.arguments[1], " path with space ");
    assert_eq!(call.arguments[7], "my key");
    assert_eq!(call.arguments[8], "some text");
}

#[test]
fn random_vector_choice_is_not_passed_on() {
    let with = invoke_jar("j", "encrypt", "in", "AES", "CBC", true, "k");
    let without = invoke_jar("j", "encrypt", "in", "AES", "CBC", false, "k");
    assert_eq!(with.arguments, without.arguments);
    assert_eq!(with.arguments.len(), 9);
    assert_eq!(with.program, without.program);
}

#[test]
fn invoke_jar_passes_action_and_names_as_given() {
    let call = invoke_jar("j", "file", " in ", "RC2", "CFB", true, " k ");
    assert_eq!(
        call.arguments,
        vec![
            "-cp",
            "j",
            "com.mulesoft.tools.SecurePropertiesTool",
            "string",
            "file",
            "RC2",
            "CFB",
            "k",
            "in",
        ]
    );
}

#[test]
fn output_of_a_successful_run_is_the_result() {
    let outcome = read_output(true, "cipher\n".to_string(), "warning".to_string());
    assert_eq!(outcome, Ok("cipher\n".to_string()));
}

#[test]
fn diagnostics_of_a_failed_run_are_the_error() {
    let outcome = read_output(false, "partial".to_string(), "Invalid key".to_string());
    assert_eq!(outcome, Err("Invalid key".to_string()));
    assert_eq!(read_output(false, String::new(), String::new()), Err(String::new()));
}

#[test]
fn tool_that_does_not_start_is_an_error() {
    assert_eq!(
        launch_failure("No such file or directory (os error 2)"),
        Err("Failed to invoke JAR file: No such file or directory (os error 2)".to_string())
    );
}
