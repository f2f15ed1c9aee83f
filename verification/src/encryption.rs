//! The request that is handed to the transform tool, and the reading of
//! its answer.
//!
//! The tool is a Java program that is started once per transform. This
//! module decides what it is started with and what its outcome means;
//! starting it is left to the embedding program.

use vstd::prelude::*;
use crate::environment::{Environment, EnvironmentView};
use crate::text::{trim, trimmed};

verus! {

/// One start of the transform tool: the program and its arguments in
/// order.
#[derive(Debug)]
pub struct Invocation {
    pub program: String,
    pub arguments: Vec<String>,
}

/// A start of the transform tool with its texts as character sequences.
pub struct InvocationView {
    pub program: Seq<char>,
    pub arguments: Seq<Seq<char>>,
}

/// The texts of `list`, each as its character sequence.
pub open spec fn text_views(list: Seq<String>) -> Seq<Seq<char>> {
    Seq::new(list.len(), |i: int| list[i]@)
}

impl View for Invocation {
    type V = InvocationView;

    open spec fn view(&self) -> InvocationView {
        InvocationView { program: self.program@, arguments: text_views(self.arguments@) }
    }
}

/// The start of the tool that carries out `action` on `input`: the key and
/// the input go without the white space around them, and the choice of
/// random initialisation vectors is not passed on.
pub open spec fn jar_invocation(
    jar_path: Seq<char>,
    action: Seq<char>,
    input: Seq<char>,
    algorithm: Seq<char>,
    mode: Seq<char>,
    key: Seq<char>,
) -> InvocationView {
    InvocationView {
        program: "java"@,
        arguments: seq![
            "-cp"@,
            jar_path,
            "com.mulesoft.tools.SecurePropertiesTool"@,
            "string"@,
            action,
            algorithm,
            mode,
            trimmed(key),
            trimmed(input),
        ],
    }
}

/// The start of the tool that encrypts `input` under the profile `env`.
pub open spec fn encrypt_invocation(
    input: Seq<char>,
    env: EnvironmentView,
    jar_path: Seq<char>,
) -> InvocationView {
    jar_invocation(
        jar_path,
        "encrypt"@,
        input,
        env.algorithm.name_text(),
        env.state.name_text(),
        env.key,
    )
}

/// The start of the tool that decrypts `input` under the profile `env`.
pub open spec fn decrypt_invocation(
    input: Seq<char>,
    env: EnvironmentView,
    jar_path: Seq<char>,
) -> InvocationView {
    jar_invocation(
        jar_path,
        "decrypt"@,
        input,
        env.algorithm.name_text(),
        env.state.name_text(),
        env.key,
    )
}

/// What the tool is started with to encrypt `input` under `env`.
pub fn encrypt(input: &str, env: &Environment, jar_path: &str) -> (call: Invocation)
    ensures
        call@ == encrypt_invocation(input@, env@, jar_path@),
{
    invoke_jar(
        jar_path,
        "encrypt",
        input,
        env.algorithm.name(),
        env.state.name(),
        env.use_random_ivs,
        env.key.as_str(),
    )
}

/// What the tool is started with to decrypt `input` under `env`.
pub fn decrypt(input: &str, env: &Environment, jar_path: &str) -> (call: Invocation)
    ensures
        call@ == decrypt_invocation(input@, env@, jar_path@),
{
    invoke_jar(
        jar_path,
        "decrypt",
        input,
        env.algorithm.name(),
        env.state.name(),
        env.use_random_ivs,
        env.key.as_str(),
    )
}

/// What the tool is started with for one transform.
pub fn invoke_jar(
    jar_path: &str,
    action: &str,
    input: &str,
    algorithm: &str,
    mode: &str,
    _random_iv: bool,
    key: &str,
) -> (call: Invocation)
    ensures
        call@ == jar_invocation(jar_path@, action@, input@, algorithm@, mode@, key@),
{
    let mut arguments: Vec<String> = Vec::new();
    arguments.push("-cp".to_owned());
    arguments.push(jar_path.to_owned());
    arguments.push("com.mulesoft.tools.SecurePropertiesTool".to_owned());
    arguments.push("string".to_owned());
    arguments.push(action.to_owned());
    arguments.push(algorithm.to_owned());
    arguments.push(mode.to_owned());
    arguments.push(trim(key).to_owned());
    arguments.push(trim(input).to_owned());
    let call = Invocation { program: "java".to_owned(), arguments };
    assert(call@.arguments =~= jar_invocation(
        jar_path@,
        action@,
        input@,
        algorithm@,
        mode@,
        key@,
    ).arguments);
    call
}

/// The message for a tool that could not be started at all.
pub open spec fn launch_failure_text(reason: Seq<char>) -> Seq<char> {
    "Failed to invoke JAR file: "@ + reason
}

/// What a finished run of the tool means: its output when it reported
/// success, else its diagnostics as the error.
pub open spec fn run_outcome(success: bool, stdout: Seq<char>, stderr: Seq<char>) -> Result<
    Seq<char>,
    Seq<char>,
> {
    if success {
        Ok(stdout)
    } else {
        Err(stderr)
    }
}

/// The text of a transform result, on either side.
pub open spec fn outcome_view(outcome: Result<String, String>) -> Result<Seq<char>, Seq<char>> {
    match outcome {
        Ok(text) => Ok(text@),
        Err(text) => Err(text@),
    }
}

/// The error for a tool that could not be started, from the reason that
/// the system gave.
pub fn launch_failure(reason: &str) -> (outcome: Result<String, String>)
    ensures
        outcome_view(outcome) == Err::<Seq<char>, Seq<char>>(launch_failure_text(reason@)),
{
    let mut text = "Failed to invoke JAR file: ".to_owned();
    text.append(reason);
    Err(text)
}

/// Reads the outcome of a finished run of the tool.
pub fn read_output(success: bool, stdout: String, stderr: String) -> (outcome: Result<
    String,
    String,
>)
    ensures
        outcome_view(outcome) == run_outcome(success, stdout@, stderr@),
{
    if success {
        Ok(stdout)
    } else {
        Err(stderr)
    }
}

} // verus!
