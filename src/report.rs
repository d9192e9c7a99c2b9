use vstd::prelude::*;

verus! {

/// The runtime could not be started; carries the runtime's own message.
#[derive(Debug, PartialEq, Eq)]
pub struct StartupFailure {
    pub message: String,
}

impl StartupFailure {
    pub fn new(message: String) -> (r: StartupFailure)
        ensures
            r.message@ == message@,
    {
        StartupFailure { message }
    }

    pub fn message(&self) -> (r: &str)
        ensures
            r@ == self.message@,
    {
        self.message.as_str()
    }
}

/// What the line written to standard error starts with.
pub open spec fn failure_prefix() -> Seq<char> {
    "Failed to start Zen Manager: "@
}

/// What the text shown in the native dialog starts with.
pub open spec fn dialog_prefix() -> Seq<char> {
    "Zen Manager failed to start: "@
}

/// The line written to standard error when startup fails with `message`.
pub open spec fn failure_line_of(message: Seq<char>) -> Seq<char> {
    failure_prefix() + message
}

/// The text of the native dialog when startup fails with `message`.
pub open spec fn dialog_text_of(message: Seq<char>) -> Seq<char> {
    dialog_prefix() + message
}

/// The program that shows the native dialog.
pub open spec fn dialog_program_name() -> Seq<char> {
    "msg"@
}

/// The arguments of the dialog program: wait for it, address all sessions, then the text.
pub open spec fn dialog_args_of(message: Seq<char>) -> Seq<Seq<char>> {
    seq!["/w"@, "*"@, dialog_text_of(message)]
}

/// The line reporting a startup failure on standard error.
pub fn failure_line(message: &str) -> (r: String)
    ensures
        r@ == failure_line_of(message@),
{
    let mut r = String::from_str("Failed to start Zen Manager: ");
    r.append(message);
    r
}

/// The text that the native dialog shows for a startup failure.
pub fn dialog_text(message: &str) -> (r: String)
    ensures
        r@ == dialog_text_of(message@),
{
    let mut r = String::from_str("Zen Manager failed to start: ");
    r.append(message);
    r
}

/// The program that shows the native dialog.
pub fn dialog_program() -> (r: String)
    ensures
        r@ == dialog_program_name(),
{
    String::from_str("msg")
}

/// The arguments handed to the dialog program for a startup failure.
pub fn dialog_args(message: &str) -> (r: Vec<String>)
    ensures
        r@.map_values(|s: String| s@) == dialog_args_of(message@),
{
    let mut r: Vec<String> = Vec::new();
    r.push(String::from_str("/w"));
    r.push(String::from_str("*"));
    r.push(dialog_text(message));
    proof {
        assert(r@.map_values(|s: String| s@) =~= dialog_args_of(message@));
    }
    r
}

/// The reported line starts with the fixed prefix and ends with the message itself.
pub proof fn lemma_failure_line_parts(message: Seq<char>)
    ensures
        failure_line_of(message).subrange(0, failure_prefix().len() as int) == failure_prefix(),
        failure_line_of(message).subrange(
            failure_prefix().len() as int,
            failure_line_of(message).len() as int,
        ) == message,
{
    assert(failure_line_of(message).subrange(0, failure_prefix().len() as int) =~= failure_prefix());
    assert(failure_line_of(message).subrange(
        failure_prefix().len() as int,
        failure_line_of(message).len() as int,
    ) =~= message);
}

} // verus!
