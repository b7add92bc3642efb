use vstd::prelude::*;

verus! {

/// Every way a run can end early. All of them are fatal.
#[derive(Clone, Debug, PartialEq, Eq)]
pub enum RunError {
    /// A passthrough argument (at this position among them) would take over
    /// one of the client's output controls.
    DisallowedFlag { position: usize },
    /// The client exited unsuccessfully, with this code where it had one.
    Invocation { exit_code: Option<i32>, stderr: String },
    /// The client's metrics output could not be read.
    Parse { detail: String },
    /// A temporary file could not be created or read.
    Io { detail: String },
}

/// The exit code of a failed run.
pub open spec fn exit_code_of(e: RunError) -> i32 {
    match e {
        RunError::Invocation { exit_code: Some(c), .. } => if c != 0 {
            c
        } else {
            1
        },
        _ => 1,
    }
}

/// The text shown for a failed run.
pub open spec fn message_of(e: RunError) -> Seq<char> {
    match e {
        RunError::DisallowedFlag { .. } => DISALLOWED_MESSAGE@,
        RunError::Invocation { stderr, .. } => INVOCATION_PREFIX@ + stderr@,
        RunError::Parse { detail } => PARSE_PREFIX@ + detail@,
        RunError::Io { detail } => detail@,
    }
}

pub const DISALLOWED_MESSAGE: &'static str = "Error: One or more disallowed flags used";

pub const INVOCATION_PREFIX: &'static str = "Curl error: ";

pub const PARSE_PREFIX: &'static str = "JSON error: ";

/// The generic failure code, used where the client gave none of its own.
pub const GENERIC_FAILURE: i32 = 1;

impl RunError {
    /// The process exit code for this error: the client's own code where it
    /// gave a non-zero one, else the generic failure code.
    pub fn exit_code(&self) -> (r: i32)
        ensures
            r == exit_code_of(*self),
            r != 0,
    {
        match self {
            RunError::Invocation { exit_code: Some(c), .. } => if *c != 0 {
                *c
            } else {
                GENERIC_FAILURE
            },
            _ => GENERIC_FAILURE,
        }
    }

    /// The message printed on the error stream.
    pub fn message(&self) -> (r: String)
        ensures
            r@ == message_of(*self),
    {
        match self {
            RunError::DisallowedFlag { .. } => String::from_str(DISALLOWED_MESSAGE),
            RunError::Invocation { stderr, .. } => {
                let mut m = String::from_str(INVOCATION_PREFIX);
                m.append(stderr.as_str());
                m
            },
            RunError::Parse { detail } => {
                let mut m = String::from_str(PARSE_PREFIX);
                m.append(detail.as_str());
                m
            },
            RunError::Io { detail } => detail.clone(),
        }
    }
}

/// Decides how a finished client process is taken: success goes on to the
/// metrics; anything else is an invocation error carrying the client's
/// error text and exit code.
pub fn check_client_exit(success: bool, exit_code: Option<i32>, stderr: String) -> (r: Result<
    (),
    RunError,
>)
    ensures
        success ==> r is Ok,
        !success ==> r == Err::<(), RunError>(RunError::Invocation { exit_code, stderr }),
{
    if success {
        Ok(())
    } else {
        Err(RunError::Invocation { exit_code, stderr })
    }
}

} // verus!
