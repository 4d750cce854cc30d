//! The task dispatcher: interpret the task token and the optional backend
//! variant token, and either select a benchmark scenario or reject the run.
//! Every rejection is terminal for the caller and carries its diagnostic.

use vstd::prelude::*;
use vstd::string::StringExecFns;
use crate::store::Backend;

verus! {

/// Relies on `str`'s `==` (`<str as PartialEq>::eq`): true exactly when the
/// two strings hold the same characters.
#[verifier::external_body]
pub(crate) fn str_eq(a: &str, b: &str) -> (r: bool)
    ensures
        r == (a@ == b@),
{
    a == b
}

/// A fatal dispatch error; the caller prints the diagnostic to the error
/// stream and terminates with a non-zero status, emitting no result line.
#[derive(Debug, PartialEq, Eq)]
pub enum HarnessError {
    /// The "parse" task takes no variant token.
    VariantOnParse,
    /// The variant token names no known backend.
    UnknownVariant(String),
    /// The task token names no known task.
    UnknownTask(String),
}

impl HarnessError {
    /// The human-readable diagnostic for this rejection.
    pub fn message(&self) -> (m: String)
        ensures
            self matches HarnessError::VariantOnParse
                ==> m@ == "no variant expected for the 'parse' task"@,
            self matches HarnessError::UnknownVariant(v) ==> m@ == "Unknown variant "@ + v@,
            self matches HarnessError::UnknownTask(t) ==> m@ == "Unknown task "@ + t@,
    {
        match self {
            HarnessError::VariantOnParse => "no variant expected for the 'parse' task".to_owned(),
            HarnessError::UnknownVariant(v) => {
                let mut m = "Unknown variant ".to_owned();
                m.append(v.as_str());
                m
            },
            HarnessError::UnknownTask(t) => {
                let mut m = "Unknown task ".to_owned();
                m.append(t.as_str());
                m
            },
        }
    }
}

/// Which benchmark scenario a run executes.
#[derive(Clone, Copy, PartialEq, Eq, Structural, Debug)]
pub enum TaskPlan {
    /// Pure-parse timing: stream the input, dropping each triple.
    RunParse,
    /// Load the input into the chosen backend, then run the fixed query.
    RunQuery(Backend),
}

/// Interpret the two CLI tokens. "parse" admits no variant; "query" runs the
/// default backend when no variant is given, the light backend for "light",
/// and rejects any other variant; any other task token is rejected.
pub fn plan_run(task: &str, variant: Option<&str>) -> (r: Result<TaskPlan, HarnessError>)
    ensures
        task@ == "parse"@ && variant is None ==> r == Ok::<TaskPlan, HarnessError>(
            TaskPlan::RunParse,
        ),
        task@ == "parse"@ && variant is Some ==> r matches Err(HarnessError::VariantOnParse),
        task@ == "query"@ && variant is None ==> r == Ok::<TaskPlan, HarnessError>(
            TaskPlan::RunQuery(Backend::Fast),
        ),
        variant matches Some(v) ==> (task@ == "query"@ ==> (if v@ == "light"@ {
            r == Ok::<TaskPlan, HarnessError>(TaskPlan::RunQuery(Backend::Light))
        } else {
            r matches Err(HarnessError::UnknownVariant(u)) && u@ == v@
        })),
        task@ != "parse"@ && task@ != "query"@ ==> (r matches Err(HarnessError::UnknownTask(u))
            && u@ == task@),
{
    proof {
        reveal_strlit("parse");
        reveal_strlit("query");
        assert("parse"@[0] == 'p' && "query"@[0] == 'q');
        assert("parse"@ != "query"@);
    }
    if str_eq(task, "parse") {
        match variant {
            None => Ok(TaskPlan::RunParse),
            Some(_) => Err(HarnessError::VariantOnParse),
        }
    } else if str_eq(task, "query") {
        match variant {
            None => Ok(TaskPlan::RunQuery(Backend::Fast)),
            Some(v) => {
                if str_eq(v, "light") {
                    Ok(TaskPlan::RunQuery(Backend::Light))
                } else {
                    Err(HarnessError::UnknownVariant(v.to_owned()))
                }
            },
        }
    } else {
        Err(HarnessError::UnknownTask(task.to_owned()))
    }
}

} // verus!

