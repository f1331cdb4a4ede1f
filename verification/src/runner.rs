//! Classification of a build attempt. The external toolchain is invoked by
//! the embedding program as two synchronous steps, compile then run; each
//! step hands back its exit status and captured streams, and this module
//! decides the outcome and assembles the diagnostic text exactly as the
//! error page will show it.

use vstd::prelude::*;
use vstd::string::StringExecFns;

use crate::text::blank_text;
use crate::text::is_blank;

verus! {

/// What one toolchain step produced: whether it exited successfully, and
/// its captured output streams.
pub struct StepOutput {
    pub ok: bool,
    pub stdout: String,
    pub stderr: String,
}

/// The verdict on one build attempt.
pub struct BuildOutcome {
    pub success: bool,
    pub message: String,
}

/// The diagnostic for a failed compile step: stderr, falling back to
/// stdout, falling back to a generic message when both are blank.
pub open spec fn compile_failure_text(out: Seq<char>, err: Seq<char>) -> Seq<char> {
    "Build Error:\n\n"@ + if !blank_text(err) {
        err
    } else if !blank_text(out) {
        out
    } else {
        "Build failed with no output."@
    }
}

/// The diagnostic for a failed run step: the non-blank streams, labelled
/// and joined, or a generic message when both are blank.
pub open spec fn run_failure_text(out: Seq<char>, err: Seq<char>) -> Seq<char> {
    if blank_text(out) && blank_text(err) {
        "Generation failed with no output."@
    } else {
        "Generation Error:\n\n"@ + (if !blank_text(out) {
            "Output:\n"@ + out
        } else {
            Seq::empty()
        }) + (if !blank_text(out) && !blank_text(err) {
            "\n\n"@
        } else {
            Seq::empty()
        }) + (if !blank_text(err) {
            "Errors:\n"@ + err
        } else {
            Seq::empty()
        })
    }
}

/// Classifies a build attempt: the compile step's streams decide a compile
/// failure, the run step's streams decide a generation failure, and only a
/// successful run step is a successful build. The run step exists exactly
/// when the compile step succeeded, since the toolchain is not run after a
/// failed compile.
pub fn classify_build(compile: &StepOutput, run: &Option<StepOutput>) -> (r: BuildOutcome)
    requires
        compile.ok <==> run is Some,
    ensures
        r.success <==> (compile.ok && run.unwrap().ok),
        !compile.ok ==> r.message@ == compile_failure_text(compile.stdout@, compile.stderr@),
        compile.ok && !run.unwrap().ok ==> r.message@ == run_failure_text(
            run.unwrap().stdout@,
            run.unwrap().stderr@,
        ),
        r.success ==> r.message@ == Seq::<char>::empty(),
{
    match run {
        None => {
            let mut msg = String::new();
            msg.append("Build Error:\n\n");
            if !is_blank(compile.stderr.as_str()) {
                msg.append(compile.stderr.as_str());
            } else if !is_blank(compile.stdout.as_str()) {
                msg.append(compile.stdout.as_str());
            } else {
                msg.append("Build failed with no output.");
            }
            BuildOutcome { success: false, message: msg }
        },
        Some(run_step) => {
            if run_step.ok {
                BuildOutcome { success: true, message: String::new() }
            } else {
                let out_blank = is_blank(run_step.stdout.as_str());
                let err_blank = is_blank(run_step.stderr.as_str());
                let mut msg = String::new();
                if out_blank && err_blank {
                    msg.append("Generation failed with no output.");
                } else {
                    msg.append("Generation Error:\n\n");
                    if !out_blank {
                        msg.append("Output:\n");
                        msg.append(run_step.stdout.as_str());
                    }
                    if !out_blank && !err_blank {
                        msg.append("\n\n");
                    }
                    if !err_blank {
                        msg.append("Errors:\n");
                        msg.append(run_step.stderr.as_str());
                    }
                }
                assert(msg@ =~= run_failure_text(run_step.stdout@, run_step.stderr@));
                BuildOutcome { success: false, message: msg }
            }
        },
    }
}

} // verus!
