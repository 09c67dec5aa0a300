//! This module prepares the calls to Libre-Office and interprets their
//! outcome.
use crate::pandoc::ProcessOutcome;
use crate::util::str_eq;

use vstd::prelude::*;

verus! {

/// Default name of the Libre-Office executable. Used when no other name is
/// handed over from the `LIBREOFFICE_CMD` environment variable.
pub const LIBREOFFICE_CMD: &'static str = "soffice";

/// Name of the environment variable which determines the name of the
/// Libre-Office executable.
pub const LIBREOFFICE_ENV: &'static str = "LIBREOFFICE_CMD";

/// Different errors occurring while the execution of Libre-Office.
#[derive(Debug)]
pub enum LibreOfficeError {
    /// The executable for Libre-Office wasn't found on the system. Contains
    /// the used name.
    NotFound(String),
    /// The execution of Libre-Office failed. Contains the input and output
    /// path as well as the error message.
    ExecutionFailed(String, String, String),
    /// The executable was found but calling failed. Holds the text of the
    /// underlying OS error.
    CallFailed(String),
}

impl LibreOfficeError {
    /// The text that `message` returns.
    pub open spec fn spec_message(&self) -> Seq<char> {
        match self {
            LibreOfficeError::NotFound(executable) => if executable@ == LIBREOFFICE_CMD@ {
                "couldn't find \"soffice\" on your system, use the env \"LIBREOFFICE_CMD\" to define a non default executable name"@
            } else {
                "couldn't find libreoffice with the executable name \""@ + executable@
                    + "\" use env \"LIBREOFFICE_CMD\" to specify otherwise"@
            },
            LibreOfficeError::ExecutionFailed(input, output, err) => "couldn't convert "@ + input@
                + " to "@ + output@ + ", "@ + err@,
            LibreOfficeError::CallFailed(err) => "couldn't call libreoffice "@ + err@,
        }
    }

    /// Renders the error as a single human-readable line.
    pub fn message(&self) -> (r: String)
        ensures
            r@ == self.spec_message(),
    {
        match self {
            LibreOfficeError::NotFound(executable) => {
                if str_eq(executable.as_str(), LIBREOFFICE_CMD) {
                    String::from_str(
                        "couldn't find \"soffice\" on your system, use the env \"LIBREOFFICE_CMD\" to define a non default executable name",
                    )
                } else {
                    let mut r = String::from_str(
                        "couldn't find libreoffice with the executable name \"",
                    );
                    r.append(executable.as_str());
                    r.append("\" use env \"LIBREOFFICE_CMD\" to specify otherwise");
                    proof {
                        assert(r@ =~= self.spec_message());
                    }
                    r
                }
            },
            LibreOfficeError::ExecutionFailed(input, output, err) => {
                let mut r = String::from_str("couldn't convert ");
                r.append(input.as_str());
                r.append(" to ");
                r.append(output.as_str());
                r.append(", ");
                r.append(err.as_str());
                proof {
                    assert(r@ =~= self.spec_message());
                }
                r
            },
            LibreOfficeError::CallFailed(err) => {
                let mut r = String::from_str("couldn't call libreoffice ");
                r.append(err.as_str());
                proof {
                    assert(r@ =~= self.spec_message());
                }
                r
            },
        }
    }
}

/// Wraps Libre-Office. Contains the executable name.
pub struct LibreOffice(pub String);

impl LibreOffice {
    /// Returns a new instance of the LibreOffice struct. The argument carries
    /// the value of the `LIBREOFFICE_CMD` environment variable when that
    /// variable is set; with `None` the default executable name is used.
    pub fn new(env_cmd: Option<String>) -> (r: Self)
        ensures
            r.0@ == match env_cmd {
                Some(x) => x@,
                None => LIBREOFFICE_CMD@,
            },
    {
        match env_cmd {
            Some(x) => LibreOffice(x),
            None => LibreOffice(String::from_str(LIBREOFFICE_CMD)),
        }
    }

    /// The argument vector for the headless conversion of an office document
    /// into a PDF file.
    pub open spec fn spec_pdf_args(input: Seq<char>) -> Seq<Seq<char>> {
        seq![
            "--headless"@,
            "--convert-to"@,
            "pdf:writer_pdf_Export"@,
            "-env:UserInstallation=file:///tmp/LibreOffice_Conversion_${USER}"@,
            input,
        ]
    }

    /// Builds the argument vector for the actual conversion from an office
    /// document into a PDF file.
    pub fn pdf_args(&self, input: &str) -> (r: Vec<String>)
        ensures
            r.deep_view() == Self::spec_pdf_args(input@),
    {
        let mut args: Vec<String> = Vec::new();
        args.push(String::from_str("--headless"));
        args.push(String::from_str("--convert-to"));
        args.push(String::from_str("pdf:writer_pdf_Export"));
        args.push(
            String::from_str("-env:UserInstallation=file:///tmp/LibreOffice_Conversion_${USER}"),
        );
        args.push(input.to_owned());
        proof {
            assert(args.deep_view() =~= Self::spec_pdf_args(input@));
        }
        args
    }

    /// Classifies the outcome of a Libre-Office call: nothing on success, and
    /// otherwise the error that describes what went wrong.
    pub fn outcome_to_result(
        rsl: ProcessOutcome,
        libreoffice_bin: String,
        input: String,
        output: String,
    ) -> (r: Result<(), LibreOfficeError>)
        ensures
            rsl matches ProcessOutcome::Exited { success: true, .. } ==> r is Ok,
            rsl matches ProcessOutcome::Exited { success: false, stderr, .. } ==> (r matches Err(
                LibreOfficeError::ExecutionFailed(i, o, e),
            ) && i == input && o == output && e == stderr),
            rsl is NotFound ==> (r matches Err(LibreOfficeError::NotFound(b)) && b
                == libreoffice_bin),
            rsl matches ProcessOutcome::SpawnFailed(e) ==> (r matches Err(
                LibreOfficeError::CallFailed(m),
            ) && m == e),
    {
        match rsl {
            ProcessOutcome::Exited { success, stdout: _, stderr } => {
                if success {
                    Ok(())
                } else {
                    Err(LibreOfficeError::ExecutionFailed(input, output, stderr))
                }
            },
            ProcessOutcome::NotFound => Err(LibreOfficeError::NotFound(libreoffice_bin)),
            ProcessOutcome::SpawnFailed(e) => Err(LibreOfficeError::CallFailed(e)),
        }
    }
}

} // verus!
