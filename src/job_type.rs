//! The capability set that lets different external tools share the job
//! lifecycle.
use vstd::prelude::*;

verus! {

/// The kinds of artifact a job can be asked for.
pub enum OutputKind {
    CIF,
}

/// Why a job could not be admitted or started.
#[derive(Debug)]
pub enum JobSpawnError {
    InputValidation(String),
    TooManyJobs,
    Other(String),
}

pub enum JobType {
    Acedrg,
    Servalcat,
    Chemdrasil,
}

/// The character sequences of a vector of strings.
pub open spec fn arg_views(v: Seq<String>) -> Seq<Seq<char>> {
    v.map_values(|s: String| s@)
}

/// A job type: what the lifecycle needs to know of one external tool.
///
/// `validate_input` is pure and runs before any filesystem work; writing the
/// input and launching the process are performed by the host around the
/// values that `input_file_name` and `launch_args` give.
pub trait Job {
    /// The input is acceptable to this tool.
    spec fn spec_input_valid(&self) -> bool;

    /// The message that explains why the input is not acceptable.
    spec fn spec_validation_message(&self) -> Seq<char>;

    /// Seconds from launch to join before the job times out.
    spec fn spec_timeout(&self) -> u64;

    /// Where the artifact of `kind` lies under `workdir`, if this tool makes one.
    spec fn spec_output_filename(&self, workdir: Seq<char>, kind: OutputKind) -> Option<Seq<char>>;

    /// Name of the primary input file, relative to the working directory.
    spec fn spec_input_file_name(&self) -> Seq<char>;

    /// The argument vector for an input file at `input`.
    spec fn spec_launch_args(&self, input: Seq<char>) -> Seq<Seq<char>>;

    /// Informational name of the tool.
    spec fn spec_name(&self) -> Seq<char>;

    /// The executable that runs the tool.
    spec fn spec_executable_name(&self) -> Seq<char>;

    fn name(&self) -> (r: &'static str)
        ensures
            r@ == self.spec_name(),
    ;

    fn job_type(&self) -> JobType;

    fn executable_name(&self) -> (r: &'static str)
        ensures
            r@ == self.spec_executable_name(),
    ;

    fn timeout_value(&self) -> (r: u64)
        ensures
            r == self.spec_timeout(),
    ;

    fn validate_input(&self) -> (r: Result<(), JobSpawnError>)
        ensures
            r is Ok <==> self.spec_input_valid(),
            r is Err ==> r->Err_0 is InputValidation
                && r->Err_0->InputValidation_0@ == self.spec_validation_message(),
    ;

    fn output_filename(&self, workdir_path: &str, kind: OutputKind) -> (r: Option<String>)
        ensures
            r is Some <==> self.spec_output_filename(workdir_path@, kind) is Some,
            r is Some ==> r->Some_0@ == self.spec_output_filename(workdir_path@, kind)->Some_0,
    ;

    fn input_file_name(&self) -> (r: String)
        ensures
            r@ == self.spec_input_file_name(),
    ;

    /// The argument vector handed to the executable.
    fn launch_args(&self, input_file_path: &str) -> (r: Vec<String>)
        ensures
            arg_views(r@) == self.spec_launch_args(input_file_path@),
    ;
}

/// A job type whose tool is not yet wired to the lifecycle.
pub struct ServalcatJob;

/// A job type whose tool is not yet wired to the lifecycle.
pub struct Chemdrasil;

impl ServalcatJob {
    pub fn name(&self) -> (r: &'static str)
        ensures
            r@ == "Servalcat"@,
    {
        "Servalcat"
    }

    pub fn job_type(&self) -> (r: JobType)
        ensures
            r is Servalcat,
    {
        JobType::Servalcat
    }

    pub fn executable_name(&self) -> (r: &'static str)
        ensures
            r@ == "servalcat"@,
    {
        "servalcat"
    }
}

impl Chemdrasil {
    pub fn name(&self) -> (r: &'static str)
        ensures
            r@ == "Chemdrasil"@,
    {
        "Chemdrasil"
    }

    pub fn job_type(&self) -> (r: JobType)
        ensures
            r is Chemdrasil,
    {
        JobType::Chemdrasil
    }

    pub fn executable_name(&self) -> (r: &'static str)
        ensures
            r@ == "chemdrasil"@,
    {
        "chemdrasil"
    }
}

} // verus!
