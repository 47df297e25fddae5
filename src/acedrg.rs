//! The Acedrg job type: a restraint-dictionary generator fed with SMILES text,
//! a base64 mmCIF file or a chemical-component code.
use crate::job::str_eq;
use crate::job_type::{arg_views, Job, JobSpawnError, JobType, OutputKind};
use crate::messages::AcedrgArgs;
use crate::platform::{char_is_alphabetic, char_is_numeric, is_alphabetic, is_numeric};
use vstd::prelude::*;
use vstd::string::*;

verus! {

/// Base name (without extension) that Acedrg is told to write its output under.
pub const ACEDRG_OUTPUT_FILENAME: &'static str = "acedrg_output";

/// Seconds an Acedrg job may run unless configured otherwise.
pub const DEFAULT_TIMEOUT_SECS: u64 = 120;

pub const MSG_INPUT_MODE: &'static str =
    "Input validation failed! Exactly one of 'smiles', 'input_mmcif_base64' or 'input_ccd_code' must be provided.";

pub const MSG_NOT_ALLOWED: &'static str =
    "Input validation failed! Invalid commandline arguments. Supported arguments are: [\"-a\", \"--rechi\", \"-r\", \"-e\", \"--molgen\", \"-n\", \"--typeOut\", \"-p\", \"--coords\", \"-q\", \"--mdiff\", \"--neu\", \"--keku\", \"--nucl\", \"-u\", \"--hmo\", \"-z\", \"--noGeoOpt\", \"-K\", \"--noProt\", \"-M\", \"--modifiedPlanes\", \"-k\", \"-j\", \"-l\"]";

pub const MSG_NOT_ALPHABETIC: &'static str =
    "Input validation failed! Non-alphabetic characters used in monomer name (argument of the flag '-r')";

pub const MSG_NOT_NUMERIC: &'static str =
    "Input validation failed! Non-numeric characters used for '-k' or '-j' or '-l'";

#[derive(Clone, Debug)]
pub struct AcedrgJob {
    pub args: AcedrgArgs,
    /// Replaces the default timeout when set.
    pub timeout_override: Option<u64>,
}

/// What is wrong with one command-line argument.
pub enum ArgFault {
    NotAllowed,
    NotAlphabetic,
    NotNumeric,
}

/// The flags that may be passed to Acedrg.
pub open spec fn allowed_flag(a: Seq<char>) -> bool {
    ||| a == "-a"@ ||| a == "--rechi"@ ||| a == "-r"@ ||| a == "-e"@ ||| a == "--molgen"@
    ||| a == "-n"@ ||| a == "--typeOut"@ ||| a == "-p"@ ||| a == "--coords"@ ||| a == "-q"@
    ||| a == "--mdiff"@ ||| a == "--neu"@ ||| a == "--keku"@ ||| a == "--nucl"@ ||| a == "-u"@
    ||| a == "--hmo"@ ||| a == "-z"@ ||| a == "--noGeoOpt"@ ||| a == "-K"@ ||| a == "--noProt"@
    ||| a == "-M"@ ||| a == "--modifiedPlanes"@ ||| a == "-k"@ ||| a == "-j"@ ||| a == "-l"@
}

/// Flags whose argument must be numeric.
pub open spec fn numeric_flag(a: Seq<char>) -> bool {
    a == "-k"@ || a == "-j"@ || a == "-l"@
}

pub open spec fn all_alphabetic(s: Seq<char>) -> bool {
    forall|k: int| 0 <= k < s.len() ==> char_is_alphabetic(#[trigger] s[k])
}

pub open spec fn all_numeric(s: Seq<char>) -> bool {
    forall|k: int| 0 <= k < s.len() ==> char_is_numeric(#[trigger] s[k])
}

/// The fault of argument `i`, judged by the flag before it.
pub open spec fn arg_fault(args: Seq<Seq<char>>, i: int) -> Option<ArgFault> {
    let after_r = i > 0 && args[i - 1] == "-r"@;
    let after_numeric = i > 0 && numeric_flag(args[i - 1]);
    if !after_r && !after_numeric && !allowed_flag(args[i]) {
        Some(ArgFault::NotAllowed)
    } else if after_r && !all_alphabetic(args[i]) {
        Some(ArgFault::NotAlphabetic)
    } else if after_numeric && !all_numeric(args[i]) {
        Some(ArgFault::NotNumeric)
    } else {
        None
    }
}

/// The fault of the first faulty argument at index `i` or later.
pub open spec fn first_fault_from(args: Seq<Seq<char>>, i: int) -> Option<ArgFault>
    decreases args.len() - i,
{
    if i < 0 || i >= args.len() {
        None
    } else if arg_fault(args, i) is Some {
        arg_fault(args, i)
    } else {
        first_fault_from(args, i + 1)
    }
}

pub open spec fn input_mode_count(a: AcedrgArgs) -> int {
    (if a.smiles is Some { 1int } else { 0 }) + (if a.input_mmcif_base64 is Some { 1int } else { 0 })
        + (if a.input_ccd_code is Some { 1int } else { 0 })
}

pub open spec fn acedrg_input_valid(a: AcedrgArgs) -> bool {
    input_mode_count(a) == 1 && first_fault_from(arg_views(a.commandline_args@), 0) is None
}

pub open spec fn fault_message(f: ArgFault) -> Seq<char> {
    match f {
        ArgFault::NotAllowed => MSG_NOT_ALLOWED@,
        ArgFault::NotAlphabetic => MSG_NOT_ALPHABETIC@,
        ArgFault::NotNumeric => MSG_NOT_NUMERIC@,
    }
}

pub open spec fn acedrg_validation_message(a: AcedrgArgs) -> Seq<char> {
    if input_mode_count(a) != 1 {
        MSG_INPUT_MODE@
    } else {
        match first_fault_from(arg_views(a.commandline_args@), 0) {
            Some(f) => fault_message(f),
            None => Seq::empty(),
        }
    }
}

pub open spec fn acedrg_output_path(workdir: Seq<char>) -> Seq<char> {
    workdir + "/"@ + ACEDRG_OUTPUT_FILENAME@ + ".cif"@
}

pub open spec fn acedrg_launch_args(input: Seq<char>, args: Seq<Seq<char>>) -> Seq<Seq<char>> {
    seq!["-i"@, input] + args + seq!["-o"@, ACEDRG_OUTPUT_FILENAME@]
}

fn is_allowed_flag(a: &str) -> (r: bool)
    ensures
        r == allowed_flag(a@),
{
    str_eq(a, "-a") || str_eq(a, "--rechi") || str_eq(a, "-r") || str_eq(a, "-e") || str_eq(
        a,
        "--molgen",
    ) || str_eq(a, "-n") || str_eq(a, "--typeOut") || str_eq(a, "-p") || str_eq(a, "--coords")
        || str_eq(a, "-q") || str_eq(a, "--mdiff") || str_eq(a, "--neu") || str_eq(a, "--keku")
        || str_eq(a, "--nucl") || str_eq(a, "-u") || str_eq(a, "--hmo") || str_eq(a, "-z")
        || str_eq(a, "--noGeoOpt") || str_eq(a, "-K") || str_eq(a, "--noProt") || str_eq(a, "-M")
        || str_eq(a, "--modifiedPlanes") || str_eq(a, "-k") || str_eq(a, "-j") || str_eq(a, "-l")
}

fn is_numeric_flag(a: &str) -> (r: bool)
    ensures
        r == numeric_flag(a@),
{
    str_eq(a, "-k") || str_eq(a, "-j") || str_eq(a, "-l")
}

fn chars_all_alphabetic(s: &str) -> (r: bool)
    ensures
        r == all_alphabetic(s@),
{
    let n = s.unicode_len();
    let mut i: usize = 0;
    while i < n
        invariant
            n == s@.len(),
            i <= n,
            forall|k: int| 0 <= k < i ==> char_is_alphabetic(#[trigger] s@[k]),
        decreases n - i,
    {
        if !is_alphabetic(s.get_char(i)) {
            return false;
        }
        i += 1;
    }
    true
}

fn chars_all_numeric(s: &str) -> (r: bool)
    ensures
        r == all_numeric(s@),
{
    let n = s.unicode_len();
    let mut i: usize = 0;
    while i < n
        invariant
            n == s@.len(),
            i <= n,
            forall|k: int| 0 <= k < i ==> char_is_numeric(#[trigger] s@[k]),
        decreases n - i,
    {
        if !is_numeric(s.get_char(i)) {
            return false;
        }
        i += 1;
    }
    true
}

impl AcedrgJob {
    /// The fault of the first faulty command-line argument, if any.
    pub fn first_argument_fault(&self) -> (r: Option<ArgFault>)
        ensures
            r == first_fault_from(arg_views(self.args.commandline_args@), 0),
    {
        let args = &self.args.commandline_args;
        let ghost views = arg_views(args@);
        let mut r_arg = false;
        let mut numeric_arg = false;
        let mut i: usize = 0;
        while i < args.len()
            invariant
                views == arg_views(args@),
                args@ == self.args.commandline_args@,
                i <= args.len(),
                first_fault_from(views, 0) == first_fault_from(views, i as int),
                r_arg == (i > 0 && views[i - 1] == "-r"@),
                numeric_arg == (i > 0 && numeric_flag(views[i - 1])),
            decreases args.len() - i,
        {
            let arg = args[i].as_str();
            assert(arg@ == views[i as int]);
            let fault = if !(r_arg || numeric_arg) && !is_allowed_flag(arg) {
                Some(ArgFault::NotAllowed)
            } else if r_arg && !chars_all_alphabetic(arg) {
                Some(ArgFault::NotAlphabetic)
            } else if numeric_arg && !chars_all_numeric(arg) {
                Some(ArgFault::NotNumeric)
            } else {
                None
            };
            assert(fault == arg_fault(views, i as int));
            if fault.is_some() {
                assert(first_fault_from(views, i as int) == fault);
                return fault;
            }
            numeric_arg = is_numeric_flag(arg);
            r_arg = str_eq(arg, "-r");
            i += 1;
        }
        None
    }
}

impl Job for AcedrgJob {
    open spec fn spec_input_valid(&self) -> bool {
        acedrg_input_valid(self.args)
    }

    open spec fn spec_validation_message(&self) -> Seq<char> {
        acedrg_validation_message(self.args)
    }

    open spec fn spec_timeout(&self) -> u64 {
        match self.timeout_override {
            Some(t) => t,
            None => DEFAULT_TIMEOUT_SECS,
        }
    }

    open spec fn spec_name(&self) -> Seq<char> {
        "Acedrg"@
    }

    open spec fn spec_executable_name(&self) -> Seq<char> {
        "acedrg"@
    }

    open spec fn spec_input_file_name(&self) -> Seq<char> {
        if self.args.smiles is Some {
            "acedrg_smiles_input"@
        } else if self.args.input_mmcif_base64 is Some {
            "acedrg_mmcif_input.cif"@
        } else {
            "acedrg_ccd_input.cif"@
        }
    }

    open spec fn spec_launch_args(&self, input: Seq<char>) -> Seq<Seq<char>> {
        acedrg_launch_args(input, arg_views(self.args.commandline_args@))
    }

    open spec fn spec_output_filename(&self, workdir: Seq<char>, kind: OutputKind) -> Option<
        Seq<char>,
    > {
        match kind {
            OutputKind::CIF => Some(acedrg_output_path(workdir)),
        }
    }

    fn name(&self) -> &'static str {
        "Acedrg"
    }

    fn job_type(&self) -> JobType {
        JobType::Acedrg
    }

    fn executable_name(&self) -> &'static str {
        "acedrg"
    }

    fn timeout_value(&self) -> (r: u64) {
        match self.timeout_override {
            Some(t) => t,
            None => DEFAULT_TIMEOUT_SECS,
        }
    }

    fn validate_input(&self) -> (r: Result<(), JobSpawnError>) {
        let modes: u8 = (if self.args.smiles.is_some() { 1u8 } else { 0u8 }) + (
        if self.args.input_mmcif_base64.is_some() {
            1u8
        } else {
            0u8
        }) + (if self.args.input_ccd_code.is_some() { 1u8 } else { 0u8 });
        if modes != 1 {
            return Err(JobSpawnError::InputValidation(String::from_str(MSG_INPUT_MODE)));
        }
        match self.first_argument_fault() {
            None => Ok(()),
            Some(ArgFault::NotAllowed) => Err(
                JobSpawnError::InputValidation(String::from_str(MSG_NOT_ALLOWED)),
            ),
            Some(ArgFault::NotAlphabetic) => Err(
                JobSpawnError::InputValidation(String::from_str(MSG_NOT_ALPHABETIC)),
            ),
            Some(ArgFault::NotNumeric) => Err(
                JobSpawnError::InputValidation(String::from_str(MSG_NOT_NUMERIC)),
            ),
        }
    }

    fn output_filename(&self, workdir_path: &str, kind: OutputKind) -> (r: Option<String>) {
        match kind {
            OutputKind::CIF => {
                let p = String::from_str(workdir_path).concat("/").concat(
                    ACEDRG_OUTPUT_FILENAME,
                ).concat(".cif");
                Some(p)
            },
        }
    }

    fn input_file_name(&self) -> String {
        if self.args.smiles.is_some() {
            String::from_str("acedrg_smiles_input")
        } else if self.args.input_mmcif_base64.is_some() {
            String::from_str("acedrg_mmcif_input.cif")
        } else {
            String::from_str("acedrg_ccd_input.cif")
        }
    }

    fn launch_args(&self, input_file_path: &str) -> (r: Vec<String>) {
        let mut r: Vec<String> = Vec::new();
        r.push(String::from_str("-i"));
        r.push(String::from_str(input_file_path));
        let args = &self.args.commandline_args;
        let mut i: usize = 0;
        while i < args.len()
            invariant
                i <= args.len(),
                arg_views(r@) =~= seq!["-i"@, input_file_path@] + arg_views(args@).subrange(
                    0,
                    i as int,
                ),
            decreases args.len() - i,
        {
            let ghost before = r@;
            r.push(args[i].clone());
            assert(arg_views(r@) =~= arg_views(before).push(args@[i as int]@));
            assert(arg_views(args@).subrange(0, i + 1) =~= arg_views(args@).subrange(
                0,
                i as int,
            ).push(args@[i as int]@));
            i += 1;
        }
        let ghost middle = r@;
        r.push(String::from_str("-o"));
        r.push(String::from_str(ACEDRG_OUTPUT_FILENAME));
        assert(arg_views(r@) =~= arg_views(middle) + seq!["-o"@, ACEDRG_OUTPUT_FILENAME@]);
        assert(arg_views(args@).subrange(0, args.len() as int) =~= arg_views(args@));
        assert(arg_views(r@) =~= acedrg_launch_args(input_file_path@, arg_views(args@)));
        r
    }
}

} // verus!
