use bansu::acedrg::{MSG_INPUT_MODE, MSG_NOT_ALLOWED, MSG_NOT_ALPHABETIC, MSG_NOT_NUMERIC};
use bansu::job_handle::{process_configuration, workdir_name, ContainerLogs, LogStream};
use bansu::job_type::{Chemdrasil, ServalcatJob};
use bansu::{AcedrgArgs, AcedrgJob, Job, JobSpawnError, JobType, OutputKind};

fn smiles_job(smiles: &str, args: &[&str]) -> AcedrgJob {
    AcedrgJob {
        args: AcedrgArgs {
            smiles: Some(smiles.to_string()),
            input_mmcif_base64: None,
            input_ccd_code: None,
            commandline_args: args.iter().map(|a| a.to_string()).collect(),
        },
        timeout_override: None,
    }
}

fn validation_message(job: &AcedrgJob) -> Option<String> {
    match job.validate_input() {
        Ok(()) => None,
        Err(JobSpawnError::InputValidation(m)) => Some(m),
        Err(other) => panic!("unexpected error {:?}", other),
    }
}

#[test]
fn plain_smiles_is_valid() {
    assert_eq!(validation_message(&smiles_job("CCO", &[])), None);
}

#[test]
fn allowed_flags_are_valid() {
    let job = smiles_job("CCO", &["-z", "--noProt", "-a", "--modifiedPlanes"]);
    assert_eq!(validation_message(&job), None);
}

#[test]
fn two_input_modes_are_rejected() {
    let mut job = smiles_job("CCO", &[]);
    job.args.input_mmcif_base64 = Some("ZGF0YQ==".to_string());
    let m = validation_message(&job).unwrap();
    assert_eq!(m, MSG_INPUT_MODE);
    assert!(m.contains("Exactly one of"));
}

#[test]
fn no_input_mode_is_rejected() {
    let mut job = smiles_job("CCO", &[]);
    job.args.smiles = None;
    assert_eq!(validation_message(&job).unwrap(), MSG_INPUT_MODE);
}

#[test]
fn ccd_code_alone_is_valid() {
    let mut job = smiles_job("CCO", &[]);
    job.args.smiles = None;
    job.args.input_ccd_code = Some("ATP".to_string());
    assert_eq!(validation_message(&job), None);
    assert_eq!(job.input_file_name(), "acedrg_ccd_input.cif");
}

#[test]
fn unknown_flag_is_rejected() {
    let job = smiles_job("CCO", &["-z", "--rm-rf"]);
    assert_eq!(validation_message(&job).unwrap(), MSG_NOT_ALLOWED);
}

#[test]
fn r_flag_takes_alphabetic_argument() {
    assert_eq!(validation_message(&smiles_job("CCO", &["-r", "LIG"])), None);
    assert_eq!(
        validation_message(&smiles_job("CCO", &["-r", "L1G"])).unwrap(),
        MSG_NOT_ALPHABETIC
    );
}

#[test]
fn numeric_flags_take_numeric_argument() {
    assert_eq!(validation_message(&smiles_job("CCO", &["-k", "20", "-j", "3", "-l", "7"])), None);
    assert_eq!(
        validation_message(&smiles_job("CCO", &["-j", "3x"])).unwrap(),
        MSG_NOT_NUMERIC
    );
}

#[test]
fn flag_argument_is_not_judged_as_flag() {
    // "ABC" is no flag, but as the argument of -r it is accepted.
    assert_eq!(validation_message(&smiles_job("CCO", &["-r", "ABC", "-z"])), None);
    // After the argument, flags are checked again.
    assert_eq!(
        validation_message(&smiles_job("CCO", &["-r", "ABC", "DEF"])).unwrap(),
        MSG_NOT_ALLOWED
    );
}

#[test]
fn first_fault_decides_the_message() {
    let job = smiles_job("CCO", &["-k", "x", "--bogus"]);
    assert_eq!(validation_message(&job).unwrap(), MSG_NOT_NUMERIC);
}

#[test]
fn launch_arguments_wrap_user_flags() {
    let job = smiles_job("CCO", &["-z", "-r", "LIG"]);
    let args = job.launch_args("/tmp/w/acedrg_smiles_input");
    assert_eq!(
        args,
        vec!["-i", "/tmp/w/acedrg_smiles_input", "-z", "-r", "LIG", "-o", "acedrg_output"]
    );
}

#[test]
fn cif_output_lies_in_workdir() {
    let job = smiles_job("CCO", &[]);
    assert_eq!(
        job.output_filename("/tmp/bansu-1", OutputKind::CIF),
        Some("/tmp/bansu-1/acedrg_output.cif".to_string())
    );
}

#[test]
fn timeout_defaults_and_override() {
    let mut job = smiles_job("CCO", &[]);
    assert_eq!(job.timeout_value(), 120);
    job.timeout_override = Some(1);
    assert_eq!(job.timeout_value(), 1);
}

#[test]
fn names_and_types() {
    let job = smiles_job("CCO", &[]);
    assert_eq!(job.name(), "Acedrg");
    assert_eq!(job.executable_name(), "acedrg");
    assert!(matches!(job.job_type(), JobType::Acedrg));
    assert_eq!(job.input_file_name(), "acedrg_smiles_input");
    assert!(matches!(ServalcatJob.job_type(), JobType::Servalcat));
    assert_eq!(ServalcatJob.name(), "Servalcat");
    assert!(matches!(Chemdrasil.job_type(), JobType::Chemdrasil));
    assert_eq!(Chemdrasil.executable_name(), "chemdrasil");
}

#[test]
fn process_configuration_for_acedrg() {
    let job = smiles_job("CCO", &["-z"]);
    let cfg = process_configuration(&job, "/tmp/w", "/tmp/w/in");
    assert_eq!(cfg.executable, "acedrg");
    assert_eq!(cfg.working_dir, "/tmp/w");
    assert_eq!(cfg.args, vec!["-i", "/tmp/w/in", "-z", "-o", "acedrg_output"]);
}

#[test]
fn workdir_names_carry_prefix() {
    assert_eq!(workdir_name("abc"), "bansu-abc");
}

#[test]
fn container_logs_split_streams() {
    let mut logs = ContainerLogs::new();
    logs.record(LogStream::StdOut, b"he");
    logs.record(LogStream::StdErr, b"oops");
    logs.record(LogStream::StdOut, b"llo");
    assert_eq!(logs.stdout, b"hello".to_vec());
    assert_eq!(logs.stderr, b"oops".to_vec());
}
