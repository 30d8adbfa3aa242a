use vstd::prelude::*;
use vstd::string::{StringExecFns, StringSliceAdditionalSpecFns};
use crate::utils::text::{contains_bytes, has_infix, strip_blanks, without_blanks};

verus! {

/// Preference domain of the subsystem whose settings this tool writes and checks.
pub const XPROTECT_DOMAIN: &'static str = "/Library/Preferences/Logging/com.apple.XProtect";

/// Preference domain of the system logging daemon.
pub const SYSTEM_LOGGING_DOMAIN: &'static str = "/Library/Preferences/Logging/com.apple.system.logging";

/// Name of the profile document under the configuration root.
pub const PROFILE_FILE_NAME: &'static str = "private_logging.plist";

/// An external utility to run: program name and arguments.
pub struct CommandSpec {
    pub program: String,
    pub args: Vec<String>,
}

/// Program name and argument texts of a command.
pub type CommandModel = (Seq<char>, Seq<Seq<char>>);

impl View for CommandSpec {
    type V = CommandModel;

    open spec fn view(&self) -> CommandModel {
        (self.program@, self.args@.map_values(|a: String| a@))
    }
}

/// The command that runs `program` with `args`.
pub open spec fn cmd(program: &str, args: Seq<&str>) -> CommandModel {
    (program@, args.map_values(|a: &str| a@))
}

/// Builds the command that runs `program` with `args`.
pub fn command(program: &str, args: &[&str]) -> (r: CommandSpec)
    ensures
        r@ == cmd(program, args@),
{
    let mut owned: Vec<String> = Vec::new();
    let mut i: usize = 0;
    while i < args.len()
        invariant
            i <= args@.len(),
            owned@.len() == i,
            forall|k: int| 0 <= k < i ==> #[trigger] owned@[k]@ == args@[k]@,
        decreases args@.len() - i,
    {
        let a: &str = args[i];
        owned.push(a.to_owned());
        i += 1;
    }
    assert(owned@.map_values(|a: String| a@) =~= args@.map_values(|a: &str| a@));
    CommandSpec { program: program.to_owned(), args: owned }
}

/// One action of a workflow that the caller carries out.
pub enum Step {
    /// Serialize the profile and write it to this file.
    WriteProfile(String),
    /// Run this command and report its standard output.
    Run(CommandSpec),
    /// Wait this many seconds.
    Sleep(u64),
}

/// What a [`Step`] asks for, over plain values.
pub enum StepModel {
    WriteProfile(Seq<char>),
    Run(CommandModel),
    Sleep(u64),
}

impl View for Step {
    type V = StepModel;

    open spec fn view(&self) -> StepModel {
        match self {
            Step::WriteProfile(p) => StepModel::WriteProfile(p@),
            Step::Run(c) => StepModel::Run(c@),
            Step::Sleep(s) => StepModel::Sleep(*s),
        }
    }
}

/// Views of a list of steps.
pub open spec fn step_models(ss: Seq<Step>) -> Seq<StepModel> {
    ss.map_values(|s: Step| s@)
}

/// Views of a list of commands.
pub open spec fn models(cs: Seq<CommandSpec>) -> Seq<CommandModel> {
    cs.map_values(|c: CommandSpec| c@)
}

/// Sets the global log level to debug.
pub open spec fn debug_mode_cmd() -> CommandModel {
    cmd("log", seq!["config", "--mode", "level:debug"])
}

/// The system configuration step: debug level on, private data captured.
pub open spec fn system_config_cmds() -> Seq<CommandModel> {
    seq![
        debug_mode_cmd(),
        cmd(
            "defaults",
            seq![
                "write",
                SYSTEM_LOGGING_DOMAIN,
                "System.Private-Data",
                "-bool",
                "true",
            ],
        ),
    ]
}

/// The commands of the system configuration step.
pub fn apply_system_config() -> (r: Vec<CommandSpec>)
    ensures
        models(r@) == system_config_cmds(),
{
    let mut r: Vec<CommandSpec> = Vec::new();
    r.push(command("log", &["config", "--mode", "level:debug"]));
    r.push(
        command(
            "defaults",
            &["write", SYSTEM_LOGGING_DOMAIN, "System.Private-Data", "-bool", "true"],
        ),
    );
    assert(models(r@) =~= system_config_cmds());
    r
}

/// Writes one boolean preference of the subsystem domain.
pub open spec fn subsystem_flag_cmd(key: &str) -> CommandModel {
    cmd("defaults", seq!["write", XPROTECT_DOMAIN, key, "-bool", "true"])
}

/// The subsystem parameters step: logging on, debug level, private data,
/// categories on by default.
pub open spec fn logging_parameter_cmds() -> Seq<CommandModel> {
    seq![
        subsystem_flag_cmd("Enable-Logging"),
        cmd("defaults", seq!["write", XPROTECT_DOMAIN, "Level", "-string", "Debug"]),
        subsystem_flag_cmd("Private"),
        subsystem_flag_cmd("Category-Default-Enabled"),
    ]
}

/// The commands of the subsystem parameters step.
pub fn set_logging_parameters() -> (r: Vec<CommandSpec>)
    ensures
        models(r@) == logging_parameter_cmds(),
{
    let mut r: Vec<CommandSpec> = Vec::new();
    r.push(command("defaults", &["write", XPROTECT_DOMAIN, "Enable-Logging", "-bool", "true"]));
    r.push(command("defaults", &["write", XPROTECT_DOMAIN, "Level", "-string", "Debug"]));
    r.push(command("defaults", &["write", XPROTECT_DOMAIN, "Private", "-bool", "true"]));
    r.push(
        command(
            "defaults",
            &["write", XPROTECT_DOMAIN, "Category-Default-Enabled", "-bool", "true"],
        ),
    );
    assert(models(r@) =~= logging_parameter_cmds());
    r
}

/// The service restart: level back to default, daemon stopped, a settle
/// wait, debug level on again, a shorter wait.
pub open spec fn restart_steps() -> Seq<StepModel> {
    seq![
        StepModel::Run(cmd("log", seq!["config", "--mode", "level:default"])),
        StepModel::Run(cmd("killall", seq!["logd"])),
        StepModel::Sleep(2),
        StepModel::Run(debug_mode_cmd()),
        StepModel::Sleep(1),
    ]
}

/// The steps that restart the logging service.
pub fn restart_logging_service() -> (r: Vec<Step>)
    ensures
        step_models(r@) == restart_steps(),
{
    let reset = command("log", &["config", "--mode", "level:default"]);
    let stop = command("killall", &["logd"]);
    let debug = command("log", &["config", "--mode", "level:debug"]);
    let mut r: Vec<Step> = Vec::new();
    r.push(Step::Run(reset));
    r.push(Step::Run(stop));
    r.push(Step::Sleep(2));
    r.push(Step::Run(debug));
    r.push(Step::Sleep(1));
    assert(stop@ =~~= cmd("killall", seq!["logd"]));
    assert(step_models(r@) =~= restart_steps());
    r
}

/// Where the profile document goes under the configuration root `root`.
pub open spec fn profile_file(root: Seq<char>) -> Seq<char> {
    root + "/"@ + PROFILE_FILE_NAME@
}

/// Writing the profile: the document itself, then its mode set to 644.
pub open spec fn write_profile_steps(root: Seq<char>) -> Seq<StepModel> {
    seq![
        StepModel::WriteProfile(profile_file(root)),
        StepModel::Run(("chmod"@, seq!["644"@, profile_file(root)])),
    ]
}

/// The steps that store the profile under the configuration root `root`.
pub fn write_profile(root: &str) -> (r: Vec<Step>)
    ensures
        step_models(r@) == write_profile_steps(root@),
{
    let mut file = root.to_owned();
    file.append("/");
    file.append(PROFILE_FILE_NAME);
    let mut args: Vec<String> = Vec::new();
    args.push("644".to_owned());
    args.push(file.clone());
    let chmod = CommandSpec { program: "chmod".to_owned(), args };
    assert(chmod@.1 =~= seq!["644"@, file@]);
    let mut r: Vec<Step> = Vec::new();
    r.push(Step::WriteProfile(file));
    r.push(Step::Run(chmod));
    assert(step_models(r@) =~= write_profile_steps(root@));
    r
}

/// Reports the logging system's status.
pub open spec fn status_query_cmd() -> CommandModel {
    cmd("log", seq!["config", "--status"])
}

/// Reads back the subsystem's preferences.
pub open spec fn settings_query_cmd() -> CommandModel {
    cmd("defaults", seq!["read", XPROTECT_DOMAIN])
}

/// Samples the last minute of the subsystem's log, debug entries included.
pub open spec fn log_sample_cmd() -> CommandModel {
    cmd(
        "log",
        seq![
            "show",
            "--predicate",
            "subsystem == 'com.apple.XProtect'",
            "--style",
            "json",
            "--debug",
            "--last",
            "1m",
        ],
    )
}

/// The command behind [`status_query_cmd`].
pub fn status_query() -> (r: CommandSpec)
    ensures
        r@ == status_query_cmd(),
{
    command("log", &["config", "--status"])
}

/// The command behind [`settings_query_cmd`].
pub fn settings_query() -> (r: CommandSpec)
    ensures
        r@ == settings_query_cmd(),
{
    command("defaults", &["read", XPROTECT_DOMAIN])
}

/// The command behind [`log_sample_cmd`].
pub fn log_sample_query() -> (r: CommandSpec)
    ensures
        r@ == log_sample_cmd(),
{
    command(
        "log",
        &[
            "show",
            "--predicate",
            "subsystem == 'com.apple.XProtect'",
            "--style",
            "json",
            "--debug",
            "--last",
            "1m",
        ],
    )
}

/// Status text shows both debug level and private-data capture active.
pub open spec fn status_active(status: Seq<u8>) -> bool {
    &&& has_infix(status, "DEBUG".spec_bytes())
    &&& has_infix(status, "PRIVATE_DATA".spec_bytes())
}

/// `setting` appears in the preference dump once blanks are ignored on both sides.
pub open spec fn has_setting(dump: Seq<u8>, setting: &str) -> bool {
    has_infix(strip_blanks(dump), strip_blanks(setting.spec_bytes()))
}

/// The preference dump holds all four settings the subsystem needs.
pub open spec fn settings_present(dump: Seq<u8>) -> bool {
    &&& has_setting(dump, "\"Enable-Logging\" = 1")
    &&& has_setting(dump, "\"Category-Default-Enabled\" = 1")
    &&& has_setting(dump, "Level = Debug")
    &&& has_setting(dump, "Private = 1")
}

/// A log sample is non-empty and shows no redacted field.
pub open spec fn private_logs_visible(sample: Seq<u8>) -> bool {
    &&& sample.len() > 0
    &&& !has_infix(sample, "<private>".spec_bytes())
}

/// Stage one of verification: judges the output of the status query.
pub fn verify_logging_config(status: &[u8]) -> (r: bool)
    ensures
        r == status_active(status@),
{
    let debug = contains_bytes(status, "DEBUG".as_bytes());
    let private = contains_bytes(status, "PRIVATE_DATA".as_bytes());
    debug && private
}

fn dump_has_setting(normalized_dump: &[u8], setting: &str) -> (r: bool)
    ensures
        r == has_infix(normalized_dump@, strip_blanks(setting.spec_bytes())),
{
    let needle = without_blanks(setting.as_bytes());
    contains_bytes(normalized_dump, needle.as_slice())
}

/// Stage two of verification: judges the preference dump and a fresh
/// status output together.
pub fn verify_subsystem_config(dump: &[u8], status: &[u8]) -> (r: bool)
    ensures
        r == (settings_present(dump@) && status_active(status@)),
{
    let normalized = without_blanks(dump);
    let enabled = dump_has_setting(normalized.as_slice(), "\"Enable-Logging\" = 1");
    let categories = dump_has_setting(
        normalized.as_slice(),
        "\"Category-Default-Enabled\" = 1",
    );
    let level = dump_has_setting(normalized.as_slice(), "Level = Debug");
    let private = dump_has_setting(normalized.as_slice(), "Private = 1");
    let all_present = enabled && categories && level && private;
    all_present && verify_logging_config(status)
}

/// Stage three of verification: judges a sample of the subsystem's log.
pub fn verify_private_logs(sample: &[u8]) -> (r: bool)
    ensures
        r == private_logs_visible(sample@),
{
    let redacted = contains_bytes(sample, "<private>".as_bytes());
    !redacted && sample.len() > 0
}

} // verus!
