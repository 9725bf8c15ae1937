//! The daily Task Scheduler job: the scripts that register, remove and look for it.
use vstd::prelude::*;
use vstd::string::*;
use crate::powershell::{literal, quoted};
use crate::text::{ends_with_seq, starts_with_seq};

verus! {

/// The name of the scheduled task.
pub const TASK_NAME: &'static str = "Helium Browser Updater";

/// The time of day at which the task runs.
pub const DAILY_TIME: &'static str = "10:00AM";

/// The start of each task script, before the quoted task name.
pub const TASK_HEAD: &'static str = "\n$taskName = '";

/// What follows the task name in the registration script, before the quoted
/// executable path.
pub const REGISTER_EXE: &'static str = "'\n$exePath = '";

/// What follows the executable path in the registration script, before the time.
pub const REGISTER_TRIGGER: &'static str = "'\n$action = New-ScheduledTaskAction -Execute $exePath -Argument '--background'\n$trigger = New-ScheduledTaskTrigger -Daily -At '";

/// What follows the time in the registration script: the settings and the
/// principal of the task.
pub const REGISTER_TAIL: &'static str = r#"'
$settings = New-ScheduledTaskSettingsSet -MultipleInstances IgnoreNew -StartWhenAvailable -AllowStartIfOnBatteries -DontStopIfGoingOnBatteries
$principal = New-ScheduledTaskPrincipal -UserId ([System.Security.Principal.WindowsIdentity]::GetCurrent().Name) -LogonType Interactive -RunLevel Limited
"#;

/// The last line of the registration script: it registers the task, replacing
/// any task of that name.
pub const REGISTER_COMMAND: &'static str = "Register-ScheduledTask -TaskName $taskName -Action $action -Trigger $trigger -Settings $settings -Principal $principal -Description 'Checks Helium releases daily and installs updates automatically.' -Force | Out-Null\n";

/// The rest of the removal script.
pub const REMOVE_TAIL: &'static str = r#"'
$task = Get-ScheduledTask -TaskName $taskName -ErrorAction SilentlyContinue
if ($task) {
    Unregister-ScheduledTask -TaskName $taskName -Confirm:$false
}
"#;

/// The rest of the presence script, which prints `{"exists": ...}`.
pub const EXISTS_TAIL: &'static str = r#"'
$task = Get-ScheduledTask -TaskName $taskName -ErrorAction SilentlyContinue
[pscustomobject]@{ exists = [bool]$task } | ConvertTo-Json -Compress
"#;

/// The script that registers the daily task for the updater at `exe`.
pub open spec fn register_script(exe: Seq<char>) -> Seq<char> {
    TASK_HEAD@ + quoted(TASK_NAME@) + REGISTER_EXE@ + quoted(exe) + REGISTER_TRIGGER@ + DAILY_TIME@
        + REGISTER_TAIL@ + REGISTER_COMMAND@
}

/// The script that removes the daily task if it is there.
pub open spec fn remove_script() -> Seq<char> {
    TASK_HEAD@ + quoted(TASK_NAME@) + REMOVE_TAIL@
}

/// The script that tells whether the daily task is there.
pub open spec fn exists_script() -> Seq<char> {
    TASK_HEAD@ + quoted(TASK_NAME@) + EXISTS_TAIL@
}

/// The script that registers (or replaces) the daily task that runs the updater at
/// `executable` with `--background`.
pub fn ensure_daily_task(executable: &str) -> (r: String)
    ensures
        r@ == register_script(executable@),
{
    let mut s = String::from_str(TASK_HEAD);
    let name = literal(TASK_NAME);
    s.append(name.as_str());
    s.append(REGISTER_EXE);
    let exe = literal(executable);
    s.append(exe.as_str());
    s.append(REGISTER_TRIGGER);
    s.append(DAILY_TIME);
    s.append(REGISTER_TAIL);
    s.append(REGISTER_COMMAND);
    s
}

/// The script that removes the daily task if it is there.
pub fn remove_daily_task() -> (r: String)
    ensures
        r@ == remove_script(),
{
    let mut s = String::from_str(TASK_HEAD);
    let name = literal(TASK_NAME);
    s.append(name.as_str());
    s.append(REMOVE_TAIL);
    s
}

/// The script whose JSON answer tells whether the daily task is there.
pub fn daily_task_exists() -> (r: String)
    ensures
        r@ == exists_script(),
{
    let mut s = String::from_str(TASK_HEAD);
    let name = literal(TASK_NAME);
    s.append(name.as_str());
    s.append(EXISTS_TAIL);
    s
}

/// The text of the registration script after the executable path: the action
/// (the updater with `--background`), the daily trigger at 10:00, the settings,
/// the principal, and the registration itself.
pub open spec fn registration_rest() -> Seq<char> {
    r#"'
$action = New-ScheduledTaskAction -Execute $exePath -Argument '--background'
$trigger = New-ScheduledTaskTrigger -Daily -At '10:00AM'
$settings = New-ScheduledTaskSettingsSet -MultipleInstances IgnoreNew -StartWhenAvailable -AllowStartIfOnBatteries -DontStopIfGoingOnBatteries
$principal = New-ScheduledTaskPrincipal -UserId ([System.Security.Principal.WindowsIdentity]::GetCurrent().Name) -LogonType Interactive -RunLevel Limited
Register-ScheduledTask -TaskName $taskName -Action $action -Trigger $trigger -Settings $settings -Principal $principal -Description 'Checks Helium releases daily and installs updates automatically.' -Force | Out-Null
"#@
}

/// Whatever the executable, the registration script names the task and the
/// executable, then runs it daily with `--background` and registers the task
/// (replacing any task of that name).
pub proof fn lemma_registration_script_registers(exe: Seq<char>)
    ensures
        register_script(exe) == TASK_HEAD@ + quoted(TASK_NAME@) + REGISTER_EXE@ + quoted(exe)
            + registration_rest(),
        ends_with_seq(
            register_script(exe),
            "Register-ScheduledTask -TaskName $taskName -Action $action -Trigger $trigger -Settings $settings -Principal $principal -Description 'Checks Helium releases daily and installs updates automatically.' -Force | Out-Null\n"@,
        ),
{
    let head = TASK_HEAD@ + quoted(TASK_NAME@) + REGISTER_EXE@ + quoted(exe);
    let cmd = REGISTER_COMMAND@;
    reveal_strlit(r#"'
$action = New-ScheduledTaskAction -Execute $exePath -Argument '--background'
$trigger = New-ScheduledTaskTrigger -Daily -At '10:00AM'
$settings = New-ScheduledTaskSettingsSet -MultipleInstances IgnoreNew -StartWhenAvailable -AllowStartIfOnBatteries -DontStopIfGoingOnBatteries
$principal = New-ScheduledTaskPrincipal -UserId ([System.Security.Principal.WindowsIdentity]::GetCurrent().Name) -LogonType Interactive -RunLevel Limited
Register-ScheduledTask -TaskName $taskName -Action $action -Trigger $trigger -Settings $settings -Principal $principal -Description 'Checks Helium releases daily and installs updates automatically.' -Force | Out-Null
"#);
    reveal_strlit("'\n$action = New-ScheduledTaskAction -Execute $exePath -Argument '--background'\n$trigger = New-ScheduledTaskTrigger -Daily -At '");
    reveal_strlit("10:00AM");
    reveal_strlit(r#"'
$settings = New-ScheduledTaskSettingsSet -MultipleInstances IgnoreNew -StartWhenAvailable -AllowStartIfOnBatteries -DontStopIfGoingOnBatteries
$principal = New-ScheduledTaskPrincipal -UserId ([System.Security.Principal.WindowsIdentity]::GetCurrent().Name) -LogonType Interactive -RunLevel Limited
"#);
    reveal_strlit("Register-ScheduledTask -TaskName $taskName -Action $action -Trigger $trigger -Settings $settings -Principal $principal -Description 'Checks Helium releases daily and installs updates automatically.' -Force | Out-Null\n");
    assert(REGISTER_TRIGGER@ + DAILY_TIME@ + REGISTER_TAIL@ + cmd =~= registration_rest());
    let t = register_script(exe);
    assert(t =~= head + registration_rest());
    assert(t.subrange(t.len() - cmd.len(), t.len() as int) =~= cmd);
}

} // verus!
