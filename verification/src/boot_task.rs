//! Boot-recovery scheduled task.
//!
//! A per-machine task that runs `switchboard.exe --recover` at every system
//! startup as NT AUTHORITY\SYSTEM, so the internal keyboard is enabled before
//! anyone logs on.

use vstd::prelude::*;
use vstd::string::StringExecFns;
use crate::task_xml::{
    command_of, lemma_command_of_layout, lemma_escaped_opens_no_c_tag, lemma_opens_no_c_tag_concat,
    lemma_task_xml_head, opens_no_c_tag, xml_escaped, COMMAND_CLOSE, COMMAND_OPEN,
    TASK_XML_HEAD,
};

pub use crate::task_xml::{extract_command, strip_verbatim, xml_escape};

verus! {

/// Name of the boot-recovery task.
pub const TASK_NAME: &'static str = "switchboard-boot-recover";

/// Description written into the boot-recovery task.
pub const TASK_DESCRIPTION: &'static str = "switchboard boot recovery: ensures internal keyboard is enabled at startup (runs before user logon)";

/// From the description's end to the action's command.
pub const BOOT_XML_BODY: &'static str = r#"</Description>
  </RegistrationInfo>
  <Triggers>
    <BootTrigger>
      <Enabled>true</Enabled>
    </BootTrigger>
  </Triggers>
  <Principals>
    <Principal id="Author">
      <UserId>S-1-5-18</UserId>
      <RunLevel>HighestAvailable</RunLevel>
    </Principal>
  </Principals>
  <Settings>
    <MultipleInstancesPolicy>IgnoreNew</MultipleInstancesPolicy>
    <DisallowStartIfOnBatteries>false</DisallowStartIfOnBatteries>
    <StopIfGoingOnBatteries>false</StopIfGoingOnBatteries>
    <AllowHardTerminate>true</AllowHardTerminate>
    <StartWhenAvailable>true</StartWhenAvailable>
    <RunOnlyIfNetworkAvailable>false</RunOnlyIfNetworkAvailable>
    <IdleSettings>
      <StopOnIdleEnd>false</StopOnIdleEnd>
      <RestartOnIdle>false</RestartOnIdle>
    </IdleSettings>
    <AllowStartOnDemand>true</AllowStartOnDemand>
    <Enabled>true</Enabled>
    <Hidden>false</Hidden>
    <RunOnlyIfIdle>false</RunOnlyIfIdle>
    <WakeToRun>false</WakeToRun>
    <ExecutionTimeLimit>PT2M</ExecutionTimeLimit>
    <Priority>7</Priority>
  </Settings>
  <Actions Context="Author">
    <Exec>
      "#;

/// After the action's command: the `--recover` argument and the closing tags.
pub const BOOT_XML_TAIL: &'static str = r#"
      <Arguments>--recover</Arguments>
    </Exec>
  </Actions>
</Task>"#;

/// The boot-recovery task definition for `path`.
pub open spec fn boot_task_xml(path: Seq<char>) -> Seq<char> {
    TASK_XML_HEAD@ + xml_escaped(TASK_DESCRIPTION@) + BOOT_XML_BODY@ + COMMAND_OPEN@
        + xml_escaped(path) + COMMAND_CLOSE@ + BOOT_XML_TAIL@
}

/// The boot-recovery task definition running `switchboard_path --recover`.
pub fn build_task_xml(switchboard_path: &str) -> (xml: String)
    ensures
        xml@ == boot_task_xml(switchboard_path@),
{
    let desc = xml_escape(TASK_DESCRIPTION);
    let path = xml_escape(switchboard_path);
    let mut xml = String::from_str(TASK_XML_HEAD);
    xml.append(desc.as_str());
    xml.append(BOOT_XML_BODY);
    xml.append(COMMAND_OPEN);
    xml.append(path.as_str());
    xml.append(COMMAND_CLOSE);
    xml.append(BOOT_XML_TAIL);
    xml
}

/// Reading the command back out of a boot-recovery task definition gives
/// the path it was built for.
pub proof fn lemma_boot_task_xml_roundtrip(path: Seq<char>)
    ensures
        command_of(boot_task_xml(path)) == Some(path),
{
    reveal_strlit(r#"</Description>
  </RegistrationInfo>
  <Triggers>
    <BootTrigger>
      <Enabled>true</Enabled>
    </BootTrigger>
  </Triggers>
  <Principals>
    <Principal id="Author">
      <UserId>S-1-5-18</UserId>
      <RunLevel>HighestAvailable</RunLevel>
    </Principal>
  </Principals>
  <Settings>
    <MultipleInstancesPolicy>IgnoreNew</MultipleInstancesPolicy>
    <DisallowStartIfOnBatteries>false</DisallowStartIfOnBatteries>
    <StopIfGoingOnBatteries>false</StopIfGoingOnBatteries>
    <AllowHardTerminate>true</AllowHardTerminate>
    <StartWhenAvailable>true</StartWhenAvailable>
    <RunOnlyIfNetworkAvailable>false</RunOnlyIfNetworkAvailable>
    <IdleSettings>
      <StopOnIdleEnd>false</StopOnIdleEnd>
      <RestartOnIdle>false</RestartOnIdle>
    </IdleSettings>
    <AllowStartOnDemand>true</AllowStartOnDemand>
    <Enabled>true</Enabled>
    <Hidden>false</Hidden>
    <RunOnlyIfIdle>false</RunOnlyIfIdle>
    <WakeToRun>false</WakeToRun>
    <ExecutionTimeLimit>PT2M</ExecutionTimeLimit>
    <Priority>7</Priority>
  </Settings>
  <Actions Context="Author">
    <Exec>
      "#);
    lemma_task_xml_head();
    lemma_escaped_opens_no_c_tag(TASK_DESCRIPTION@);
    assert(opens_no_c_tag(BOOT_XML_BODY@));
    let a = TASK_XML_HEAD@ + xml_escaped(TASK_DESCRIPTION@);
    lemma_opens_no_c_tag_concat(TASK_XML_HEAD@, xml_escaped(TASK_DESCRIPTION@));
    let prefix = a + BOOT_XML_BODY@;
    lemma_opens_no_c_tag_concat(a, BOOT_XML_BODY@);
    lemma_command_of_layout(prefix, path, BOOT_XML_TAIL@);
}

} // verus!
