//! Per-user autostart through a Task Scheduler logon task.
//!
//! The task has a `LogonTrigger` scoped to the current user and
//! `RunLevel=HighestAvailable` on its principal, so the token is elevated at
//! logon without a UAC prompt. It runs as the interactive user, not SYSTEM.

use vstd::prelude::*;
use vstd::string::StringExecFns;
use crate::wide::{lossy_until_nul, nul_position, utf16_decoded_lossy};
use crate::text::{first_occurrence, lemma_first_occurrence_after3};
use crate::task_xml::{
    closes_no_tag, element_raw, element_text, lemma_close_after_escaped,
    lemma_closes_no_tag_concat, lemma_element_layout, lemma_escaped_has_no_tag,
    lemma_opens_no_tag_concat, lemma_unescape_escape, opens_no_tag, command_of, lemma_command_of_layout, lemma_escaped_opens_no_c_tag, lemma_opens_no_c_tag_concat,
    lemma_task_xml_head, opens_no_c_tag, xml_escaped, COMMAND_CLOSE, COMMAND_OPEN,
    TASK_XML_HEAD,
};

pub use crate::task_xml::{extract_command, strip_verbatim, xml_escape};

verus! {

/// Name of the logon task.
pub const TASK_NAME: &'static str = "switchboard-logon";

/// Description written into the logon task.
pub const TASK_DESCRIPTION: &'static str =
    "switchboard autostart: launches switchboard at user logon with silent elevation";

/// From the description's end to the trigger's user id.
pub const LOGON_XML_TRIGGERS: &'static str = r#"</Description>
  </RegistrationInfo>
  <Triggers>
    <LogonTrigger>
      <Enabled>true</Enabled>
      <UserId>"#;

/// From the trigger's user id to the principal's user id.
pub const LOGON_XML_PRINCIPAL: &'static str = r#"</UserId>
    </LogonTrigger>
  </Triggers>
  <Principals>
    <Principal id="Author">
      <UserId>"#;

/// From the principal's user id to the action's command.
pub const LOGON_XML_SETTINGS: &'static str = r#"</UserId>
      <LogonType>InteractiveToken</LogonType>
      <RunLevel>HighestAvailable</RunLevel>
    </Principal>
  </Principals>
  <Settings>
    <MultipleInstancesPolicy>IgnoreNew</MultipleInstancesPolicy>
    <DisallowStartIfOnBatteries>false</DisallowStartIfOnBatteries>
    <StopIfGoingOnBatteries>false</StopIfGoingOnBatteries>
    <AllowHardTerminate>true</AllowHardTerminate>
    <StartWhenAvailable>true</StartWhenAvailable>
    <RunOnlyIfNetworkAvailable>false</RunOnlyIfNetworkAvailable>
    <IdleSettings>
      <StopOnIdleEnd>false</StopOnIdleEnd>
      <RestartOnIdle>false</RestartOnIdle>
    </IdleSettings>
    <AllowStartOnDemand>true</AllowStartOnDemand>
    <Enabled>true</Enabled>
    <Hidden>true</Hidden>
    <RunOnlyIfIdle>false</RunOnlyIfIdle>
    <WakeToRun>false</WakeToRun>
    <ExecutionTimeLimit>PT0S</ExecutionTimeLimit>
    <Priority>7</Priority>
  </Settings>
  <Actions Context="Author">
    <Exec>
      "#;

/// After the action's command.
pub const LOGON_XML_TAIL: &'static str = r#"
    </Exec>
  </Actions>
</Task>"#;

/// The logon task definition for `path`, run as `user`.
pub open spec fn logon_task_xml(path: Seq<char>, user: Seq<char>) -> Seq<char> {
    TASK_XML_HEAD@ + xml_escaped(TASK_DESCRIPTION@) + LOGON_XML_TRIGGERS@ + xml_escaped(user)
        + LOGON_XML_PRINCIPAL@ + xml_escaped(user) + LOGON_XML_SETTINGS@ + COMMAND_OPEN@
        + xml_escaped(path) + COMMAND_CLOSE@ + LOGON_XML_TAIL@
}

/// The logon task definition launching `switchboard_path` at `username`'s logon.
pub fn build_logon_task_xml(switchboard_path: &str, username: &str) -> (xml: String)
    ensures
        xml@ == logon_task_xml(switchboard_path@, username@),
{
    let desc = xml_escape(TASK_DESCRIPTION);
    let user = xml_escape(username);
    let path = xml_escape(switchboard_path);
    let mut xml = String::from_str(TASK_XML_HEAD);
    xml.append(desc.as_str());
    xml.append(LOGON_XML_TRIGGERS);
    xml.append(user.as_str());
    xml.append(LOGON_XML_PRINCIPAL);
    xml.append(user.as_str());
    xml.append(LOGON_XML_SETTINGS);
    xml.append(COMMAND_OPEN);
    xml.append(path.as_str());
    xml.append(COMMAND_CLOSE);
    xml.append(LOGON_XML_TAIL);
    xml
}

/// Reading the command back out of a logon task definition gives the path
/// it was built for.
pub proof fn lemma_logon_task_xml_roundtrip(path: Seq<char>, user: Seq<char>)
    ensures
        command_of(logon_task_xml(path, user)) == Some(path),
{
    reveal_strlit(r#"</Description>
  </RegistrationInfo>
  <Triggers>
    <LogonTrigger>
      <Enabled>true</Enabled>
      <UserId>"#);
    reveal_strlit(r#"</UserId>
    </LogonTrigger>
  </Triggers>
  <Principals>
    <Principal id="Author">
      <UserId>"#);
    reveal_strlit(r#"</UserId>
      <LogonType>InteractiveToken</LogonType>
      <RunLevel>HighestAvailable</RunLevel>
    </Principal>
  </Principals>
  <Settings>
    <MultipleInstancesPolicy>IgnoreNew</MultipleInstancesPolicy>
    <DisallowStartIfOnBatteries>false</DisallowStartIfOnBatteries>
    <StopIfGoingOnBatteries>false</StopIfGoingOnBatteries>
    <AllowHardTerminate>true</AllowHardTerminate>
    <StartWhenAvailable>true</StartWhenAvailable>
    <RunOnlyIfNetworkAvailable>false</RunOnlyIfNetworkAvailable>
    <IdleSettings>
      <StopOnIdleEnd>false</StopOnIdleEnd>
      <RestartOnIdle>false</RestartOnIdle>
    </IdleSettings>
    <AllowStartOnDemand>true</AllowStartOnDemand>
    <Enabled>true</Enabled>
    <Hidden>true</Hidden>
    <RunOnlyIfIdle>false</RunOnlyIfIdle>
    <WakeToRun>false</WakeToRun>
    <ExecutionTimeLimit>PT0S</ExecutionTimeLimit>
    <Priority>7</Priority>
  </Settings>
  <Actions Context="Author">
    <Exec>
      "#);
    lemma_task_xml_head();
    lemma_escaped_opens_no_c_tag(TASK_DESCRIPTION@);
    lemma_escaped_opens_no_c_tag(user);
    assert(opens_no_c_tag(LOGON_XML_TRIGGERS@));
    assert(opens_no_c_tag(LOGON_XML_PRINCIPAL@));
    assert(opens_no_c_tag(LOGON_XML_SETTINGS@));
    let a = TASK_XML_HEAD@ + xml_escaped(TASK_DESCRIPTION@);
    lemma_opens_no_c_tag_concat(TASK_XML_HEAD@, xml_escaped(TASK_DESCRIPTION@));
    let b = a + LOGON_XML_TRIGGERS@;
    lemma_opens_no_c_tag_concat(a, LOGON_XML_TRIGGERS@);
    let c = b + xml_escaped(user);
    lemma_opens_no_c_tag_concat(b, xml_escaped(user));
    let d = c + LOGON_XML_PRINCIPAL@;
    lemma_opens_no_c_tag_concat(c, LOGON_XML_PRINCIPAL@);
    let e = d + xml_escaped(user);
    lemma_opens_no_c_tag_concat(d, xml_escaped(user));
    let prefix = e + LOGON_XML_SETTINGS@;
    lemma_opens_no_c_tag_concat(e, LOGON_XML_SETTINGS@);
    lemma_command_of_layout(prefix, path, LOGON_XML_TAIL@);
}

// ---------------------------------------------------------------------------
// The task's user, and the legacy Run-key value
// ---------------------------------------------------------------------------

/// The user name `GetUserNameW` left in `buffer` (decoded leniently up to
/// its NUL) when it succeeded (`read_ok`), else its error.
pub fn username_from(read_ok: bool, buffer: &[u16]) -> (r: Result<String, String>)
    ensures
        r is Ok <==> read_ok,
        r matches Ok(s) ==> s@ == utf16_decoded_lossy(buffer@.take(nul_position(buffer@))),
        r matches Err(e) ==> e@ == "GetUserNameW failed"@,
{
    if read_ok {
        Ok(lossy_until_nul(buffer))
    } else {
        Err(String::from_str("GetUserNameW failed"))
    }
}

/// Key under `HKEY_CURRENT_USER` of the Run value older versions wrote.
pub const RUN_SUBKEY: &'static str = "Software\\Microsoft\\Windows\\CurrentVersion\\Run";

/// Name of that Run value.
pub const RUN_VALUE_NAME: &'static str = "switchboard";

/// Whether deleting the legacy Run value failed in a way worth a warning:
/// success and a missing value are both fine. The cleanup never fails the
/// operation it accompanies.
pub fn legacy_run_value_delete_failed(status: u32) -> (r: bool)
    ensures
        r == !(status == 0 || status == 2),
{
    !(status == 0 || status == 2)
}

// ---------------------------------------------------------------------------
// The trigger's user
// ---------------------------------------------------------------------------

/// The logon trigger is scoped to the user the task was built for: the
/// first `<UserId>` of the definition reads back as `user`, and so does the
/// `<UserId>` inside the first `<LogonTrigger>` element.
pub proof fn lemma_logon_trigger_user(path: Seq<char>, user: Seq<char>)
    ensures
        element_text(logon_task_xml(path, user), "<UserId>"@, "</UserId>"@) == Some(user),
        match element_raw(logon_task_xml(path, user), "<LogonTrigger>"@, "</LogonTrigger>"@) {
            Some(trigger) => element_text(trigger, "<UserId>"@, "</UserId>"@) == Some(user),
            None => false,
        },
{
    reveal_strlit(r#"</Description>
  </RegistrationInfo>
  <Triggers>
    <LogonTrigger>
      <Enabled>true</Enabled>
      <UserId>"#);
    reveal_strlit(r#"</UserId>
    </LogonTrigger>
  </Triggers>
  <Principals>
    <Principal id="Author">
      <UserId>"#);
    reveal_strlit(r#"<?xml version="1.0" encoding="UTF-16"?>
<Task version="1.2" xmlns="http://schemas.microsoft.com/windows/2004/02/mit/task">
  <RegistrationInfo>
    <Description>"#);
    reveal_strlit("</Description>\n  </RegistrationInfo>\n  <Triggers>\n    ");
    reveal_strlit("\n      <Enabled>true</Enabled>\n      ");
    reveal_strlit("\n  </Triggers>\n  <Principals>\n    <Principal id=\"Author\">\n      <UserId>");
    reveal_strlit("\n    ");
    reveal_strlit("<LogonTrigger>");
    reveal_strlit("</LogonTrigger>");
    reveal_strlit("<UserId>");
    reveal_strlit("</UserId>");
    let ta = "</Description>\n  </RegistrationInfo>\n  <Triggers>\n    "@;
    let tb = "\n      <Enabled>true</Enabled>\n      "@;
    let pb = "\n  </Triggers>\n  <Principals>\n    <Principal id=\"Author\">\n      <UserId>"@;
    let nl = "\n    "@;
    let lt = "<LogonTrigger>"@;
    let ltc = "</LogonTrigger>"@;
    let uo = "<UserId>"@;
    let uc = "</UserId>"@;
    assert(LOGON_XML_TRIGGERS@ =~= ta + lt + tb + uo);
    assert(LOGON_XML_PRINCIPAL@ =~= uc + nl + ltc + pb);
    let head = TASK_XML_HEAD@ + xml_escaped(TASK_DESCRIPTION@);
    let eu = xml_escaped(user);
    let tail = pb + eu + LOGON_XML_SETTINGS@ + COMMAND_OPEN@ + xml_escaped(path) + COMMAND_CLOSE@
        + LOGON_XML_TAIL@;
    let xml = logon_task_xml(path, user);
    // The first user id, read from the whole definition.
    let pre_u = head + ta + lt + tb;
    assert(xml =~= pre_u + uo + eu + uc + (nl + ltc + tail));
    assert(opens_no_tag(TASK_XML_HEAD@, 'U'));
    lemma_escaped_has_no_tag(TASK_DESCRIPTION@, 'U');
    lemma_opens_no_tag_concat(TASK_XML_HEAD@, xml_escaped(TASK_DESCRIPTION@), 'U');
    assert(opens_no_tag(ta + lt + tb, 'U'));
    lemma_opens_no_tag_concat(head, ta + lt + tb, 'U');
    assert(head + (ta + lt + tb) =~= pre_u);
    lemma_close_after_escaped(user, uc, nl + ltc + tail);
    lemma_element_layout(pre_u, uo, eu, uc, nl + ltc + tail);
    lemma_unescape_escape(user);
    // The trigger element, and the user id inside it.
    let pre_t = head + ta;
    let body = tb + uo + eu + uc + nl;
    assert(xml =~= pre_t + lt + body + ltc + tail);
    lemma_escaped_has_no_tag(TASK_DESCRIPTION@, 'L');
    lemma_opens_no_tag_concat(TASK_XML_HEAD@, xml_escaped(TASK_DESCRIPTION@), 'L');
    assert(opens_no_tag(TASK_XML_HEAD@, 'L'));
    assert(opens_no_tag(ta, 'L'));
    lemma_opens_no_tag_concat(head, ta, 'L');
    assert(closes_no_tag(tb + uo, 'L'));
    lemma_escaped_has_no_tag(user, 'L');
    lemma_closes_no_tag_concat(tb + uo, eu, 'L');
    assert(closes_no_tag(uc + nl, 'L'));
    lemma_closes_no_tag_concat(tb + uo + eu, uc + nl, 'L');
    assert(ltc.subrange(0, ltc.len() as int) =~= ltc);
    assert(ltc + tail =~= ltc + tail);
    assert((ltc + tail).subrange(0, ltc.len() as int) =~= ltc);
    assert(ltc.is_prefix_of(ltc + tail));
    assert(first_occurrence(ltc + tail, ltc) == Some(0int));
    lemma_first_occurrence_after3(body, ltc + tail, ltc);
    assert(body + ltc + tail =~= body + (ltc + tail));
    lemma_element_layout(pre_t, lt, body, ltc, tail);
    assert(opens_no_tag(tb, 'U'));
    lemma_close_after_escaped(user, uc, nl);
    lemma_element_layout(tb, uo, eu, uc, nl);
    assert(tb + uo + eu + uc + nl =~= body);
}

} // verus!
